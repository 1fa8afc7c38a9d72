//! Sample formats of output devices and of decoded audio.
use vstd::prelude::*;

verus! {

/// The format of the samples that an output device takes.
#[derive(Clone, Copy, Debug, PartialEq, Eq, Structural)]
pub enum SampleFormat {
    I8,
    I16,
    I32,
    I64,
    U8,
    U16,
    U32,
    U64,
    F32,
    F64,
}

/// The sample type of a stream that this player can open.
#[derive(Clone, Copy, Debug, PartialEq, Eq, Structural)]
pub enum StreamSample {
    I8,
    I16,
    I32,
    U8,
    U16,
    U32,
    F32,
    F64,
}

/// The format of the samples of a decoded block.
#[derive(Clone, Copy, Debug, PartialEq, Eq, Structural)]
pub enum BufferFormat {
    U8,
    U16,
    U24,
    U32,
    S8,
    S16,
    S24,
    S32,
    F32,
    F64,
}

/// How good a sample format is: the wider the better, and floating point above integers. Whether
/// an integer has a sign makes no difference.
pub open spec fn quality_level(format: SampleFormat) -> u8 {
    match format {
        SampleFormat::I8 | SampleFormat::U8 => 0,
        SampleFormat::I16 | SampleFormat::U16 => 1,
        SampleFormat::I32 | SampleFormat::U32 => 2,
        SampleFormat::I64 | SampleFormat::U64 => 3,
        SampleFormat::F32 => 4,
        SampleFormat::F64 => 5,
    }
}

/// Returns how good a sample format is.
pub fn get_sample_format_quality_level(sample_format: SampleFormat) -> (level: u8)
    ensures
        level == quality_level(sample_format),
        level == 0 <==> sample_format is I8 || sample_format is U8,
        level == 1 <==> sample_format is I16 || sample_format is U16,
        level == 2 <==> sample_format is I32 || sample_format is U32,
        level == 3 <==> sample_format is I64 || sample_format is U64,
        level == 4 <==> sample_format is F32,
        level == 5 <==> sample_format is F64,
{
    match sample_format {
        SampleFormat::I8 | SampleFormat::U8 => 0,
        SampleFormat::I16 | SampleFormat::U16 => 1,
        SampleFormat::I32 | SampleFormat::U32 => 2,
        SampleFormat::I64 | SampleFormat::U64 => 3,
        SampleFormat::F32 => 4,
        SampleFormat::F64 => 5,
    }
}

impl StreamSample {
    /// The format of the samples of such a stream.
    pub open spec fn format(self) -> SampleFormat {
        match self {
            StreamSample::I8 => SampleFormat::I8,
            StreamSample::I16 => SampleFormat::I16,
            StreamSample::I32 => SampleFormat::I32,
            StreamSample::U8 => SampleFormat::U8,
            StreamSample::U16 => SampleFormat::U16,
            StreamSample::U32 => SampleFormat::U32,
            StreamSample::F32 => SampleFormat::F32,
            StreamSample::F64 => SampleFormat::F64,
        }
    }
}

/// Returns the sample type of the stream to open for a format. There is none for integers of
/// sixty-four bits.
pub fn stream_sample(format: SampleFormat) -> (sample: Option<StreamSample>)
    ensures
        sample is None <==> format is I64 || format is U64,
        sample matches Some(s) ==> s.format() == format,
        sample == Some(StreamSample::I8) <==> format is I8,
        sample == Some(StreamSample::I16) <==> format is I16,
        sample == Some(StreamSample::I32) <==> format is I32,
        sample == Some(StreamSample::U8) <==> format is U8,
        sample == Some(StreamSample::U16) <==> format is U16,
        sample == Some(StreamSample::U32) <==> format is U32,
        sample == Some(StreamSample::F32) <==> format is F32,
        sample == Some(StreamSample::F64) <==> format is F64,
{
    match format {
        SampleFormat::I8 => Some(StreamSample::I8),
        SampleFormat::I16 => Some(StreamSample::I16),
        SampleFormat::I32 => Some(StreamSample::I32),
        SampleFormat::U8 => Some(StreamSample::U8),
        SampleFormat::U16 => Some(StreamSample::U16),
        SampleFormat::U32 => Some(StreamSample::U32),
        SampleFormat::F32 => Some(StreamSample::F32),
        SampleFormat::F64 => Some(StreamSample::F64),
        SampleFormat::I64 | SampleFormat::U64 => None,
    }
}

/// The name of the sample type of a decoded block.
pub open spec fn buffer_format_name(format: BufferFormat) -> Seq<char> {
    match format {
        BufferFormat::U8 => "u8"@,
        BufferFormat::U16 => "u16"@,
        BufferFormat::U24 => "u24"@,
        BufferFormat::U32 => "u32"@,
        BufferFormat::S8 => "i8"@,
        BufferFormat::S16 => "i16"@,
        BufferFormat::S24 => "i24"@,
        BufferFormat::S32 => "i32"@,
        BufferFormat::F32 => "f32"@,
        BufferFormat::F64 => "f64"@,
    }
}

/// Returns the name of the sample type of a decoded block.
pub fn get_buffer_format(decoded: BufferFormat) -> (name: &'static str)
    ensures
        name@ == buffer_format_name(decoded),
{
    match decoded {
        BufferFormat::U8 => "u8",
        BufferFormat::U16 => "u16",
        BufferFormat::U24 => "u24",
        BufferFormat::U32 => "u32",
        BufferFormat::S8 => "i8",
        BufferFormat::S16 => "i16",
        BufferFormat::S24 => "i24",
        BufferFormat::S32 => "i32",
        BufferFormat::F32 => "f32",
        BufferFormat::F64 => "f64",
    }
}

/// No two formats of decoded audio have the same name.
pub proof fn lemma_buffer_format_names_differ(a: BufferFormat, b: BufferFormat)
    ensures
        buffer_format_name(a) == buffer_format_name(b) <==> a == b,
{
    reveal_strlit("u8");
    reveal_strlit("u16");
    reveal_strlit("u24");
    reveal_strlit("u32");
    reveal_strlit("i8");
    reveal_strlit("i16");
    reveal_strlit("i24");
    reveal_strlit("i32");
    reveal_strlit("f32");
    reveal_strlit("f64");
    let (x, y) = (buffer_format_name(a), buffer_format_name(b));
    if x == y {
        assert(x.len() == y.len());
        assert(x[0] == y[0] && x[1] == y[1]);
    }
}

/// Integers of eight bits are worth least, then those of sixteen, thirty-two and sixty-four, then
/// floating point of thirty-two bits and of sixty-four; a sign is worth nothing.
pub proof fn lemma_quality_levels(format: SampleFormat)
    ensures
        quality_level(format) == 0 <==> format is I8 || format is U8,
        quality_level(format) == 1 <==> format is I16 || format is U16,
        quality_level(format) == 2 <==> format is I32 || format is U32,
        quality_level(format) == 3 <==> format is I64 || format is U64,
        quality_level(format) == 4 <==> format is F32,
        quality_level(format) == 5 <==> format is F64,
        quality_level(format) <= 5,
{
}

/// The name of a format is a letter, `u` for integers without a sign, `i` for those with one and
/// `f` for floating point, and behind it the number of bits.
pub proof fn lemma_buffer_format_names(format: BufferFormat)
    ensures
        ({
            let name = buffer_format_name(format);
            &&& name[0] == 'u' <==> format is U8 || format is U16 || format is U24 || format is U32
            &&& name[0] == 'i' <==> format is S8 || format is S16 || format is S24 || format is S32
            &&& name[0] == 'f' <==> format is F32 || format is F64
            &&& name.skip(1) == seq!['8'] <==> format is U8 || format is S8
            &&& name.skip(1) == seq!['1', '6'] <==> format is U16 || format is S16
            &&& name.skip(1) == seq!['2', '4'] <==> format is U24 || format is S24
            &&& name.skip(1) == seq!['3', '2'] <==> format is U32 || format is S32 || format is F32
            &&& name.skip(1) == seq!['6', '4'] <==> format is F64
        }),
{
    reveal_strlit("u8");
    reveal_strlit("u16");
    reveal_strlit("u24");
    reveal_strlit("u32");
    reveal_strlit("i8");
    reveal_strlit("i16");
    reveal_strlit("i24");
    reveal_strlit("i32");
    reveal_strlit("f32");
    reveal_strlit("f64");
    let bits = buffer_format_name(format).skip(1);
    match format {
        BufferFormat::U8 | BufferFormat::S8 => {
            assert(bits =~= seq!['8']);
            assert(bits.len() == 1);
        },
        BufferFormat::U16 | BufferFormat::S16 => {
            assert(bits =~= seq!['1', '6']);
            assert(bits[0] == '1');
        },
        BufferFormat::U24 | BufferFormat::S24 => {
            assert(bits =~= seq!['2', '4']);
            assert(bits[0] == '2');
        },
        BufferFormat::U32 | BufferFormat::S32 | BufferFormat::F32 => {
            assert(bits =~= seq!['3', '2']);
            assert(bits[0] == '3');
        },
        BufferFormat::F64 => {
            assert(bits =~= seq!['6', '4']);
            assert(bits[0] == '6');
        },
    }
    assert(bits.len() == 2 ==> bits != seq!['8']);
    assert(seq!['8'].len() == 1 && seq!['1', '6'].len() == 2 && seq!['2', '4'].len() == 2
        && seq!['3', '2'].len() == 2 && seq!['6', '4'].len() == 2);
    assert(seq!['1', '6'][0] == '1' && seq!['2', '4'][0] == '2' && seq!['3', '2'][0] == '3'
        && seq!['6', '4'][0] == '6');
}

} // verus!
