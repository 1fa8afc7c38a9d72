//! Songs of a playlist, and the identifiers that the player knows them by.
use vstd::prelude::*;
use vstd::string::*;
use vstd::utf8::*;

verus! {

/// Where a song comes from.
#[derive(PartialEq, Debug, Clone)]
#[non_exhaustive]
pub enum SongData {
    /// A file on this machine.
    Local { file_path: String, orig_order: usize },
    /// Song data of the host's own making, which a metadata handler registered by the host
    /// makes sense of.
    Custom { id: String, song_json_data: String, orig_order: usize },
}

/// Something that can be played and has an identifier.
pub trait SongSource {
    /// The identifier.
    spec fn song_id(&self) -> Seq<char>;

    /// Returns the identifier.
    fn get_id(&self) -> (id: String)
        ensures
            id@ == self.song_id(),
    ;

    /// Returns the encoded audio. A source that does not say otherwise has none to offer.
    fn fetch_source(&self) -> (source: Result<Vec<u8>, String>)
        default_ensures
            source matches Err(message) && message@ == "未实现"@,
    {
        Err("未实现".to_owned())
    }
}

/// The MD5 digest of `data`: what `md5::compute` returns, as a sequence of bytes.
pub uninterp spec fn md5_digest(data: Seq<u8>) -> Seq<u8>;

/// `md5::compute`, on bytes. Its result is a digest of sixteen bytes that depends on the bytes of
/// `data` alone; `md5_digest` names it.
#[verifier::external_body]
fn md5_compute(data: &[u8]) -> (digest: [u8; 16])
    ensures
        digest@ == md5_digest(data@),
{
    md5::compute(data).0
}

/// The lower-case hexadecimal digit for `n`.
pub open spec fn hex_digit(n: int) -> char
    recommends
        0 <= n < 16,
{
    "0123456789abcdef"@[n]
}

/// The bytes in lower-case hexadecimal, two digits for each, the high half first.
pub open spec fn lower_hex(bytes: Seq<u8>) -> Seq<char> {
    Seq::new(
        2 * bytes.len(),
        |i: int|
            hex_digit(
                if i % 2 == 0 {
                    bytes[i / 2] as int / 16
                } else {
                    bytes[i / 2] as int % 16
                },
            ),
    )
}

/// The identifier of a local file whose path has the digest `digest`.
pub open spec fn local_id(digest: Seq<u8>) -> Seq<char> {
    "local:"@ + lower_hex(digest)
}

/// The identifier of a custom song that its host calls `id`.
pub open spec fn custom_id(id: Seq<char>) -> Seq<char> {
    "custom:"@ + id
}

/// Writes the bytes in lower-case hexadecimal.
fn to_lower_hex(bytes: &[u8]) -> (hex: String)
    ensures
        hex@ == lower_hex(bytes@),
{
    let digits = "0123456789abcdef";
    proof {
        reveal_strlit("0123456789abcdef");
    }
    let mut hex = String::new();
    let mut i: usize = 0;
    while i < bytes.len()
        invariant
            i <= bytes@.len(),
            hex@ == lower_hex(bytes@.take(i as int)),
            digits@ == "0123456789abcdef"@,
            digits@.len() == 16,
            digits.is_ascii(),
        decreases bytes@.len() - i,
    {
        let high: usize = (bytes[i] / 16) as usize;
        let low: usize = (bytes[i] % 16) as usize;
        hex.append(digits.substring_ascii(high, high + 1));
        hex.append(digits.substring_ascii(low, low + 1));
        i = i + 1;
    }
    assert(bytes@.take(bytes@.len() as int) == bytes@);
    hex
}

/// Returns the identifier of a local file, given the digest of its path.
pub fn local_song_id(digest: &[u8]) -> (id: String)
    ensures
        id@ == local_id(digest@),
        id@.len() == 6 + 2 * digest@.len(),
        id@.take(6) == "local:"@,
        id@.skip(6) == lower_hex(digest@),
{
    let mut id = "local:".to_owned();
    let hex = to_lower_hex(digest);
    id.append(hex.as_str());
    proof {
        reveal_strlit("local:");
    }
    id
}

impl SongSource for () {
    open spec fn song_id(&self) -> Seq<char> {
        ""@
    }

    fn get_id(&self) -> (id: String)
        ensures
            id@.len() == 0,
    {
        proof {
            reveal_strlit("");
        }
        "".to_owned()
    }

    fn fetch_source(&self) -> (source: Result<Vec<u8>, String>)
        ensures
            source matches Err(message) && message@ == "未实现"@,
    {
        Err("未实现".to_owned())
    }
}

impl SongSource for SongData {
    open spec fn song_id(&self) -> Seq<char> {
        match self {
            SongData::Local { file_path, .. } => local_id(md5_digest(encode_utf8(file_path@))),
            SongData::Custom { id, .. } => custom_id(id@),
        }
    }

    fn get_id(&self) -> (id: String)
        ensures
            self is Local ==> id@.len() == 38,
            self matches SongData::Local { file_path, .. } ==> {
                &&& id@.take(6) == "local:"@
                &&& id@.skip(6) == lower_hex(md5_digest(encode_utf8(file_path@)))
            },
            self matches SongData::Custom { id: host_id, .. } ==> {
                &&& id@.len() == 7 + host_id@.len()
                &&& id@.take(7) == "custom:"@
                &&& id@.skip(7) == host_id@
            },
    {
        proof {
            reveal_strlit("custom:");
        }
        match self {
            SongData::Local { file_path, .. } => {
                let digest = md5_compute(file_path.as_str().as_bytes());
                proof {
                    reveal_strlit("local:");
                }
                local_song_id(&digest)
            },
            SongData::Custom { id, .. } => {
                let mut song_id = "custom:".to_owned();
                song_id.append(id.as_str());
                song_id
            },
        }
    }

    fn fetch_source(&self) -> (source: Result<Vec<u8>, String>)
        ensures
            source matches Err(message) && message@ == "未实现"@,
    {
        Err("未实现".to_owned())
    }
}

/// Different bytes are written differently in hexadecimal.
pub proof fn lemma_lower_hex_injective(a: Seq<u8>, b: Seq<u8>)
    ensures
        lower_hex(a) == lower_hex(b) <==> a == b,
{
    reveal_strlit("0123456789abcdef");
    if lower_hex(a) == lower_hex(b) {
        assert(lower_hex(a).len() == lower_hex(b).len());
        assert forall|k: int| 0 <= k < a.len() implies a[k] == b[k] by {
            assert(lower_hex(a)[2 * k] == lower_hex(b)[2 * k]);
            assert(lower_hex(a)[2 * k + 1] == lower_hex(b)[2 * k + 1]);
            assert((2 * k) / 2 == k && (2 * k + 1) / 2 == k);
        }
        assert(a =~= b);
    }
}

/// Whether two songs share an identifier: a local file and a custom song never do, two local
/// files do exactly if their paths have the same digest, and two custom songs exactly if their
/// hosts call them the same. Nothing else about a song counts.
pub proof fn lemma_song_ids(a: SongData, b: SongData)
    ensures
        a.song_id() == b.song_id() <==> match (a, b) {
            (
                SongData::Local { file_path: p, .. },
                SongData::Local { file_path: q, .. },
            ) => md5_digest(encode_utf8(p@)) == md5_digest(encode_utf8(q@)),
            (SongData::Custom { id: i, .. }, SongData::Custom { id: j, .. }) => i@ == j@,
            _ => false,
        },
{
    reveal_strlit("local:");
    reveal_strlit("custom:");
    match (a, b) {
        (SongData::Local { file_path: p, .. }, SongData::Local { file_path: q, .. }) => {
            let da = md5_digest(encode_utf8(p@));
            let db = md5_digest(encode_utf8(q@));
            lemma_lower_hex_injective(da, db);
            assert(local_id(da).skip(6) == lower_hex(da));
            assert(local_id(db).skip(6) == lower_hex(db));
        },
        (SongData::Custom { id: i, .. }, SongData::Custom { id: j, .. }) => {
            assert(custom_id(i@).skip(7) == i@);
            assert(custom_id(j@).skip(7) == j@);
        },
        _ => {
            assert(a.song_id()[0] != b.song_id()[0]);
        },
    }
}

/// The empty identifier belongs to the empty source, and to no song.
pub proof fn lemma_song_id_not_empty(song: SongData)
    ensures
        ().song_id() == Seq::<char>::empty(),
        song.song_id().len() > 0,
{
    reveal_strlit("");
    reveal_strlit("local:");
    reveal_strlit("custom:");
}

/// The digits of a byte, read back as a hexadecimal number, give that byte, whatever the other
/// bytes are: the digit of the sixteens stands first, and letters are in lower case.
pub proof fn lemma_lower_hex_reads_back(bytes: Seq<u8>, k: int)
    requires
        0 <= k < bytes.len(),
    ensures
        lower_hex(bytes).len() == 2 * bytes.len(),
        ({
            let high = lower_hex(bytes)[2 * k];
            let low = lower_hex(bytes)[2 * k + 1];
            let sixteens = if '0' <= high <= '9' {
                high as int - '0' as int
            } else {
                high as int - 'a' as int + 10
            };
            let ones = if '0' <= low <= '9' {
                low as int - '0' as int
            } else {
                low as int - 'a' as int + 10
            };
            &&& '0' <= high <= '9' || 'a' <= high <= 'f'
            &&& '0' <= low <= '9' || 'a' <= low <= 'f'
            &&& 16 * sixteens + ones == bytes[k]
        }),
{
    reveal_strlit("0123456789abcdef");
    let byte = bytes[k] as int;
    assert((2 * k) / 2 == k && (2 * k + 1) / 2 == k);
    assert((2 * k) % 2 == 0 && (2 * k + 1) % 2 == 1);
    assert(lower_hex(bytes)[2 * k] == "0123456789abcdef"@[byte / 16]);
    assert(lower_hex(bytes)[2 * k + 1] == "0123456789abcdef"@[byte % 16]);
}

/// The hexadecimal form of bytes that are put one after the other is that of the first, followed
/// by that of the second: what is written for a byte depends on that byte alone.
pub proof fn lemma_lower_hex_of_concatenation(a: Seq<u8>, b: Seq<u8>)
    ensures
        lower_hex(a + b) == lower_hex(a) + lower_hex(b),
{
    let joined = lower_hex(a) + lower_hex(b);
    assert forall|i: int| 0 <= i < joined.len() implies lower_hex(a + b)[i] == #[trigger] joined[i] by {
        if i >= 2 * a.len() {
            let j = i - 2 * a.len();
            assert(j / 2 == i / 2 - a.len() && j % 2 == i % 2);
        }
    }
    assert(lower_hex(a + b) =~= joined);
}

/// The identifier of a custom song is the seven characters `custom:` and behind them exactly what
/// its host calls it.
pub proof fn lemma_custom_song_id(song: SongData)
    requires
        song is Custom,
    ensures
        song.song_id().len() == 7 + song->id@.len(),
        song.song_id().take(7) == seq!['c', 'u', 's', 't', 'o', 'm', ':'],
        song.song_id().skip(7) == song->id@,
{
    reveal_strlit("custom:");
    assert(song.song_id().take(7) =~= seq!['c', 'u', 's', 't', 'o', 'm', ':']);
    assert(song.song_id().skip(7) =~= song->id@);
}

/// The identifier of a local file is the six characters `local:` and behind them two hexadecimal
/// digits for each byte of the MD5 digest of its path, as UTF-8: read back, they give that digest.
pub proof fn lemma_local_song_id(song: SongData, k: int)
    requires
        song is Local,
    ensures
        ({
            let digest = md5_digest(encode_utf8(song->file_path@));
            let id = song.song_id();
            &&& id.len() == 6 + 2 * digest.len()
            &&& id.take(6) == seq!['l', 'o', 'c', 'a', 'l', ':']
            &&& 0 <= k < digest.len() ==> {
                let high = id[6 + 2 * k];
                let low = id[7 + 2 * k];
                let sixteens = if '0' <= high <= '9' {
                    high as int - '0' as int
                } else {
                    high as int - 'a' as int + 10
                };
                let ones = if '0' <= low <= '9' {
                    low as int - '0' as int
                } else {
                    low as int - 'a' as int + 10
                };
                &&& '0' <= high <= '9' || 'a' <= high <= 'f'
                &&& '0' <= low <= '9' || 'a' <= low <= 'f'
                &&& 16 * sixteens + ones == digest[k]
            }
        }),
{
    reveal_strlit("local:");
    let digest = md5_digest(encode_utf8(song->file_path@));
    let id = song.song_id();
    assert(id.take(6) =~= seq!['l', 'o', 'c', 'a', 'l', ':']);
    if 0 <= k < digest.len() {
        lemma_lower_hex_reads_back(digest, k);
        assert(id[6 + 2 * k] == lower_hex(digest)[2 * k]);
        assert(id[7 + 2 * k] == lower_hex(digest)[2 * k + 1]);
    }
}

} // verus!
