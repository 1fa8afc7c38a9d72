use player_core::song::{local_song_id, SongSource};
use player_core::SongData;

fn local(path: &str, orig_order: usize) -> SongData {
    SongData::Local { file_path: path.to_string(), orig_order }
}

fn custom(id: &str, json: &str, orig_order: usize) -> SongData {
    SongData::Custom { id: id.to_string(), song_json_data: json.to_string(), orig_order }
}

#[test]
fn local_id_is_digest_of_path() {
    assert_eq!(local("abc", 0).get_id(), "local:900150983cd24fb0d6963f7d28e17f72");
    assert_eq!(
        local("abcdefghijklmnopqrstuvwxyz", 3).get_id(),
        "local:c3fcd3d76192e4007dfb496cca67e13b"
    );
}

#[test]
fn local_id_of_empty_path() {
    assert_eq!(local("", 0).get_id(), "local:d41d8cd98f00b204e9800998ecf8427e");
}

#[test]
fn local_id_of_path_beyond_ascii() {
    assert_eq!(local("/music/夜曲.flac", 0).get_id(), "local:69bc99d84308bc577b20b23ee9047644");
}

#[test]
fn local_id_has_a_fixed_length() {
    assert_eq!(local("", 0).get_id().len(), 38);
    assert_eq!(local("/music/a.mp3", 0).get_id().len(), 38);
}

#[test]
fn local_id_from_a_given_digest() {
    assert_eq!(
        local_song_id(&[0x00, 0x01, 0x0f, 0x10, 0x7f, 0x80, 0xab, 0xff]),
        "local:00010f107f80abff"
    );
    assert_eq!(local_song_id(&[]), "local:");
}

#[test]
fn custom_id_is_the_host_id() {
    assert_eq!(custom("42", "{}", 7).get_id(), "custom:42");
    assert_eq!(custom("", "", 0).get_id(), "custom:");
}

#[test]
fn ids_ignore_order_and_json() {
    assert_eq!(custom("42", "{}", 7).get_id(), custom("42", "{\"a\":1}", 8).get_id());
    assert_eq!(local("abc", 1).get_id(), local("abc", 2).get_id());
}

#[test]
fn ids_of_different_kinds_differ() {
    let file = local("abc", 0);
    let song = custom("900150983cd24fb0d6963f7d28e17f72", "", 0);
    assert_ne!(file.get_id(), song.get_id());
    assert_ne!(local("abc", 0).get_id(), local("abd", 0).get_id());
    assert_ne!(custom("a", "", 0).get_id(), custom("b", "", 0).get_id());
}

#[test]
fn empty_source_has_empty_id() {
    assert_eq!(().get_id(), "");
}

#[test]
fn sources_offer_no_audio() {
    assert_eq!(().fetch_source(), Err("未实现".to_string()));
    assert_eq!(local("abc", 0).fetch_source(), Err("未实现".to_string()));
}

#[test]
fn songs_compare_by_all_fields() {
    assert_eq!(local("abc", 1), local("abc", 1));
    assert_ne!(local("abc", 1), local("abc", 2));
    assert_eq!(custom("1", "{}", 1).clone(), custom("1", "{}", 1));
}
