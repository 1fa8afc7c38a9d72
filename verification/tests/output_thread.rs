use player_core::output_thread::{AudioOutputMessage, OutputAction, OutputThread};

type Message = AudioOutputMessage<&'static str, u8>;
type Action = OutputAction<&'static str, u8>;

fn played(action: Action) -> bool {
    matches!(action, OutputAction::Play(_))
}

#[test]
fn first_block_is_played() {
    let mut thread = OutputThread::new();
    assert_eq!(thread.current_id, 0);
    let action: Action = thread.handle(Message::Write(3, "block"), false);
    assert!(matches!(action, OutputAction::Play("block")));
    assert_eq!(thread.current_id, 3);
}

#[test]
fn blocks_of_the_same_song_are_played() {
    let mut thread = OutputThread { current_id: 3 };
    assert!(played(thread.handle(Message::Write(3, "a"), false)));
    assert!(played(thread.handle(Message::Write(3, "b"), false)));
}

#[test]
fn blocks_of_an_earlier_song_are_ignored() {
    let mut thread = OutputThread { current_id: 3 };
    let action: Action = thread.handle(Message::Write(2, "late"), false);
    assert!(matches!(action, OutputAction::Ignore));
    let action: Action = thread.handle(Message::Write(1, "late"), true);
    assert!(matches!(action, OutputAction::Ignore));
    assert_eq!(thread.current_id, 3);
}

#[test]
fn zero_starts_over() {
    let mut thread = OutputThread { current_id: 9 };
    assert!(played(thread.handle(Message::Write(0, "a"), false)));
    assert_eq!(thread.current_id, 0);
    assert!(played(thread.handle(Message::Write(1, "b"), false)));
    assert_eq!(thread.current_id, 1);
}

#[test]
fn dead_output_is_opened_anew_and_the_block_dropped() {
    let mut thread = OutputThread { current_id: 1 };
    let action: Action = thread.handle(Message::Write(2, "lost"), true);
    assert!(matches!(action, OutputAction::Reinitialize));
    assert_eq!(thread.current_id, 2);
}

#[test]
fn volume_is_passed_on() {
    let mut thread = OutputThread { current_id: 4 };
    let action: Action = thread.handle(Message::SetVolume(77), false);
    assert!(matches!(action, OutputAction::SetVolume(77)));
    let action: Action = thread.handle(Message::SetVolume(0), true);
    assert!(matches!(action, OutputAction::SetVolume(0)));
    assert_eq!(thread.current_id, 4);
}

#[test]
fn latest_song_is_current_and_played_songs_never_go_back() {
    let mut thread = OutputThread::new();
    let mut songs = Vec::new();
    for id in [2usize, 1, 2, 5, 3, 5, 4, 7] {
        if played(thread.handle(Message::Write(id, "x"), false)) {
            songs.push(id);
        }
    }
    assert_eq!(songs, vec![2, 2, 5, 5, 7]);
    assert_eq!(thread.current_id, 7);
}

#[test]
fn played_songs_go_back_only_to_zero() {
    let mut thread = OutputThread::new();
    let mut songs = Vec::new();
    for id in [4usize, 6, 5, 0, 3, 2, 3, 0, 1] {
        if played(thread.handle(Message::Write(id, "x"), false)) {
            songs.push(id);
        }
    }
    assert_eq!(songs, vec![4, 6, 0, 3, 3, 0, 1]);
    assert_eq!(thread.current_id, 1);
}
