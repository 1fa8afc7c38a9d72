use player_core::AudioThreadEventMessage;

#[test]
fn new_keeps_both_parts() {
    let message = AudioThreadEventMessage::new("cb-1".to_string(), Some(5u8));
    assert_eq!(message.callback_id, "cb-1");
    assert_eq!(message.data, Some(5u8));
}

#[test]
fn new_without_data() {
    let message: AudioThreadEventMessage<u8> = AudioThreadEventMessage::new(String::new(), None);
    assert_eq!(message.callback_id, "");
    assert_eq!(message.data, None);
}

#[test]
fn answer_keeps_callback_id() {
    let message = AudioThreadEventMessage::new("cb-2".to_string(), Some(5u8));
    let answer = message.to("done");
    assert_eq!(answer.callback_id, "cb-2");
    assert_eq!(answer.data, Some("done"));
}

#[test]
fn empty_answer_keeps_callback_id() {
    let message = AudioThreadEventMessage::new("cb-3".to_string(), Some(5u8));
    let answer: AudioThreadEventMessage<String> = message.to_none();
    assert_eq!(answer.callback_id, "cb-3");
    assert_eq!(answer.data, None);
}

#[test]
fn answers_can_be_chained() {
    let message: AudioThreadEventMessage<u8> =
        AudioThreadEventMessage::new("cb-4".to_string(), None);
    let answer = message.to(1u16).to_none::<u32>().to(true);
    assert_eq!(answer.callback_id, "cb-4");
    assert_eq!(answer.data, Some(true));
}
