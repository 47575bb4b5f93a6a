use gyro::framing::FrameDecoder;
use gyro::link::{after_state_read, after_stream_read, ReadEvent, StateAction, StreamAction};
use gyro::wire::DroneState;

#[test]
fn state_read_outcomes() {
    let bytes = vec![0u8; 136];
    let expected = DroneState::decode(&bytes).unwrap();
    assert_eq!(after_state_read(ReadEvent::Data(bytes)), StateAction::Publish(expected));
    assert_eq!(after_state_read(ReadEvent::Data(vec![0u8; 10])), StateAction::Continue);
    assert_eq!(after_state_read(ReadEvent::TimedOut), StateAction::Continue);
    assert_eq!(after_state_read(ReadEvent::Failed), StateAction::Terminate);
}

#[test]
fn stream_read_outcomes() {
    let mut d = FrameDecoder::new();
    let mut frame = vec![0u8; 48];
    frame.push(254);
    match after_stream_read(&mut d, ReadEvent::Data(frame)) {
        StreamAction::Publish(s) => assert!(s.is_empty()),
        _ => panic!("expected publish"),
    }
    assert!(matches!(after_stream_read(&mut d, ReadEvent::TimedOut), StreamAction::Continue));
    match after_stream_read(&mut d, ReadEvent::Data(vec![255])) {
        StreamAction::Publish(s) => assert_eq!(s.len(), 1),
        _ => panic!("expected publish"),
    }
    assert!(matches!(after_stream_read(&mut d, ReadEvent::Failed), StreamAction::Terminate));
}
