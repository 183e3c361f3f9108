use yapping_client::transport::{reader_step, ReadEvent, ReaderStep};

#[test]
fn reader_forwards_binary_payload_unchanged() {
    assert_eq!(reader_step(ReadEvent::Binary(vec![1, 2, 3])), ReaderStep::Forward(vec![1, 2, 3]));
    assert_eq!(reader_step(ReadEvent::Binary(vec![])), ReaderStep::Forward(vec![]));
}

#[test]
fn reader_skips_other_frames_and_stops_on_failure() {
    assert_eq!(reader_step(ReadEvent::Other), ReaderStep::Skip);
    assert_eq!(reader_step(ReadEvent::Failed), ReaderStep::Stop);
}
