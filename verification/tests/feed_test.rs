use prediction_market_arbitrage_mvp::feed::{on_frame, FrameAction, FrameKind};

#[test]
fn a_message_is_handled_and_a_ping_answered() {
    assert_eq!(on_frame(FrameKind::Text), FrameAction::Handle);
    assert_eq!(on_frame(FrameKind::Ping), FrameAction::Pong);
}

#[test]
fn a_close_or_a_failure_ends_the_connection() {
    assert_eq!(on_frame(FrameKind::Close), FrameAction::Stop);
    assert_eq!(on_frame(FrameKind::Failure), FrameAction::Stop);
}

#[test]
fn other_frames_are_passed_over() {
    assert_eq!(on_frame(FrameKind::Other), FrameAction::Skip);
}
