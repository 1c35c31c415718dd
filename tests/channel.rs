use green_languages::channel::{
    decode_control, message_byte, parse_fd, poll_proceed, start_result, Message, Poll, SharedState,
    PROCEED_TIMEOUT_MS, SHM_NAME,
};

#[test]
fn one_window_per_iteration() {
    let mut s = SharedState::new();
    s.set_iterations(3);
    let mut windows = 0;
    loop {
        if !s.claim() {
            break;
        }
        assert!(s.is_ready());
        s.signal_proceed();
        assert!(!s.is_ready());
        assert!(s.begin());
        assert!(s.is_measuring());
        s.mark_end();
        assert!(s.is_complete());
        windows += 1;
    }
    assert_eq!(windows, 3);
    assert_eq!(s.get_iterations(), 0);
}

#[test]
fn child_waits_until_proceed() {
    let mut s = SharedState::new();
    s.set_iterations(1);
    assert!(s.claim());
    assert!(!s.begin());
    assert!(!s.is_measuring());
    assert_eq!(poll_proceed(false, 10), Poll::Wait);
    assert_eq!(poll_proceed(false, PROCEED_TIMEOUT_MS + 1), Poll::GiveUp);
    assert_eq!(poll_proceed(true, PROCEED_TIMEOUT_MS + 1), Poll::Proceed);
}

#[test]
fn pipe_messages() {
    assert_eq!(message_byte(Message::Proceed), 1);
    assert_eq!(message_byte(Message::Abort), 0);
    assert_eq!(message_byte(Message::Ready), 1);
    assert_eq!(message_byte(Message::Done), 1);
    assert_eq!(decode_control(0), Message::Abort);
    assert_eq!(decode_control(1), Message::Proceed);
    assert_eq!(start_result(true, Some(1)), 1);
    assert_eq!(start_result(true, Some(0)), 0);
    assert_eq!(start_result(true, None), 0);
    assert_eq!(start_result(false, Some(1)), 0);
    assert_eq!(SHM_NAME, "/iterations-state");
}

#[test]
fn descriptor_numbers() {
    assert_eq!(parse_fd("7"), Some(7));
    assert_eq!(parse_fd("+12"), Some(12));
    assert_eq!(parse_fd("-1"), Some(-1));
    assert_eq!(parse_fd("2147483647"), Some(i32::MAX));
    assert_eq!(parse_fd("-2147483648"), Some(i32::MIN));
    assert_eq!(parse_fd("2147483648"), None);
    assert_eq!(parse_fd("99999999999999999999"), None);
    assert_eq!(parse_fd(""), None);
    assert_eq!(parse_fd("-"), None);
    assert_eq!(parse_fd("4a"), None);
    assert_eq!(parse_fd(" 4"), None);
}
