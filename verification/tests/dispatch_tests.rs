use steam_auth::dispatch::{
    build_post_request, file_line, file_outcome, remote_outcome, should_enter_session_tail,
    DispatchError, DispatchOutcome,
};

#[test]
fn file_line_is_hex_and_newline() {
    let line = file_line(&vec![0xDEu8, 0xAD, 0xBE, 0xEF]);
    assert_eq!(String::from_utf8(line).unwrap(), "deadbeef\n");
}

#[test]
fn post_request_carries_hex_ticket_and_email() {
    let req = build_post_request(
        "http://x/verify".to_string(),
        "a@b.com".to_string(),
        &vec![0x01u8, 0x02],
    );
    assert_eq!(req.url, "http://x/verify");
    assert_eq!(req.email, "a@b.com");
    assert_eq!(String::from_utf8(req.auth_ticket_hex).unwrap(), "0102");
}

#[test]
fn status_200_delivers_and_terminates() {
    let outcome = remote_outcome(200).unwrap();
    assert_eq!(outcome, DispatchOutcome::DeliveredTerminate);
    assert!(!should_enter_session_tail(&outcome));
}

#[test]
fn status_500_is_a_hard_error() {
    assert_eq!(remote_outcome(500).unwrap_err(), DispatchError::RemoteStatus(500));
}

#[test]
fn every_non_200_status_is_an_error() {
    for status in [0u16, 199, 201, 204, 301, 404, 500, 503] {
        assert_eq!(remote_outcome(status).unwrap_err(), DispatchError::RemoteStatus(status));
    }
}

#[test]
fn successful_write_with_exit_flag_terminates() {
    let outcome = file_outcome(true, true);
    assert_eq!(outcome, DispatchOutcome::DeliveredTerminate);
    assert!(!should_enter_session_tail(&outcome));
}

#[test]
fn successful_write_without_exit_flag_continues() {
    let outcome = file_outcome(true, false);
    assert_eq!(outcome, DispatchOutcome::DeliveredContinue);
    assert!(should_enter_session_tail(&outcome));
}

#[test]
fn failed_write_still_continues_to_session_tail() {
    for exit_flag in [false, true] {
        let outcome = file_outcome(false, exit_flag);
        assert_eq!(outcome, DispatchOutcome::SkippedContinue);
        assert!(should_enter_session_tail(&outcome));
    }
}
