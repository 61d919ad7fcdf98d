use optee_core::command::TaCommand;
use optee_core::proxy::{
    response_buffer, ta_invocation, TaTlsRequestCommand, HEADER_SIZE, MAX_PAYLOAD, MAX_WIRE_SIZE,
};

#[test]
fn wire_size_is_payload_and_header() {
    assert_eq!(MAX_WIRE_SIZE, (MAX_PAYLOAD + HEADER_SIZE) as usize);
    assert_eq!(MAX_WIRE_SIZE, 18437);
}

#[test]
fn each_request_has_its_ta_command() {
    let new = ta_invocation(TaTlsRequestCommand::NewTlsSession, 7);
    assert_eq!(new.command, TaCommand::NewTlsSession);
    assert_eq!(new.session_id, 7);
    assert!(!new.sends_buffer && !new.receives_buffer);
    let send = ta_invocation(TaTlsRequestCommand::SendToTa, 8);
    assert_eq!(send.command, TaCommand::DoTlsRead);
    assert!(send.sends_buffer && !send.receives_buffer);
    let receive = ta_invocation(TaTlsRequestCommand::ReceiveFromTa, 9);
    assert_eq!(receive.command, TaCommand::DoTlsWrite);
    assert!(!receive.sends_buffer && receive.receives_buffer);
    let close = ta_invocation(TaTlsRequestCommand::CloseTlsSession, 10);
    assert_eq!(close.command, TaCommand::CloseTlsSession);
    assert_eq!(close.session_id, 10);
}

#[test]
fn only_receive_answers_with_the_written_bytes() {
    let output = [1u8, 2, 3, 4, 5];
    assert_eq!(response_buffer(TaTlsRequestCommand::ReceiveFromTa, &output, 3), vec![1, 2, 3]);
    assert_eq!(response_buffer(TaTlsRequestCommand::ReceiveFromTa, &output, 0), Vec::<u8>::new());
    assert!(response_buffer(TaTlsRequestCommand::SendToTa, &output, 3).is_empty());
    assert!(response_buffer(TaTlsRequestCommand::NewTlsSession, &output, 5).is_empty());
}
