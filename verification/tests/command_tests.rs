use optee_core::command::{host_action, required_role, ClientRole, HostAction, TaCommand};

#[test]
fn command_ids_decode_in_order() {
    assert_eq!(TaCommand::from(0), TaCommand::NewTlsSession);
    assert_eq!(TaCommand::from(4), TaCommand::StartServer);
    assert_eq!(TaCommand::from(13), TaCommand::InitBoard);
    assert_eq!(TaCommand::from(17), TaCommand::GetTeeStatus);
    assert_eq!(TaCommand::from(18), TaCommand::Unknown);
    assert_eq!(TaCommand::from(u32::MAX), TaCommand::Unknown);
}

#[test]
fn command_codes_round_trip() {
    for id in 0u32..18 {
        assert_eq!(TaCommand::from(id).code(), id);
    }
    assert_eq!(TaCommand::DoTlsWrite.code(), 3);
    assert_eq!(TaCommand::from(TaCommand::SignTransaction.code()), TaCommand::SignTransaction);
}

#[test]
fn host_commands_and_tls_commands() {
    assert_eq!(host_action(13, false), Some(HostAction::InitBoard));
    assert_eq!(host_action(2, false), Some(HostAction::DoTlsRead));
    assert_eq!(host_action(16, false), None);
    assert_eq!(host_action(16, true), Some(HostAction::ClearWalletStorage));
    assert_eq!(host_action(5, true), None);
    assert_eq!(host_action(99, true), None);

    assert_eq!(required_role(TaCommand::SyncWithTee), Some(ClientRole::System));
    assert_eq!(required_role(TaCommand::CreateTransaction), Some(ClientRole::TxOperator));
    assert_eq!(required_role(TaCommand::ApproveTransaction), Some(ClientRole::Approver));
    assert_eq!(required_role(TaCommand::RecallTransaction), Some(ClientRole::TxOperator));
    assert_eq!(required_role(TaCommand::SignTransaction), Some(ClientRole::AnyUser));
    assert_eq!(required_role(TaCommand::ListPendingTransaction), Some(ClientRole::System));
    assert_eq!(required_role(TaCommand::GetTeeStatus), Some(ClientRole::System));
    assert_eq!(required_role(TaCommand::InitBoard), None);
    assert_eq!(required_role(TaCommand::AddAccount), None);
    for id in 0u32..20 {
        if host_action(id, true).is_some() {
            assert_eq!(required_role(TaCommand::from(id)), None);
        }
    }
}
