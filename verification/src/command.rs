//! The commands a trusted application serves, and the request that carries
//! one over TLS.
use vstd::prelude::*;

verus! {

/// A command of the trusted application.
#[derive(Debug, Copy, Clone, PartialEq, Eq, Structural)]
pub enum TaCommand {
    NewTlsSession,
    CloseTlsSession,
    DoTlsRead,
    DoTlsWrite,
    StartServer,
    SyncWithTee,
    AddAccount,
    SyncFromTeeWallet,
    CreateTransaction,
    ApproveTransaction,
    RecallTransaction,
    SignTransaction,
    ListPendingTransaction,
    InitBoard,
    BackupWallet,
    RestoreWallet,
    ClearWalletStorage,
    GetTeeStatus,
    Unknown,
}

/// The command that a command id stands for: ids 0 to 17 in the order of
/// the variants, `Unknown` for every other id.
pub open spec fn spec_command_of(value: u32) -> TaCommand {
    if value == 0 {
        TaCommand::NewTlsSession
    } else if value == 1 {
        TaCommand::CloseTlsSession
    } else if value == 2 {
        TaCommand::DoTlsRead
    } else if value == 3 {
        TaCommand::DoTlsWrite
    } else if value == 4 {
        TaCommand::StartServer
    } else if value == 5 {
        TaCommand::SyncWithTee
    } else if value == 6 {
        TaCommand::AddAccount
    } else if value == 7 {
        TaCommand::SyncFromTeeWallet
    } else if value == 8 {
        TaCommand::CreateTransaction
    } else if value == 9 {
        TaCommand::ApproveTransaction
    } else if value == 10 {
        TaCommand::RecallTransaction
    } else if value == 11 {
        TaCommand::SignTransaction
    } else if value == 12 {
        TaCommand::ListPendingTransaction
    } else if value == 13 {
        TaCommand::InitBoard
    } else if value == 14 {
        TaCommand::BackupWallet
    } else if value == 15 {
        TaCommand::RestoreWallet
    } else if value == 16 {
        TaCommand::ClearWalletStorage
    } else if value == 17 {
        TaCommand::GetTeeStatus
    } else {
        TaCommand::Unknown
    }
}

impl From<u32> for TaCommand {
    fn from(value: u32) -> (command: TaCommand) {
        match value {
            0 => TaCommand::NewTlsSession,
            1 => TaCommand::CloseTlsSession,
            2 => TaCommand::DoTlsRead,
            3 => TaCommand::DoTlsWrite,
            4 => TaCommand::StartServer,
            5 => TaCommand::SyncWithTee,
            6 => TaCommand::AddAccount,
            7 => TaCommand::SyncFromTeeWallet,
            8 => TaCommand::CreateTransaction,
            9 => TaCommand::ApproveTransaction,
            10 => TaCommand::RecallTransaction,
            11 => TaCommand::SignTransaction,
            12 => TaCommand::ListPendingTransaction,
            13 => TaCommand::InitBoard,
            14 => TaCommand::BackupWallet,
            15 => TaCommand::RestoreWallet,
            16 => TaCommand::ClearWalletStorage,
            17 => TaCommand::GetTeeStatus,
            _ => TaCommand::Unknown,
        }
    }
}

impl vstd::std_specs::convert::FromSpecImpl<u32> for TaCommand {
    open spec fn obeys_from_spec() -> bool {
        true
    }

    open spec fn from_spec(value: u32) -> TaCommand {
        spec_command_of(value)
    }
}

/// The input of a TEE status request.
#[derive(Debug)]
pub struct GetTeeStatusInput {}

/// The input of a board initialization.
#[derive(Debug)]
pub struct InitBoardInput {}

/// The input of a request for the pending transactions.
#[derive(Debug)]
pub struct ListPendingTransactionInput {}

/// A command and its encoded input, as sent to the trusted application over
/// TLS.
#[derive(Debug)]
pub struct TlsCommandRequest {
    pub command: TaCommand,
    pub request: Vec<u8>,
}

/// The id of a command: its position among the variants (`Unknown` last).
pub open spec fn spec_command_code(command: TaCommand) -> u32 {
    match command {
        TaCommand::NewTlsSession => 0,
        TaCommand::CloseTlsSession => 1,
        TaCommand::DoTlsRead => 2,
        TaCommand::DoTlsWrite => 3,
        TaCommand::StartServer => 4,
        TaCommand::SyncWithTee => 5,
        TaCommand::AddAccount => 6,
        TaCommand::SyncFromTeeWallet => 7,
        TaCommand::CreateTransaction => 8,
        TaCommand::ApproveTransaction => 9,
        TaCommand::RecallTransaction => 10,
        TaCommand::SignTransaction => 11,
        TaCommand::ListPendingTransaction => 12,
        TaCommand::InitBoard => 13,
        TaCommand::BackupWallet => 14,
        TaCommand::RestoreWallet => 15,
        TaCommand::ClearWalletStorage => 16,
        TaCommand::GetTeeStatus => 17,
        TaCommand::Unknown => 18,
    }
}

impl TaCommand {
    /// The id under which a host invokes this command.
    pub fn code(self) -> (code: u32)
        ensures
            code == spec_command_code(self),
    {
        match self {
            TaCommand::NewTlsSession => 0,
            TaCommand::CloseTlsSession => 1,
            TaCommand::DoTlsRead => 2,
            TaCommand::DoTlsWrite => 3,
            TaCommand::StartServer => 4,
            TaCommand::SyncWithTee => 5,
            TaCommand::AddAccount => 6,
            TaCommand::SyncFromTeeWallet => 7,
            TaCommand::CreateTransaction => 8,
            TaCommand::ApproveTransaction => 9,
            TaCommand::RecallTransaction => 10,
            TaCommand::SignTransaction => 11,
            TaCommand::ListPendingTransaction => 12,
            TaCommand::InitBoard => 13,
            TaCommand::BackupWallet => 14,
            TaCommand::RestoreWallet => 15,
            TaCommand::ClearWalletStorage => 16,
            TaCommand::GetTeeStatus => 17,
            TaCommand::Unknown => 18,
        }
    }
}

/// Command ids number the commands in the order the protocol declares them:
/// the TLS commands from 0 (`NewTlsSession`) to 4 (`StartServer`), the
/// wallet and transaction commands from 5 to 12, the backup commands from 13
/// (`InitBoard`, then `BackupWallet` 14, `RestoreWallet` 15,
/// `ClearWalletStorage` 16), `GetTeeStatus` 17 and `Unknown` 18.
pub proof fn lemma_command_ids()
    ensures
        spec_command_code(TaCommand::NewTlsSession) == 0u32,
        spec_command_code(TaCommand::CloseTlsSession) == 1u32,
        spec_command_code(TaCommand::DoTlsRead) == 2u32,
        spec_command_code(TaCommand::DoTlsWrite) == 3u32,
        spec_command_code(TaCommand::StartServer) == 4u32,
        spec_command_code(TaCommand::SyncWithTee) == 5u32,
        spec_command_code(TaCommand::AddAccount) == 6u32,
        spec_command_code(TaCommand::SyncFromTeeWallet) == 7u32,
        spec_command_code(TaCommand::CreateTransaction) == 8u32,
        spec_command_code(TaCommand::ApproveTransaction) == 9u32,
        spec_command_code(TaCommand::RecallTransaction) == 10u32,
        spec_command_code(TaCommand::SignTransaction) == 11u32,
        spec_command_code(TaCommand::ListPendingTransaction) == 12u32,
        spec_command_code(TaCommand::InitBoard) == 13u32,
        spec_command_code(TaCommand::BackupWallet) == 14u32,
        spec_command_code(TaCommand::RestoreWallet) == 15u32,
        spec_command_code(TaCommand::ClearWalletStorage) == 16u32,
        spec_command_code(TaCommand::GetTeeStatus) == 17u32,
        spec_command_code(TaCommand::Unknown) == 18u32,
{
}

/// The trusted application reads back every command that a host sends by its
/// id, but `Unknown`; and every id it does not know reads as `Unknown`.
pub proof fn lemma_command_round_trip(command: TaCommand, id: u32)
    ensures
        command != TaCommand::Unknown ==> spec_command_of(spec_command_code(command)) == command,
        id > 17 ==> spec_command_of(id) == TaCommand::Unknown,
        id <= 17 ==> spec_command_code(spec_command_of(id)) == id,
{
}

/// What the trusted application does for a command that its host invokes
/// directly (not over TLS).
#[derive(Debug, Copy, Clone, PartialEq, Eq, Structural)]
pub enum HostAction {
    InitBoard,
    BackupWallet,
    RestoreWallet,
    ClearWalletStorage,
    StartServer,
    NewTlsSession,
    DoTlsRead,
    DoTlsWrite,
    CloseTlsSession,
}

/// The command that a host action is named after.
pub open spec fn spec_action_command(action: HostAction) -> TaCommand {
    match action {
        HostAction::InitBoard => TaCommand::InitBoard,
        HostAction::BackupWallet => TaCommand::BackupWallet,
        HostAction::RestoreWallet => TaCommand::RestoreWallet,
        HostAction::ClearWalletStorage => TaCommand::ClearWalletStorage,
        HostAction::StartServer => TaCommand::StartServer,
        HostAction::NewTlsSession => TaCommand::NewTlsSession,
        HostAction::DoTlsRead => TaCommand::DoTlsRead,
        HostAction::DoTlsWrite => TaCommand::DoTlsWrite,
        HostAction::CloseTlsSession => TaCommand::CloseTlsSession,
    }
}

/// A command id that the host invokes is served by the action of the same
/// command: the backup command backs the wallet up, the restore command
/// restores it, and so on; every command that has an action is served,
/// clearing the storage only where the build enables it.
pub proof fn lemma_host_action_matches_command(cmd_id: u32, clear_storage_enabled: bool)
    ensures
        spec_host_action(cmd_id, clear_storage_enabled) matches Some(a) ==> spec_action_command(a)
            == spec_command_of(cmd_id),
        forall|a: HostAction|
            spec_action_command(a) == spec_command_of(cmd_id) && (a
                == HostAction::ClearWalletStorage ==> clear_storage_enabled) ==> spec_host_action(
                cmd_id,
                clear_storage_enabled,
            ) == Some(a),
{
}

/// The action for the command id `cmd_id`, if the trusted application serves
/// it; clearing the wallet storage is served only by builds that enable it.
pub open spec fn spec_host_action(cmd_id: u32, clear_storage_enabled: bool) -> Option<HostAction> {
    match spec_command_of(cmd_id) {
        TaCommand::InitBoard => Some(HostAction::InitBoard),
        TaCommand::BackupWallet => Some(HostAction::BackupWallet),
        TaCommand::RestoreWallet => Some(HostAction::RestoreWallet),
        TaCommand::ClearWalletStorage => if clear_storage_enabled {
            Some(HostAction::ClearWalletStorage)
        } else {
            None
        },
        TaCommand::StartServer => Some(HostAction::StartServer),
        TaCommand::NewTlsSession => Some(HostAction::NewTlsSession),
        TaCommand::DoTlsRead => Some(HostAction::DoTlsRead),
        TaCommand::DoTlsWrite => Some(HostAction::DoTlsWrite),
        TaCommand::CloseTlsSession => Some(HostAction::CloseTlsSession),
        _ => None,
    }
}

/// The action the trusted application takes for a command its host invokes;
/// `None` for a command it does not serve that way.
pub fn host_action(cmd_id: u32, clear_storage_enabled: bool) -> (action: Option<HostAction>)
    ensures
        action == spec_host_action(cmd_id, clear_storage_enabled),
{
    match TaCommand::from(cmd_id) {
        TaCommand::InitBoard => Some(HostAction::InitBoard),
        TaCommand::BackupWallet => Some(HostAction::BackupWallet),
        TaCommand::RestoreWallet => Some(HostAction::RestoreWallet),
        TaCommand::ClearWalletStorage => if clear_storage_enabled {
            Some(HostAction::ClearWalletStorage)
        } else {
            None
        },
        TaCommand::StartServer => Some(HostAction::StartServer),
        TaCommand::NewTlsSession => Some(HostAction::NewTlsSession),
        TaCommand::DoTlsRead => Some(HostAction::DoTlsRead),
        TaCommand::DoTlsWrite => Some(HostAction::DoTlsWrite),
        TaCommand::CloseTlsSession => Some(HostAction::CloseTlsSession),
        _ => None,
    }
}

/// The role a client must authenticate as to run a command over TLS.
#[derive(Debug, Copy, Clone, PartialEq, Eq, Structural)]
pub enum ClientRole {
    /// The system account.
    System,
    /// A transaction operator.
    TxOperator,
    /// An approver.
    Approver,
    /// Any registered user.
    AnyUser,
}

/// The role a command run over TLS asks of its client: the system syncs,
/// lists pending transactions and reads the status; operators create and
/// recall transactions; approvers approve or reject them; any registered user
/// may sign. No other command is served over TLS.
pub open spec fn spec_required_role(command: TaCommand) -> Option<ClientRole> {
    match command {
        TaCommand::SyncWithTee => Some(ClientRole::System),
        TaCommand::CreateTransaction => Some(ClientRole::TxOperator),
        TaCommand::ApproveTransaction => Some(ClientRole::Approver),
        TaCommand::RecallTransaction => Some(ClientRole::TxOperator),
        TaCommand::SignTransaction => Some(ClientRole::AnyUser),
        TaCommand::ListPendingTransaction => Some(ClientRole::System),
        TaCommand::GetTeeStatus => Some(ClientRole::System),
        _ => None,
    }
}

/// The role a client must authenticate as to run `command` over TLS; `None`
/// for a command that is not served over TLS.
pub fn required_role(command: TaCommand) -> (role: Option<ClientRole>)
    ensures
        role == spec_required_role(command),
{
    match command {
        TaCommand::SyncWithTee => Some(ClientRole::System),
        TaCommand::CreateTransaction => Some(ClientRole::TxOperator),
        TaCommand::ApproveTransaction => Some(ClientRole::Approver),
        TaCommand::RecallTransaction => Some(ClientRole::TxOperator),
        TaCommand::SignTransaction => Some(ClientRole::AnyUser),
        TaCommand::ListPendingTransaction => Some(ClientRole::System),
        TaCommand::GetTeeStatus => Some(ClientRole::System),
        _ => None,
    }
}

/// No command is served both by the host directly and over TLS.
pub proof fn lemma_host_and_tls_commands_disjoint(cmd_id: u32, clear_storage_enabled: bool)
    ensures
        spec_host_action(cmd_id, clear_storage_enabled) is Some ==> spec_required_role(
            spec_command_of(cmd_id),
        ) is None,
{
}

} // verus!
