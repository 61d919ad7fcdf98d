//! The host's proxy between TLS clients and the trusted application: the TA
//! command that serves each request of the proxy, what the call is handed,
//! and the buffer that answers the request.
use vstd::prelude::*;

use crate::command::TaCommand;

verus! {

/// The largest TLS record payload the proxy carries.
pub const MAX_PAYLOAD: u16 = 16384 + 2048;

/// The size of a TLS record header.
pub const HEADER_SIZE: u16 = 1 + 2 + 2;

/// The largest TLS record on the wire: payload and header; the size of the
/// buffer the TA writes its output into.
pub const MAX_WIRE_SIZE: usize = 18437;

/// A request of the proxy for one TLS session.
#[derive(Debug, Clone, Copy, PartialEq, Eq, Structural)]
pub enum TaTlsRequestCommand {
    /// Open a TLS session in the TA.
    NewTlsSession,
    /// Hand bytes received from the client to the TA.
    SendToTa,
    /// Take the bytes the TA has for the client.
    ReceiveFromTa,
    /// Close the TLS session in the TA.
    CloseTlsSession,
}

/// How a request is served: the TA command invoked, the session id passed
/// as its first (value) parameter, whether the request's buffer is its
/// second (input) parameter, and whether an output buffer of
/// `MAX_WIRE_SIZE` bytes is its second parameter, with the count of bytes
/// written coming back in its third (value) parameter.
#[derive(Debug, Clone, Copy, PartialEq, Eq, Structural)]
pub struct TaInvocation {
    pub command: TaCommand,
    pub session_id: u32,
    pub sends_buffer: bool,
    pub receives_buffer: bool,
}

/// The invocation that serves `cmd` for the session `session_id`.
pub open spec fn spec_ta_invocation(cmd: TaTlsRequestCommand, session_id: u32) -> TaInvocation {
    match cmd {
        TaTlsRequestCommand::NewTlsSession => TaInvocation {
            command: TaCommand::NewTlsSession,
            session_id,
            sends_buffer: false,
            receives_buffer: false,
        },
        TaTlsRequestCommand::SendToTa => TaInvocation {
            command: TaCommand::DoTlsRead,
            session_id,
            sends_buffer: true,
            receives_buffer: false,
        },
        TaTlsRequestCommand::ReceiveFromTa => TaInvocation {
            command: TaCommand::DoTlsWrite,
            session_id,
            sends_buffer: false,
            receives_buffer: true,
        },
        TaTlsRequestCommand::CloseTlsSession => TaInvocation {
            command: TaCommand::CloseTlsSession,
            session_id,
            sends_buffer: false,
            receives_buffer: false,
        },
    }
}

/// The invocation that serves `cmd` for the session `session_id`: the TA
/// reads what the client sent (`DoTlsRead`) on `SendToTa` and writes what
/// the client is to get (`DoTlsWrite`) on `ReceiveFromTa`.
pub fn ta_invocation(cmd: TaTlsRequestCommand, session_id: u32) -> (invocation: TaInvocation)
    ensures
        invocation == spec_ta_invocation(cmd, session_id),
{
    match cmd {
        TaTlsRequestCommand::NewTlsSession => TaInvocation {
            command: TaCommand::NewTlsSession,
            session_id,
            sends_buffer: false,
            receives_buffer: false,
        },
        TaTlsRequestCommand::SendToTa => TaInvocation {
            command: TaCommand::DoTlsRead,
            session_id,
            sends_buffer: true,
            receives_buffer: false,
        },
        TaTlsRequestCommand::ReceiveFromTa => TaInvocation {
            command: TaCommand::DoTlsWrite,
            session_id,
            sends_buffer: false,
            receives_buffer: true,
        },
        TaTlsRequestCommand::CloseTlsSession => TaInvocation {
            command: TaCommand::CloseTlsSession,
            session_id,
            sends_buffer: false,
            receives_buffer: false,
        },
    }
}

/// The buffer that answers a served request: the first `written` bytes of
/// the TA's output buffer `output` for `ReceiveFromTa`, nothing otherwise.
pub fn response_buffer(cmd: TaTlsRequestCommand, output: &[u8], written: usize) -> (buffer: Vec<u8>)
    requires
        cmd == TaTlsRequestCommand::ReceiveFromTa ==> written <= output@.len(),
    ensures
        buffer@ == if cmd == TaTlsRequestCommand::ReceiveFromTa {
            output@.subrange(0, written as int)
        } else {
            Seq::empty()
        },
{
    match cmd {
        TaTlsRequestCommand::ReceiveFromTa => vstd::slice::slice_to_vec(&output[0..written]),
        _ => Vec::new(),
    }
}

} // verus!
