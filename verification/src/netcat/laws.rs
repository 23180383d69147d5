//! What holds of sending on every registry, proved over its model.

use vstd::prelude::*;
use crate::error::{EngineError, ErrorKind};
use crate::netcat::codec::{all_hex_digits, decode_payload, hex_body};
use crate::netcat::model::{has_session, restored, send_result, session_index};
use crate::netcat::session::model::{
    config_of, fresh_state, state_wf, DeliveryView, SessionStateView,
};
use crate::netcat::types::{
    DataFormat, NetcatSessionConfigView, Protocol, SendMessageInput, SessionMode, SessionStatus,
};

verus! {

/// A send in hexadecimal whose text, without markers and white space, has
/// an odd number of characters fails as an encoding error on every session,
/// whatever its state; such a send leaves the registry and every log as
/// they were. The same holds of text that holds a character which is no
/// digit, no white space and no part of a marker.
pub proof fn lemma_odd_hex_send_is_refused(sessions: Seq<SessionStateView>, input: SendMessageInput)
    requires
        has_session(sessions, input.session_id@),
        input.format == DataFormat::Hex,
        hex_body(input.data@).len() % 2 == 1 || !all_hex_digits(hex_body(input.data@)),
    ensures
        send_result(sessions, input) is Err,
        send_result(sessions, input)->Err_0.spec_kind() == ErrorKind::Encoding,
        all_hex_digits(hex_body(input.data@)) ==> send_result(sessions, input) == Err::<
            DeliveryView,
            EngineError,
        >(EngineError::OddHexLength),
        !all_hex_digits(hex_body(input.data@)) ==> send_result(sessions, input) == Err::<
            DeliveryView,
            EngineError,
        >(EngineError::InvalidHexDigit),
{
}

/// A TCP server that is given a payload without a target and without the
/// broadcast flag has no target for it, however many clients it has; the
/// failure is of the kind that stands for a missing destination.
pub proof fn lemma_server_send_needs_target(sessions: Seq<SessionStateView>, input: SendMessageInput)
    requires
        has_session(sessions, input.session_id@),
        sessions[session_index(sessions, input.session_id@)].session.protocol == Protocol::Tcp,
        sessions[session_index(sessions, input.session_id@)].session.mode == SessionMode::Server,
        input.target_client is None,
        input.broadcast != Some(true),
        decode_payload(input.data@, input.format) is Ok,
    ensures
        send_result(sessions, input) == Err::<DeliveryView, EngineError>(
            EngineError::NoTarget,
        ),
        EngineError::NoTarget.spec_kind() == ErrorKind::NotFound,
{
}

/// A session that comes from a stored configuration is idle whatever was
/// stored: disconnected, never connected or active, every counter at zero,
/// no error, no log, no clients, no loops and no sender.
pub proof fn lemma_restored_is_idle(config: NetcatSessionConfigView)
    ensures
        state_wf(fresh_state(restored(config))),
        config_of(restored(config)) == config,
        ({
            let s = fresh_state(restored(config));
            &&& s.session.status == SessionStatus::Disconnected
            &&& s.session.connected_at is None
            &&& s.session.last_activity is None
            &&& s.session.bytes_sent == 0
            &&& s.session.bytes_received == 0
            &&& s.session.message_count == 0
            &&& s.session.client_count == 0
            &&& s.session.error_message is None
            &&& s.messages.len() == 0
            &&& s.clients.len() == 0
            &&& s.run == 0
            &&& !s.shutdown_armed
            &&& !s.sender_live
        }),
{
}

} // verus!
