//! What holds of a session's record in every state, proved over its model.

use vstd::prelude::*;
use crate::netcat::session::model::{
    after_data, after_datagram, after_start, after_stop, data_events, has_client, is_tcp_client,
    logged, message_event, new_client, next_state, received_message, state_wf, udp_client_id,
    SessionEvent, SessionStateView, MESSAGE_CAP,
};
use crate::counters::count_of;
use crate::netcat::codec::display_text;
use crate::netcat::types::{
    MessageDirection, NetcatEventView, NetcatMessageView, Protocol, SessionMode, SessionStatus,
};

verus! {

/// The status of a session follows its state machine: a start makes it
/// connecting and begins a new run; an opened client is connected and an
/// opened server listens; a stop, a shutdown of a server or UDP loop, and the end of a
/// client's stream make it disconnected; a failure to open or to read leaves
/// an error with its message.
pub proof fn lemma_status_follows_events(
    s: SessionStateView,
    now: u64,
    id: Seq<char>,
    message: String,
    end_of_stream: Vec<u8>,
)
    requires
        end_of_stream@.len() == 0,
    ensures
        next_state(s, SessionEvent::Opened, now, id).session.status == (match s.session.mode {
            SessionMode::Client => SessionStatus::Connected,
            SessionMode::Server => SessionStatus::Listening,
        }),
        next_state(s, SessionEvent::Opened, now, id).sender_live,
        next_state(s, SessionEvent::OpenFailed(message), now, id).session.status == SessionStatus::Error,
        next_state(s, SessionEvent::OpenFailed(message), now, id).session.error_message == Some(message@),
        next_state(s, SessionEvent::ReadFailed(message), now, id).session.status == (if is_tcp_client(s) {
            SessionStatus::Error
        } else {
            SessionStatus::Disconnected
        }),
        next_state(s, SessionEvent::Data(end_of_stream), now,
            id).session.status == SessionStatus::Disconnected,
        !is_tcp_client(s) ==> next_state(s, SessionEvent::Shutdown, now, id).session.status
            == SessionStatus::Disconnected,
        !next_state(s, SessionEvent::Shutdown, now, id).sender_live,
        after_start(s).session.status == SessionStatus::Connecting,
        after_start(s).run != s.run,
        !after_start(s).sender_live,
        after_stop(s).session.status == SessionStatus::Disconnected,
        after_stop(s).session.error_message is None,
        !after_stop(s).sender_live,
        !after_stop(s).shutdown_armed,
{
}

/// What happens to one client of a server never changes the status of the
/// server: after a client has connected, sent bytes, closed its connection
/// or failed, the session has the status and the error message that it had.
pub proof fn lemma_clients_leave_status(s: SessionStateView, event: SessionEvent, now: u64, id: Seq<char>)
    requires
        event is ClientConnected || event is ClientData || event is ClientReadFailed || event is ClientSent,
    ensures
        next_state(s, event, now, id).session.status == s.session.status,
        next_state(s, event, now, id).session.error_message == s.session.error_message,
        next_state(s, event, now, id).sender_live == s.sender_live,
{
}

/// The log never grows beyond its cap, and after a message was logged it
/// ends with that message.
pub proof fn lemma_log_is_capped(messages: Seq<NetcatMessageView>, m: NetcatMessageView)
    requires
        messages.len() <= MESSAGE_CAP,
    ensures
        logged(messages, m).len() <= MESSAGE_CAP,
        logged(messages, m).len() >= 1,
        logged(messages, m).last() == m,
        messages.len() < MESSAGE_CAP ==> logged(messages, m) == messages.push(m),
        messages.len() == MESSAGE_CAP ==> logged(messages, m) == messages.skip(1).push(m),
{
    if messages.len() == MESSAGE_CAP {
        assert(messages.push(m).skip(1) =~= messages.skip(1).push(m));
    }
}

/// The first datagram of a peer that a UDP server has not seen enters the
/// peer into the table and is logged: the table gains exactly one client,
/// with the address of the sender, the bytes of the datagram counted as
/// received and none as sent; the session tells one client more; the log
/// ends with the received payload as it is shown; and the notices are that
/// of the new client and then that of the message.
pub proof fn lemma_first_datagram_enters_peer(
    s: SessionStateView,
    data: Seq<u8>,
    from: Seq<char>,
    now: u64,
    id: Seq<char>,
)
    requires
        state_wf(s),
        s.session.protocol == Protocol::Udp,
        s.session.mode == SessionMode::Server,
        !has_client(s.clients, udp_client_id(from)),
        data.len() < 0x1_0000_0000_0000_0000,
    ensures
        ({
            let after = after_data(s, data, None, Some(from), now, id);
            let events = data_events(s, data, None, Some(from), now, id);
            let peer = new_client(udp_client_id(from), from, now, data.len() as u64);
            let message = received_message(s.session.id, data, Some(udp_client_id(from)), Some(from),
                now, id);
            &&& after == after_datagram(s, data, from, now, id)
            &&& state_wf(after)
            &&& after.clients == s.clients.push(peer)
            &&& peer.addr == from
            &&& peer.bytes_received == data.len()
            &&& peer.bytes_sent == 0
            &&& after.session.client_count == count_of(s.clients.len() + 1)
            &&& s.clients.len() == 0 ==> after.clients.len() == 1 && after.session.client_count == 1
            &&& after.messages.len() >= 1
            &&& after.messages.last() == message
            &&& message.data == display_text(data)
            &&& message.direction == MessageDirection::Received
            &&& events == seq![
                NetcatEventView::ClientConnected { session_id: s.session.id, client: peer },
                message_event(s.session.id, message),
            ]
        }),
{
    let after = after_datagram(s, data, from, now, id);
    let peer = new_client(udp_client_id(from), from, now, data.len() as u64);
    assert(after.clients =~= s.clients.push(peer));
    assert forall|i: int,
        j: int| 0 <= i < j < after.clients.len() implies (#[trigger] after.clients[i]).id != (
    #[trigger] after.clients[j]).id by {
        if j < s.clients.len() {
            assert(s.clients[i].id != s.clients[j].id);
        } else {
            assert(after.clients[i] == s.clients[i]);
        }
    }
    let message = received_message(s.session.id, data, Some(udp_client_id(from)), Some(from), now, id);
    lemma_log_is_capped(s.messages, message);
}

} // verus!
