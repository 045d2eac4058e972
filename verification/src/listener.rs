//! The hub listener's session state machine and the routing fabric's
//! decisions: handshake and subscription over the event stream,
//! demultiplexing of inbound events to registered adapters, and dispatch
//! of adapter-originated commands to the hub API. The transport itself
//! runs outside and feeds the machine one input at a time; the machine
//! answers with the actions to perform.

use vstd::prelude::*;

use crate::hub::{HAEvent, HubRequest, MediaPlayerState};
use crate::json::{obj_get, spec_lookup, str_eq, JsonVal};
use crate::metadata::spec_normalize;

verus! {

/// Why a listener session ended. Every reason is fatal only to the
/// session: the supervisor starts a fresh one after a fixed backoff.
#[derive(Debug, Clone, Copy, PartialEq, Eq, Structural)]
pub enum TerminationReason {
    /// The transport could not be opened.
    ConnectError,
    /// The hub rejected the access token.
    AuthRejected,
    /// The subscribe frame could not be sent.
    SubscribeError,
    /// Nothing arrived on either side for the idle window.
    IdleTimeout,
    /// The stream closed or ended unexpectedly.
    ConnectionClosed,
}

/// Where a listener session stands.
#[derive(Debug, Clone, Copy, PartialEq, Eq, Structural)]
pub enum ListenerPhase {
    /// Opening the transport.
    Connecting,
    /// Auth frame sent, reading frames until the hub answers.
    Authenticating,
    /// Subscribe frame handed to the transport, waiting for the send to
    /// complete; no acknowledgment is required beyond that.
    Subscribing,
    /// The steady state: routing inbound events and draining outbound
    /// commands.
    Streaming,
    /// The session is over; only the supervisor acts from here.
    Terminated(TerminationReason),
}

/// One thing the outside world reports to the state machine.
#[derive(Debug, PartialEq)]
pub enum ListenerInput {
    /// The transport is open.
    Connected,
    /// The transport could not be opened.
    ConnectFailed,
    /// A text frame arrived and decoded as JSON.
    Frame(JsonVal),
    /// A text frame arrived but did not decode; dropped, never fatal.
    MalformedFrame,
    /// A close frame arrived or the stream ended.
    StreamClosed,
    /// The last requested send completed.
    SendOk,
    /// The last requested send failed. Fatal while handshaking; during
    /// streaming a failed command dispatch is logged and lost.
    SendFailed,
    /// An adapter put a command on the shared outbound channel, tagged
    /// with its entity id.
    Outbound(String, HAEvent),
    /// The idle window elapsed with no activity from either side.
    IdleTimeout,
}

/// One thing the state machine asks the outside world to do.
#[derive(Debug, PartialEq)]
pub enum ListenerAction {
    /// Send this value as a text frame over the event stream.
    SendFrame(JsonVal),
    /// Hand this command to the named entity's adapter, over its inbound
    /// channel.
    Route(String, HAEvent),
    /// Issue this call against the hub command API.
    Dispatch(HubRequest),
}

/// The hub listener: the session phase, the registered per-entity command
/// builders that double as the routing table, and the access token for
/// the handshake.
#[derive(Debug, PartialEq)]
pub struct HubListener {
    pub phase: ListenerPhase,
    pub players: Vec<MediaPlayerState>,
    pub access_token: String,
}

/// Seconds of silence after which a streaming session gives up.
pub const IDLE_TIMEOUT_SECS: u64 = 60;

/// Seconds the supervisor waits before starting a fresh session.
pub const BACKOFF_SECS: u64 = 5;

/// The `type` field of a frame, when the frame is an object and the
/// field holds a string.
pub open spec fn spec_frame_type(f: JsonVal) -> Option<Seq<char>> {
    match f {
        JsonVal::Obj(entries) => match spec_lookup(entries@, "type"@) {
            Some(v) => match v {
                JsonVal::Str(s) => Some(s@),
                _ => None,
            },
            None => None,
        },
        _ => None,
    }
}

/// The fields of a state-changed event frame, when they are all present:
/// the entity id, the new state text, and the new attribute map, read
/// from `event.data.entity_id` and `event.data.new_state`.
pub open spec fn spec_event_fields(f: JsonVal) -> Option<
    (Seq<char>, Seq<char>, Seq<(String, JsonVal)>),
> {
    match f {
        JsonVal::Obj(top) => match spec_lookup(top@, "event"@) {
            Some(ev) => match ev {
                JsonVal::Obj(evf) => match spec_lookup(evf@, "data"@) {
                    Some(data) => match data {
                        JsonVal::Obj(df) => spec_data_fields(df@),
                        _ => None,
                    },
                    None => None,
                },
                _ => None,
            },
            None => None,
        },
        _ => None,
    }
}

/// The entity id, state and attributes inside an event's `data` object.
pub open spec fn spec_data_fields(df: Seq<(String, JsonVal)>) -> Option<
    (Seq<char>, Seq<char>, Seq<(String, JsonVal)>),
> {
    match spec_lookup(df, "entity_id"@) {
        Some(idv) => match idv {
            JsonVal::Str(id) => match spec_lookup(df, "new_state"@) {
                Some(ns) => match ns {
                    JsonVal::Obj(nsf) => match (
                        spec_lookup(nsf@, "state"@),
                        spec_lookup(nsf@, "attributes"@),
                    ) {
                        (Some(JsonVal::Str(st)), Some(JsonVal::Obj(at))) => Some((id@, st@, at@)),
                        _ => None,
                    },
                    _ => None,
                },
                None => None,
            },
            _ => None,
        },
        None => None,
    }
}

/// The registered player for an entity id: the first with that id, if
/// any.
pub open spec fn spec_find_player(players: Seq<MediaPlayerState>, id: Seq<char>) -> Option<int>
    decreases players.len(),
{
    if players.len() == 0 {
        None
    } else if players[0].entity_id@ == id {
        Some(0)
    } else {
        match spec_find_player(players.drop_first(), id) {
            Some(i) => Some(i + 1),
            None => None,
        }
    }
}

/// The authentication frame: `{"type": "auth", "access_token": token}`.
pub open spec fn spec_is_auth_frame(f: JsonVal, token: Seq<char>) -> bool {
    &&& f matches JsonVal::Obj(entries)
    &&& entries@.len() == 2
    &&& entries@[0].0@ == "type"@
    &&& entries@[0].1 matches JsonVal::Str(s) && s@ == "auth"@
    &&& entries@[1].0@ == "access_token"@
    &&& entries@[1].1 matches JsonVal::Str(t) && t@ == token
}

/// The subscription frame:
/// `{"id": 1, "type": "subscribe_events", "event_type": "state_changed"}`.
pub open spec fn spec_is_subscribe_frame(f: JsonVal) -> bool {
    &&& f matches JsonVal::Obj(entries)
    &&& entries@.len() == 3
    &&& entries@[0].0@ == "id"@ && entries@[0].1 == JsonVal::Int(1)
    &&& entries@[1].0@ == "type"@
    &&& entries@[1].1 matches JsonVal::Str(s) && s@ == "subscribe_events"@
    &&& entries@[2].0@ == "event_type"@
    &&& entries@[2].1 matches JsonVal::Str(e) && e@ == "state_changed"@
}

/// The phase one input moves the listener to. A malformed or unexpected
/// frame never ends a session; only transport loss, an auth rejection, a
/// failed handshake send, and the idle window do.
pub open spec fn spec_next_phase(l: HubListener, input: ListenerInput) -> ListenerPhase {
    match l.phase {
        ListenerPhase::Connecting => match input {
            ListenerInput::Connected => ListenerPhase::Authenticating,
            ListenerInput::ConnectFailed => ListenerPhase::Terminated(
                TerminationReason::ConnectError,
            ),
            _ => ListenerPhase::Connecting,
        },
        ListenerPhase::Authenticating => match input {
            ListenerInput::Frame(f) => if spec_frame_type(f) == Some("auth_ok"@) {
                ListenerPhase::Subscribing
            } else if spec_frame_type(f) == Some("auth_invalid"@) {
                ListenerPhase::Terminated(TerminationReason::AuthRejected)
            } else {
                ListenerPhase::Authenticating
            },
            ListenerInput::SendFailed => ListenerPhase::Terminated(
                TerminationReason::ConnectError,
            ),
            ListenerInput::StreamClosed => ListenerPhase::Terminated(
                TerminationReason::ConnectionClosed,
            ),
            _ => ListenerPhase::Authenticating,
        },
        ListenerPhase::Subscribing => match input {
            ListenerInput::SendOk => ListenerPhase::Streaming,
            ListenerInput::SendFailed => ListenerPhase::Terminated(
                TerminationReason::SubscribeError,
            ),
            ListenerInput::StreamClosed => ListenerPhase::Terminated(
                TerminationReason::ConnectionClosed,
            ),
            _ => ListenerPhase::Subscribing,
        },
        ListenerPhase::Streaming => match input {
            ListenerInput::StreamClosed => ListenerPhase::Terminated(
                TerminationReason::ConnectionClosed,
            ),
            ListenerInput::IdleTimeout => ListenerPhase::Terminated(TerminationReason::IdleTimeout),
            _ => ListenerPhase::Streaming,
        },
        ListenerPhase::Terminated(r) => ListenerPhase::Terminated(r),
    }
}

/// What a streaming listener does with one decoded inbound frame: a
/// frame without the event fields, or for an unregistered entity, or
/// whose attributes do not normalize, is dropped without any action; a
/// good one routes the derived play or pause command and then the
/// metadata update to that entity's adapter.
pub open spec fn spec_route_actions(l: HubListener, f: JsonVal, actions: Seq<ListenerAction>) -> bool {
    match spec_event_fields(f) {
        None => actions.len() == 0,
        Some((id, state, attrs)) => match spec_find_player(l.players@, id) {
            None => actions.len() == 0,
            Some(i) => {
                let playing = state == "playing"@;
                match spec_normalize(attrs, playing, l.players@[i].ha_url@) {
                    Err(_) => actions.len() == 0,
                    Ok(mm) => {
                        &&& actions.len() == 2
                        &&& actions[0] matches ListenerAction::Route(rid, ev) && rid@ == id && ev
                            == (if playing {
                            HAEvent::Play
                        } else {
                            HAEvent::Pause
                        })
                        &&& actions[1] matches ListenerAction::Route(rid2, ev2) && rid2@ == id && (
                        ev2 matches HAEvent::MetadataUpdated(md) && md@ == mm)
                    },
                }
            },
        },
    }
}

/// What a streaming listener does with one adapter-originated command: a
/// command for an unregistered entity, or a metadata update, is dropped
/// without any action; anything else becomes the matching hub API call.
pub open spec fn spec_dispatch_actions(
    l: HubListener,
    id: String,
    ev: HAEvent,
    actions: Seq<ListenerAction>,
) -> bool {
    match spec_find_player(l.players@, id@) {
        None => actions.len() == 0,
        Some(i) => match ev {
            HAEvent::MetadataUpdated(_) => actions.len() == 0,
            _ => actions.len() == 1 && (actions[0] matches ListenerAction::Dispatch(q)
                && l.players@[i].spec_event_request(ev, q)),
        },
    }
}

/// The actions one input asks of the outside world. Opening the
/// transport prompts the auth frame; a good auth answer prompts the
/// subscribe frame; streaming inputs route and dispatch; everything else
/// asks nothing.
pub open spec fn spec_step_actions(
    l: HubListener,
    input: ListenerInput,
    actions: Seq<ListenerAction>,
) -> bool {
    match l.phase {
        ListenerPhase::Connecting => match input {
            ListenerInput::Connected => actions.len() == 1 && (
            actions[0] matches ListenerAction::SendFrame(f) && spec_is_auth_frame(
                f,
                l.access_token@,
            )),
            _ => actions.len() == 0,
        },
        ListenerPhase::Authenticating => match input {
            ListenerInput::Frame(f) => if spec_frame_type(f) == Some("auth_ok"@) {
                actions.len() == 1 && (actions[0] matches ListenerAction::SendFrame(g)
                    && spec_is_subscribe_frame(g))
            } else {
                actions.len() == 0
            },
            _ => actions.len() == 0,
        },
        ListenerPhase::Streaming => match input {
            ListenerInput::Frame(f) => spec_route_actions(l, f, actions),
            ListenerInput::Outbound(id, ev) => spec_dispatch_actions(l, id, ev, actions),
            _ => actions.len() == 0,
        },
        _ => actions.len() == 0,
    }
}

/// The `type` field of a frame, as executable code.
fn frame_type(f: &JsonVal) -> (r: Option<&String>)
    ensures
        match r {
            Some(s) => spec_frame_type(*f) == Some(s@),
            None => spec_frame_type(*f) is None,
        },
{
    match f {
        JsonVal::Obj(entries) => match obj_get(entries, "type") {
            Some(v) => match v {
                JsonVal::Str(s) => Some(s),
                _ => None,
            },
            None => None,
        },
        _ => None,
    }
}

/// The entity id, state and attributes of an event frame, as executable
/// code.
fn event_fields<'a>(f: &'a JsonVal) -> (r: Option<(&'a String, &'a String, &'a Vec<(String, JsonVal)>)>)
    ensures
        match r {
            Some(t) => spec_event_fields(*f) == Some((t.0@, t.1@, t.2@)),
            None => spec_event_fields(*f) is None,
        },
{
    let top = match f {
        JsonVal::Obj(entries) => entries,
        _ => {
            return None;
        },
    };
    let evf = match obj_get(top, "event") {
        Some(JsonVal::Obj(entries)) => entries,
        _ => {
            return None;
        },
    };
    let df = match obj_get(evf, "data") {
        Some(JsonVal::Obj(entries)) => entries,
        _ => {
            return None;
        },
    };
    let id = match obj_get(df, "entity_id") {
        Some(JsonVal::Str(s)) => s,
        _ => {
            return None;
        },
    };
    let nsf = match obj_get(df, "new_state") {
        Some(JsonVal::Obj(entries)) => entries,
        _ => {
            return None;
        },
    };
    let st = match obj_get(nsf, "state") {
        Some(JsonVal::Str(s)) => s,
        _ => {
            return None;
        },
    };
    let at = match obj_get(nsf, "attributes") {
        Some(JsonVal::Obj(entries)) => entries,
        _ => {
            return None;
        },
    };
    Some((id, st, at))
}

/// The index of the registered player for an entity id, as executable
/// code.
fn find_player(players: &Vec<MediaPlayerState>, id: &str) -> (r: Option<usize>)
    ensures
        match r {
            Some(i) => i < players@.len() && spec_find_player(players@, id@) == Some(i as int),
            None => spec_find_player(players@, id@) is None,
        },
{
    let n: usize = players.len();
    let mut i: usize = 0;
    while i < n
        invariant
            i <= n,
            n == players@.len(),
            forall|j: int| 0 <= j < i ==> players@[j].entity_id@ != id@,
        decreases n - i,
    {
        if str_eq(players[i].entity_id.as_str(), id) {
            proof {
                lemma_find_player_at(players@, id@, i as int);
            }
            return Some(i);
        }
        i = i + 1;
    }
    proof {
        lemma_find_player_none(players@, id@);
    }
    None
}

/// A first-match witness: if everything before `i` misses and `i` hits,
/// the registered player is `i`.
proof fn lemma_find_player_at(players: Seq<MediaPlayerState>, id: Seq<char>, i: int)
    requires
        0 <= i < players.len(),
        players[i].entity_id@ == id,
        forall|j: int| 0 <= j < i ==> players[j].entity_id@ != id,
    ensures
        spec_find_player(players, id) == Some(i),
    decreases i,
{
    if i == 0 {
    } else {
        assert(players.drop_first()[i - 1] == players[i]);
        assert(forall|j: int| 0 <= j < i - 1 ==> players.drop_first()[j] == players[j + 1]);
        lemma_find_player_at(players.drop_first(), id, i - 1);
    }
}

/// If every player misses, none is registered.
proof fn lemma_find_player_none(players: Seq<MediaPlayerState>, id: Seq<char>)
    requires
        forall|j: int| 0 <= j < players.len() ==> players[j].entity_id@ != id,
    ensures
        spec_find_player(players, id) is None,
    decreases players.len(),
{
    if players.len() == 0 {
    } else {
        assert(forall|j: int|
            0 <= j < players.drop_first().len() ==> players.drop_first()[j] == players[j + 1]);
        lemma_find_player_none(players.drop_first(), id);
    }
}

/// The authentication frame carrying this token.
fn auth_frame(token: &String) -> (r: JsonVal)
    ensures
        spec_is_auth_frame(r, token@),
{
    let mut entries: Vec<(String, JsonVal)> = Vec::new();
    entries.push(("type".to_owned(), JsonVal::Str("auth".to_owned())));
    entries.push(("access_token".to_owned(), JsonVal::Str(token.clone())));
    JsonVal::Obj(entries)
}

/// The subscription frame for state-changed events.
fn subscribe_frame() -> (r: JsonVal)
    ensures
        spec_is_subscribe_frame(r),
{
    let mut entries: Vec<(String, JsonVal)> = Vec::new();
    entries.push(("id".to_owned(), JsonVal::Int(1)));
    entries.push(("type".to_owned(), JsonVal::Str("subscribe_events".to_owned())));
    entries.push(("event_type".to_owned(), JsonVal::Str("state_changed".to_owned())));
    JsonVal::Obj(entries)
}

impl HubListener {
    /// A fresh listener over the given routing table, ready to connect.
    pub fn new(players: Vec<MediaPlayerState>, access_token: String) -> (r: Self)
        ensures
            r.phase == ListenerPhase::Connecting,
            r.players == players,
            r.access_token == access_token,
    {
        HubListener { phase: ListenerPhase::Connecting, players, access_token }
    }

    /// The supervisor's restart: back to connecting, with the routing
    /// table and token kept, so no adapter loses its cache.
    pub fn restart(&mut self)
        ensures
            final(self).phase == ListenerPhase::Connecting,
            final(self).players == old(self).players,
            final(self).access_token == old(self).access_token,
    {
        self.phase = ListenerPhase::Connecting;
    }

    /// Feeds one input to the state machine: moves to the next phase and
    /// says what to do. The routing table and token never change; a
    /// single bad event never ends the session.
    pub fn step(&mut self, input: ListenerInput) -> (actions: Vec<ListenerAction>)
        ensures
            final(self).players == old(self).players,
            final(self).access_token == old(self).access_token,
            final(self).phase == spec_next_phase(*old(self), input),
            spec_step_actions(*old(self), input, actions@),
    {
        let mut actions: Vec<ListenerAction> = Vec::new();
        match self.phase {
            ListenerPhase::Connecting => match input {
                ListenerInput::Connected => {
                    self.phase = ListenerPhase::Authenticating;
                    actions.push(ListenerAction::SendFrame(auth_frame(&self.access_token)));
                },
                ListenerInput::ConnectFailed => {
                    self.phase = ListenerPhase::Terminated(TerminationReason::ConnectError);
                },
                _ => {},
            },
            ListenerPhase::Authenticating => match input {
                ListenerInput::Frame(f) => {
                    let is_ok = match frame_type(&f) {
                        Some(t) => str_eq(t.as_str(), "auth_ok"),
                        None => false,
                    };
                    let is_invalid = match frame_type(&f) {
                        Some(t) => str_eq(t.as_str(), "auth_invalid"),
                        None => false,
                    };
                    if is_ok {
                        proof {
                            reveal_strlit("auth_ok");
                            reveal_strlit("auth_invalid");
                        }
                        self.phase = ListenerPhase::Subscribing;
                        actions.push(ListenerAction::SendFrame(subscribe_frame()));
                    } else if is_invalid {
                        self.phase = ListenerPhase::Terminated(TerminationReason::AuthRejected);
                    }
                },
                ListenerInput::SendFailed => {
                    self.phase = ListenerPhase::Terminated(TerminationReason::ConnectError);
                },
                ListenerInput::StreamClosed => {
                    self.phase = ListenerPhase::Terminated(TerminationReason::ConnectionClosed);
                },
                _ => {},
            },
            ListenerPhase::Subscribing => match input {
                ListenerInput::SendOk => {
                    self.phase = ListenerPhase::Streaming;
                },
                ListenerInput::SendFailed => {
                    self.phase = ListenerPhase::Terminated(TerminationReason::SubscribeError);
                },
                ListenerInput::StreamClosed => {
                    self.phase = ListenerPhase::Terminated(TerminationReason::ConnectionClosed);
                },
                _ => {},
            },
            ListenerPhase::Streaming => match input {
                ListenerInput::Frame(f) => {
                    match event_fields(&f) {
                        Some((id, state, attrs)) => match find_player(&self.players, id.as_str()) {
                            Some(i) => {
                                match self.players[i].update_metadata(attrs, state.as_str()) {
                                    Ok(mut events) => {
                                        let second = events.pop();
                                        let first = events.pop();
                                        match (first, second) {
                                            (Some(a), Some(b)) => {
                                                actions.push(ListenerAction::Route(id.clone(), a));
                                                actions.push(ListenerAction::Route(id.clone(), b));
                                            },
                                            _ => {},
                                        }
                                    },
                                    Err(_) => {},
                                }
                            },
                            None => {},
                        },
                        None => {},
                    }
                },
                ListenerInput::Outbound(id, ev) => {
                    match find_player(&self.players, id.as_str()) {
                        Some(i) => match self.players[i].request_for(&ev) {
                            Some(q) => {
                                actions.push(ListenerAction::Dispatch(q));
                            },
                            None => {},
                        },
                        None => {},
                    }
                },
                ListenerInput::StreamClosed => {
                    self.phase = ListenerPhase::Terminated(TerminationReason::ConnectionClosed);
                },
                ListenerInput::IdleTimeout => {
                    self.phase = ListenerPhase::Terminated(TerminationReason::IdleTimeout);
                },
                _ => {},
            },
            ListenerPhase::Terminated(_) => {},
        }
        actions
    }
}

/// Law: an inbound event for an unregistered entity changes nothing. A
/// streaming listener handed such a frame stays streaming, keeps its
/// routing table, and routes nothing, so no adapter hears of it.
pub proof fn lemma_unregistered_event_dropped(
    l: HubListener,
    f: JsonVal,
    actions: Seq<ListenerAction>,
)
    requires
        l.phase is Streaming,
        spec_event_fields(f) matches Some(t) && spec_find_player(l.players@, t.0) is None,
        spec_step_actions(l, ListenerInput::Frame(f), actions),
    ensures
        spec_next_phase(l, ListenerInput::Frame(f)) is Streaming,
        actions == Seq::<ListenerAction>::empty(),
{
    assert(actions.len() == 0);
    assert(actions =~= Seq::<ListenerAction>::empty());
}

/// Law: an outbound command for an entity with no registered route is
/// dropped silently: the listener stays streaming and asks for nothing.
pub proof fn lemma_unregistered_outbound_dropped(
    l: HubListener,
    id: String,
    ev: HAEvent,
    actions: Seq<ListenerAction>,
)
    requires
        l.phase is Streaming,
        spec_find_player(l.players@, id@) is None,
        spec_step_actions(l, ListenerInput::Outbound(id, ev), actions),
    ensures
        spec_next_phase(l, ListenerInput::Outbound(id, ev)) is Streaming,
        actions == Seq::<ListenerAction>::empty(),
{
    assert(actions.len() == 0);
    assert(actions =~= Seq::<ListenerAction>::empty());
}

/// Law: idle recovery. A streaming listener that sees the idle window
/// elapse terminates with the idle reason; restarted over the same
/// routing table it connects again, and the open transport prompts a
/// fresh authentication handshake.
pub proof fn lemma_idle_timeout_recovery(l: HubListener)
    requires
        l.phase is Streaming,
    ensures
        spec_next_phase(l, ListenerInput::IdleTimeout) == ListenerPhase::Terminated(
            TerminationReason::IdleTimeout,
        ),
        spec_next_phase(
            (HubListener { phase: ListenerPhase::Connecting, ..l }),
            ListenerInput::Connected,
        ) == ListenerPhase::Authenticating,
{
}

} // verus!
