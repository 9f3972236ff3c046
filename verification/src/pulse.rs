//! The pulse controller: each actuation binds a fresh channel, sends one
//! "on" frame, holds, sends one "off" frame, and reports. The controller is a
//! state machine; the driver that performs the channel work feeds the outcome
//! of each action back as an event. A failed actuation is terminal and is
//! retried only by a fresh request.

use vstd::prelude::*;
use vstd::string::StringExecFns;

use crate::config::host_chars;
use crate::config::host_string;
use crate::config::find_mapping;
use crate::config::CmiConfig;
use crate::config::DoorMapping;

verus! {

/// How long the actuator is held on between the two pulses, in seconds.
pub const HOLD_SECONDS: u64 = 15;

/// The 12-byte wire frame carrying one digital on/off value for the virtual
/// node `node` at output index `index`: the protocol header (version 2.0,
/// twelve bytes, one payload), the destination, the digital format, the
/// on/off unit, and the value in the low byte of a little-endian word.
pub open spec fn on_off_frame(node: u8, index: u8, on: bool) -> Seq<u8> {
    seq![
        2u8,
        0u8,
        12u8,
        1u8,
        node,
        index,
        0u8,
        43u8,
        (if on {
            1u8
        } else {
            0u8
        }),
        0u8,
        0u8,
        0u8,
    ]
}

/// Relies on the coe codec — Payload::new, Packet::try_from_payloads and
/// Packet::serialize_into_vec — to build the wire frame for one digital
/// on/off payload: a 4-byte header `[2, 0, 12, 1]` followed by the 8-byte
/// payload `[node, index, 0, 43, value, 0, 0, 0]`.
#[verifier::external_body]
pub fn encode_on_off_frame(node: u8, index: u8, on: bool) -> (r: Vec<u8>)
    ensures
        r@ == on_off_frame(node, index, on),
{
    let payload = coe::Payload::new(
        node,
        index,
        coe::COEValue::Digital(coe::DigitalCOEValue::OnOff(on)),
    );
    let packet = coe::Packet::try_from_payloads(&[payload]).expect(
        "a single payload always fits in a packet",
    );
    packet.serialize_into_vec()
}

/// Where one actuation failed. Transport failures are never retried; a
/// failure after the "on" frame can leave the actuator on.
#[derive(PartialEq, Eq, Structural, Clone, Copy, Debug)]
pub enum PulseError {
    /// No outbound channel could be bound.
    ChannelBind,
    /// Sending the "on" frame failed.
    SendOn,
    /// Sending the "off" frame failed; the actuator may be left on.
    SendOff,
}

/// The message reported to the caller for a failed actuation.
pub open spec fn pulse_error_chars(e: PulseError) -> Seq<char> {
    match e {
        PulseError::ChannelBind => "Unable to bind an outbound UDP socket"@,
        PulseError::SendOn => "Unable to send the CoE on frame"@,
        PulseError::SendOff => "Unable to send the CoE off frame; the door may be left open"@,
    }
}

impl PulseError {
    /// The message reported to the caller for this failure.
    pub fn message(&self) -> (r: String)
        ensures
            r@ == pulse_error_chars(*self),
    {
        match self {
            PulseError::ChannelBind => String::from_str("Unable to bind an outbound UDP socket"),
            PulseError::SendOn => String::from_str("Unable to send the CoE on frame"),
            PulseError::SendOff => String::from_str(
                "Unable to send the CoE off frame; the door may be left open",
            ),
        }
    }
}

/// One actuation's progress. `Done` and `Failed` are terminal: there is no
/// recovery transition, a failed actuation is retried only by a fresh
/// request.
#[derive(PartialEq, Eq, Structural, Clone, Copy, Debug)]
pub enum PulseState {
    /// Nothing has happened yet; a channel must be opened.
    Idle,
    /// The channel is bound; the "on" frame must be sent.
    ChannelOpen,
    /// The "on" frame is out; the hold must elapse.
    PulseOn,
    /// The hold has elapsed; the "off" frame must be sent.
    Holding,
    /// The "off" frame is out; success must be reported.
    PulseOff,
    /// The actuation completed and was reported.
    Done,
    /// The actuation failed; nothing further happens.
    Failed(PulseError),
}

/// The outcome of one action, fed back by the driver.
#[derive(PartialEq, Eq, Structural, Clone, Copy, Debug)]
pub enum PulseEvent {
    /// The channel was bound.
    BindOk,
    /// The channel could not be bound.
    BindFailed,
    /// The frame was sent.
    SendOk,
    /// The frame could not be sent.
    SendFailed,
    /// The hold duration elapsed.
    HoldElapsed,
    /// Success was reported to the caller.
    Reported,
}

/// What the driver must do next in a given state.
#[derive(Debug)]
pub enum PulseAction {
    /// Bind a fresh connectionless channel on an ephemeral local port.
    OpenChannel,
    /// Send one wire frame to the controller endpoint.
    SendFrame { host: String, frame: Vec<u8> },
    /// Suspend for the given number of seconds, without blocking others.
    Hold { seconds: u64 },
    /// Report success to the caller.
    Report,
}

/// One transition: the next state after `ev` arrives in `s`. An event that
/// does not answer the state's action leaves the state unchanged.
pub open spec fn pulse_step(s: PulseState, ev: PulseEvent) -> PulseState {
    match s {
        PulseState::Idle => match ev {
            PulseEvent::BindOk => PulseState::ChannelOpen,
            PulseEvent::BindFailed => PulseState::Failed(PulseError::ChannelBind),
            _ => s,
        },
        PulseState::ChannelOpen => match ev {
            PulseEvent::SendOk => PulseState::PulseOn,
            PulseEvent::SendFailed => PulseState::Failed(PulseError::SendOn),
            _ => s,
        },
        PulseState::PulseOn => match ev {
            PulseEvent::HoldElapsed => PulseState::Holding,
            _ => s,
        },
        PulseState::Holding => match ev {
            PulseEvent::SendOk => PulseState::PulseOff,
            PulseEvent::SendFailed => PulseState::Failed(PulseError::SendOff),
            _ => s,
        },
        PulseState::PulseOff => match ev {
            PulseEvent::Reported => PulseState::Done,
            _ => s,
        },
        PulseState::Done => s,
        PulseState::Failed(_) => s,
    }
}

impl PulseState {
    /// Advance by one event.
    pub fn step(self, ev: PulseEvent) -> (r: PulseState)
        ensures
            r == pulse_step(self, ev),
    {
        match self {
            PulseState::Idle => match ev {
                PulseEvent::BindOk => PulseState::ChannelOpen,
                PulseEvent::BindFailed => PulseState::Failed(PulseError::ChannelBind),
                _ => self,
            },
            PulseState::ChannelOpen => match ev {
                PulseEvent::SendOk => PulseState::PulseOn,
                PulseEvent::SendFailed => PulseState::Failed(PulseError::SendOn),
                _ => self,
            },
            PulseState::PulseOn => match ev {
                PulseEvent::HoldElapsed => PulseState::Holding,
                _ => self,
            },
            PulseState::Holding => match ev {
                PulseEvent::SendOk => PulseState::PulseOff,
                PulseEvent::SendFailed => PulseState::Failed(PulseError::SendOff),
                _ => self,
            },
            PulseState::PulseOff => match ev {
                PulseEvent::Reported => PulseState::Done,
                _ => self,
            },
            PulseState::Done => self,
            PulseState::Failed(_) => self,
        }
    }

    /// The action the driver must perform in this state, against the given
    /// mapping: open the channel, send the "on" frame to the mapping's
    /// endpoint, hold, send the "off" frame with the same node and index,
    /// report; nothing in a terminal state.
    pub fn action(&self, m: &DoorMapping) -> (a: Option<PulseAction>)
        ensures
            self is Idle ==> a matches Some(PulseAction::OpenChannel),
            self is ChannelOpen ==> (a matches Some(PulseAction::SendFrame { host, frame })
                && host@ == host_chars(m.cmi_address, m.cmi_port) && frame@ == on_off_frame(
                m.virtual_node,
                m.pdo,
                true,
            )),
            self is PulseOn ==> (a matches Some(PulseAction::Hold { seconds }) && seconds
                == HOLD_SECONDS),
            self is Holding ==> (a matches Some(PulseAction::SendFrame { host, frame }) && host@
                == host_chars(m.cmi_address, m.cmi_port) && frame@ == on_off_frame(
                m.virtual_node,
                m.pdo,
                false,
            )),
            self is PulseOff ==> a matches Some(PulseAction::Report),
            self is Done || self is Failed ==> a is None,
    {
        match self {
            PulseState::Idle => Some(PulseAction::OpenChannel),
            PulseState::ChannelOpen => Some(
                PulseAction::SendFrame {
                    host: host_string(&m.cmi_address, m.cmi_port),
                    frame: encode_on_off_frame(m.virtual_node, m.pdo, true),
                },
            ),
            PulseState::PulseOn => Some(PulseAction::Hold { seconds: HOLD_SECONDS }),
            PulseState::Holding => Some(
                PulseAction::SendFrame {
                    host: host_string(&m.cmi_address, m.cmi_port),
                    frame: encode_on_off_frame(m.virtual_node, m.pdo, false),
                },
            ),
            PulseState::PulseOff => Some(PulseAction::Report),
            PulseState::Done => None,
            PulseState::Failed(_) => None,
        }
    }
}

/// The state after a whole run of events.
pub open spec fn pulse_run(s: PulseState, evs: Seq<PulseEvent>) -> PulseState
    decreases evs.len(),
{
    if evs.len() == 0 {
        s
    } else {
        pulse_run(pulse_step(s, evs[0]), evs.drop_first())
    }
}

/// How many "on" frames the driver sends during a run: one for each step in
/// which the send action's outcome arrives.
pub open spec fn on_sends(s: PulseState, evs: Seq<PulseEvent>) -> nat
    decreases evs.len(),
{
    if evs.len() == 0 {
        0
    } else {
        (if s is ChannelOpen && (evs[0] is SendOk || evs[0] is SendFailed) {
            1nat
        } else {
            0nat
        }) + on_sends(pulse_step(s, evs[0]), evs.drop_first())
    }
}

/// How many "off" frames the driver sends during a run.
pub open spec fn off_sends(s: PulseState, evs: Seq<PulseEvent>) -> nat
    decreases evs.len(),
{
    if evs.len() == 0 {
        0
    } else {
        (if s is Holding && (evs[0] is SendOk || evs[0] is SendFailed) {
            1nat
        } else {
            0nat
        }) + off_sends(pulse_step(s, evs[0]), evs.drop_first())
    }
}

/// How many "on" frames were already sent on the way to state `s`.
pub open spec fn on_sends_before(s: PulseState) -> nat {
    match s {
        PulseState::Idle => 0,
        PulseState::ChannelOpen => 0,
        PulseState::Failed(PulseError::ChannelBind) => 0,
        _ => 1,
    }
}

/// How many "off" frames were already sent on the way to state `s`.
pub open spec fn off_sends_before(s: PulseState) -> nat {
    match s {
        PulseState::PulseOff => 1,
        PulseState::Done => 1,
        PulseState::Failed(PulseError::SendOff) => 1,
        _ => 0,
    }
}

/// Terminal states stay put: no event moves `Done` or `Failed`, and no
/// further frame is ever sent from them.
pub proof fn lemma_pulse_terminal(s: PulseState, evs: Seq<PulseEvent>)
    requires
        s is Done || s is Failed,
    ensures
        pulse_run(s, evs) == s,
        on_sends(s, evs) == 0,
        off_sends(s, evs) == 0,
    decreases evs.len(),
{
    if evs.len() > 0 {
        assert(pulse_step(s, evs[0]) == s);
        lemma_pulse_terminal(s, evs.drop_first());
    }
}

/// The frames sent during a run are exactly what the final state records: a
/// run's send counts are the difference of `..._sends_before` across it.
pub proof fn lemma_pulse_send_counts(s: PulseState, evs: Seq<PulseEvent>)
    ensures
        on_sends_before(s) + on_sends(s, evs) == on_sends_before(pulse_run(s, evs)),
        off_sends_before(s) + off_sends(s, evs) == off_sends_before(pulse_run(s, evs)),
    decreases evs.len(),
{
    if evs.len() > 0 {
        lemma_pulse_send_counts(pulse_step(s, evs[0]), evs.drop_first());
    }
}

/// Exactly-once pulse timing, from the start state: a run sends at most one
/// "on" and at most one "off" frame, never more "off" than "on" frames, and
/// a run that completes sends exactly one of each.
pub proof fn lemma_pulse_exactly_once(evs: Seq<PulseEvent>)
    ensures
        on_sends(PulseState::Idle, evs) <= 1,
        off_sends(PulseState::Idle, evs) <= on_sends(PulseState::Idle, evs),
        pulse_run(PulseState::Idle, evs) is Done ==> on_sends(PulseState::Idle, evs) == 1
            && off_sends(PulseState::Idle, evs) == 1,
{
    lemma_pulse_send_counts(PulseState::Idle, evs);
}

/// Why an open-door request was rejected before any transport activity.
#[derive(PartialEq, Eq, Structural, Clone, Copy, Debug)]
pub enum RequestError {
    /// The route matched, but no door name was captured.
    NoCapture,
    /// The captured door name is not configured.
    UnknownDoor,
}

/// The open-door handler: holds the door mappings and resolves each request's
/// captured name before any pulse is driven.
#[derive(Debug)]
pub struct OpenDoorHandler {
    pub config: CmiConfig,
}

impl OpenDoorHandler {
    /// The first mapping configured under `door_name`, if any.
    pub fn get_cmi_for_door(&self, door_name: &str) -> (r: Option<&DoorMapping>)
        ensures
            match r {
                Some(m) => find_mapping(self.config.door_mappings@, door_name@) == Some(*m),
                None => find_mapping(self.config.door_mappings@, door_name@) is None,
            },
    {
        self.config.get_cmi_for_door(door_name)
    }

    /// Decide one request: a request without a captured door name and one
    /// naming an unknown door are rejected — no channel is opened and no
    /// frame is sent for them; otherwise the first matching mapping is the
    /// one the pulse is driven against.
    pub fn resolve(&self, door: Option<&String>) -> (r: Result<&DoorMapping, RequestError>)
        ensures
            match r {
                Ok(m) => door is Some && find_mapping(self.config.door_mappings@, door->Some_0@)
                    == Some(*m),
                Err(RequestError::NoCapture) => door is None,
                Err(RequestError::UnknownDoor) => door is Some && find_mapping(
                    self.config.door_mappings@,
                    door->Some_0@,
                ) is None,
            },
    {
        match door {
            None => Err(RequestError::NoCapture),
            Some(name) => match self.config.get_cmi_for_door(name.as_str()) {
                Some(m) => Ok(m),
                None => Err(RequestError::UnknownDoor),
            },
        }
    }
}

} // verus!
