use vstd::prelude::*;
use crate::code::{
    ControlCode, ACK, DC1, DC2, DC3, SYN, encode_spec, request_code_spec,
    requested_orientation_spec,
};
use crate::exchange::Failure;
use crate::orientation::{Orientation, quarter_turns};

verus! {

/// Tilt, in degrees, past which the device asks for a rotation; sent with
/// the host's status reply.
pub const AUTOROTATE_THRESHOLD_DEG: u8 = 65;

/// Whether autorotation is on, and the orientation last confirmed.
#[derive(Clone, Copy, Debug, PartialEq, Eq, Structural)]
pub struct Autorotation {
    pub enabled: bool,
    pub orientation: Orientation,
}

impl Autorotation {
    /// The state at startup: autorotation off, showing `orientation`.
    pub fn new(orientation: Orientation) -> (r: Autorotation)
        ensures
            r == (Autorotation { enabled: false, orientation }),
    {
        Autorotation { enabled: false, orientation }
    }
}

/// What a reply to an enable or disable request calls for.
#[derive(Clone, Copy, Debug, PartialEq, Eq, Structural)]
pub enum ToggleStep {
    /// The device agreed: flip the enabled flag.
    Switch,
    /// The device declined: keep the state.
    Keep,
    /// The device asks for the host's status before it answers.
    ReplyStatus,
    /// The reply made no sense here: keep the state and report it.
    Unexpected(u8),
}

/// The step for reply `c` to an enable or disable request (`nested`: to the
/// status sent after the device asked for it, where only ACK is expected).
pub open spec fn toggle_step_spec(c: ControlCode, nested: bool) -> ToggleStep {
    if nested {
        if c == ControlCode::Ack {
            ToggleStep::Switch
        } else {
            ToggleStep::Unexpected(encode_spec(c))
        }
    } else {
        match c {
            ControlCode::Ack => ToggleStep::Switch,
            ControlCode::Nak => ToggleStep::Keep,
            ControlCode::Enq => ToggleStep::ReplyStatus,
            _ => ToggleStep::Unexpected(encode_spec(c)),
        }
    }
}

/// Decides what a reply to an enable or disable request calls for: ACK flips
/// the flag; to the request itself NAK keeps it and ENQ asks for the host's
/// status; after the status any reply but ACK is unexpected.
pub fn toggle_step(c: ControlCode, nested: bool) -> (r: ToggleStep)
    ensures
        r == toggle_step_spec(c, nested),
{
    if nested {
        match c {
            ControlCode::Ack => ToggleStep::Switch,
            _ => ToggleStep::Unexpected(c.encode()),
        }
    } else {
        match c {
            ControlCode::Ack => ToggleStep::Switch,
            ControlCode::Nak => ToggleStep::Keep,
            ControlCode::Enq => ToggleStep::ReplyStatus,
            _ => ToggleStep::Unexpected(c.encode()),
        }
    }
}

/// The request that toggles autorotation from state `enabled`: DC2 to turn
/// it off, DC1 to turn it on.
pub open spec fn toggle_request_spec(enabled: bool) -> Seq<u8> {
    if enabled {
        seq![DC2]
    } else {
        seq![DC1]
    }
}

/// Builds the request that toggles autorotation.
pub fn toggle_request(enabled: bool) -> (r: Vec<u8>)
    ensures
        r@ == toggle_request_spec(enabled),
{
    if enabled {
        vec![DC2]
    } else {
        vec![DC1]
    }
}

/// The two-byte status the host sends when the device asks: the wire byte
/// of the current orientation, then the tilt threshold.
pub open spec fn status_payload_spec(o: Orientation) -> Seq<u8> {
    seq![quarter_turns(o) as u8, AUTOROTATE_THRESHOLD_DEG]
}

/// Builds the host's status message.
pub fn status_payload(o: Orientation) -> (r: Vec<u8>)
    ensures
        r@ == status_payload_spec(o),
{
    vec![o.tag(), AUTOROTATE_THRESHOLD_DEG]
}

/// A request that expects a one-byte answer and changes no state.
#[derive(Clone, Copy, Debug, PartialEq, Eq, Structural)]
pub enum Probe {
    /// Is the link up? Answered by ACK.
    TestLink,
    /// Recalibrate the sensor. Answered by ACK.
    Recalibrate,
    /// Does the device run autorotation? ACK yes, NAK no.
    QueryStatus,
}

/// The bytes sent for `p`: SYN for a link test and for a status query, DC3
/// to recalibrate.
pub open spec fn probe_request_spec(p: Probe) -> Seq<u8> {
    match p {
        Probe::TestLink => seq![SYN],
        Probe::Recalibrate => seq![DC3],
        Probe::QueryStatus => seq![SYN],
    }
}

/// Builds the request for `p`.
pub fn probe_request(p: Probe) -> (r: Vec<u8>)
    ensures
        r@ == probe_request_spec(p),
{
    match p {
        Probe::TestLink => vec![SYN],
        Probe::Recalibrate => vec![DC3],
        Probe::QueryStatus => vec![SYN],
    }
}

/// The state after a toggle whose exchange ended in `step`.
pub open spec fn after_toggle_spec(s: Autorotation, step: ToggleStep) -> Autorotation {
    if step == ToggleStep::Switch {
        Autorotation { enabled: !s.enabled, ..s }
    } else {
        s
    }
}

/// Whether a reply confirms a request that only wants an ACK; `Err` carries
/// the byte that came instead.
pub open spec fn ack_result_spec(c: ControlCode) -> Result<(), Failure> {
    if c == ControlCode::Ack {
        Ok(())
    } else {
        Err(Failure::UnexpectedCode(encode_spec(c)))
    }
}

/// Checks that a reply is ACK.
pub fn expect_ack(c: ControlCode) -> (r: Result<(), Failure>)
    ensures
        r == ack_result_spec(c),
{
    match c {
        ControlCode::Ack => Ok(()),
        _ => Err(Failure::UnexpectedCode(c.encode())),
    }
}

/// What the reply to a status query says: ACK, autorotation runs on the
/// device; NAK, it does not.
pub open spec fn status_result_spec(c: ControlCode) -> Result<bool, Failure> {
    match c {
        ControlCode::Ack => Ok(true),
        ControlCode::Nak => Ok(false),
        _ => Err(Failure::UnexpectedCode(encode_spec(c))),
    }
}

/// Reads the reply to a status query.
pub fn status_result(c: ControlCode) -> (r: Result<bool, Failure>)
    ensures
        r == status_result_spec(c),
{
    match c {
        ControlCode::Ack => Ok(true),
        ControlCode::Nak => Ok(false),
        _ => Err(Failure::UnexpectedCode(c.encode())),
    }
}

/// What the background listener does with a byte that arrived unasked.
#[derive(Clone, Copy, Debug, PartialEq, Eq, Structural)]
pub enum ListenerAction {
    /// Not a rotation request: drop it.
    Discard,
    /// Send `reply` back for a request of `target`, then rotate if `rotate`.
    Acknowledge { target: Orientation, rotate: bool, reply: u8 },
}

/// The listener's action for code `c` in state `s`, while autorotation is on.
pub open spec fn listener_action_spec(s: Autorotation, c: ControlCode) -> ListenerAction {
    match requested_orientation_spec(c) {
        Some(o) => ListenerAction::Acknowledge { target: o, rotate: o != s.orientation, reply: ACK },
        None => ListenerAction::Discard,
    }
}

/// Decides what to do with an unasked byte: DC1 to DC4 are answered with ACK and
/// rotate the display unless it already shows what they ask for; any other
/// byte is dropped.
pub fn listener_action(s: Autorotation, c: ControlCode) -> (r: ListenerAction)
    ensures
        r == listener_action_spec(s, c),
{
    match c.requested_orientation() {
        Some(o) => ListenerAction::Acknowledge { target: o, rotate: o != s.orientation, reply: ACK },
        None => ListenerAction::Discard,
    }
}

/// Where a toggle stands.
#[derive(Clone, Copy, Debug, PartialEq, Eq, Structural)]
pub enum ToggleStage {
    /// The enable or disable request is to be sent and answered.
    Requesting,
    /// The host's status is to be sent and answered.
    Reporting,
    /// The exchange ended with this step (never `ReplyStatus`).
    Settled(ToggleStep),
    /// An exchange failed.
    Failed(Failure),
}

/// Order of the stages along a toggle, last first.
pub open spec fn toggle_rank(stage: ToggleStage) -> nat {
    match stage {
        ToggleStage::Requesting => 2,
        ToggleStage::Reporting => 1,
        _ => 0,
    }
}

/// The bytes sent in `stage`, from state `s`: the toggle request first, the
/// status when the device asked for it.
pub open spec fn toggle_message_spec(s: Autorotation, stage: ToggleStage) -> Seq<u8> {
    match stage {
        ToggleStage::Requesting => toggle_request_spec(s.enabled),
        ToggleStage::Reporting => status_payload_spec(s.orientation),
        _ => Seq::empty(),
    }
}

/// Builds the bytes to send in `stage`.
pub fn toggle_message(s: Autorotation, stage: ToggleStage) -> (r: Vec<u8>)
    ensures
        r@ == toggle_message_spec(s, stage),
{
    match stage {
        ToggleStage::Requesting => toggle_request(s.enabled),
        ToggleStage::Reporting => status_payload(s.orientation),
        _ => Vec::new(),
    }
}

/// The stage after the exchange of `stage` ended with `reply`.
pub open spec fn toggle_next_spec(stage: ToggleStage, reply: Result<ControlCode, Failure>) -> ToggleStage {
    match reply {
        Err(f) => ToggleStage::Failed(f),
        Ok(c) => {
            let step = toggle_step_spec(c, stage == ToggleStage::Reporting);
            if step == ToggleStep::ReplyStatus {
                ToggleStage::Reporting
            } else {
                ToggleStage::Settled(step)
            }
        },
    }
}

/// Moves a toggle on by the result of its current exchange.
pub fn toggle_next(stage: ToggleStage, reply: Result<ControlCode, Failure>) -> (r: ToggleStage)
    requires
        stage == ToggleStage::Requesting || stage == ToggleStage::Reporting,
    ensures
        r == toggle_next_spec(stage, reply),
        toggle_rank(r) < toggle_rank(stage),
        r matches ToggleStage::Settled(step) ==> step != ToggleStep::ReplyStatus,
{
    match reply {
        Err(f) => ToggleStage::Failed(f),
        Ok(c) => {
            let nested = match stage {
                ToggleStage::Reporting => true,
                _ => false,
            };
            let step = toggle_step(c, nested);
            match step {
                ToggleStep::ReplyStatus => ToggleStage::Reporting,
                _ => ToggleStage::Settled(step),
            }
        },
    }
}

/// From off, the toggle sends DC1 and ACK turns autorotation on while NAK
/// leaves it off; from on, it sends DC2 with the same reading. ENQ makes
/// it send the orientation byte and the threshold, and then only ACK flips.
pub proof fn lemma_toggle_exchange(s: Autorotation)
    ensures
        !s.enabled ==> toggle_message_spec(s, ToggleStage::Requesting) == seq![DC1],
        s.enabled ==> toggle_message_spec(s, ToggleStage::Requesting) == seq![DC2],
        toggle_next_spec(ToggleStage::Requesting, Ok(ControlCode::Ack)) == ToggleStage::Settled(
            ToggleStep::Switch,
        ),
        toggle_next_spec(ToggleStage::Requesting, Ok(ControlCode::Nak)) == ToggleStage::Settled(
            ToggleStep::Keep,
        ),
        after_toggle_spec(s, ToggleStep::Switch).enabled == !s.enabled,
        after_toggle_spec(s, ToggleStep::Keep) == s,
        toggle_next_spec(ToggleStage::Requesting, Ok(ControlCode::Enq)) == ToggleStage::Reporting,
        toggle_message_spec(s, ToggleStage::Reporting) == seq![
            quarter_turns(s.orientation) as u8,
            AUTOROTATE_THRESHOLD_DEG,
        ],
        toggle_next_spec(ToggleStage::Reporting, Ok(ControlCode::Ack)) == ToggleStage::Settled(
            ToggleStep::Switch,
        ),
        toggle_next_spec(ToggleStage::Reporting, Ok(ControlCode::Nak)) == ToggleStage::Settled(
            ToggleStep::Unexpected(crate::code::NAK),
        ),
{
}

/// A toggle flips the enabled flag exactly on ACK: from off, ACK to DC1
/// turns autorotation on and NAK leaves it off; from on, ACK to DC2 turns it
/// off and NAK leaves it on. After the host's status only ACK flips it.
/// The orientation never changes.
pub proof fn lemma_toggle_replies(s: Autorotation, nested: bool)
    ensures
        after_toggle_spec(s, toggle_step_spec(ControlCode::Ack, nested)) == (Autorotation {
            enabled: !s.enabled,
            ..s
        }),
        after_toggle_spec(s, toggle_step_spec(ControlCode::Nak, nested)) == s,
        !s.enabled ==> after_toggle_spec(s, toggle_step_spec(ControlCode::Ack, nested)).enabled,
        !s.enabled ==> !after_toggle_spec(s, toggle_step_spec(ControlCode::Nak, nested)).enabled,
        forall|c: ControlCode|
            after_toggle_spec(s, #[trigger] toggle_step_spec(c, nested)).orientation
                == s.orientation,
{
}

/// The listener answers every request DC1 to DC4 for orientation `o`, and
/// asks for a rotation exactly when `o` is not already shown; every other
/// code is dropped.
pub proof fn lemma_listener_requests(s: Autorotation, o: Orientation, c: ControlCode)
    ensures
        listener_action_spec(s, request_code_spec(o)) == (ListenerAction::Acknowledge {
            target: o,
            rotate: o != s.orientation,
            reply: ACK,
        }),
        s.orientation == o ==> listener_action_spec(s, request_code_spec(o)) == (
        ListenerAction::Acknowledge { target: o, rotate: false, reply: ACK }),
        requested_orientation_spec(c) is None ==> listener_action_spec(s, c)
            == ListenerAction::Discard,
{
}

} // verus!
