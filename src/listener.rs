use vstd::prelude::*;
use crate::autorotate::{Autorotation, ListenerAction, listener_action, listener_action_spec};
use crate::code::{ControlCode, ACK, DC3, decode_spec, encode_spec, request_code_spec};
use crate::exchange::LinkOp;
use crate::orientation::Orientation;

verus! {

/// What one tick of the background listener did.
#[derive(Clone, Copy, Debug, PartialEq, Eq, Structural)]
pub enum Tick {
    /// Autorotation is off, the listener has stopped, or no byte was waiting.
    Idle,
    /// A byte that requests no rotation was read and dropped.
    Discarded(u8),
    /// A request for the orientation already shown was acknowledged.
    Acknowledged(Orientation),
    /// A request was acknowledged and the display turned to it.
    Rotated(Orientation),
    /// A request was acknowledged but the display refused to turn.
    RotateFailed(Orientation),
    /// The link failed; the listener has stopped for good.
    Stopped(LinkOp),
}

/// Where a listener tick stands: each stage names the one operation it
/// waits on, except `Finished`.
#[derive(Clone, Copy, Debug, PartialEq, Eq, Structural)]
pub enum ListenStage {
    /// The link is to be asked how many bytes wait.
    Checking,
    /// One byte is to be read.
    Reading,
    /// `reply` is to be written, answering a request for `target`; the
    /// display turns afterwards if `rotate`.
    Replying { reply: u8, target: Orientation, rotate: bool },
    /// The reply is to be flushed.
    Flushing { target: Orientation, rotate: bool },
    /// The display is to turn to this orientation.
    Rotating(Orientation),
    /// The tick is over.
    Finished(Tick),
}

/// How the link or the display answered the operation of the current stage.
#[derive(Clone, Copy, Debug, PartialEq, Eq)]
pub enum ListenEvent {
    /// The number of waiting bytes; `None` if the check failed.
    Available(Option<u32>),
    /// The byte read; `None` if the read failed.
    Received(Option<u8>),
    /// The write succeeded (`true`) or failed.
    Wrote(bool),
    /// The flush succeeded (`true`) or failed.
    Flushed(bool),
    /// The display took the new orientation (`true`) or refused it.
    Turned(bool),
}

/// Whether `ev` answers the operation of `stage`.
pub open spec fn listen_event_fits(stage: ListenStage, ev: ListenEvent) -> bool {
    match stage {
        ListenStage::Checking => ev is Available,
        ListenStage::Reading => ev is Received,
        ListenStage::Replying { .. } => ev is Wrote,
        ListenStage::Flushing { .. } => ev is Flushed,
        ListenStage::Rotating(_) => ev is Turned,
        ListenStage::Finished(_) => false,
    }
}

/// The stage after event `ev` in `stage`, for a tick in state `s`. No
/// waiting byte ends the tick idle; a byte is decoded and handled as
/// `listener_action_spec` says; the reply is written and flushed before the
/// display turns; a link failure ends the tick with `Stopped`.
pub open spec fn listen_next_spec(s: Autorotation, stage: ListenStage, ev: ListenEvent) -> ListenStage {
    match (stage, ev) {
        (ListenStage::Checking, ListenEvent::Available(a)) => match a {
            None => ListenStage::Finished(Tick::Stopped(LinkOp::Availability)),
            Some(n) => if n == 0 {
                ListenStage::Finished(Tick::Idle)
            } else {
                ListenStage::Reading
            },
        },
        (ListenStage::Reading, ListenEvent::Received(got)) => match got {
            None => ListenStage::Finished(Tick::Stopped(LinkOp::Read)),
            Some(b) => match listener_action_spec(s, decode_spec(b)) {
                ListenerAction::Discard => ListenStage::Finished(Tick::Discarded(b)),
                ListenerAction::Acknowledge { target, rotate, reply } => ListenStage::Replying {
                    reply,
                    target,
                    rotate,
                },
            },
        },
        (ListenStage::Replying { target, rotate, .. }, ListenEvent::Wrote(ok)) => if ok {
            ListenStage::Flushing { target, rotate }
        } else {
            ListenStage::Finished(Tick::Stopped(LinkOp::Write))
        },
        (ListenStage::Flushing { target, rotate }, ListenEvent::Flushed(ok)) => if !ok {
            ListenStage::Finished(Tick::Stopped(LinkOp::Flush))
        } else if rotate {
            ListenStage::Rotating(target)
        } else {
            ListenStage::Finished(Tick::Acknowledged(target))
        },
        (ListenStage::Rotating(t), ListenEvent::Turned(ok)) => if ok {
            ListenStage::Finished(Tick::Rotated(t))
        } else {
            ListenStage::Finished(Tick::RotateFailed(t))
        },
        _ => stage,
    }
}

/// Order of the stages along a tick, last first.
pub open spec fn listen_rank(stage: ListenStage) -> nat {
    match stage {
        ListenStage::Checking => 5,
        ListenStage::Reading => 4,
        ListenStage::Replying { .. } => 3,
        ListenStage::Flushing { .. } => 2,
        ListenStage::Rotating(_) => 1,
        ListenStage::Finished(_) => 0,
    }
}

/// Moves a listener tick in state `s` on by the answer `ev`.
pub fn listen_next(s: Autorotation, stage: ListenStage, ev: ListenEvent) -> (r: ListenStage)
    requires
        listen_event_fits(stage, ev),
    ensures
        r == listen_next_spec(s, stage, ev),
        listen_rank(r) < listen_rank(stage),
{
    match (stage, ev) {
        (ListenStage::Checking, ListenEvent::Available(a)) => match a {
            None => ListenStage::Finished(Tick::Stopped(LinkOp::Availability)),
            Some(n) => if n == 0 {
                ListenStage::Finished(Tick::Idle)
            } else {
                ListenStage::Reading
            },
        },
        (ListenStage::Reading, ListenEvent::Received(got)) => match got {
            None => ListenStage::Finished(Tick::Stopped(LinkOp::Read)),
            Some(b) => match listener_action(s, ControlCode::decode(b)) {
                ListenerAction::Discard => ListenStage::Finished(Tick::Discarded(b)),
                ListenerAction::Acknowledge { target, rotate, reply } => ListenStage::Replying {
                    reply,
                    target,
                    rotate,
                },
            },
        },
        (ListenStage::Replying { target, rotate, .. }, ListenEvent::Wrote(ok)) => if ok {
            ListenStage::Flushing { target, rotate }
        } else {
            ListenStage::Finished(Tick::Stopped(LinkOp::Write))
        },
        (ListenStage::Flushing { target, rotate }, ListenEvent::Flushed(ok)) => if !ok {
            ListenStage::Finished(Tick::Stopped(LinkOp::Flush))
        } else if rotate {
            ListenStage::Rotating(target)
        } else {
            ListenStage::Finished(Tick::Acknowledged(target))
        },
        (ListenStage::Rotating(t), ListenEvent::Turned(ok)) => if ok {
            ListenStage::Finished(Tick::Rotated(t))
        } else {
            ListenStage::Finished(Tick::RotateFailed(t))
        },
        _ => stage,
    }
}

/// A request DC1 to DC4 that is read is answered by exactly one write, of
/// ACK alone, and the display is asked to turn after it only when it does
/// not show the requested orientation already. For DC3 from any other
/// orientation the tick ends `Rotated(LandscapeFlipped)` once the display
/// takes it; in `LandscapeFlipped` it ends `Acknowledged` with no turn.
pub proof fn lemma_listener_answers_request(s: Autorotation, o: Orientation)
    ensures
        listen_next_spec(s, ListenStage::Reading, ListenEvent::Received(
            Some(encode_spec(request_code_spec(o))),
        )) == (ListenStage::Replying { reply: ACK, target: o, rotate: o != s.orientation }),
        listen_next_spec(
            s,
            ListenStage::Replying { reply: ACK, target: o, rotate: o != s.orientation },
            ListenEvent::Wrote(true),
        ) == (ListenStage::Flushing { target: o, rotate: o != s.orientation }),
        o != s.orientation ==> listen_next_spec(
            s,
            ListenStage::Flushing { target: o, rotate: true },
            ListenEvent::Flushed(true),
        ) == ListenStage::Rotating(o),
        listen_next_spec(s, ListenStage::Flushing { target: o, rotate: false }, ListenEvent::Flushed(true))
            == ListenStage::Finished(Tick::Acknowledged(o)),
        listen_next_spec(s, ListenStage::Rotating(o), ListenEvent::Turned(true)) == ListenStage::Finished(
            Tick::Rotated(o),
        ),
        s.orientation != Orientation::LandscapeFlipped ==> listen_next_spec(
            s,
            ListenStage::Reading,
            ListenEvent::Received(Some(DC3)),
        ) == (ListenStage::Replying {
            reply: ACK,
            target: Orientation::LandscapeFlipped,
            rotate: true,
        }),
        s.orientation == Orientation::LandscapeFlipped ==> listen_next_spec(
            s,
            ListenStage::Reading,
            ListenEvent::Received(Some(DC3)),
        ) == (ListenStage::Replying {
            reply: ACK,
            target: Orientation::LandscapeFlipped,
            rotate: false,
        }),
        forall|st: ListenStage, ev: ListenEvent|
            #![trigger listen_next_spec(s, st, ev)]
            listen_event_fits(st, ev) && !(st is Reading) ==> !(listen_next_spec(s, st, ev) is Replying),
{
}

} // verus!
