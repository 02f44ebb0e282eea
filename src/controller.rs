use vstd::prelude::*;
use crate::autorotate::{
    Autorotation, Probe, ToggleStage, ToggleStep, after_toggle_spec, expect_ack, probe_request,
    status_result, toggle_message, toggle_next, toggle_rank,
};
use crate::code::{decode_spec, requested_orientation_spec};
use crate::exchange::{Failure, Link, REPLY_TIMEOUT_MS, send_and_wait};
use crate::listener::{ListenEvent, ListenStage, Tick, listen_next, listen_rank};
use crate::orientation::{DisplayMode, Orientation, rotation_plan};

verus! {

/// The display whose orientation is managed.
pub trait Screen {
    /// The mode the display shows now, if it can be read.
    fn current_mode(&mut self) -> Option<DisplayMode>;

    /// Switches the display to `mode`.
    fn apply_mode(&mut self, mode: DisplayMode) -> Result<(), ()>;
}

/// How a toggle exchange ended when nothing failed.
#[derive(Clone, Copy, Debug, PartialEq, Eq, Structural)]
pub enum ToggleOutcome {
    /// The device agreed and the enabled flag flipped.
    Switched,
    /// The device declined; the state is as before.
    Declined,
}

/// The single owner of the link and the display. Every request/response
/// exchange and every listener tick runs under `&mut self`, so one cannot
/// take a byte that belongs to another.
pub struct Controller<L, S> {
    pub link: L,
    pub screen: S,
    pub state: Autorotation,
    /// False once the listener has stopped on a link failure.
    pub listening: bool,
}

impl<L: Link, S: Screen> Controller<L, S> {
    /// A controller at startup: autorotation off, the display in `orientation`,
    /// the listener running.
    pub fn new(link: L, screen: S, orientation: Orientation) -> (r: Self)
        ensures
            r.link == link,
            r.screen == screen,
            r.state == (Autorotation { enabled: false, orientation }),
            r.listening,
    {
        Controller { link, screen, state: Autorotation::new(orientation), listening: true }
    }

    /// Turns the display to `target`, swapping width and height for a
    /// quarter turn. The orientation is recorded only once the display took it.
    pub fn rotate_to(&mut self, target: Orientation) -> (r: Result<(), Failure>)
        ensures
            final(self).link == old(self).link,
            final(self).listening == old(self).listening,
            r is Ok ==> final(self).state == (Autorotation {
                orientation: target,
                ..old(self).state
            }),
            r is Err ==> r == Err::<(), Failure>(Failure::DisplayApply) && final(self).state == old(
                self,
            ).state,
    {
        match rotation_plan(self.screen.current_mode(), target) {
            None => Err(Failure::DisplayApply),
            Some(mode) => {
                match self.screen.apply_mode(mode) {
                    Ok(()) => {
                        self.state = Autorotation { orientation: target, ..self.state };
                        Ok(())
                    },
                    Err(()) => Err(Failure::DisplayApply),
                }
            },
        }
    }

    /// Applies the end of a toggle exchange to the state.
    fn settle_toggle(&mut self, step: ToggleStep) -> (r: Result<ToggleOutcome, Failure>)
        requires
            step != ToggleStep::ReplyStatus,
        ensures
            final(self).link == old(self).link,
            final(self).screen == old(self).screen,
            final(self).listening == old(self).listening,
            final(self).state == after_toggle_spec(old(self).state, step),
            step == ToggleStep::Switch ==> r == Ok::<ToggleOutcome, Failure>(ToggleOutcome::Switched),
            step == ToggleStep::Keep ==> r == Ok::<ToggleOutcome, Failure>(ToggleOutcome::Declined),
            step matches ToggleStep::Unexpected(b) ==> r == Err::<ToggleOutcome, Failure>(
                Failure::UnexpectedCode(b),
            ),
    {
        match step {
            ToggleStep::Switch => {
                self.state = Autorotation { enabled: !self.state.enabled, ..self.state };
                Ok(ToggleOutcome::Switched)
            },
            ToggleStep::Keep => Ok(ToggleOutcome::Declined),
            ToggleStep::Unexpected(b) => Err(Failure::UnexpectedCode(b)),
            // excluded by the precondition
            ToggleStep::ReplyStatus => Ok(ToggleOutcome::Declined),
        }
    }

    /// Asks the device to turn autorotation off (DC2) when it is on, or on
    /// (DC1) when it is off, and awaits the reply. ACK flips the flag; NAK
    /// keeps it. ENQ makes the host send its status (orientation byte and
    /// tilt threshold) and await a second reply, where only ACK flips. Each
    /// exchange sends `toggle_message(state, stage)` and moves on by
    /// `toggle_next`. On any failure the state is as before.
    pub fn toggle_autorotation(&mut self) -> (r: Result<ToggleOutcome, Failure>)
        ensures
            final(self).screen == old(self).screen,
            final(self).listening == old(self).listening,
            final(self).state.orientation == old(self).state.orientation,
            final(self).state.enabled == (if r == Ok::<ToggleOutcome, Failure>(
                ToggleOutcome::Switched,
            ) {
                !old(self).state.enabled
            } else {
                old(self).state.enabled
            }),
            r matches Err(f) ==> (f is Transport || f is Timeout || f is UnexpectedCode),
    {
        let s0 = self.state;
        let mut stage = ToggleStage::Requesting;
        loop
            invariant
                self.state == old(self).state,
                self.screen == old(self).screen,
                self.listening == old(self).listening,
                s0 == old(self).state,
                stage matches ToggleStage::Settled(step) ==> step != ToggleStep::ReplyStatus,
                stage matches ToggleStage::Failed(f) ==> (f is Transport || f is Timeout),
            decreases toggle_rank(stage),
        {
            match stage {
                ToggleStage::Settled(step) => {
                    return self.settle_toggle(step);
                },
                ToggleStage::Failed(f) => {
                    return Err(f);
                },
                _ => {},
            }
            let reply = send_and_wait(&mut self.link, toggle_message(s0, stage), REPLY_TIMEOUT_MS);
            stage = toggle_next(stage, reply);
        }
    }

    /// Sends the request for `p` and expects ACK back.
    fn request_ack(&mut self, p: Probe) -> (r: Result<(), Failure>)
        ensures
            final(self).screen == old(self).screen,
            final(self).state == old(self).state,
            final(self).listening == old(self).listening,
            r matches Err(f) ==> (f is Transport || f is Timeout || f is UnexpectedCode),
    {
        match send_and_wait(&mut self.link, probe_request(p), REPLY_TIMEOUT_MS) {
            Ok(c) => expect_ack(c),
            Err(f) => Err(f),
        }
    }

    /// Probes the link with SYN; succeeds when the device answers ACK.
    pub fn test_link(&mut self) -> (r: Result<(), Failure>)
        ensures
            final(self).screen == old(self).screen,
            final(self).state == old(self).state,
            final(self).listening == old(self).listening,
            r matches Err(f) ==> (f is Transport || f is Timeout || f is UnexpectedCode),
    {
        self.request_ack(Probe::TestLink)
    }

    /// Asks the device to recalibrate its sensor (DC3); succeeds on ACK.
    pub fn recalibrate(&mut self) -> (r: Result<(), Failure>)
        ensures
            final(self).screen == old(self).screen,
            final(self).state == old(self).state,
            final(self).listening == old(self).listening,
            r matches Err(f) ==> (f is Transport || f is Timeout || f is UnexpectedCode),
    {
        self.request_ack(Probe::Recalibrate)
    }

    /// Asks the device, with SYN, whether it runs autorotation: `Ok(true)`
    /// on ACK, `Ok(false)` on NAK.
    pub fn query_status(&mut self) -> (r: Result<bool, Failure>)
        ensures
            final(self).screen == old(self).screen,
            final(self).state == old(self).state,
            final(self).listening == old(self).listening,
            r matches Err(f) ==> (f is Transport || f is Timeout || f is UnexpectedCode),
    {
        match send_and_wait(&mut self.link, probe_request(Probe::QueryStatus), REPLY_TIMEOUT_MS) {
            Ok(c) => status_result(c),
            Err(f) => Err(f),
        }
    }

    /// One tick of the background listener. With autorotation off, or the
    /// listener stopped, it does nothing at all. Otherwise it runs the tick
    /// from `ListenStage::Checking`, performing in each stage that stage's
    /// operation alone (`Checking`: ask how many bytes wait; `Reading`: read
    /// one byte; `Replying`: write its `reply`; `Flushing`: flush;
    /// `Rotating(t)`: `rotate_to(t)`) and moving on by `listen_next`. A link
    /// failure stops the listener for good.
    pub fn listener_tick(&mut self) -> (r: Tick)
        ensures
            !old(self).listening || !old(self).state.enabled ==> r == Tick::Idle && *final(self)
                == *old(self),
            final(self).state.enabled == old(self).state.enabled,
            final(self).listening == (old(self).listening && !(r is Stopped)),
            r is Rotated ==> final(self).state == (Autorotation {
                orientation: r->Rotated_0,
                ..old(self).state
            }) && r->Rotated_0 != old(self).state.orientation,
            !(r is Rotated) ==> final(self).state == old(self).state,
            r is Acknowledged ==> r->Acknowledged_0 == old(self).state.orientation,
            r is RotateFailed ==> r->RotateFailed_0 != old(self).state.orientation,
            r is Discarded ==> requested_orientation_spec(decode_spec(r->Discarded_0)) is None,
            r is Idle || r is Discarded || r is Acknowledged || r is Stopped ==> final(self).screen
                == old(self).screen,
    {
        if !self.listening || !self.state.enabled {
            return Tick::Idle;
        }
        let s0 = self.state;
        let mut stage = ListenStage::Checking;
        loop
            invariant
                old(self).listening && old(self).state.enabled,
                self.listening == old(self).listening,
                self.state.enabled == old(self).state.enabled,
                s0 == old(self).state,
                stage matches ListenStage::Finished(t) ==> t is Rotated || t is RotateFailed || (
                self.screen == old(self).screen && self.state == old(self).state),
                !(stage is Finished) ==> self.screen == old(self).screen && self.state == old(
                    self,
                ).state,
                stage matches ListenStage::Finished(Tick::Rotated(t)) ==> self.state == (
                Autorotation { orientation: t, ..old(self).state }) && t != old(self).state.orientation,
                stage matches ListenStage::Finished(Tick::RotateFailed(t)) ==> self.state == old(
                    self,
                ).state && t != old(self).state.orientation,
                stage matches ListenStage::Finished(Tick::Acknowledged(t)) ==> t == old(
                    self,
                ).state.orientation,
                stage matches ListenStage::Finished(Tick::Discarded(b)) ==> requested_orientation_spec(
                    decode_spec(b),
                ) is None,
                stage matches ListenStage::Replying { target, rotate, .. } ==> (rotate <==> target
                    != old(self).state.orientation),
                stage matches ListenStage::Flushing { target, rotate } ==> (rotate <==> target
                    != old(self).state.orientation),
                stage matches ListenStage::Rotating(t) ==> t != old(self).state.orientation,
            decreases listen_rank(stage),
        {
            let ev = match stage {
                ListenStage::Checking => ListenEvent::Available(
                    match self.link.bytes_available() {
                        Ok(n) => Some(n),
                        Err(_) => None,
                    },
                ),
                ListenStage::Reading => ListenEvent::Received(
                    match self.link.read_byte() {
                        Ok(b) => Some(b),
                        Err(_) => None,
                    },
                ),
                ListenStage::Replying { reply, .. } => {
                    let msg: Vec<u8> = vec![reply];
                    ListenEvent::Wrote(self.link.write(msg.as_slice()).is_ok())
                },
                ListenStage::Flushing { .. } => ListenEvent::Flushed(self.link.flush().is_ok()),
                ListenStage::Rotating(t) => ListenEvent::Turned(self.rotate_to(t).is_ok()),
                ListenStage::Finished(t) => {
                    if let Tick::Stopped(_) = t {
                        self.listening = false;
                    }
                    return t;
                },
            };
            stage = listen_next(s0, stage, ev);
        }
    }
}

} // verus!
