use std::collections::VecDeque;
use std::sync::{Arc, Mutex};

use everythingdoer::autorotate::{
    expect_ack, listener_action, probe_request, status_payload, status_result, toggle_message,
    toggle_next, toggle_request, toggle_step, Autorotation, ListenerAction, Probe, ToggleStage,
    ToggleStep, AUTOROTATE_THRESHOLD_DEG,
};
use everythingdoer::code::{ControlCode, ACK, DC1, DC2, DC3, DC4, ENQ, NAK, SYN};
use everythingdoer::controller::{Controller, Screen, ToggleOutcome};
use everythingdoer::listener::{listen_next, ListenEvent, ListenStage, Tick};
use everythingdoer::exchange::{
    await_reply, poll_step, run_exchange, send_and_wait, Exchange, Failure, Link, LinkEvent, LinkOp,
    PollStep, Stage, POLL_INTERVAL_MS, REPLY_TIMEOUT_MS,
};
use everythingdoer::orientation::{plan_rotation, rotation_plan, DisplayMode, Orientation};

const ALL: [Orientation; 4] = [
    Orientation::Landscape,
    Orientation::Portrait,
    Orientation::LandscapeFlipped,
    Orientation::PortraitFlipped,
];

/// A scripted device: each write makes the next scripted reply arrive.
#[derive(Default)]
struct FakeLink {
    incoming: VecDeque<u8>,
    script: VecDeque<Vec<u8>>,
    written: Vec<Vec<u8>>,
    paused_ms: u64,
    checks: u32,
    fail_available: bool,
    fail_write: bool,
    fail_flush: bool,
}

impl FakeLink {
    fn replying(script: &[&[u8]]) -> FakeLink {
        FakeLink { script: script.iter().map(|r| r.to_vec()).collect(), ..FakeLink::default() }
    }
}

impl Link for FakeLink {
    fn write(&mut self, bytes: &[u8]) -> Result<(), ()> {
        if self.fail_write {
            return Err(());
        }
        self.written.push(bytes.to_vec());
        if let Some(reply) = self.script.pop_front() {
            self.incoming.extend(reply);
        }
        Ok(())
    }
    fn flush(&mut self) -> Result<(), ()> {
        if self.fail_flush {
            Err(())
        } else {
            Ok(())
        }
    }
    fn bytes_available(&mut self) -> Result<u32, ()> {
        self.checks += 1;
        if self.fail_available {
            Err(())
        } else {
            Ok(self.incoming.len() as u32)
        }
    }
    fn read_byte(&mut self) -> Result<u8, ()> {
        self.incoming.pop_front().ok_or(())
    }
    fn pause(&mut self, ms: u64) {
        self.paused_ms += ms;
    }
}

/// A display that records every mode handed to it.
struct FakeScreen {
    mode: DisplayMode,
    applied: Vec<DisplayMode>,
    refuse: bool,
}

impl FakeScreen {
    fn showing(o: Orientation) -> FakeScreen {
        let (width, height) = match o {
            Orientation::Landscape | Orientation::LandscapeFlipped => (1920, 1080),
            _ => (1080, 1920),
        };
        FakeScreen { mode: DisplayMode { width, height, orientation: o }, applied: Vec::new(), refuse: false }
    }
}

impl Screen for FakeScreen {
    fn current_mode(&mut self) -> Option<DisplayMode> {
        Some(self.mode)
    }
    fn apply_mode(&mut self, mode: DisplayMode) -> Result<(), ()> {
        self.applied.push(mode);
        if self.refuse {
            Err(())
        } else {
            self.mode = mode;
            Ok(())
        }
    }
}

fn controller(link: FakeLink, o: Orientation, enabled: bool) -> Controller<FakeLink, FakeScreen> {
    let mut c = Controller::new(link, FakeScreen::showing(o), o);
    c.state.enabled = enabled;
    c
}

#[test]
fn orientation_tags_and_degrees() {
    let tags: Vec<u8> = ALL.iter().map(|o| o.tag()).collect();
    assert_eq!(tags, vec![0, 1, 2, 3]);
    let degrees: Vec<u16> = ALL.iter().map(|o| o.degrees()).collect();
    assert_eq!(degrees, vec![0, 90, 180, 270]);
    for o in ALL {
        assert_eq!(Orientation::from_tag(o.tag()), Some(o));
    }
    assert_eq!(Orientation::from_tag(4), None);
    assert_eq!(Orientation::from_tag(255), None);
}

#[test]
fn axis_swap_only_on_quarter_turns() {
    for from in ALL {
        for to in ALL {
            let turn = (to.degrees() + 360 - from.degrees()) % 360;
            assert_eq!(from.swaps_axes(to), turn == 90 || turn == 270, "{from:?} -> {to:?}");
        }
    }
}

#[test]
fn plan_rotation_exact_modes() {
    let m = DisplayMode { width: 1920, height: 1080, orientation: Orientation::Landscape };
    assert_eq!(
        plan_rotation(m, Orientation::Portrait),
        DisplayMode { width: 1080, height: 1920, orientation: Orientation::Portrait }
    );
    assert_eq!(
        plan_rotation(m, Orientation::LandscapeFlipped),
        DisplayMode { width: 1920, height: 1080, orientation: Orientation::LandscapeFlipped }
    );
    assert_eq!(plan_rotation(m, Orientation::Landscape), m);
}

#[test]
fn manual_rotation_swaps_for_quarter_turns_only() {
    for from in ALL {
        for to in ALL {
            let mut c = controller(FakeLink::default(), from, false);
            let before = c.screen.mode;
            assert_eq!(c.rotate_to(to), Ok(()));
            assert_eq!(c.screen.applied.len(), 1);
            let applied = c.screen.applied[0];
            assert_eq!(applied.orientation, to);
            let turn = (to.degrees() + 360 - from.degrees()) % 360;
            if turn == 180 || turn == 0 {
                assert_eq!((applied.width, applied.height), (before.width, before.height));
            } else {
                assert_eq!((applied.width, applied.height), (before.height, before.width));
            }
            assert_eq!(c.state.orientation, to);
            assert!(c.link.written.is_empty());
        }
    }
}

#[test]
fn manual_rotation_failure_keeps_state() {
    let mut c = controller(FakeLink::default(), Orientation::Landscape, true);
    c.screen.refuse = true;
    assert_eq!(c.rotate_to(Orientation::Portrait), Err(Failure::DisplayApply));
    assert_eq!(c.state, Autorotation { enabled: true, orientation: Orientation::Landscape });
}

#[test]
fn decode_known_bytes() {
    assert_eq!(ControlCode::decode(0x16), ControlCode::Syn);
    assert_eq!(ControlCode::decode(0x06), ControlCode::Ack);
    assert_eq!(ControlCode::decode(0x15), ControlCode::Nak);
    assert_eq!(ControlCode::decode(0x05), ControlCode::Enq);
    assert_eq!(ControlCode::decode(0x11), ControlCode::Dc1);
    assert_eq!(ControlCode::decode(0x12), ControlCode::Dc2);
    assert_eq!(ControlCode::decode(0x13), ControlCode::Dc3);
    assert_eq!(ControlCode::decode(0x14), ControlCode::Dc4);
    assert_eq!(ControlCode::decode(0x41), ControlCode::Unknown(0x41));
    assert_eq!(ControlCode::decode(0), ControlCode::Unknown(0));
}

#[test]
fn encode_decode_round_trip_every_byte() {
    for b in 0..=255u8 {
        assert_eq!(ControlCode::decode(b).encode(), b);
    }
}

#[test]
fn device_codes_map_to_orientations_and_back() {
    let codes = [DC1, DC2, DC3, DC4];
    for (i, b) in codes.iter().enumerate() {
        let c = ControlCode::decode(*b);
        let o = c.requested_orientation().unwrap();
        assert_eq!(o, ALL[i]);
        assert_eq!(ControlCode::request_for(o), c);
        assert_eq!(ControlCode::request_for(o).encode(), *b);
    }
    for b in [SYN, ACK, NAK, ENQ, 0x00, 0x10, 0x17, 0xff] {
        assert_eq!(ControlCode::decode(b).requested_orientation(), None);
    }
}

#[test]
fn poll_step_decisions() {
    assert_eq!(poll_step(Some(1), 0, 100), PollStep::Read);
    assert_eq!(poll_step(Some(3), 100, 100), PollStep::Read);
    assert_eq!(poll_step(Some(0), 0, 100), PollStep::Wait(POLL_INTERVAL_MS));
    assert_eq!(poll_step(Some(0), 95, 100), PollStep::Wait(5));
    assert_eq!(poll_step(Some(0), 100, 100), PollStep::Stop(Failure::Timeout));
    assert_eq!(poll_step(None, 0, 100), PollStep::Stop(Failure::Transport(LinkOp::Availability)));
}

#[test]
fn silent_link_times_out_after_exact_timeout() {
    let mut link = FakeLink::default();
    let r = send_and_wait(&mut link, vec![SYN], REPLY_TIMEOUT_MS);
    assert_eq!(r, Err(Failure::Timeout));
    assert_eq!(link.paused_ms, REPLY_TIMEOUT_MS);
    assert_eq!(link.written, vec![vec![SYN]]);
}

#[test]
fn timeout_not_a_multiple_of_the_interval() {
    let mut link = FakeLink::default();
    let (r, waited) = await_reply(&mut link, 25);
    assert_eq!(r, Err(Failure::Timeout));
    assert_eq!(waited, 25);
    assert_eq!(link.paused_ms, 25);
    assert_eq!(link.checks, 4);
}

#[test]
fn silent_link_leaves_state_unchanged() {
    let mut c = controller(FakeLink::default(), Orientation::Portrait, false);
    assert_eq!(c.toggle_autorotation(), Err(Failure::Timeout));
    assert_eq!(c.state, Autorotation { enabled: false, orientation: Orientation::Portrait });
    assert!(c.screen.applied.is_empty());
}

#[test]
fn availability_error_fails_at_once() {
    let mut link = FakeLink { fail_available: true, ..FakeLink::default() };
    let r = send_and_wait(&mut link, vec![SYN], REPLY_TIMEOUT_MS);
    assert_eq!(r, Err(Failure::Transport(LinkOp::Availability)));
    assert_eq!(link.paused_ms, 0);
    assert_eq!(link.checks, 1);
}

#[test]
fn write_and_flush_errors_fail_before_waiting() {
    let mut link = FakeLink { fail_write: true, ..FakeLink::default() };
    assert_eq!(send_and_wait(&mut link, vec![SYN], 100), Err(Failure::Transport(LinkOp::Write)));
    assert_eq!(link.checks, 0);
    let mut link = FakeLink { fail_flush: true, ..FakeLink::default() };
    assert_eq!(send_and_wait(&mut link, vec![SYN], 100), Err(Failure::Transport(LinkOp::Flush)));
    assert_eq!(link.checks, 0);
    assert_eq!(link.paused_ms, 0);
}

#[test]
fn reply_is_decoded() {
    let mut link = FakeLink::replying(&[&[ACK]]);
    assert_eq!(send_and_wait(&mut link, vec![SYN], 100), Ok(ControlCode::Ack));
    let mut link = FakeLink::replying(&[&[0x7f]]);
    assert_eq!(send_and_wait(&mut link, vec![SYN], 100), Ok(ControlCode::Unknown(0x7f)));
    assert_eq!(link.paused_ms, 0);
}

#[test]
fn enable_with_ack() {
    let mut c = controller(FakeLink::replying(&[&[ACK]]), Orientation::Landscape, false);
    assert_eq!(c.toggle_autorotation(), Ok(ToggleOutcome::Switched));
    assert!(c.state.enabled);
    assert_eq!(c.link.written, vec![vec![DC1]]);
}

#[test]
fn enable_with_nak_stays_disabled() {
    let mut c = controller(FakeLink::replying(&[&[NAK]]), Orientation::Landscape, false);
    assert_eq!(c.toggle_autorotation(), Ok(ToggleOutcome::Declined));
    assert!(!c.state.enabled);
}

#[test]
fn disable_with_ack_and_nak() {
    let mut c = controller(FakeLink::replying(&[&[ACK]]), Orientation::Landscape, true);
    assert_eq!(c.toggle_autorotation(), Ok(ToggleOutcome::Switched));
    assert!(!c.state.enabled);
    assert_eq!(c.link.written, vec![vec![DC2]]);
    let mut c = controller(FakeLink::replying(&[&[NAK]]), Orientation::Landscape, true);
    assert_eq!(c.toggle_autorotation(), Ok(ToggleOutcome::Declined));
    assert!(c.state.enabled);
}

#[test]
fn enquiry_during_toggle_gets_status() {
    let mut c = controller(FakeLink::replying(&[&[ENQ], &[ACK]]), Orientation::LandscapeFlipped, false);
    assert_eq!(c.toggle_autorotation(), Ok(ToggleOutcome::Switched));
    assert!(c.state.enabled);
    assert_eq!(c.link.written, vec![vec![DC1], vec![2, AUTOROTATE_THRESHOLD_DEG]]);
    assert_eq!(AUTOROTATE_THRESHOLD_DEG, 65);

    let mut c = controller(FakeLink::replying(&[&[ENQ], &[NAK]]), Orientation::Portrait, true);
    assert_eq!(c.toggle_autorotation(), Err(Failure::UnexpectedCode(NAK)));
    assert!(c.state.enabled);
    assert_eq!(c.link.written, vec![vec![DC2], vec![1, 65]]);

    let mut c = controller(FakeLink::replying(&[&[ENQ], &[ENQ]]), Orientation::Portrait, false);
    assert_eq!(c.toggle_autorotation(), Err(Failure::UnexpectedCode(ENQ)));
    assert!(!c.state.enabled);
}

#[test]
fn unexpected_reply_to_toggle() {
    let mut c = controller(FakeLink::replying(&[&[DC3]]), Orientation::Landscape, false);
    assert_eq!(c.toggle_autorotation(), Err(Failure::UnexpectedCode(DC3)));
    assert_eq!(c.state, Autorotation { enabled: false, orientation: Orientation::Landscape });
}

#[test]
fn toggle_step_decisions() {
    assert_eq!(toggle_step(ControlCode::Ack, false), ToggleStep::Switch);
    assert_eq!(toggle_step(ControlCode::Nak, false), ToggleStep::Keep);
    assert_eq!(toggle_step(ControlCode::Nak, true), ToggleStep::Unexpected(NAK));
    assert_eq!(toggle_step(ControlCode::Ack, true), ToggleStep::Switch);
    assert_eq!(toggle_step(ControlCode::Enq, false), ToggleStep::ReplyStatus);
    assert_eq!(toggle_step(ControlCode::Enq, true), ToggleStep::Unexpected(ENQ));
    assert_eq!(toggle_step(ControlCode::Unknown(9), false), ToggleStep::Unexpected(9));
}

#[test]
fn simple_requests() {
    let mut c = controller(FakeLink::replying(&[&[ACK]]), Orientation::Landscape, false);
    assert_eq!(c.test_link(), Ok(()));
    assert_eq!(c.link.written, vec![vec![SYN]]);
    let mut c = controller(FakeLink::replying(&[&[NAK]]), Orientation::Landscape, false);
    assert_eq!(c.recalibrate(), Err(Failure::UnexpectedCode(NAK)));
    assert_eq!(c.link.written, vec![vec![DC3]]);
    let mut c = controller(FakeLink::replying(&[&[ACK], &[NAK], &[SYN]]), Orientation::Landscape, false);
    assert_eq!(c.query_status(), Ok(true));
    assert_eq!(c.query_status(), Ok(false));
    assert_eq!(c.query_status(), Err(Failure::UnexpectedCode(SYN)));
    assert_eq!(c.link.written, vec![vec![SYN], vec![SYN], vec![SYN]]);
    assert_eq!(expect_ack(ControlCode::Ack), Ok(()));
    assert_eq!(status_result(ControlCode::Dc1), Err(Failure::UnexpectedCode(DC1)));
}

#[test]
fn listener_rotates_on_dc3() {
    let mut link = FakeLink::default();
    link.incoming.push_back(DC3);
    let mut c = controller(link, Orientation::Landscape, true);
    assert_eq!(c.listener_tick(), Tick::Rotated(Orientation::LandscapeFlipped));
    assert_eq!(c.screen.applied.len(), 1);
    assert_eq!(c.screen.applied[0].orientation, Orientation::LandscapeFlipped);
    assert_eq!(c.link.written, vec![vec![ACK]]);
    assert_eq!(c.state, Autorotation { enabled: true, orientation: Orientation::LandscapeFlipped });
}

#[test]
fn listener_acknowledges_current_orientation_without_rotating() {
    let mut link = FakeLink::default();
    link.incoming.push_back(DC3);
    let mut c = controller(link, Orientation::LandscapeFlipped, true);
    assert_eq!(c.listener_tick(), Tick::Acknowledged(Orientation::LandscapeFlipped));
    assert!(c.screen.applied.is_empty());
    assert_eq!(c.link.written, vec![vec![ACK]]);
}

#[test]
fn listener_idle_when_disabled_or_empty() {
    let mut link = FakeLink::default();
    link.incoming.push_back(DC2);
    let mut c = controller(link, Orientation::Landscape, false);
    assert_eq!(c.listener_tick(), Tick::Idle);
    assert_eq!(c.link.incoming.len(), 1);
    assert_eq!(c.link.checks, 0);
    let mut c = controller(FakeLink::default(), Orientation::Landscape, true);
    assert_eq!(c.listener_tick(), Tick::Idle);
    assert!(c.link.written.is_empty());
}

#[test]
fn listener_discards_other_bytes() {
    let mut link = FakeLink::default();
    link.incoming.extend([ACK, ENQ]);
    let mut c = controller(link, Orientation::Landscape, true);
    assert_eq!(c.listener_tick(), Tick::Discarded(ACK));
    assert_eq!(c.listener_tick(), Tick::Discarded(ENQ));
    assert!(c.link.written.is_empty());
    assert!(c.screen.applied.is_empty());
}

#[test]
fn listener_stops_on_link_error() {
    let link = FakeLink { fail_available: true, ..FakeLink::default() };
    let mut c = controller(link, Orientation::Landscape, true);
    assert_eq!(c.listener_tick(), Tick::Stopped(LinkOp::Availability));
    assert!(!c.listening);
    c.link.fail_available = false;
    c.link.incoming.push_back(DC2);
    assert_eq!(c.listener_tick(), Tick::Idle);
    assert_eq!(c.link.incoming.len(), 1);
}

#[test]
fn listener_rotation_refused() {
    let mut link = FakeLink::default();
    link.incoming.push_back(DC2);
    let mut c = controller(link, Orientation::Landscape, true);
    c.screen.refuse = true;
    assert_eq!(c.listener_tick(), Tick::RotateFailed(Orientation::Portrait));
    assert_eq!(c.state.orientation, Orientation::Landscape);
    assert_eq!(c.link.written, vec![vec![ACK]]);
}

#[test]
fn listener_action_decisions() {
    let s = Autorotation { enabled: true, orientation: Orientation::Portrait };
    assert_eq!(
        listener_action(s, ControlCode::Dc2),
        ListenerAction::Acknowledge { target: Orientation::Portrait, rotate: false, reply: ACK }
    );
    assert_eq!(
        listener_action(s, ControlCode::Dc4),
        ListenerAction::Acknowledge { target: Orientation::PortraitFlipped, rotate: true, reply: ACK }
    );
    assert_eq!(listener_action(s, ControlCode::Nak), ListenerAction::Discard);
}

#[test]
fn foreground_exchange_and_listener_do_not_share_a_reply() {
    let link = FakeLink::replying(&[&[ACK]]);
    let shared = Arc::new(Mutex::new(controller(link, Orientation::Landscape, true)));
    let fg = Arc::clone(&shared);
    let bg = Arc::clone(&shared);
    let first = fg.lock().unwrap().test_link();
    let tick = bg.lock().unwrap().listener_tick();
    assert_eq!(first, Ok(()));
    assert_eq!(tick, Tick::Idle);
    let c = shared.lock().unwrap();
    assert_eq!(c.link.written, vec![vec![SYN]]);
    assert!(c.link.incoming.is_empty());

    let mut link = FakeLink::replying(&[&[], &[ACK]]);
    link.incoming.push_back(DC2);
    let shared = Arc::new(Mutex::new(controller(link, Orientation::Landscape, true)));
    let tick = shared.lock().unwrap().listener_tick();
    let reply = shared.lock().unwrap().test_link();
    assert_eq!(tick, Tick::Rotated(Orientation::Portrait));
    assert_eq!(reply, Ok(()));
    assert_eq!(shared.lock().unwrap().link.written, vec![vec![ACK], vec![SYN]]);
}

#[test]
fn request_bytes() {
    assert_eq!(toggle_request(false), vec![DC1]);
    assert_eq!(toggle_request(true), vec![DC2]);
    assert_eq!(status_payload(Orientation::PortraitFlipped), vec![3, 65]);
    assert_eq!(status_payload(Orientation::Landscape), vec![0, 65]);
    assert_eq!(probe_request(Probe::TestLink), vec![SYN]);
    assert_eq!(probe_request(Probe::Recalibrate), vec![DC3]);
    assert_eq!(probe_request(Probe::QueryStatus), vec![SYN]);
}

#[test]
fn rotation_plan_needs_current_mode() {
    assert_eq!(rotation_plan(None, Orientation::Portrait), None);
    let m = DisplayMode { width: 800, height: 600, orientation: Orientation::Landscape };
    assert_eq!(
        rotation_plan(Some(m), Orientation::PortraitFlipped),
        Some(DisplayMode { width: 600, height: 800, orientation: Orientation::PortraitFlipped })
    );
}

#[test]
fn unreadable_display_is_not_touched() {
    struct Blind(u32);
    impl Screen for Blind {
        fn current_mode(&mut self) -> Option<DisplayMode> {
            None
        }
        fn apply_mode(&mut self, _mode: DisplayMode) -> Result<(), ()> {
            self.0 += 1;
            Ok(())
        }
    }
    let mut c = Controller::new(FakeLink::default(), Blind(0), Orientation::Landscape);
    assert_eq!(c.rotate_to(Orientation::Portrait), Err(Failure::DisplayApply));
    assert_eq!(c.screen.0, 0);
    assert_eq!(c.state.orientation, Orientation::Landscape);
}

#[test]
fn exchange_stages_in_order() {
    let mut ex = Exchange::new(vec![SYN], 15);
    assert_eq!(ex.stage, Stage::Writing);
    ex.step(LinkEvent::Wrote(true));
    assert_eq!(ex.stage, Stage::Flushing);
    ex.step(LinkEvent::Flushed(true));
    assert_eq!(ex.stage, Stage::Checking);
    ex.step(LinkEvent::Available(Some(0), 0));
    assert_eq!(ex.stage, Stage::Pausing(10));
    ex.step(LinkEvent::Paused);
    assert_eq!((ex.stage, ex.waited_ms), (Stage::Checking, 10));
    ex.step(LinkEvent::Available(Some(0), 0));
    assert_eq!(ex.stage, Stage::Pausing(5));
    ex.step(LinkEvent::Paused);
    ex.step(LinkEvent::Available(Some(0), 0));
    assert_eq!((ex.stage, ex.waited_ms), (Stage::Failed(Failure::Timeout), 15));

    let mut ex = Exchange::new(vec![DC1], 100);
    ex.step(LinkEvent::Wrote(false));
    assert_eq!(ex.stage, Stage::Failed(Failure::Transport(LinkOp::Write)));
    let mut ex = Exchange::new(vec![DC1], 100);
    ex.step(LinkEvent::Wrote(true));
    ex.step(LinkEvent::Flushed(false));
    assert_eq!(ex.stage, Stage::Failed(Failure::Transport(LinkOp::Flush)));
    let mut ex = Exchange::new(vec![DC1], 100);
    ex.step(LinkEvent::Wrote(true));
    ex.step(LinkEvent::Flushed(true));
    ex.step(LinkEvent::Available(Some(2), 0));
    assert_eq!(ex.stage, Stage::Reading);
    ex.step(LinkEvent::Received(Some(NAK)));
    assert_eq!(ex.stage, Stage::Replied(ControlCode::Nak));
    let mut ex = Exchange::awaiting(100);
    ex.step(LinkEvent::Available(Some(1), 0));
    ex.step(LinkEvent::Received(None));
    assert_eq!(ex.stage, Stage::Failed(Failure::Transport(LinkOp::Read)));
}

#[test]
fn run_exchange_writes_bytes_once() {
    let mut link = FakeLink::replying(&[&[DC4]]);
    let mut ex = Exchange::new(vec![1, 65], 50);
    assert_eq!(run_exchange(&mut link, &mut ex), Ok(ControlCode::Dc4));
    assert_eq!(ex.stage, Stage::Replied(ControlCode::Dc4));
    assert_eq!(link.written, vec![vec![1, 65]]);
    assert!(link.incoming.is_empty());
}

#[test]
fn clock_reading_advances_the_wait() {
    let mut ex = Exchange::awaiting(15);
    ex.step(LinkEvent::Available(Some(0), 7));
    assert_eq!((ex.stage, ex.waited_ms), (Stage::Pausing(8), 7));
    ex.step(LinkEvent::Paused);
    assert_eq!((ex.stage, ex.waited_ms), (Stage::Checking, 15));
    let mut ex = Exchange::awaiting(15);
    ex.step(LinkEvent::Available(Some(0), 40));
    assert_eq!((ex.stage, ex.waited_ms), (Stage::Failed(Failure::Timeout), 15));
    let mut ex = Exchange::awaiting(15);
    ex.step(LinkEvent::Available(Some(1), 40));
    assert_eq!(ex.stage, Stage::Reading);
}

#[test]
fn listener_stages_for_dc3() {
    let s = Autorotation { enabled: true, orientation: Orientation::Portrait };
    let st = listen_next(s, ListenStage::Checking, ListenEvent::Available(Some(1)));
    assert_eq!(st, ListenStage::Reading);
    let st = listen_next(s, st, ListenEvent::Received(Some(DC3)));
    assert_eq!(
        st,
        ListenStage::Replying { reply: ACK, target: Orientation::LandscapeFlipped, rotate: true }
    );
    let st = listen_next(s, st, ListenEvent::Wrote(true));
    let st = listen_next(s, st, ListenEvent::Flushed(true));
    assert_eq!(st, ListenStage::Rotating(Orientation::LandscapeFlipped));
    let st = listen_next(s, st, ListenEvent::Turned(true));
    assert_eq!(st, ListenStage::Finished(Tick::Rotated(Orientation::LandscapeFlipped)));

    let s = Autorotation { enabled: true, orientation: Orientation::LandscapeFlipped };
    let st = listen_next(s, ListenStage::Reading, ListenEvent::Received(Some(DC3)));
    let st = listen_next(s, st, ListenEvent::Wrote(true));
    let st = listen_next(s, st, ListenEvent::Flushed(true));
    assert_eq!(st, ListenStage::Finished(Tick::Acknowledged(Orientation::LandscapeFlipped)));
    let st = listen_next(s, ListenStage::Checking, ListenEvent::Available(Some(0)));
    assert_eq!(st, ListenStage::Finished(Tick::Idle));
    let st = listen_next(
        s,
        ListenStage::Replying { reply: ACK, target: Orientation::Landscape, rotate: true },
        ListenEvent::Wrote(false),
    );
    assert_eq!(st, ListenStage::Finished(Tick::Stopped(LinkOp::Write)));
}

#[test]
fn toggle_stages() {
    let off = Autorotation { enabled: false, orientation: Orientation::Portrait };
    assert_eq!(toggle_message(off, ToggleStage::Requesting), vec![DC1]);
    assert_eq!(toggle_message(off, ToggleStage::Reporting), vec![1, 65]);
    assert_eq!(
        toggle_next(ToggleStage::Requesting, Ok(ControlCode::Ack)),
        ToggleStage::Settled(ToggleStep::Switch)
    );
    assert_eq!(
        toggle_next(ToggleStage::Requesting, Ok(ControlCode::Nak)),
        ToggleStage::Settled(ToggleStep::Keep)
    );
    assert_eq!(toggle_next(ToggleStage::Requesting, Ok(ControlCode::Enq)), ToggleStage::Reporting);
    assert_eq!(
        toggle_next(ToggleStage::Reporting, Ok(ControlCode::Nak)),
        ToggleStage::Settled(ToggleStep::Unexpected(NAK))
    );
    assert_eq!(
        toggle_next(ToggleStage::Requesting, Err(Failure::Timeout)),
        ToggleStage::Failed(Failure::Timeout)
    );
}
