use coffeepot::coffeepot::{Coffeepot, Effects, PendingTimer, PotState, TimerAction};

fn quiet() -> Effects {
    Effects { notify: None, timer: TimerAction::Keep }
}

#[test]
fn new_controller_starts_idle() {
    let pot = Coffeepot::new();
    assert_eq!(pot.current_state(), PotState::Idle);
    assert_eq!(pot.pending_timer(), None);
    assert_eq!(pot.pending_timer_count(), 0);
}

#[test]
fn toggle_ready_from_idle_goes_ready() {
    let mut pot = Coffeepot::new();
    let eff = pot.toggle_ready();
    assert_eq!(pot.current_state(), PotState::Ready);
    assert_eq!(eff.notify, Some(PotState::Ready));
    assert_eq!(eff.timer, TimerAction::Cancel);
}

#[test]
fn toggle_ready_from_ready_goes_idle() {
    let mut pot = Coffeepot::new();
    pot.toggle_ready();
    let eff = pot.toggle_ready();
    assert_eq!(pot.current_state(), PotState::Idle);
    assert_eq!(eff.notify, Some(PotState::Idle));
}

#[test]
fn toggle_ready_from_waiting_goes_idle_and_drops_timer() {
    let mut pot = Coffeepot::new();
    pot.toggle_ready();
    pot.activate_delayed(90 * 60 * 1000, 5 * 60 * 1000);
    assert_eq!(pot.current_state(), PotState::Waiting);
    assert_eq!(pot.pending_timer_count(), 1);
    let eff = pot.toggle_ready();
    assert_eq!(pot.current_state(), PotState::Idle);
    assert_eq!(pot.pending_timer(), None);
    assert_eq!(eff.notify, Some(PotState::Idle));
    assert_eq!(eff.timer, TimerAction::Cancel);
}

#[test]
fn toggle_ready_from_active_is_a_noop() {
    let mut pot = Coffeepot::new();
    pot.activate(2000);
    let eff = pot.toggle_ready();
    assert_eq!(pot.current_state(), PotState::Active);
    assert_eq!(eff, quiet());
    // the auto-off timer armed by activate is untouched
    assert_eq!(pot.pending_timer(), Some(PendingTimer::AutoOff { brew_ms: 2000 }));
}

#[test]
fn inactivate_idles_from_every_state() {
    // Idle
    let mut pot = Coffeepot::new();
    pot.inactivate();
    assert_eq!(pot.current_state(), PotState::Idle);
    assert_eq!(pot.pending_timer_count(), 0);
    // Ready
    let mut pot = Coffeepot::new();
    pot.toggle_ready();
    pot.inactivate();
    assert_eq!(pot.current_state(), PotState::Idle);
    assert_eq!(pot.pending_timer_count(), 0);
    // Waiting
    let mut pot = Coffeepot::new();
    pot.toggle_ready();
    pot.activate_delayed(1000, 99);
    pot.inactivate();
    assert_eq!(pot.current_state(), PotState::Idle);
    assert_eq!(pot.pending_timer_count(), 0);
    // Active
    let mut pot = Coffeepot::new();
    pot.activate(1000);
    let eff = pot.inactivate();
    assert_eq!(pot.current_state(), PotState::Idle);
    assert_eq!(pot.pending_timer_count(), 0);
    assert_eq!(eff.notify, Some(PotState::Idle));
    assert_eq!(eff.timer, TimerAction::Cancel);
}

#[test]
fn activate_goes_active_and_arms_auto_off() {
    let mut pot = Coffeepot::new();
    let eff = pot.activate(2000);
    assert_eq!(pot.current_state(), PotState::Active);
    assert_eq!(eff.notify, Some(PotState::Active));
    assert_eq!(
        eff.timer,
        TimerAction::Arm { timer: PendingTimer::AutoOff { brew_ms: 2000 } }
    );
    assert_eq!(pot.pending_timer(), Some(PendingTimer::AutoOff { brew_ms: 2000 }));
}

#[test]
fn activate_while_active_rearms_silently() {
    let mut pot = Coffeepot::new();
    pot.activate(2000);
    let eff = pot.activate(7000);
    // same state: nothing published, but the timer is replaced
    assert_eq!(eff.notify, None);
    assert_eq!(
        eff.timer,
        TimerAction::Arm { timer: PendingTimer::AutoOff { brew_ms: 7000 } }
    );
    assert_eq!(pot.pending_timer(), Some(PendingTimer::AutoOff { brew_ms: 7000 }));
    assert_eq!(pot.pending_timer_count(), 1);
}

#[test]
fn auto_off_fires_exactly_once() {
    let mut pot = Coffeepot::new();
    pot.activate(2000);
    let eff = pot.on_timer_expiry();
    assert_eq!(pot.current_state(), PotState::Idle);
    assert_eq!(pot.pending_timer(), None);
    assert_eq!(eff.notify, Some(PotState::Idle));
    // a stale second expiry changes and publishes nothing
    let eff2 = pot.on_timer_expiry();
    assert_eq!(eff2, quiet());
    assert_eq!(pot.current_state(), PotState::Idle);
}

#[test]
fn delayed_start_accepted_from_ready() {
    let mut pot = Coffeepot::new();
    pot.toggle_ready();
    let eff = pot.activate_delayed(90 * 60 * 1000, 300_000);
    assert_eq!(pot.current_state(), PotState::Waiting);
    assert_eq!(eff.notify, Some(PotState::Waiting));
    assert_eq!(
        eff.timer,
        TimerAction::Arm {
            timer: PendingTimer::DelayedStart { at_ms: 300_000, brew_ms: 90 * 60 * 1000 }
        }
    );
    // the delayed-start timer fires: the pot activates and arms auto-off
    let eff = pot.on_timer_expiry();
    assert_eq!(pot.current_state(), PotState::Active);
    assert_eq!(eff.notify, Some(PotState::Active));
    assert_eq!(
        eff.timer,
        TimerAction::Arm { timer: PendingTimer::AutoOff { brew_ms: 90 * 60 * 1000 } }
    );
    // the auto-off timer fires: back to idle
    let eff = pot.on_timer_expiry();
    assert_eq!(pot.current_state(), PotState::Idle);
    assert_eq!(eff.notify, Some(PotState::Idle));
    assert_eq!(pot.pending_timer(), None);
}

#[test]
fn delayed_start_rearms_from_waiting_without_notification() {
    let mut pot = Coffeepot::new();
    pot.toggle_ready();
    pot.activate_delayed(1000, 11);
    let eff = pot.activate_delayed(2000, 22);
    assert_eq!(pot.current_state(), PotState::Waiting);
    assert_eq!(eff.notify, None);
    assert_eq!(
        eff.timer,
        TimerAction::Arm { timer: PendingTimer::DelayedStart { at_ms: 22, brew_ms: 2000 } }
    );
    assert_eq!(pot.pending_timer_count(), 1);
}

#[test]
fn delayed_start_rejected_outside_ready_and_waiting() {
    // Idle
    let mut pot = Coffeepot::new();
    let eff = pot.activate_delayed(1000, 11);
    assert_eq!(pot.current_state(), PotState::Idle);
    assert_eq!(eff, quiet());
    // Active: the running auto-off timer must survive the rejected request
    let mut pot = Coffeepot::new();
    pot.activate(2000);
    let eff = pot.activate_delayed(1000, 11);
    assert_eq!(pot.current_state(), PotState::Active);
    assert_eq!(eff, quiet());
    assert_eq!(pot.pending_timer(), Some(PendingTimer::AutoOff { brew_ms: 2000 }));
    // Shutdown
    let mut pot = Coffeepot::new();
    pot.shutdown();
    let eff = pot.activate_delayed(1000, 11);
    assert_eq!(pot.current_state(), PotState::Shutdown);
    assert_eq!(eff, quiet());
}

#[test]
fn toggle_active_toggles_without_auto_off() {
    let mut pot = Coffeepot::new();
    let eff = pot.toggle_active();
    assert_eq!(pot.current_state(), PotState::Active);
    assert_eq!(eff.notify, Some(PotState::Active));
    // indefinite activation: no timer armed
    assert_eq!(eff.timer, TimerAction::Cancel);
    assert_eq!(pot.pending_timer(), None);
    let eff = pot.toggle_active();
    assert_eq!(pot.current_state(), PotState::Idle);
    assert_eq!(eff.notify, Some(PotState::Idle));
}

#[test]
fn toggle_active_from_ready_activates() {
    let mut pot = Coffeepot::new();
    pot.toggle_ready();
    let eff = pot.toggle_active();
    assert_eq!(pot.current_state(), PotState::Active);
    assert_eq!(eff.notify, Some(PotState::Active));
}

#[test]
fn toggle_active_cancels_running_auto_off() {
    let mut pot = Coffeepot::new();
    pot.activate(2000);
    let eff = pot.toggle_active();
    assert_eq!(pot.current_state(), PotState::Idle);
    assert_eq!(eff.timer, TimerAction::Cancel);
    assert_eq!(pot.pending_timer(), None);
}

#[test]
fn shutdown_is_terminal() {
    let mut pot = Coffeepot::new();
    pot.activate(2000);
    let eff = pot.shutdown();
    assert_eq!(pot.current_state(), PotState::Shutdown);
    assert_eq!(eff.notify, Some(PotState::Shutdown));
    assert_eq!(eff.timer, TimerAction::Cancel);
    assert_eq!(pot.pending_timer(), None);
    assert!(pot.current_state().is_terminal());
    // every further operation is a no-op
    assert_eq!(pot.activate(1000), quiet());
    assert_eq!(pot.activate_delayed(1000, 11), quiet());
    assert_eq!(pot.inactivate(), quiet());
    assert_eq!(pot.toggle_ready(), quiet());
    assert_eq!(pot.toggle_active(), quiet());
    assert_eq!(pot.shutdown(), quiet());
    assert_eq!(pot.on_timer_expiry(), quiet());
    assert_eq!(pot.current_state(), PotState::Shutdown);
}

#[test]
fn at_most_one_timer_over_a_long_sequence() {
    let mut pot = Coffeepot::new();
    assert!(pot.pending_timer_count() <= 1);
    pot.toggle_ready();
    assert!(pot.pending_timer_count() <= 1);
    pot.activate_delayed(1000, 11);
    assert!(pot.pending_timer_count() <= 1);
    pot.activate_delayed(2000, 22);
    assert!(pot.pending_timer_count() <= 1);
    pot.activate(500);
    assert!(pot.pending_timer_count() <= 1);
    pot.activate(900);
    assert!(pot.pending_timer_count() <= 1);
    pot.on_timer_expiry();
    assert!(pot.pending_timer_count() <= 1);
    pot.toggle_active();
    assert!(pot.pending_timer_count() <= 1);
    pot.toggle_active();
    assert!(pot.pending_timer_count() <= 1);
    pot.inactivate();
    assert!(pot.pending_timer_count() <= 1);
    pot.shutdown();
    assert!(pot.pending_timer_count() <= 1);
    pot.on_timer_expiry();
    assert!(pot.pending_timer_count() <= 1);
}

#[test]
fn scenario_ready_waiting_active_idle_in_order() {
    // toggle_ready, a delayed start five minutes out for a ninety-minute
    // brew, the start timer firing, then the auto-off timer firing: the
    // subscribers see exactly Ready, Waiting, Active, Idle, in that order.
    let mut pot = Coffeepot::new();
    let mut seen: Vec<PotState> = Vec::new();
    let mut record = |eff: Effects, seen: &mut Vec<PotState>| {
        if let Some(s) = eff.notify {
            seen.push(s);
        }
    };
    let eff = pot.toggle_ready();
    record(eff, &mut seen);
    let eff = pot.activate_delayed(90 * 60 * 1000, 5 * 60 * 1000);
    record(eff, &mut seen);
    let eff = pot.on_timer_expiry();
    record(eff, &mut seen);
    let eff = pot.on_timer_expiry();
    record(eff, &mut seen);
    assert_eq!(
        seen,
        vec![PotState::Ready, PotState::Waiting, PotState::Active, PotState::Idle]
    );
}

#[test]
fn wire_bytes_are_stable() {
    assert_eq!(PotState::Idle.wire_byte(), 1);
    assert_eq!(PotState::Ready.wire_byte(), 2);
    assert_eq!(PotState::Waiting.wire_byte(), 3);
    assert_eq!(PotState::Active.wire_byte(), 4);
    assert_eq!(PotState::Shutdown.wire_byte(), 5);
}
