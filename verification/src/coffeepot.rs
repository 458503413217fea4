//! The timed state machine of the controller.
//!
//! `Coffeepot` holds the operating state of the pot together with a record of
//! the single timer that may be outstanding.  Every operation is total: where
//! its precondition does not hold it degrades to a no-op rather than failing.
//! Each mutating operation returns an [`Effects`] record telling the caller
//! which notification to publish and what to do with the real timer.  The
//! caller (the runtime shell) owns the actual timer service; it arms or
//! cancels real timers exactly as instructed, and routes every expiry back
//! into [`Coffeepot::on_timer_expiry`].
//!
//! The behaviour of every operation is pinned by the spec-level transition
//! functions (`activate_model`, `inactivate_model`, ...), which act on the
//! abstract [`PotModel`].  The model also carries a log of all published
//! notifications and counters of timer arm/cancel events, so that the ordering
//! and single-timer guarantees can be stated and proved once, over all
//! operation sequences.

use vstd::prelude::*;

verus! {

/// Operating state of the pot.  `Shutdown` is terminal: once reached, every
/// further operation is a no-op.
#[derive(Clone, Copy, Debug, PartialEq, Eq, Structural)]
pub enum PotState {
    Idle,
    Ready,
    Waiting,
    Active,
    Shutdown,
}

impl PotState {
    /// The stable single-byte encoding used on the wire for state
    /// notifications.
    pub open spec fn wire_byte_spec(self) -> u8 {
        match self {
            PotState::Idle => 1,
            PotState::Ready => 2,
            PotState::Waiting => 3,
            PotState::Active => 4,
            PotState::Shutdown => 5,
        }
    }

    /// Encodes the state as its wire byte.
    pub fn wire_byte(self) -> (b: u8)
        ensures
            b == self.wire_byte_spec(),
    {
        match self {
            PotState::Idle => 1,
            PotState::Ready => 2,
            PotState::Waiting => 3,
            PotState::Active => 4,
            PotState::Shutdown => 5,
        }
    }

    /// True exactly for `Shutdown`, the state after which a notification
    /// dispatcher may stop consuming: no further transition will be published.
    pub fn is_terminal(self) -> (r: bool)
        ensures
            r == (self is Shutdown),
    {
        match self {
            PotState::Shutdown => true,
            _ => false,
        }
    }
}

/// Description of the one timer that may be outstanding.  The runtime shell
/// arms a real one-shot timer from this description; on expiry it calls
/// [`Coffeepot::on_timer_expiry`], which performs the transition the timer
/// was armed for.
#[derive(Clone, Copy, Debug, PartialEq, Eq, Structural)]
pub enum PendingTimer {
    /// Auto-off: fires `brew_ms` milliseconds after it was armed and puts the
    /// pot back to `Idle`.
    AutoOff { brew_ms: u64 },
    /// Delayed start: fires at absolute time `at_ms` (milliseconds since the
    /// epoch) and activates the pot for `brew_ms` milliseconds.
    DelayedStart { at_ms: u64, brew_ms: u64 },
}

/// What an operation asks the runtime shell to do with the real timer.
#[derive(Clone, Copy, Debug, PartialEq, Eq, Structural)]
pub enum TimerAction {
    /// Leave any outstanding timer as it is (the operation was a no-op).
    Keep,
    /// Drop any outstanding timer; nothing new is armed.
    Cancel,
    /// Drop any outstanding timer, then arm a new one as described.
    Arm { timer: PendingTimer },
}

/// The outward effects of one operation: the notification to publish (absent
/// when the state did not change) and the timer instruction.
#[derive(Clone, Copy, Debug, PartialEq, Eq)]
pub struct Effects {
    pub notify: Option<PotState>,
    pub timer: TimerAction,
}

/// Abstract state of the controller.
///
/// `log` is the sequence of all notifications published so far, in order.
/// `armed` and `canceled` count timer arm events and timer cancel/consume
/// events; their difference is the number of outstanding timers, which the
/// controller keeps at one at most.
#[verifier::ext_equal]
pub ghost struct PotModel {
    pub current: PotState,
    pub pending: Option<PendingTimer>,
    pub log: Seq<PotState>,
    pub armed: nat,
    pub canceled: nat,
}

/// The state of a freshly created controller: `Idle`, no timer outstanding,
/// nothing published.
pub open spec fn init_model() -> PotModel {
    PotModel {
        current: PotState::Idle,
        pending: None,
        log: Seq::empty(),
        armed: 0,
        canceled: 0,
    }
}

/// Number of outstanding timers in the model: 0 or 1.
pub open spec fn pending_count(m: PotModel) -> nat {
    if m.pending is Some {
        1
    } else {
        0
    }
}

/// The timer accounting that ties the event counters to the outstanding
/// timer: every armed timer but the pending one has been cancelled or has
/// fired.
pub open spec fn timer_accounting_ok(m: PotModel) -> bool {
    m.canceled <= m.armed && m.armed - m.canceled == pending_count(m)
}

/// Cancelling the outstanding timer, if any.
pub open spec fn cancel_model(m: PotModel) -> PotModel {
    if m.pending is Some {
        PotModel { pending: None, canceled: m.canceled + 1, ..m }
    } else {
        m
    }
}

/// The notification a transition to `new_state` publishes: the new state,
/// unless the pot is already in it.
pub open spec fn change_notify(m: PotModel, new_state: PotState) -> Option<PotState> {
    if new_state == m.current {
        None
    } else {
        Some(new_state)
    }
}

/// A transition to `new_state`: the outstanding timer is cancelled even when
/// the state does not change, and the change is appended to the log exactly
/// when it is published.
pub open spec fn change_state_model(m: PotModel, new_state: PotState) -> PotModel {
    let c = cancel_model(m);
    if new_state == m.current {
        c
    } else {
        PotModel { current: new_state, log: c.log.push(new_state), ..c }
    }
}

/// Arming a timer.  Operations only arm with no timer outstanding (they
/// cancel first, as part of `change_state_model`).
pub open spec fn arm_model(m: PotModel, t: PendingTimer) -> PotModel {
    PotModel { pending: Some(t), armed: m.armed + 1, ..m }
}

/// The effects of an operation that did nothing.
pub open spec fn quiet_effects() -> Effects {
    Effects { notify: None, timer: TimerAction::Keep }
}

/// `activate`: from any state but `Shutdown`, go to `Active` and arm the
/// auto-off timer for `brew_ms`.
pub open spec fn activate_model(m: PotModel, brew_ms: u64) -> PotModel {
    if m.current is Shutdown {
        m
    } else {
        arm_model(
            change_state_model(m, PotState::Active),
            PendingTimer::AutoOff { brew_ms },
        )
    }
}

pub open spec fn activate_effects(m: PotModel, brew_ms: u64) -> Effects {
    if m.current is Shutdown {
        quiet_effects()
    } else {
        Effects {
            notify: change_notify(m, PotState::Active),
            timer: TimerAction::Arm { timer: PendingTimer::AutoOff { brew_ms } },
        }
    }
}

/// `activate_delayed`: accepted only from `Ready` or `Waiting`; goes to
/// `Waiting` and arms the delayed-start timer for absolute time `at_ms`.
pub open spec fn activate_delayed_model(m: PotModel, brew_ms: u64, at_ms: u64) -> PotModel {
    if m.current is Ready || m.current is Waiting {
        arm_model(
            change_state_model(m, PotState::Waiting),
            PendingTimer::DelayedStart { at_ms, brew_ms },
        )
    } else {
        m
    }
}

pub open spec fn activate_delayed_effects(m: PotModel, brew_ms: u64, at_ms: u64) -> Effects {
    if m.current is Ready || m.current is Waiting {
        Effects {
            notify: change_notify(m, PotState::Waiting),
            timer: TimerAction::Arm { timer: PendingTimer::DelayedStart { at_ms, brew_ms } },
        }
    } else {
        quiet_effects()
    }
}

/// `inactivate`: from any state but `Shutdown`, cancel the timer and go to
/// `Idle`.
pub open spec fn inactivate_model(m: PotModel) -> PotModel {
    if m.current is Shutdown {
        m
    } else {
        change_state_model(m, PotState::Idle)
    }
}

pub open spec fn inactivate_effects(m: PotModel) -> Effects {
    if m.current is Shutdown {
        quiet_effects()
    } else {
        Effects { notify: change_notify(m, PotState::Idle), timer: TimerAction::Cancel }
    }
}

/// `toggle_ready`: `Idle` to `Ready`; `Ready` or `Waiting` back to `Idle`,
/// cancelling any pending delayed start; a no-op elsewhere.
pub open spec fn toggle_ready_model(m: PotModel) -> PotModel {
    match m.current {
        PotState::Idle => change_state_model(m, PotState::Ready),
        PotState::Ready | PotState::Waiting => change_state_model(m, PotState::Idle),
        _ => m,
    }
}

pub open spec fn toggle_ready_effects(m: PotModel) -> Effects {
    match m.current {
        PotState::Idle => Effects {
            notify: change_notify(m, PotState::Ready),
            timer: TimerAction::Cancel,
        },
        PotState::Ready | PotState::Waiting => Effects {
            notify: change_notify(m, PotState::Idle),
            timer: TimerAction::Cancel,
        },
        _ => quiet_effects(),
    }
}

/// `toggle_active`: `Active` to `Idle`; any other state but `Shutdown` to
/// `Active`, with no auto-off timer (indefinite activation).
pub open spec fn toggle_active_model(m: PotModel) -> PotModel {
    match m.current {
        PotState::Shutdown => m,
        PotState::Active => change_state_model(m, PotState::Idle),
        _ => change_state_model(m, PotState::Active),
    }
}

pub open spec fn toggle_active_effects(m: PotModel) -> Effects {
    match m.current {
        PotState::Shutdown => quiet_effects(),
        PotState::Active => Effects {
            notify: change_notify(m, PotState::Idle),
            timer: TimerAction::Cancel,
        },
        _ => Effects { notify: change_notify(m, PotState::Active), timer: TimerAction::Cancel },
    }
}

/// `shutdown`: from any state, cancel the timer and go to the terminal
/// state.  Once there, every operation (this one included) leaves the model
/// unchanged.
pub open spec fn shutdown_model(m: PotModel) -> PotModel {
    if m.current is Shutdown {
        m
    } else {
        change_state_model(m, PotState::Shutdown)
    }
}

pub open spec fn shutdown_effects(m: PotModel) -> Effects {
    if m.current is Shutdown {
        quiet_effects()
    } else {
        Effects { notify: change_notify(m, PotState::Shutdown), timer: TimerAction::Cancel }
    }
}

/// A timer expiry performs the transition the pending timer was armed for:
/// auto-off inactivates, delayed start activates.  A stale expiry (no timer
/// outstanding) is a no-op.
pub open spec fn expiry_model(m: PotModel) -> PotModel {
    match m.pending {
        None => m,
        Some(PendingTimer::AutoOff { .. }) => inactivate_model(m),
        Some(PendingTimer::DelayedStart { at_ms, brew_ms }) => activate_model(m, brew_ms),
    }
}

pub open spec fn expiry_effects(m: PotModel) -> Effects {
    match m.pending {
        None => quiet_effects(),
        Some(PendingTimer::AutoOff { .. }) => inactivate_effects(m),
        Some(PendingTimer::DelayedStart { at_ms, brew_ms }) => activate_effects(m, brew_ms),
    }
}

/// The controller.  The runtime shell keeps one value of this type behind a
/// lock shared by every caller and timer callback; it serializes access and
/// performs the returned [`Effects`] before releasing the lock.
pub struct Coffeepot {
    current: PotState,
    pending: Option<PendingTimer>,
    log: Ghost<Seq<PotState>>,
    armed: Ghost<nat>,
    canceled: Ghost<nat>,
}

impl View for Coffeepot {
    type V = PotModel;

    closed spec fn view(&self) -> PotModel {
        PotModel {
            current: self.current,
            pending: self.pending,
            log: self.log@,
            armed: self.armed@,
            canceled: self.canceled@,
        }
    }
}

impl Coffeepot {
    /// A fresh controller: `Idle`, with no timer outstanding.
    pub fn new() -> (pot: Self)
        ensures
            pot@ == init_model(),
    {
        Coffeepot {
            current: PotState::Idle,
            pending: None,
            log: Ghost(Seq::empty()),
            armed: Ghost(0),
            canceled: Ghost(0),
        }
    }

    /// The current operating state.
    pub fn current_state(&self) -> (s: PotState)
        ensures
            s == self@.current,
    {
        self.current
    }

    /// The timer that is outstanding, if any.
    pub fn pending_timer(&self) -> (t: Option<PendingTimer>)
        ensures
            t == self@.pending,
    {
        self.pending
    }

    /// How many timers are outstanding: never more than one.
    pub fn pending_timer_count(&self) -> (n: u64)
        ensures
            n == pending_count(self@),
            n <= 1,
    {
        if self.pending.is_some() {
            1
        } else {
            0
        }
    }

    /// Drops the outstanding timer record, counting the cancellation.
    fn cancel_timer(&mut self)
        ensures
            final(self)@ == cancel_model(old(self)@),
    {
        if self.pending.is_some() {
            self.pending = None;
            self.canceled = Ghost(self.canceled@ + 1);
        }
    }

    /// Moves to `new_state`: always cancels the outstanding timer (a stale
    /// timer must never survive a transition that may re-arm), publishes the
    /// new state only if it differs from the current one.
    fn change_state(&mut self, new_state: PotState) -> (notify: Option<PotState>)
        ensures
            final(self)@ == change_state_model(old(self)@, new_state),
            notify == change_notify(old(self)@, new_state),
    {
        self.cancel_timer();
        if new_state == self.current {
            None
        } else {
            self.current = new_state;
            self.log = Ghost(self.log@.push(new_state));
            Some(new_state)
        }
    }

    /// Records a newly armed timer.
    fn arm_timer(&mut self, t: PendingTimer)
        ensures
            final(self)@ == arm_model(old(self)@, t),
    {
        self.pending = Some(t);
        self.armed = Ghost(self.armed@ + 1);
    }

    /// Activates the pot for `brew_ms` milliseconds: the state becomes
    /// `Active` and the auto-off timer is armed.  A no-op after shutdown.
    pub fn activate(&mut self, brew_ms: u64) -> (eff: Effects)
        ensures
            final(self)@ == activate_model(old(self)@, brew_ms),
            eff == activate_effects(old(self)@, brew_ms),
    {
        if self.current == PotState::Shutdown {
            return quiet();
        }
        let notify = self.change_state(PotState::Active);
        let t = PendingTimer::AutoOff { brew_ms };
        self.arm_timer(t);
        Effects { notify, timer: TimerAction::Arm { timer: t } }
    }

    /// Schedules activation for `brew_ms` milliseconds at absolute time
    /// `at_ms`: accepted only from `Ready` or `Waiting`, where the state
    /// becomes `Waiting` and the delayed-start timer is armed.  From any
    /// other state the request is ignored.
    pub fn activate_delayed(&mut self, brew_ms: u64, at_ms: u64) -> (eff: Effects)
        ensures
            final(self)@ == activate_delayed_model(old(self)@, brew_ms, at_ms),
            eff == activate_delayed_effects(old(self)@, brew_ms, at_ms),
    {
        if !(self.current == PotState::Ready || self.current == PotState::Waiting) {
            return quiet();
        }
        let notify = self.change_state(PotState::Waiting);
        let t = PendingTimer::DelayedStart { at_ms, brew_ms };
        self.arm_timer(t);
        Effects { notify, timer: TimerAction::Arm { timer: t } }
    }

    /// Puts the pot back to `Idle` and cancels the outstanding timer.  Safe
    /// to call from any state (timer callbacks rely on that); a no-op after
    /// shutdown.
    pub fn inactivate(&mut self) -> (eff: Effects)
        ensures
            final(self)@ == inactivate_model(old(self)@),
            eff == inactivate_effects(old(self)@),
    {
        if self.current == PotState::Shutdown {
            return quiet();
        }
        let notify = self.change_state(PotState::Idle);
        Effects { notify, timer: TimerAction::Cancel }
    }

    /// Toggles readiness: `Idle` to `Ready`, `Ready` or `Waiting` back to
    /// `Idle` (dropping any pending delayed start), ignored elsewhere.
    pub fn toggle_ready(&mut self) -> (eff: Effects)
        ensures
            final(self)@ == toggle_ready_model(old(self)@),
            eff == toggle_ready_effects(old(self)@),
    {
        match self.current {
            PotState::Idle => {
                let notify = self.change_state(PotState::Ready);
                Effects { notify, timer: TimerAction::Cancel }
            }
            PotState::Ready | PotState::Waiting => {
                let notify = self.change_state(PotState::Idle);
                Effects { notify, timer: TimerAction::Cancel }
            }
            _ => quiet(),
        }
    }

    /// Toggles activation without an auto-off timer: `Active` to `Idle`, any
    /// other state to `Active` (indefinite activation).  A no-op after
    /// shutdown.
    pub fn toggle_active(&mut self) -> (eff: Effects)
        ensures
            final(self)@ == toggle_active_model(old(self)@),
            eff == toggle_active_effects(old(self)@),
    {
        match self.current {
            PotState::Shutdown => quiet(),
            PotState::Active => {
                let notify = self.change_state(PotState::Idle);
                Effects { notify, timer: TimerAction::Cancel }
            }
            _ => {
                let notify = self.change_state(PotState::Active);
                Effects { notify, timer: TimerAction::Cancel }
            }
        }
    }

    /// Moves to the terminal `Shutdown` state, cancelling the outstanding
    /// timer.  The `Shutdown` notification is the dispatcher's signal to
    /// close down; all later operations are no-ops.
    pub fn shutdown(&mut self) -> (eff: Effects)
        ensures
            final(self)@ == shutdown_model(old(self)@),
            eff == shutdown_effects(old(self)@),
    {
        if self.current == PotState::Shutdown {
            return quiet();
        }
        let notify = self.change_state(PotState::Shutdown);
        Effects { notify, timer: TimerAction::Cancel }
    }

    /// Entry point for the runtime shell when the armed timer fires: performs
    /// the transition the timer was armed for.  Ignores stale expiries, and
    /// re-validates the state through the called operation rather than
    /// assuming the world is unchanged since the timer was armed.
    pub fn on_timer_expiry(&mut self) -> (eff: Effects)
        ensures
            final(self)@ == expiry_model(old(self)@),
            eff == expiry_effects(old(self)@),
    {
        match self.pending {
            None => quiet(),
            Some(PendingTimer::AutoOff { .. }) => self.inactivate(),
            Some(PendingTimer::DelayedStart { brew_ms, .. }) => self.activate(brew_ms),
        }
    }
}

/// Effects of an operation that did nothing.
fn quiet() -> (eff: Effects)
    ensures
        eff == quiet_effects(),
{
    Effects { notify: None, timer: TimerAction::Keep }
}

/// One controller operation, as an event.  Sequences of these describe every
/// possible history of calls, timer expiries included.
#[derive(Clone, Copy, Debug, PartialEq, Eq, Structural)]
pub enum Op {
    Activate { brew_ms: u64 },
    ActivateDelayed { brew_ms: u64, at_ms: u64 },
    Inactivate,
    ToggleReady,
    ToggleActive,
    Shutdown,
    TimerExpiry,
}

/// The transition one operation makes on the model.
pub open spec fn step_model(m: PotModel, op: Op) -> PotModel {
    match op {
        Op::Activate { brew_ms } => activate_model(m, brew_ms),
        Op::ActivateDelayed { brew_ms, at_ms } => activate_delayed_model(m, brew_ms, at_ms),
        Op::Inactivate => inactivate_model(m),
        Op::ToggleReady => toggle_ready_model(m),
        Op::ToggleActive => toggle_active_model(m),
        Op::Shutdown => shutdown_model(m),
        Op::TimerExpiry => expiry_model(m),
    }
}

/// The effects one operation reports.
pub open spec fn step_effects(m: PotModel, op: Op) -> Effects {
    match op {
        Op::Activate { brew_ms } => activate_effects(m, brew_ms),
        Op::ActivateDelayed { brew_ms, at_ms } => activate_delayed_effects(m, brew_ms, at_ms),
        Op::Inactivate => inactivate_effects(m),
        Op::ToggleReady => toggle_ready_effects(m),
        Op::ToggleActive => toggle_active_effects(m),
        Op::Shutdown => shutdown_effects(m),
        Op::TimerExpiry => expiry_effects(m),
    }
}

/// The model after a whole sequence of operations, first to last.
pub open spec fn run_model(m: PotModel, ops: Seq<Op>) -> PotModel
    decreases ops.len(),
{
    if ops.len() == 0 {
        m
    } else {
        run_model(step_model(m, ops[0]), ops.subrange(1, ops.len() as int))
    }
}

/// After `inactivate` from any state but `Shutdown`, the pot is `Idle` and no
/// timer is outstanding.
pub proof fn lemma_inactivate_idles(m: PotModel)
    requires
        m.current !is Shutdown,
    ensures
        inactivate_model(m).current is Idle,
        inactivate_model(m).pending is None,
{
}

/// `activate` always lands in `Active` with the auto-off timer armed, and the
/// expiry of that timer puts the pot back to `Idle`, publishing `Idle`
/// exactly once: a second expiry with no call in between changes nothing.
pub proof fn lemma_activate_auto_off(m: PotModel, brew_ms: u64)
    requires
        m.current !is Shutdown,
    ensures
        activate_model(m, brew_ms).current is Active,
        activate_model(m, brew_ms).pending == Some(PendingTimer::AutoOff { brew_ms }),
        expiry_model(activate_model(m, brew_ms)).current is Idle,
        expiry_model(activate_model(m, brew_ms)).pending is None,
        expiry_model(activate_model(m, brew_ms)).log == activate_model(m, brew_ms).log.push(
            PotState::Idle,
        ),
        expiry_model(expiry_model(activate_model(m, brew_ms))) == expiry_model(
            activate_model(m, brew_ms),
        ),
{
}

/// An accepted `activate_delayed` (from `Ready` or `Waiting`) parks the pot
/// in `Waiting` with the delayed-start timer armed for `at_ms`; that timer's
/// expiry activates the pot with the auto-off timer armed for `brew_ms`, and
/// the auto-off expiry finally idles it.
pub proof fn lemma_delayed_start_accepted(m: PotModel, brew_ms: u64, at_ms: u64)
    requires
        m.current is Ready || m.current is Waiting,
    ensures
        activate_delayed_model(m, brew_ms, at_ms).current is Waiting,
        activate_delayed_model(m, brew_ms, at_ms).pending == Some(
            PendingTimer::DelayedStart { at_ms, brew_ms },
        ),
        expiry_model(activate_delayed_model(m, brew_ms, at_ms)).current is Active,
        expiry_model(activate_delayed_model(m, brew_ms, at_ms)).pending == Some(
            PendingTimer::AutoOff { brew_ms },
        ),
        expiry_model(expiry_model(activate_delayed_model(m, brew_ms, at_ms))).current is Idle,
        expiry_model(expiry_model(activate_delayed_model(m, brew_ms, at_ms))).pending is None,
{
}

/// From any state but `Ready` and `Waiting`, `activate_delayed` is a no-op:
/// the model is unchanged and nothing is published or armed.
pub proof fn lemma_delayed_start_rejected(m: PotModel, brew_ms: u64, at_ms: u64)
    requires
        m.current !is Ready,
        m.current !is Waiting,
    ensures
        activate_delayed_model(m, brew_ms, at_ms) == m,
        activate_delayed_effects(m, brew_ms, at_ms) == quiet_effects(),
{
}

/// `toggle_ready` moves `Idle` to `Ready`, `Ready` and `Waiting` back to
/// `Idle` with no timer left outstanding, and is a no-op from `Active` and
/// `Shutdown`.
pub proof fn lemma_toggle_ready(m: PotModel)
    ensures
        m.current is Idle ==> toggle_ready_model(m).current is Ready,
        m.current is Ready || m.current is Waiting ==> toggle_ready_model(m).current is Idle
            && toggle_ready_model(m).pending is None,
        m.current is Active || m.current is Shutdown ==> toggle_ready_model(m) == m
            && toggle_ready_effects(m) == quiet_effects(),
{
}

/// Every single operation keeps the timer accounting intact: each arm event
/// is preceded by the cancellation of whatever was outstanding, so the number
/// of outstanding timers stays below two.
pub proof fn lemma_step_keeps_one_timer(m: PotModel, op: Op)
    requires
        timer_accounting_ok(m),
    ensures
        timer_accounting_ok(step_model(m, op)),
{
}

/// At most one timer is outstanding at any instant: over every sequence of
/// operations from a state with sound accounting, the number of timers armed
/// exceeds the number cancelled or fired by at most one.
pub proof fn lemma_at_most_one_timer(m: PotModel, ops: Seq<Op>)
    requires
        timer_accounting_ok(m),
    ensures
        timer_accounting_ok(run_model(m, ops)),
        run_model(m, ops).armed - run_model(m, ops).canceled <= 1,
    decreases ops.len(),
{
    if ops.len() == 0 {
    } else {
        lemma_step_keeps_one_timer(m, ops[0]);
        lemma_at_most_one_timer(step_model(m, ops[0]), ops.subrange(1, ops.len() as int));
    }
}

/// A timer only pends in the state it serves: an auto-off timer while the
/// pot is `Active`, a delayed start while it is `Waiting`.  In particular no
/// timer survives into `Shutdown`, `Idle` or `Ready`.
pub open spec fn timer_fits_state(m: PotModel) -> bool {
    &&& (m.pending matches Some(PendingTimer::AutoOff { .. }) ==> m.current is Active)
    &&& (m.pending matches Some(PendingTimer::DelayedStart { .. }) ==> m.current is Waiting)
}

/// A fresh controller satisfies both invariants.
pub proof fn lemma_init_invariants()
    ensures
        timer_accounting_ok(init_model()),
        timer_fits_state(init_model()),
{
}

/// No operation leaves a stale timer behind: each one either keeps the pot
/// in the state the pending timer serves, or cancels that timer on the way
/// out.
pub proof fn lemma_step_keeps_timer_fitting(m: PotModel, op: Op)
    requires
        timer_fits_state(m),
    ensures
        timer_fits_state(step_model(m, op)),
{
}

/// The timer-fits-state invariant holds along every operation sequence.
pub proof fn lemma_timer_fits_state_always(m: PotModel, ops: Seq<Op>)
    requires
        timer_fits_state(m),
    ensures
        timer_fits_state(run_model(m, ops)),
    decreases ops.len(),
{
    if ops.len() > 0 {
        lemma_step_keeps_timer_fitting(m, ops[0]);
        lemma_timer_fits_state_always(step_model(m, ops[0]), ops.subrange(1, ops.len() as int));
    }
}

/// The reported timer instruction agrees with the model: after `Keep` the
/// outstanding timer is whatever it was, after `Cancel` there is none, and
/// after `Arm` it is exactly the armed one.  The runtime shell relies on
/// this to keep the real timer service in step with the controller.
pub proof fn lemma_timer_action_tracks_pending(m: PotModel, op: Op)
    ensures
        step_effects(m, op).timer is Keep ==> step_model(m, op).pending == m.pending,
        step_effects(m, op).timer is Cancel ==> step_model(m, op).pending is None,
        step_effects(m, op).timer matches TimerAction::Arm { timer } ==> step_model(m, op).pending == Some(
            timer,
        ),
{
}

/// Every state change is published, and nothing else is: one operation
/// appends to the log exactly the notification it reports, so subscribers
/// see every transition, in the order it occurred.
pub proof fn lemma_step_publishes_changes(m: PotModel, op: Op)
    ensures
        step_model(m, op).log == match step_effects(m, op).notify {
            Some(s) => m.log.push(s),
            None => m.log,
        },
        step_effects(m, op).notify matches Some(s) ==> s == step_model(m, op).current
            && s != m.current,
        step_effects(m, op).notify is None ==> step_model(m, op).current == m.current,
{
}

} // verus!
