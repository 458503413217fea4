//! The debounce engine: collapses a rapidly flickering binary signal into a
//! stable event stream, using only a hold-off timer.
//!
//! The rest value of the signal is fixed at construction.  An edge away from
//! rest is latency-sensitive and trusted instantly; an edge back to rest is
//! the one prone to chatter, so it is only confirmed after the signal has
//! stayed at rest for the hold-off duration.  If the signal leaves rest again
//! inside that window, the apparent release was a bounce and is discarded
//! silently.
//!
//! As with the state machine, the engine is pure transition logic: feeding a
//! reading returns a [`DebounceEffect`] telling the runtime shell whether to
//! invoke the subscriber callback now, to arm the hold-off timer, or to drop
//! it.  The shell routes the timer's expiry back into
//! [`Debouncer::on_holdoff_expiry`].

use vstd::prelude::*;

verus! {

/// What one reading asks the runtime shell to do.
#[derive(Clone, Copy, Debug, PartialEq, Eq, Structural)]
pub enum DebounceEffect {
    /// The reading repeated the last accepted value: nothing to do.
    Ignored,
    /// A confirmed edge: invoke the callback with this value now.
    Invoke { value: bool },
    /// The signal returned to rest: arm the hold-off timer for `bounce_ms`
    /// milliseconds; the release is only confirmed when it fires.
    ArmHoldoff { bounce_ms: u64 },
    /// The signal left rest inside the settle window: the apparent release
    /// was a bounce.  Drop the hold-off timer and invoke nothing.
    CancelHoldoff,
}

/// Abstract state of one debounce engine.
///
/// `emitted` is the sequence of all values handed to the callback so far, in
/// order: the engine's whole observable output.
#[verifier::ext_equal]
pub ghost struct DebounceModel {
    /// The rest value of the signal, fixed at construction.
    pub rest: bool,
    /// The hold-off duration, fixed at construction.
    pub bounce_ms: u64,
    /// The most recently accepted reading.
    pub last: bool,
    /// Whether the hold-off timer is armed.
    pub holdoff: bool,
    pub emitted: Seq<bool>,
}

/// A hold-off timer is only ever armed while the signal rests: the engine
/// keeps this invariant from construction on.
pub open spec fn debounce_wf(m: DebounceModel) -> bool {
    m.holdoff ==> m.last == m.rest
}

/// The state of a fresh engine for a signal resting at `rest`.
pub open spec fn debounce_init(rest: bool, bounce_ms: u64) -> DebounceModel {
    DebounceModel { rest, bounce_ms, last: rest, holdoff: false, emitted: Seq::empty() }
}

/// One raw reading.  A repeat of the last accepted value is ignored; an edge
/// away from rest cancels a running settle window (a bounce) or is emitted
/// immediately; an edge back to rest starts the settle window.
pub open spec fn feed_model(m: DebounceModel, reading: bool) -> DebounceModel {
    if reading == m.last {
        m
    } else if reading != m.rest {
        if m.holdoff {
            DebounceModel { last: reading, holdoff: false, ..m }
        } else {
            DebounceModel { last: reading, emitted: m.emitted.push(reading), ..m }
        }
    } else {
        DebounceModel { last: reading, holdoff: true, ..m }
    }
}

pub open spec fn feed_effect(m: DebounceModel, reading: bool) -> DebounceEffect {
    if reading == m.last {
        DebounceEffect::Ignored
    } else if reading != m.rest {
        if m.holdoff {
            DebounceEffect::CancelHoldoff
        } else {
            DebounceEffect::Invoke { value: reading }
        }
    } else {
        DebounceEffect::ArmHoldoff { bounce_ms: m.bounce_ms }
    }
}

/// The hold-off timer fired: the return to rest stayed stable for the whole
/// window and is confirmed.  A stale expiry changes nothing.
pub open spec fn expiry_model(m: DebounceModel) -> DebounceModel {
    if m.holdoff {
        DebounceModel { holdoff: false, emitted: m.emitted.push(m.rest), ..m }
    } else {
        m
    }
}

pub open spec fn expiry_emit(m: DebounceModel) -> Option<bool> {
    if m.holdoff {
        Some(m.rest)
    } else {
        None
    }
}

/// One debounce engine instance, owned by one sensor.
pub struct Debouncer {
    rest: bool,
    bounce_ms: u64,
    last: bool,
    holdoff: bool,
    emitted: Ghost<Seq<bool>>,
}

impl View for Debouncer {
    type V = DebounceModel;

    closed spec fn view(&self) -> DebounceModel {
        DebounceModel {
            rest: self.rest,
            bounce_ms: self.bounce_ms,
            last: self.last,
            holdoff: self.holdoff,
            emitted: self.emitted@,
        }
    }
}

impl Debouncer {
    /// A fresh engine for a signal whose rest value is `rest`, confirming a
    /// return to rest after `bounce_ms` milliseconds of stability.
    pub fn new(rest: bool, bounce_ms: u64) -> (d: Self)
        ensures
            d@ == debounce_init(rest, bounce_ms),
    {
        Debouncer { rest, bounce_ms, last: rest, holdoff: false, emitted: Ghost(Seq::empty()) }
    }

    /// The most recently accepted reading.
    pub fn last_value(&self) -> (v: bool)
        ensures
            v == self@.last,
    {
        self.last
    }

    /// Whether the settle window is currently open.
    pub fn holdoff_pending(&self) -> (p: bool)
        ensures
            p == self@.holdoff,
    {
        self.holdoff
    }

    /// Ingests one raw reading.  Bounded work and no blocking: safe to call
    /// from an interrupt context.  The caller performs the returned effect
    /// under the same exclusion that guards this engine.
    pub fn feed(&mut self, reading: bool) -> (eff: DebounceEffect)
        ensures
            final(self)@ == feed_model(old(self)@, reading),
            eff == feed_effect(old(self)@, reading),
            debounce_wf(old(self)@) ==> debounce_wf(final(self)@),
    {
        if reading == self.last {
            DebounceEffect::Ignored
        } else if reading != self.rest {
            self.last = reading;
            if self.holdoff {
                self.holdoff = false;
                DebounceEffect::CancelHoldoff
            } else {
                self.emitted = Ghost(self.emitted@.push(reading));
                DebounceEffect::Invoke { value: reading }
            }
        } else {
            self.last = reading;
            self.holdoff = true;
            DebounceEffect::ArmHoldoff { bounce_ms: self.bounce_ms }
        }
    }

    /// Entry point for the runtime shell when the hold-off timer fires: the
    /// confirmed rest value to hand to the callback, or nothing for a stale
    /// expiry.
    pub fn on_holdoff_expiry(&mut self) -> (emit: Option<bool>)
        ensures
            final(self)@ == expiry_model(old(self)@),
            emit == expiry_emit(old(self)@),
            debounce_wf(old(self)@) ==> debounce_wf(final(self)@),
    {
        if self.holdoff {
            self.holdoff = false;
            self.emitted = Ghost(self.emitted@.push(self.rest));
            Some(self.rest)
        } else {
            None
        }
    }
}

/// A bounce is swallowed: from a resting engine with no window open, an
/// active edge fires the callback once; the return to rest only opens the
/// settle window; and a second active edge inside the window cancels it.  No
/// callback runs beyond the initial one.
pub proof fn lemma_bounce_swallowed(m: DebounceModel)
    requires
        debounce_wf(m),
        m.last == m.rest,
        !m.holdoff,
    ensures
        feed_model(m, !m.rest).emitted == m.emitted.push(!m.rest),
        feed_effect(m, !m.rest) == (DebounceEffect::Invoke { value: !m.rest }),
        feed_model(feed_model(m, !m.rest), m.rest).emitted == m.emitted.push(!m.rest),
        feed_model(feed_model(m, !m.rest), m.rest).holdoff,
        feed_effect(feed_model(m, !m.rest), m.rest) == (DebounceEffect::ArmHoldoff {
            bounce_ms: m.bounce_ms,
        }),
        feed_model(feed_model(feed_model(m, !m.rest), m.rest), !m.rest).emitted == m.emitted.push(
            !m.rest,
        ),
        feed_effect(feed_model(feed_model(m, !m.rest), m.rest), !m.rest)
            == DebounceEffect::CancelHoldoff,
{
}

/// A stable release is confirmed: from a resting engine with no window open,
/// an active edge followed by a return to rest that outlives the hold-off
/// yields exactly two callback invocations, the active value immediately and
/// the rest value when the window closes.
pub proof fn lemma_stable_release_confirmed(m: DebounceModel)
    requires
        debounce_wf(m),
        m.last == m.rest,
        !m.holdoff,
    ensures
        expiry_model(feed_model(feed_model(m, !m.rest), m.rest)).emitted == m.emitted.push(
            !m.rest,
        ).push(m.rest),
        expiry_emit(feed_model(feed_model(m, !m.rest), m.rest)) == Some(m.rest),
        !expiry_model(feed_model(feed_model(m, !m.rest), m.rest)).holdoff,
{
}

/// Feeding the engine never rewrites history: whatever was emitted stays
/// emitted, in order, and one reading adds at most one value.
pub proof fn lemma_emissions_append_only(m: DebounceModel, reading: bool)
    ensures
        feed_model(m, reading).emitted.len() <= m.emitted.len() + 1,
        feed_model(m, reading).emitted.subrange(0, m.emitted.len() as int) == m.emitted,
        expiry_model(m).emitted.subrange(0, m.emitted.len() as int) == m.emitted,
{
    assert(feed_model(m, reading).emitted.subrange(0, m.emitted.len() as int) =~= m.emitted);
    assert(expiry_model(m).emitted.subrange(0, m.emitted.len() as int) =~= m.emitted);
}

} // verus!
