//! The global hotkey listener's lifecycle.
//!
//! Binding the key combination, pumping system messages and unbinding happen
//! outside the library; this state machine decides what each outcome means.
//! A failed bind is reported once and the listener stops without taking the
//! process down — the rest of the system keeps working through the tray.
//! While listening, every matching key event emits exactly one signal:
//! emissions are neither batched nor deduplicated, so a rapid double press
//! yields two signals, and collapsing overlapping work is the coordinator's
//! job.

use vstd::prelude::*;

verus! {

/// Where the listener stands.
#[derive(Clone, Copy, PartialEq, Eq, Structural, Debug)]
pub enum HotkeyState {
    /// No binding held.
    Unregistered,
    /// The combination is bound; the message pump has not started.
    Registered,
    /// Bound and pumping; key events arrive.
    Listening,
    /// The bind failed; the listener has stopped for good.
    Failed,
}

/// What happened outside the library.
pub enum HotkeyEvent {
    /// The system accepted the binding.
    BindSucceeded,
    /// The system refused the binding (the combination is owned elsewhere).
    BindFailed,
    /// The message pump is running.
    PumpStarted,
    /// One matching key event arrived.
    KeyPressed,
    /// The message pump broke down.
    PumpFailed,
    /// The process is shutting down.
    Shutdown,
}

/// What the outside must do next.
pub enum HotkeyEffect {
    /// Tell the user, once, that the combination could not be bound.
    NoticeBindFailed,
    /// Emit one hotkey signal to the coordinator.
    EmitSignal,
    /// Release the binding.
    Unbind,
}

/// The whole transition relation.  An event that does not belong to the
/// current state changes nothing; in particular `Failed` is terminal, so the
/// failure notice can never be emitted twice.
pub open spec fn hotkey_step_spec(st: HotkeyState, ev: HotkeyEvent) -> (
    HotkeyState,
    Seq<HotkeyEffect>,
) {
    match (st, ev) {
        (HotkeyState::Unregistered, HotkeyEvent::BindSucceeded) => (
            HotkeyState::Registered,
            Seq::empty(),
        ),
        (HotkeyState::Unregistered, HotkeyEvent::BindFailed) => (
            HotkeyState::Failed,
            seq![HotkeyEffect::NoticeBindFailed],
        ),
        (HotkeyState::Registered, HotkeyEvent::PumpStarted) => (
            HotkeyState::Listening,
            Seq::empty(),
        ),
        (HotkeyState::Listening, HotkeyEvent::KeyPressed) => (
            HotkeyState::Listening,
            seq![HotkeyEffect::EmitSignal],
        ),
        (HotkeyState::Listening, HotkeyEvent::PumpFailed) => (
            HotkeyState::Unregistered,
            seq![HotkeyEffect::Unbind],
        ),
        (HotkeyState::Listening, HotkeyEvent::Shutdown) => (
            HotkeyState::Unregistered,
            seq![HotkeyEffect::Unbind],
        ),
        (HotkeyState::Registered, HotkeyEvent::Shutdown) => (
            HotkeyState::Unregistered,
            seq![HotkeyEffect::Unbind],
        ),
        _ => (st, Seq::empty()),
    }
}

/// The listener's state.
pub struct HotkeySignal {
    state: HotkeyState,
}

impl HotkeySignal {
    pub closed spec fn state(&self) -> HotkeyState {
        self.state
    }

    pub fn new() -> (r: HotkeySignal)
        ensures
            r.state() == HotkeyState::Unregistered,
    {
        HotkeySignal { state: HotkeyState::Unregistered }
    }

    /// The state being served right now.
    pub fn current_state(&self) -> (s: HotkeyState)
        ensures
            s == self.state(),
    {
        self.state
    }

    /// Take one event; the next state and the emitted effects follow
    /// [`hotkey_step_spec`] exactly.
    pub fn step(&mut self, ev: HotkeyEvent) -> (effects: Vec<HotkeyEffect>)
        ensures
            final(self).state() == hotkey_step_spec(old(self).state(), ev).0,
            effects@ == hotkey_step_spec(old(self).state(), ev).1,
    {
        let mut effects: Vec<HotkeyEffect> = Vec::new();
        match (self.state, ev) {
            (HotkeyState::Unregistered, HotkeyEvent::BindSucceeded) => {
                self.state = HotkeyState::Registered;
            },
            (HotkeyState::Unregistered, HotkeyEvent::BindFailed) => {
                self.state = HotkeyState::Failed;
                effects.push(HotkeyEffect::NoticeBindFailed);
            },
            (HotkeyState::Registered, HotkeyEvent::PumpStarted) => {
                self.state = HotkeyState::Listening;
            },
            (HotkeyState::Listening, HotkeyEvent::KeyPressed) => {
                effects.push(HotkeyEffect::EmitSignal);
            },
            (HotkeyState::Listening, HotkeyEvent::PumpFailed) => {
                self.state = HotkeyState::Unregistered;
                effects.push(HotkeyEffect::Unbind);
            },
            (HotkeyState::Listening, HotkeyEvent::Shutdown) => {
                self.state = HotkeyState::Unregistered;
                effects.push(HotkeyEffect::Unbind);
            },
            (HotkeyState::Registered, HotkeyEvent::Shutdown) => {
                self.state = HotkeyState::Unregistered;
                effects.push(HotkeyEffect::Unbind);
            },
            _ => {},
        }
        proof {
            assert(effects@ =~= hotkey_step_spec(old(self).state(), ev).1);
        }
        effects
    }
}

/// Law: a failed bind is reported exactly once.  The failure moves the
/// listener into its terminal state, and from there no event — another
/// failure report included — emits anything.
pub proof fn lemma_bind_failure_reported_once(ev: HotkeyEvent)
    ensures
        hotkey_step_spec(HotkeyState::Failed, ev).0 == HotkeyState::Failed,
        hotkey_step_spec(HotkeyState::Failed, ev).1 == Seq::<HotkeyEffect>::empty(),
{
}

/// Law: while listening, every matching key event emits exactly one signal,
/// and the listener keeps listening: two presses back to back yield two
/// signals, one each.
pub proof fn lemma_every_press_one_signal()
    ensures
        hotkey_step_spec(HotkeyState::Listening, HotkeyEvent::KeyPressed).0
            == HotkeyState::Listening,
        hotkey_step_spec(HotkeyState::Listening, HotkeyEvent::KeyPressed).1 =~= seq![
            HotkeyEffect::EmitSignal,
        ],
{
}

} // verus!
