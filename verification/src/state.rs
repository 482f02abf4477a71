//! A single-button electronic die, modelled as a state machine.
//!
//! Each button press advances one edge of the cycle off, on, stopped, off,
//! and emits exactly one message; leaving the stopped state also reports a
//! die face drawn from a random source.

use vstd::prelude::*;

verus! {

/// The powered-off state.
#[derive(Clone, Copy, Debug, PartialEq, Eq, Structural)]
pub struct StatePowerOff;

/// The powered-on state: the die is shaking.
#[derive(Clone, Copy, Debug, PartialEq, Eq, Structural)]
pub struct StatePowerOn;

/// The stopped state: the next press reports the face and powers off.
#[derive(Clone, Copy, Debug, PartialEq, Eq, Structural)]
pub struct StateStop;

/// The current mode of the device: exactly one of the three states.
#[derive(Clone, Copy, Debug, PartialEq, Eq, Structural)]
pub enum StateContextEnum {
    StatePowerOn(StatePowerOn),
    StatePowerOff(StatePowerOff),
    StateStop(StateStop),
}

/// The message a button press emits: either a fixed line, or the power-off
/// line reporting the die face that came up.
#[derive(Clone, Copy, Debug, PartialEq, Eq, Structural)]
pub enum DiceEvent {
    PowerOn,
    ShakingDice,
    PowerOff(u32),
}

/// The successor of each state: the transition graph is a simple 3-cycle.
pub open spec fn spec_next(s: StateContextEnum) -> StateContextEnum {
    match s {
        StateContextEnum::StatePowerOff(_) => StateContextEnum::StatePowerOn(StatePowerOn),
        StateContextEnum::StatePowerOn(_) => StateContextEnum::StateStop(StateStop),
        StateContextEnum::StateStop(_) => StateContextEnum::StatePowerOff(StatePowerOff),
    }
}

/// The event a press emits from state `s`: its kind is determined by `s`,
/// and a reported die face is always a value from 1 through 6.
pub open spec fn event_matches(s: StateContextEnum, e: DiceEvent) -> bool {
    match s {
        StateContextEnum::StatePowerOff(_) => e == DiceEvent::PowerOn,
        StateContextEnum::StatePowerOn(_) => e == DiceEvent::ShakingDice,
        StateContextEnum::StateStop(_) => e matches DiceEvent::PowerOff(n) && 1 <= n <= 6,
    }
}

/// Relies on rand::random_range: a value uniformly drawn from the given
/// range; for the half-open range starting at 1 and ending before 7 that is
/// an integer from 1 through 6.
#[verifier::external_body]
fn roll_die() -> (n: u32)
    ensures
        1 <= n <= 6,
{
    rand::random_range(1..7)
}

impl StatePowerOff {
    pub fn new() -> (s: Self)
        ensures
            s == StatePowerOff,
    {
        StatePowerOff {  }
    }

    /// Power the die on.
    pub fn on_press_button(&self) -> (r: (StateContextEnum, DiceEvent))
        ensures
            r.0 == StateContextEnum::StatePowerOn(StatePowerOn),
            r.1 == DiceEvent::PowerOn,
    {
        (StateContextEnum::StatePowerOn(StatePowerOn::new()), DiceEvent::PowerOn)
    }
}

impl StatePowerOn {
    pub fn new() -> (s: Self)
        ensures
            s == StatePowerOn,
    {
        StatePowerOn {  }
    }

    /// Stop the shaking die.
    pub fn on_press_button(&self) -> (r: (StateContextEnum, DiceEvent))
        ensures
            r.0 == StateContextEnum::StateStop(StateStop),
            r.1 == DiceEvent::ShakingDice,
    {
        (StateContextEnum::StateStop(StateStop::new()), DiceEvent::ShakingDice)
    }
}

impl StateStop {
    pub fn new() -> (s: Self)
        ensures
            s == StateStop,
    {
        StateStop {  }
    }

    /// Power the die off, reporting the face that came up.
    pub fn on_press_button(&self) -> (r: (StateContextEnum, DiceEvent))
        ensures
            r.0 == StateContextEnum::StatePowerOff(StatePowerOff),
            r.1 matches DiceEvent::PowerOff(n) && 1 <= n <= 6,
    {
        let n = roll_die();
        (StateContextEnum::StatePowerOff(StatePowerOff::new()), DiceEvent::PowerOff(n))
    }
}

impl StateContextEnum {
    /// Dispatch a press to the current state: the successor state on the
    /// 3-cycle, and the one emitted event.
    pub fn on_press_button(&self) -> (r: (StateContextEnum, DiceEvent))
        ensures
            r.0 == spec_next(*self),
            event_matches(*self, r.1),
    {
        match self {
            StateContextEnum::StatePowerOn(s) => s.on_press_button(),
            StateContextEnum::StatePowerOff(s) => s.on_press_button(),
            StateContextEnum::StateStop(s) => s.on_press_button(),
        }
    }
}

/// Owns the current state and exposes the single button event.
#[derive(Clone, Copy, Debug, PartialEq, Eq, Structural)]
pub struct Context {
    pub state: StateContextEnum,
}

impl Context {
    /// A fresh device: powered off.
    pub fn new() -> (c: Self)
        ensures
            c.state == StateContextEnum::StatePowerOff(StatePowerOff),
    {
        Context { state: StateContextEnum::StatePowerOff(StatePowerOff::new()) }
    }

    /// The current state.
    pub fn state(&self) -> (s: &StateContextEnum)
        ensures
            *s == self.state,
    {
        &self.state
    }

    /// Replace the current state.
    pub fn set_state(&mut self, state: StateContextEnum)
        ensures
            final(self).state == state,
    {
        self.state = state;
    }

    /// Advance exactly one edge of the cycle and return the one emitted
    /// event.
    pub fn press_button(&mut self) -> (e: DiceEvent)
        ensures
            final(self).state == spec_next(old(self).state),
            event_matches(old(self).state, e),
    {
        let (state, event) = self.state.on_press_button();
        self.set_state(state);
        event
    }
}

/// The state a fresh device is in after `n` presses.
pub open spec fn state_after(n: nat) -> StateContextEnum
    decreases n,
{
    if n == 0 {
        StateContextEnum::StatePowerOff(StatePowerOff)
    } else {
        spec_next(state_after((n - 1) as nat))
    }
}

/// Law: the device cycles with period three. From a fresh device, after 3k
/// presses it is powered off, after 3k + 1 presses it is powered on, and
/// after 3k + 2 presses it is stopped.
pub proof fn lemma_press_cycle(k: nat)
    ensures
        state_after(3 * k) == StateContextEnum::StatePowerOff(StatePowerOff),
        state_after(3 * k + 1) == StateContextEnum::StatePowerOn(StatePowerOn),
        state_after(3 * k + 2) == StateContextEnum::StateStop(StateStop),
    decreases k,
{
    if k > 0 {
        lemma_press_cycle((k - 1) as nat);
        assert(3 * k == 3 * ((k - 1) as nat) + 3);
    }
}

/// The message text of an event, as the device prints it.
pub open spec fn spec_message(e: DiceEvent) -> Seq<char> {
    match e {
        DiceEvent::PowerOn => "Power on."@,
        DiceEvent::ShakingDice => "shaking dice."@,
        DiceEvent::PowerOff(n) => if n == 1 {
            "Power off and output value is 1."@
        } else if n == 2 {
            "Power off and output value is 2."@
        } else if n == 3 {
            "Power off and output value is 3."@
        } else if n == 4 {
            "Power off and output value is 4."@
        } else if n == 5 {
            "Power off and output value is 5."@
        } else {
            "Power off and output value is 6."@
        },
    }
}

/// Render the message a press emitted. Only die faces from 1 through 6 are
/// ever reported, so the power-off lines cover every face.
pub fn event_message(e: &DiceEvent) -> (msg: String)
    requires
        *e matches DiceEvent::PowerOff(n) ==> 1 <= n <= 6,
    ensures
        msg@ == spec_message(*e),
{
    match e {
        DiceEvent::PowerOn => "Power on.".to_owned(),
        DiceEvent::ShakingDice => "shaking dice.".to_owned(),
        DiceEvent::PowerOff(n) => {
            if *n == 1 {
                "Power off and output value is 1.".to_owned()
            } else if *n == 2 {
                "Power off and output value is 2.".to_owned()
            } else if *n == 3 {
                "Power off and output value is 3.".to_owned()
            } else if *n == 4 {
                "Power off and output value is 4.".to_owned()
            } else if *n == 5 {
                "Power off and output value is 5.".to_owned()
            } else {
                "Power off and output value is 6.".to_owned()
            }
        },
    }
}

} // verus!
