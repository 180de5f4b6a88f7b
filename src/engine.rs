//! The remap engine: rule table, single-event step and batch processing.

use vstd::prelude::*;
use crate::keys::{
    KEY_102ND, KEY_CAPSLOCK, KEY_DOWN, KEY_ESC, KEY_FN, KEY_GRAVE, KEY_H, KEY_J, KEY_K, KEY_L,
    KEY_LEFT, KEY_LEFTCTRL, KEY_LEFTMETA, KEY_RIGHT, KEY_UP,
};

verus! {

/// One key transition: `value` is 0 for release, 1 for press, 2 for auto-repeat.
#[derive(Clone, Copy, Debug, PartialEq, Eq, Structural)]
pub struct KeyEvent {
    pub event_class: u16,
    pub key_code: u16,
    pub value: i32,
}

/// The engine's one bit of state: whether the function modifier is held.
#[derive(Clone, Copy, Debug, PartialEq, Eq, Structural)]
pub struct ModifierState {
    pub function_held: bool,
}

/// What the rule table says to do with a key.
#[derive(Clone, Copy, Debug, PartialEq, Eq, Structural)]
pub enum Action {
    /// Consume the event and emit nothing (the function modifier).
    Swallow,
    /// Emit the event with this key code instead.
    Remap(u16),
    /// Emit the event unchanged.
    PassThrough,
}

/// The rule table, keyed by key code and the modifier context.
pub open spec fn rule(key_code: u16, function_held: bool) -> Action {
    if key_code == KEY_FN {
        Action::Swallow
    } else if key_code == KEY_CAPSLOCK {
        Action::Remap(KEY_ESC)
    } else if key_code == KEY_ESC {
        Action::Remap(KEY_CAPSLOCK)
    } else if key_code == KEY_102ND {
        Action::Remap(KEY_GRAVE)
    } else if key_code == KEY_GRAVE {
        Action::Remap(KEY_102ND)
    } else if key_code == KEY_LEFTMETA {
        Action::Remap(KEY_LEFTCTRL)
    } else if function_held && key_code == KEY_H {
        Action::Remap(KEY_LEFT)
    } else if function_held && key_code == KEY_J {
        Action::Remap(KEY_DOWN)
    } else if function_held && key_code == KEY_K {
        Action::Remap(KEY_UP)
    } else if function_held && key_code == KEY_L {
        Action::Remap(KEY_RIGHT)
    } else {
        Action::PassThrough
    }
}

/// Looks up the rule table.
pub fn lookup(key_code: u16, function_held: bool) -> (r: Action)
    ensures
        r == rule(key_code, function_held),
{
    if key_code == KEY_FN {
        Action::Swallow
    } else if key_code == KEY_CAPSLOCK {
        Action::Remap(KEY_ESC)
    } else if key_code == KEY_ESC {
        Action::Remap(KEY_CAPSLOCK)
    } else if key_code == KEY_102ND {
        Action::Remap(KEY_GRAVE)
    } else if key_code == KEY_GRAVE {
        Action::Remap(KEY_102ND)
    } else if key_code == KEY_LEFTMETA {
        Action::Remap(KEY_LEFTCTRL)
    } else if function_held {
        if key_code == KEY_H {
            Action::Remap(KEY_LEFT)
        } else if key_code == KEY_J {
            Action::Remap(KEY_DOWN)
        } else if key_code == KEY_K {
            Action::Remap(KEY_UP)
        } else if key_code == KEY_L {
            Action::Remap(KEY_RIGHT)
        } else {
            Action::PassThrough
        }
    } else {
        Action::PassThrough
    }
}

/// What one event produces: the outgoing events and the next state.
pub open spec fn step(event: KeyEvent, state: ModifierState) -> (Seq<KeyEvent>, ModifierState) {
    match rule(event.key_code, state.function_held) {
        Action::Swallow => (Seq::empty(), ModifierState { function_held: event.value != 0 }),
        Action::Remap(code) => (seq![KeyEvent { key_code: code, ..event }], state),
        Action::PassThrough => (seq![event], state),
    }
}

/// What a batch produces, in input order: one group of outgoing events per
/// incoming event, and the state after the last of them.
pub open spec fn run(events: Seq<KeyEvent>, state: ModifierState) -> (
    Seq<Seq<KeyEvent>>,
    ModifierState,
)
    decreases events.len(),
{
    if events.len() == 0 {
        (Seq::empty(), state)
    } else {
        let (groups, mid) = run(events.drop_last(), state);
        let (out, next) = step(events.last(), mid);
        (groups.push(out), next)
    }
}

/// Every outgoing event of a batch, in order.
pub open spec fn run_flat(events: Seq<KeyEvent>, state: ModifierState) -> Seq<KeyEvent> {
    run(events, state).0.flatten()
}

/// Processes one event against `state`: returns the events to emit and the next state.
pub fn process(event: KeyEvent, state: ModifierState) -> (r: (Vec<KeyEvent>, ModifierState))
    ensures
        (r.0@, r.1) == step(event, state),
{
    let mut out: Vec<KeyEvent> = Vec::new();
    match lookup(event.key_code, state.function_held) {
        Action::Swallow => {
            return (out, ModifierState { function_held: event.value != 0 });
        },
        Action::Remap(code) => {
            out.push(KeyEvent { event_class: event.event_class, key_code: code, value: event.value });
        },
        Action::PassThrough => {
            out.push(event);
        },
    }
    proof {
        assert(out@ =~= step(event, state).0);
    }
    (out, state)
}

/// A remap engine instance, owning the modifier state.
pub struct RemapEngine {
    state: ModifierState,
}

impl View for RemapEngine {
    type V = ModifierState;

    closed spec fn view(&self) -> ModifierState {
        self.state
    }
}

impl RemapEngine {
    /// A fresh engine: the function modifier is not held.
    pub fn new() -> (r: Self)
        ensures
            r@ == (ModifierState { function_held: false }),
    {
        RemapEngine { state: ModifierState { function_held: false } }
    }

    /// The current modifier state.
    pub fn state(&self) -> (r: ModifierState)
        ensures
            r == self@,
    {
        self.state
    }

    /// Processes one event and returns the events to emit, in order.
    pub fn handle(&mut self, event: KeyEvent) -> (r: Vec<KeyEvent>)
        ensures
            (r@, final(self)@) == step(event, old(self)@),
    {
        let (out, next) = process(event, self.state);
        self.state = next;
        out
    }

    /// Processes a batch in order and returns, for each incoming event, the
    /// group of events it produced.
    pub fn handle_batch(&mut self, events: &Vec<KeyEvent>) -> (r: Vec<Vec<KeyEvent>>)
        ensures
            (r@.map_values(|g: Vec<KeyEvent>| g@), final(self)@) == run(events@, old(self)@),
    {
        let ghost start = self@;
        let mut groups: Vec<Vec<KeyEvent>> = Vec::new();
        let mut i: usize = 0;
        while i < events.len()
            invariant
                i <= events@.len(),
                (groups@.map_values(|g: Vec<KeyEvent>| g@), self@) == run(
                    events@.subrange(0, i as int),
                    start,
                ),
            decreases events@.len() - i,
        {
            let out = self.handle(events[i]);
            proof {
                let pre = events@.subrange(0, i as int);
                let cur = events@.subrange(0, i as int + 1);
                assert(cur.drop_last() =~= pre);
                assert(cur.last() == events@[i as int]);
            }
            groups.push(out);
            proof {
                let cur = events@.subrange(0, i as int + 1);
                assert(groups@.map_values(|g: Vec<KeyEvent>| g@) =~= run(cur, start).0);
            }
            i = i + 1;
        }
        proof {
            assert(events@.subrange(0, events@.len() as int) =~= events@);
        }
        groups
    }
}

} // verus!
