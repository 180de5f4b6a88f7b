//! Properties of the remap engine, proved over the rule table.

use vstd::prelude::*;
use crate::engine::{run, run_flat, step, KeyEvent, ModifierState};
use crate::keys::{
    KEY_102ND, KEY_CAPSLOCK, KEY_DOWN, KEY_ESC, KEY_FN, KEY_GRAVE, KEY_H, KEY_J, KEY_K, KEY_L,
    KEY_LEFT, KEY_LEFTCTRL, KEY_LEFTMETA, KEY_RIGHT, KEY_UP,
};

verus! {

/// Keys that some rule of the table mentions.
pub open spec fn is_rule_key(code: u16) -> bool {
    code == KEY_CAPSLOCK || code == KEY_ESC || code == KEY_102ND || code == KEY_GRAVE
        || code == KEY_LEFTMETA || code == KEY_FN || code == KEY_H || code == KEY_J
        || code == KEY_K || code == KEY_L
}

/// Keys remapped in pairs, each to the other.
pub open spec fn is_swap_key(code: u16) -> bool {
    code == KEY_CAPSLOCK || code == KEY_ESC || code == KEY_102ND || code == KEY_GRAVE
}

/// The arrow key that a key of the H/J/K/L cluster stands for.
pub open spec fn arrow_for(code: u16) -> u16 {
    if code == KEY_H {
        KEY_LEFT
    } else if code == KEY_J {
        KEY_DOWN
    } else if code == KEY_K {
        KEY_UP
    } else {
        KEY_RIGHT
    }
}

/// The state that the modifier events of a batch leave behind: set by the
/// last function-modifier event in it, or `state` where there is none.
pub open spec fn implied_state(events: Seq<KeyEvent>, state: ModifierState) -> ModifierState {
    let mods = events.filter(|e: KeyEvent| e.key_code == KEY_FN);
    if mods.len() == 0 {
        state
    } else {
        ModifierState { function_held: mods.last().value != 0 }
    }
}

/// A key that no rule mentions is emitted unchanged, whatever the state, and
/// the state stays as it was.
pub proof fn lemma_unmapped_passes_through(event: KeyEvent, state: ModifierState)
    requires
        !is_rule_key(event.key_code),
    ensures
        step(event, state) == (seq![event], state),
{
}

/// CAPSLOCK/ESC and 102ND/GRAVE swap: feeding the output of one step back
/// in, under any modifier states, gives back the original event.
pub proof fn lemma_swap_pairs_invert(event: KeyEvent, s1: ModifierState, s2: ModifierState)
    requires
        is_swap_key(event.key_code),
    ensures
        step(event, s1).0.len() == 1,
        step(event, s1).1 == s1,
        step(step(event, s1).0[0], s2).0 == seq![event],
{
}

/// The function modifier is never emitted; it sets the state to held
/// exactly when its value is non-zero (press or repeat).
pub proof fn lemma_function_modifier_swallowed(event: KeyEvent, state: ModifierState)
    requires
        event.key_code == KEY_FN,
    ensures
        step(event, state).0.len() == 0,
        step(event, state).1.function_held == (event.value != 0),
{
}

/// H/J/K/L become LEFT/DOWN/UP/RIGHT while the function modifier is held,
/// and pass through unchanged otherwise.
pub proof fn lemma_direction_cluster(event: KeyEvent, state: ModifierState)
    requires
        event.key_code == KEY_H || event.key_code == KEY_J || event.key_code == KEY_K
            || event.key_code == KEY_L,
    ensures
        state.function_held ==> step(event, state) == (
            seq![KeyEvent { key_code: arrow_for(event.key_code), ..event }],
            state,
        ),
        !state.function_held ==> step(event, state) == (seq![event], state),
{
}

/// LEFTMETA becomes LEFTCTRL whatever the modifier state.
pub proof fn lemma_leftmeta_to_leftctrl(event: KeyEvent, state: ModifierState)
    requires
        event.key_code == KEY_LEFTMETA,
    ensures
        step(event, state) == (seq![KeyEvent { key_code: KEY_LEFTCTRL, ..event }], state),
{
}

/// A batch of keys that no rule mentions comes out as it went in, in the
/// same order, one event per group, and leaves the state unchanged.
pub proof fn lemma_unmapped_batch_keeps_order(events: Seq<KeyEvent>, state: ModifierState)
    requires
        forall|i: int| 0 <= i < events.len() ==> !is_rule_key(#[trigger] events[i].key_code),
    ensures
        run_flat(events, state) == events,
        run(events, state).0 == events.map_values(|e: KeyEvent| seq![e]),
        run(events, state).1 == state,
    decreases events.len(),
{
    if events.len() > 0 {
        let pre = events.drop_last();
        assert forall|i: int| 0 <= i < pre.len() implies !is_rule_key(#[trigger] pre[i].key_code) by {
            assert(pre[i] == events[i]);
        }
        lemma_unmapped_batch_keeps_order(pre, state);
        assert(!is_rule_key(events[events.len() - 1].key_code));
        lemma_unmapped_passes_through(events.last(), state);
        let groups = run(pre, state).0;
        groups.lemma_flatten_push(seq![events.last()]);
        assert(run_flat(events, state) =~= events);
        assert(run(events, state).0 =~= events.map_values(|e: KeyEvent| seq![e]));
    }
}

/// After a batch, the state is the one set by its last function-modifier
/// event, however many other events surround it.
pub proof fn lemma_batch_state_follows_last_modifier(
    events: Seq<KeyEvent>,
    state: ModifierState,
)
    ensures
        run(events, state).1 == implied_state(events, state),
    decreases events.len(),
{
    reveal(Seq::filter);
    if events.len() > 0 {
        lemma_batch_state_follows_last_modifier(events.drop_last(), state);
    }
}

} // verus!
