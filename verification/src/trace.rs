//! What holds of the harness over any sequence of key presses: what an action
//! says about the change of state, and that every instance the engine is
//! told to keep is released exactly once.

use crate::harness::{is_one_shot, plan_of, Action, Model};
use crate::keys::{heading_of, slot_of, Key, Step};
use vstd::prelude::*;

verus! {

/// One key press: the key, and whether shift was held.
pub struct KeyPress {
    pub key: Key,
    pub shift: bool,
}

/// The state after the key presses `keys`, handled in order.
pub open spec fn run(start: Model, keys: Seq<KeyPress>) -> Model
    decreases keys.len(),
{
    if keys.len() == 0 {
        start
    } else {
        run(start, keys.drop_last()).step(keys.last().key, keys.last().shift).0
    }
}

/// The action that the last of the key presses `keys` yields.
pub open spec fn last_action(start: Model, keys: Seq<KeyPress>) -> Action
    recommends
        keys.len() > 0,
{
    run(start, keys.drop_last()).step(keys.last().key, keys.last().shift).1
}

/// The action makes the engine keep a new instance under `slot`.
pub open spec fn keeps(action: Action, slot: int) -> bool {
    action matches Action::Start { slot: started, plan } && started == slot && !plan.one_shot
}

/// The action, coming in state `before`, makes the engine release the
/// instance that it keeps under `slot`.
pub open spec fn releases(before: Model, action: Action, slot: int) -> bool {
    match action {
        Action::Stop { slot: stopped } => stopped == slot,
        Action::StopAll | Action::Quit => before.playing.contains(slot),
        _ => false,
    }
}

/// How many instances the engine was told to keep under `slot` during `keys`.
pub open spec fn kept_count(start: Model, keys: Seq<KeyPress>, slot: int) -> nat
    decreases keys.len(),
{
    if keys.len() == 0 {
        0
    } else {
        let so_far = kept_count(start, keys.drop_last(), slot);
        if keeps(last_action(start, keys), slot) {
            so_far + 1
        } else {
            so_far
        }
    }
}

/// How many instances kept under `slot` the engine was told to release
/// during `keys`.
pub open spec fn released_count(start: Model, keys: Seq<KeyPress>, slot: int) -> nat
    decreases keys.len(),
{
    if keys.len() == 0 {
        0
    } else {
        let so_far = released_count(start, keys.drop_last(), slot);
        if releases(run(start, keys.drop_last()), last_action(start, keys), slot) {
            so_far + 1
        } else {
            so_far
        }
    }
}

/// 1 where the state holds an instance under `slot`, else 0.
pub open spec fn held(state: Model, slot: int) -> nat {
    if state.playing.contains(slot) {
        1
    } else {
        0
    }
}

/// No instance of a one-shot event is kept.
pub open spec fn keeps_no_one_shot(state: Model) -> bool {
    forall|slot: int|
        0 <= slot < state.events.len() && state.playing.contains(slot) ==> !is_one_shot(
            #[trigger] state.events[slot],
        )
}

/// The character is bound to a command.
pub open spec fn is_bound(c: char) -> bool {
    ||| slot_of(c) is Some
    ||| heading_of(c) is Some
    ||| c == 'h' || c == 'H'
    ||| c == ' '
    ||| c == 'r' || c == 'R'
    ||| c == '+' || c == '='
    ||| c == '-' || c == '_'
}

/// An action tells how the set of kept instances changes. A start comes only
/// for a loaded event that is silent, and changes no other slot; a stop comes
/// only for a slot that holds an instance, and changes no other slot; after
/// stopping all, and after quitting, nothing is kept; every other action
/// leaves the set as it is. The loaded events and the marked slot never
/// change.
pub proof fn lemma_action_tells_the_change(state: Model, key: Key, shift: bool)
    ensures
        ({
            let (next, action) = state.step(key, shift);
            &&& next.events == state.events
            &&& next.selected == state.selected
            &&& match action {
                Action::Start { slot, plan } => {
                    &&& slot < state.events.len()
                    &&& !state.playing.contains(slot as int)
                    &&& plan == plan_of(state.events[slot as int])
                    &&& next.playing == if plan.one_shot {
                        state.playing
                    } else {
                        state.playing.insert(slot as int)
                    }
                },
                Action::Stop { slot } => {
                    &&& slot < state.events.len()
                    &&& state.playing.contains(slot as int)
                    &&& next.playing == state.playing.remove(slot as int)
                },
                Action::StopAll | Action::Quit => next.playing == Set::<int>::empty(),
                _ => next.playing == state.playing,
            }
        }),
{
}

/// One key press starts or stops at most one event: unless it stops them
/// all, no two slots change together.
pub proof fn lemma_one_toggle_per_key(state: Model, key: Key, shift: bool, a: int, b: int)
    requires
        a != b,
    ensures
        ({
            let (next, action) = state.step(key, shift);
            ||| action is StopAll
            ||| action is Quit
            ||| next.playing.contains(a) == state.playing.contains(a)
            ||| next.playing.contains(b) == state.playing.contains(b)
        }),
{
}

/// A key press keeps the state well formed: only slots of loaded events hold
/// an instance.
pub proof fn lemma_step_preserves_wf(state: Model, key: Key, shift: bool)
    requires
        state.wf(),
    ensures
        state.step(key, shift).0.wf(),
{
}

/// A key press never makes the harness keep an instance of a one-shot event.
pub proof fn lemma_step_keeps_no_one_shot(state: Model, key: Key, shift: bool)
    requires
        keeps_no_one_shot(state),
    ensures
        keeps_no_one_shot(state.step(key, shift).0),
{
}

/// Whatever keys are pressed on a harness that started silent, only slots of
/// loaded events hold an instance, and none of them is a one-shot event.
pub proof fn lemma_run_stays_sound(events: Seq<Seq<char>>, keys: Seq<KeyPress>)
    ensures
        run(Model::fresh(events), keys).wf(),
        keeps_no_one_shot(run(Model::fresh(events), keys)),
        run(Model::fresh(events), keys).events == events,
    decreases keys.len(),
{
    if keys.len() > 0 {
        let front = run(Model::fresh(events), keys.drop_last());
        lemma_run_stays_sound(events, keys.drop_last());
        lemma_step_preserves_wf(front, keys.last().key, keys.last().shift);
        lemma_step_keeps_no_one_shot(front, keys.last().key, keys.last().shift);
    }
}

/// Toggling an event twice leaves the harness as it was: a looping event is
/// started and stopped, or stopped and started again, and a one-shot event,
/// of which nothing is kept, is played twice.
pub proof fn lemma_toggle_twice_restores(state: Model, slot: usize)
    requires
        keeps_no_one_shot(state),
    ensures
        state.toggle(slot).0.toggle(slot).0 == state,
{
    let once = state.toggle(slot).0;
    let twice = once.toggle(slot).0;
    assert(twice.playing =~= state.playing);
}

/// Keys that are bound to nothing change nothing and ask nothing of the
/// engine, and so does a digit beyond the loaded events.
pub proof fn lemma_unbound_keys_are_ignored(state: Model, key: Key, shift: bool)
    requires
        match key {
            Key::Escape => false,
            Key::Other => true,
            Key::Char(c) => !is_bound(c) || (slot_of(c) matches Some(slot) && slot
                >= state.events.len()),
        },
    ensures
        state.step(key, shift) == (state, Action::Nothing),
{
}

/// Shift changes nothing but the step of a movement.
pub proof fn lemma_shift_only_changes_the_step(state: Model, key: Key)
    ensures
        match state.step(key, false).1 {
            Action::MoveSource { axis, negative, step } => {
                &&& step == Step::Coarse
                &&& state.step(key, true) == (
                    state,
                    Action::MoveSource { axis, negative, step: Step::Fine },
                )
            },
            _ => state.step(key, true) == state.step(key, false),
        },
{
}

/// The help key changes nothing but whether the controls are listed, and
/// pressing it twice leaves the state as it was.
pub proof fn lemma_help_toggles(state: Model, shift: bool)
    ensures
        ({
            let (once, action) = state.step(Key::Char('h'), shift);
            &&& action == Action::Nothing
            &&& once == (Model { show_help: !state.show_help, ..state })
            &&& once.step(Key::Char('h'), shift).0 == state
        }),
{
}

/// Over any key presses, what was kept under a slot and what was released
/// from it differ by what the slot holds at the start and at the end.
pub proof fn lemma_kept_and_released_balance(start: Model, keys: Seq<KeyPress>, slot: int)
    ensures
        kept_count(start, keys, slot) + held(start, slot) == released_count(start, keys, slot)
            + held(run(start, keys), slot),
    decreases keys.len(),
{
    if keys.len() > 0 {
        let front = keys.drop_last();
        lemma_kept_and_released_balance(start, front, slot);
        lemma_action_tells_the_change(run(start, front), keys.last().key, keys.last().shift);
    }
}

/// Every instance that the engine is told to keep is released exactly once:
/// when the harness started silent and the last key quits it, as many
/// instances were released from each slot as were kept under it.
pub proof fn lemma_every_instance_is_released_once(
    events: Seq<Seq<char>>,
    keys: Seq<KeyPress>,
    slot: int,
)
    requires
        keys.len() > 0,
        keys.last().key == Key::Escape,
    ensures
        kept_count(Model::fresh(events), keys, slot) == released_count(
            Model::fresh(events),
            keys,
            slot,
        ),
        run(Model::fresh(events), keys).playing == Set::<int>::empty(),
{
    lemma_kept_and_released_balance(Model::fresh(events), keys, slot);
}

} // verus!
