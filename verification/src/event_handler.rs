//! What a keyboard event has to tell for holds to be tracked, and what is done
//! once a hold is complete.

use vstd::prelude::*;
use crate::hold_state::{lemma_run_len, lemma_run_push, HoldStates};
use crate::keyboard_event::KeyboardEvent;
use crate::keys::{VirtualKey, VK_NONE};

verus! {

/// The modifier key whose release opens a menu.
#[derive(Debug, Clone, Copy, PartialEq, Eq, Structural)]
pub enum MenuTrigger {
    /// The Windows key, left or right.
    Win,
    /// The Alt key, left or right.
    Alt,
}

impl MenuTrigger {
    /// The other of the two triggers.
    pub open spec fn other(self) -> MenuTrigger {
        match self {
            MenuTrigger::Win => MenuTrigger::Alt,
            MenuTrigger::Alt => MenuTrigger::Win,
        }
    }

    /// The name under which the trigger is reported.
    pub fn as_str(&self) -> (name: &'static str)
        ensures
            name@ == match *self {
                MenuTrigger::Win => "WIN"@,
                MenuTrigger::Alt => "Alt"@,
            },
    {
        match self {
            MenuTrigger::Win => "WIN",
            MenuTrigger::Alt => "Alt",
        }
    }
}

/// Whether a key is pressed or released.
#[derive(Debug, Clone, Copy, PartialEq, Eq, Structural)]
pub enum KeyState {
    /// The key went down, or is held down.
    Down,
    /// The key went up.
    Up,
}

/// A keyboard event, as far as the tracking of holds needs to know it: which
/// trigger the key is, if any, and whether it went down or up.
///
/// The two spec functions say what the event is; the methods hand the same
/// answers to running code. For a type of verified code that is proved. Code
/// that is not verified writes the spec functions as ordinary functions, and
/// what is proved about its events holds as far as its methods agree with
/// them.
pub trait MenuTriggerEvent {
    /// The trigger that the event's key is; `None` for every other key.
    spec fn spec_menu_trigger(&self) -> Option<MenuTrigger>;

    /// Whether the event is a press or a release.
    spec fn spec_key_state(&self) -> KeyState;

    /// The trigger that the event's key is: `Some(MenuTrigger::Alt)` for either
    /// Alt key, `Some(MenuTrigger::Win)` for either Windows key, `None` for
    /// every other key.
    fn menu_trigger(&self) -> (trigger: Option<MenuTrigger>)
        ensures
            trigger == self.spec_menu_trigger(),
    ;

    /// Whether the event is a press or a release.
    fn key_state(&self) -> (state: KeyState)
        ensures
            state == self.spec_key_state(),
    ;

    /// `true` if the event is a press.
    fn is_key_down(&self) -> (down: bool)
        ensures
            down == (self.spec_key_state() == KeyState::Down),
    {
        matches!(self.key_state(), KeyState::Down)
    }

    /// `true` if the event is a release.
    fn is_key_up(&self) -> (up: bool)
        ensures
            up == (self.spec_key_state() == KeyState::Up),
    {
        !self.is_key_down()
    }
}

/// A press of a trigger key and the release that ended it.
///
/// The two events may be of different keys: where left Alt goes down, then
/// right Alt, and left Alt goes up, the hold is from the press of left Alt to
/// the release of left Alt, and the release of right Alt ends no hold.
#[derive(Debug, Clone, Copy, PartialEq)]
pub struct HoldEvent<T = KeyboardEvent> {
    /// The event with which the key went down.
    pub press: T,
    /// The event with which the key went up.
    pub release: T,
}

/// What is asked once a hold is complete: whether the menu may open.
///
/// The answer is a key, for which a key-up is then sent and keeps the menu
/// closed, or `None`, which lets the menu open. Every function or closure from
/// a hold to an `Option<VirtualKey>` that can be handed to another thread is
/// such a callback.
pub trait OnReleased<T>: Send + Sync {
    /// The holds that the callback may be asked about.
    spec fn accepts(&self, hold: HoldEvent<T>) -> bool;

    /// Whether `answer` is an answer that the callback may give for `hold`.
    spec fn may_answer(&self, hold: HoldEvent<T>, answer: Option<VirtualKey>) -> bool;

    /// Asks the callback about a hold.
    fn on_released(&self, hold: HoldEvent<T>) -> (answer: Option<VirtualKey>)
        requires
            self.accepts(hold),
        ensures
            self.may_answer(hold, answer),
    ;
}

impl<T, F: Fn(HoldEvent<T>) -> Option<VirtualKey> + Send + Sync> OnReleased<T> for F {
    open spec fn accepts(&self, hold: HoldEvent<T>) -> bool {
        call_requires(*self, (hold,))
    }

    open spec fn may_answer(&self, hold: HoldEvent<T>, answer: Option<VirtualKey>) -> bool {
        call_ensures(*self, (hold,), answer)
    }

    fn on_released(&self, hold: HoldEvent<T>) -> (answer: Option<VirtualKey>) {
        self(hold)
    }
}

/// The callback that keeps every menu closed: its answer is always the key
/// that no keyboard has.
#[derive(Debug, Clone, Copy)]
pub struct AlwaysSuppress;

impl<T> OnReleased<T> for AlwaysSuppress {
    open spec fn accepts(&self, hold: HoldEvent<T>) -> bool {
        true
    }

    open spec fn may_answer(&self, hold: HoldEvent<T>, answer: Option<VirtualKey>) -> bool {
        answer == Some(VK_NONE)
    }

    fn on_released(&self, hold: HoldEvent<T>) -> (answer: Option<VirtualKey>) {
        Some(VK_NONE)
    }
}

/// The type of the callback that a `Config` holds.
pub type OnReleasedFn<T = KeyboardEvent> = dyn OnReleased<T>;

/// How completed holds are answered.
///
/// The callback of a `Config` can be asked about every hold.
#[verifier::reject_recursive_types(T)]
pub struct Config<T = KeyboardEvent> {
    on_released: Box<OnReleasedFn<T>>,
}

impl<T> Config<T> {
    #[verifier::type_invariant]
    spec fn callback_takes_every_hold(&self) -> bool {
        forall|hold: HoldEvent<T>| self.on_released.accepts(hold)
    }

    /// Whether `answer` is an answer that the callback may give for `hold`.
    pub closed spec fn may_answer(&self, hold: HoldEvent<T>, answer: Option<VirtualKey>) -> bool {
        self.on_released.may_answer(hold, answer)
    }

    /// The configuration with `f` as its callback, which must be callable on
    /// every hold.
    pub fn set_on_released<F: Fn(HoldEvent<T>) -> Option<VirtualKey> + Send + Sync + 'static>(
        self,
        f: F,
    ) -> (config: Self)
        requires
            forall|hold: HoldEvent<T>| call_requires(f, (hold,)),
        ensures
            forall|hold: HoldEvent<T>, answer: Option<VirtualKey>|
                #[trigger] config.may_answer(hold, answer) <==> call_ensures(f, (hold,), answer),
    {
        Config { on_released: Box::new(f) }
    }

    /// Asks the callback about a hold.
    pub fn on_released(&self, hold: HoldEvent<T>) -> (answer: Option<VirtualKey>)
        ensures
            self.may_answer(hold, answer),
    {
        proof {
            use_type_invariant(self);
        }
        self.on_released.on_released(hold)
    }
}

impl<T> Default for Config<T> {
    /// The configuration that keeps every menu closed.
    fn default() -> (config: Self)
        ensures
            forall|hold: HoldEvent<T>, answer: Option<VirtualKey>|
                #[trigger] config.may_answer(hold, answer) <==> answer == Some(VK_NONE),
    {
        Config { on_released: Box::new(AlwaysSuppress) }
    }
}

/// What is to be done once an event has been handled.
#[derive(Debug, Clone, Copy, PartialEq, Eq, Structural)]
pub enum Action {
    /// The event completed no hold: nothing is to be done.
    Nothing,
    /// The event completed a hold of this trigger, and the callback lets the
    /// menu open: nothing is to be done.
    ShowMenu(MenuTrigger),
    /// The event completed a hold of this trigger, and the callback answered
    /// with this key: a key-up of the key is to be sent.
    SendKeyUp(MenuTrigger, VirtualKey),
}

impl Action {
    /// What is to be done for a completed hold of `trigger` to which the
    /// callback gave `answer`.
    pub open spec fn spec_for_answer(trigger: MenuTrigger, answer: Option<VirtualKey>) -> Action {
        match answer {
            Some(key) => Action::SendKeyUp(trigger, key),
            None => Action::ShowMenu(trigger),
        }
    }

    /// Whether the action is what is to be done for `completed`, the outcome
    /// of an event, under `config`.
    pub open spec fn answers<T>(
        self,
        config: Config<T>,
        completed: Option<(MenuTrigger, HoldEvent<T>)>,
    ) -> bool {
        match completed {
            None => self == Action::Nothing,
            Some((trigger, hold)) => exists|answer: Option<VirtualKey>|
                #[trigger] config.may_answer(hold, answer) && self == Action::spec_for_answer(
                    trigger,
                    answer,
                ),
        }
    }

    /// What is to be done for a completed hold of `trigger` to which the
    /// callback gave `answer`: to send a key-up of the key that it named, or
    /// to let the menu open if it named none.
    pub fn for_answer(trigger: MenuTrigger, answer: Option<VirtualKey>) -> (action: Action)
        ensures
            action == Action::spec_for_answer(trigger, answer),
    {
        match answer {
            Some(key) => Action::SendKeyUp(trigger, key),
            None => Action::ShowMenu(trigger),
        }
    }
}

/// Tracks the holds of a stream of events and asks the callback about each
/// hold that is completed.
#[verifier::reject_recursive_types(T)]
pub struct Handler<T = KeyboardEvent> {
    /// How completed holds are answered.
    pub config: Config<T>,
    /// The presses that wait for their release.
    pub state: HoldStates<T>,
}

impl<T: MenuTriggerEvent> Handler<T> {
    /// A handler with no press pending.
    pub fn new(config: Config<T>) -> (handler: Self)
        ensures
            handler.config == config,
            handler.state == HoldStates::<T>::empty(),
    {
        Handler { config, state: HoldStates::default() }
    }

    /// Takes one event. Where it completes a hold, the callback is asked once,
    /// and the action follows its answer; where it completes none, the
    /// callback is not asked.
    pub fn handle_keyboard_event(&mut self, event: T) -> (action: Action)
        ensures
            final(self).config == old(self).config,
            final(self).state == old(self).state.spec_update(event).0,
            action.answers(old(self).config, old(self).state.spec_update(event).1),
    {
        match self.state.update(event) {
            Some((trigger, hold)) => {
                let answer = self.config.on_released(hold);
                Action::for_answer(trigger, answer)
            },
            None => Action::Nothing,
        }
    }

    /// Takes a run of events, one after the other in their order, and hands
    /// out the action for each.
    pub fn handle_keyboard_events(&mut self, events: Vec<T>) -> (actions: Vec<Action>)
        ensures
            final(self).config == old(self).config,
            final(self).state == old(self).state.spec_run(events@).0,
            actions.len() == events.len(),
            forall|i: int|
                0 <= i < events.len() ==> (#[trigger] actions[i]).answers(
                    old(self).config,
                    old(self).state.spec_run(events@).1[i],
                ),
    {
        let ghost start = self.state;
        let ghost config = self.config;
        let ghost all = events@;
        let mut actions: Vec<Action> = Vec::new();
        for event in it: events.into_iter()
            invariant
                it.seq() == all,
                self.config == config,
                self.state == start.spec_run(all.take(it.index())).0,
                actions.len() == it.index(),
                forall|i: int|
                    0 <= i < it.index() ==> (#[trigger] actions[i]).answers(
                        config,
                        start.spec_run(all.take(it.index())).1[i],
                    ),
        {
            proof {
                let earlier = all.take(it.index());
                assert(all.take(it.index() + 1) =~= earlier.push(event));
                lemma_run_push(start, earlier, event);
                lemma_run_len(start, earlier);
            }
            let action = self.handle_keyboard_event(event);
            actions.push(action);
        }
        proof {
            assert(all.take(all.len() as int) =~= all);
        }
        actions
    }
}

} // verus!
