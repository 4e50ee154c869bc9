//! The press that waits for its release, one for each trigger.

use vstd::prelude::*;
use crate::event_handler::{HoldEvent, KeyState, MenuTrigger, MenuTriggerEvent};
use crate::keyboard_event::KeyboardEvent;

verus! {

/// The press of one trigger that no release has answered yet, if there is one.
#[derive(Debug)]
pub struct HoldState<T = KeyboardEvent>(pub Option<T>);

impl<T> HoldState<T> {
    /// Forgets the pending press.
    pub fn reset(&mut self)
        ensures
            final(self).0 is None,
    {
        self.0 = None;
    }
}

impl<T: MenuTriggerEvent> HoldState<T> {
    /// What an event of this slot's trigger makes of the slot, and the hold that
    /// it completes.
    ///
    /// A press is kept if none is pending, and dropped if one is: the first
    /// press of a run counts. A release empties the slot, and completes a hold
    /// with the press that was pending, if one was.
    pub open spec fn spec_update(self, event: T) -> (HoldState<T>, Option<HoldEvent<T>>) {
        match event.spec_key_state() {
            KeyState::Down => (
                if self.0 is Some {
                    self
                } else {
                    HoldState(Some(event))
                },
                None,
            ),
            KeyState::Up => (
                HoldState(None),
                match self.0 {
                    Some(press) => Some(HoldEvent { press, release: event }),
                    None => None,
                },
            ),
        }
    }

    /// Takes an event of this slot's trigger, and hands out the hold that it
    /// completes.
    pub fn update(&mut self, event: T) -> (hold: Option<HoldEvent<T>>)
        ensures
            (*final(self), hold) == old(self).spec_update(event),
    {
        match event.key_state() {
            KeyState::Down => {
                if self.0.is_none() {
                    self.0 = Some(event);
                }
                None
            },
            KeyState::Up => match self.0.take() {
                Some(press) => Some(HoldEvent { press, release: event }),
                None => None,
            },
        }
    }
}

impl<T> Default for HoldState<T> {
    fn default() -> (slot: Self)
        ensures
            slot.0 is None,
    {
        HoldState(None)
    }
}

/// The pending presses of both triggers.
///
/// Each trigger has a slot of its own, so that a hold of the Windows key and a
/// hold of the Alt key can be under way at once.
#[derive(Debug)]
pub struct HoldStates<T = KeyboardEvent> {
    /// The pending press of the Windows key.
    pub win: HoldState<T>,
    /// The pending press of the Alt key.
    pub alt: HoldState<T>,
}

impl<T> HoldStates<T> {
    /// The slot of a trigger.
    pub open spec fn slot(self, trigger: MenuTrigger) -> HoldState<T> {
        match trigger {
            MenuTrigger::Win => self.win,
            MenuTrigger::Alt => self.alt,
        }
    }

    /// These states with the slot of one trigger replaced.
    pub open spec fn with_slot(self, trigger: MenuTrigger, slot: HoldState<T>) -> HoldStates<T> {
        match trigger {
            MenuTrigger::Win => HoldStates { win: slot, alt: self.alt },
            MenuTrigger::Alt => HoldStates { win: self.win, alt: slot },
        }
    }

    /// The states in which no press is pending.
    pub open spec fn empty() -> HoldStates<T> {
        HoldStates { win: HoldState(None), alt: HoldState(None) }
    }

    /// The slot of a trigger, to be changed in place.
    pub fn get_mut(&mut self, trigger: MenuTrigger) -> (slot: &mut HoldState<T>)
        ensures
            *slot == old(self).slot(trigger),
            *final(self) == old(self).with_slot(trigger, *final(slot)),
    {
        match trigger {
            MenuTrigger::Win => &mut self.win,
            MenuTrigger::Alt => &mut self.alt,
        }
    }

    /// Forgets the pending presses of both triggers.
    pub fn reset(&mut self)
        ensures
            *final(self) == Self::empty(),
    {
        self.win.reset();
        self.alt.reset();
    }
}

impl<T: MenuTriggerEvent> HoldStates<T> {
    /// What one event makes of the states, and the hold that it completes.
    ///
    /// An event of a trigger goes to that trigger's slot and leaves the other
    /// slot as it was. An event of any other key empties both slots: a key
    /// pressed or released in between makes the gesture a key combination.
    pub open spec fn spec_update(self, event: T) -> (
        HoldStates<T>,
        Option<(MenuTrigger, HoldEvent<T>)>,
    ) {
        match event.spec_menu_trigger() {
            Some(trigger) => {
                let (slot, hold) = self.slot(trigger).spec_update(event);
                (
                    self.with_slot(trigger, slot),
                    match hold {
                        Some(hold) => Some((trigger, hold)),
                        None => None,
                    },
                )
            },
            None => (Self::empty(), None),
        }
    }

    /// What a run of events, taken in order, makes of the states, and what each
    /// event of the run completes.
    pub open spec fn spec_run(self, events: Seq<T>) -> (
        HoldStates<T>,
        Seq<Option<(MenuTrigger, HoldEvent<T>)>>,
    )
        decreases events.len(),
    {
        if events.len() == 0 {
            (self, Seq::empty())
        } else {
            let (before, completed) = self.spec_run(events.drop_last());
            let (after, last) = before.spec_update(events.last());
            (after, completed.push(last))
        }
    }

    /// Takes one event, and hands out the hold that it completes, with the
    /// trigger that was held.
    pub fn update(&mut self, event: T) -> (completed: Option<(MenuTrigger, HoldEvent<T>)>)
        ensures
            (*final(self), completed) == old(self).spec_update(event),
    {
        match event.menu_trigger() {
            Some(trigger) => match self.get_mut(trigger).update(event) {
                Some(hold) => Some((trigger, hold)),
                None => None,
            },
            None => {
                self.reset();
                None
            },
        }
    }
}

impl<T> Default for HoldStates<T> {
    fn default() -> (states: Self)
        ensures
            states == Self::empty(),
    {
        HoldStates { win: HoldState(None), alt: HoldState(None) }
    }
}

/// A run that ends in `event` is the run before it, then `event`.
pub proof fn lemma_run_push<T: MenuTriggerEvent>(states: HoldStates<T>, events: Seq<T>, event: T)
    ensures
        states.spec_run(events.push(event)) == ({
            let (before, completed) = states.spec_run(events);
            let (after, last) = before.spec_update(event);
            (after, completed.push(last))
        }),
{
    assert(events.push(event).drop_last() =~= events);
}

/// A run completes one entry for each of its events.
pub proof fn lemma_run_len<T: MenuTriggerEvent>(states: HoldStates<T>, events: Seq<T>)
    ensures
        states.spec_run(events).1.len() == events.len(),
    decreases events.len(),
{
    if events.len() > 0 {
        lemma_run_len(states, events.drop_last());
    }
}

/// A hold is completed by the release of a trigger whose press is pending, and
/// by nothing else. The hold is from that press to the release, and the slot of
/// the trigger is empty once it is completed.
pub proof fn law_hold_needs_pending_press_and_release<T: MenuTriggerEvent>(
    states: HoldStates<T>,
    event: T,
)
    ensures
        states.spec_update(event).1 is Some <==> {
            &&& event.spec_menu_trigger() matches Some(trigger)
            &&& event.spec_key_state() == KeyState::Up
            &&& states.slot(trigger).0 is Some
        },
        states.spec_update(event).1 matches Some((trigger, hold)) ==> {
            &&& event.spec_menu_trigger() == Some(trigger)
            &&& states.slot(trigger).0 == Some(hold.press)
            &&& hold.release == event
            &&& states.spec_update(event).0.slot(trigger).0 is None
        },
{
}

/// The first press wins: while a press of a trigger is pending, a further
/// press of that trigger changes nothing and completes nothing.
pub proof fn law_first_press_wins<T: MenuTriggerEvent>(
    states: HoldStates<T>,
    trigger: MenuTrigger,
    press: T,
)
    requires
        states.slot(trigger).0 is Some,
        press.spec_menu_trigger() == Some(trigger),
        press.spec_key_state() == KeyState::Down,
    ensures
        states.spec_update(press) == (states, None::<(MenuTrigger, HoldEvent<T>)>),
{
}

/// An event of a key that is no trigger empties both slots, whichever of them
/// held a press, and completes nothing.
pub proof fn law_other_key_resets_both<T: MenuTriggerEvent>(states: HoldStates<T>, event: T)
    requires
        event.spec_menu_trigger() is None,
    ensures
        states.spec_update(event) == (
            HoldStates::<T>::empty(),
            None::<(MenuTrigger, HoldEvent<T>)>,
        ),
{
}

/// A press of a trigger, then an event of another key, then the release of the
/// trigger: no hold is completed, whatever was pending before.
pub proof fn law_interrupted_hold_is_dropped<T: MenuTriggerEvent>(
    states: HoldStates<T>,
    trigger: MenuTrigger,
    press: T,
    other_key: T,
    release: T,
)
    requires
        press.spec_menu_trigger() == Some(trigger),
        press.spec_key_state() == KeyState::Down,
        other_key.spec_menu_trigger() is None,
        release.spec_menu_trigger() == Some(trigger),
        release.spec_key_state() == KeyState::Up,
    ensures
        states.spec_run(seq![press, other_key, release]) == (
            HoldStates::<T>::empty(),
            seq![
                None::<(MenuTrigger, HoldEvent<T>)>,
                None::<(MenuTrigger, HoldEvent<T>)>,
                None::<(MenuTrigger, HoldEvent<T>)>,
            ],
        ),
{
    let none = None::<(MenuTrigger, HoldEvent<T>)>;
    assert(states.spec_run(Seq::empty()) == (states, Seq::<Option<(MenuTrigger, HoldEvent<T>)>>::empty()));
    lemma_run_push(states, Seq::empty(), press);
    lemma_run_push(states, seq![press], other_key);
    lemma_run_push(states, seq![press, other_key], release);
    assert(Seq::<T>::empty().push(press) =~= seq![press]);
    assert(seq![press].push(other_key) =~= seq![press, other_key]);
    assert(seq![press, other_key].push(release) =~= seq![press, other_key, release]);
    assert(states.spec_run(seq![press, other_key, release]).1 =~= seq![none, none, none]);
}

/// The two triggers do not disturb each other: an event of one trigger leaves
/// the slot of the other as it was, and what it does to its own slot, and what
/// it completes, depends on its own slot alone.
pub proof fn law_triggers_are_independent<T: MenuTriggerEvent>(
    states: HoldStates<T>,
    trigger: MenuTrigger,
    event: T,
)
    requires
        event.spec_menu_trigger() == Some(trigger),
    ensures
        states.spec_update(event).0.slot(trigger.other()) == states.slot(trigger.other()),
        states.spec_update(event).0.slot(trigger) == states.slot(trigger).spec_update(event).0,
        states.spec_update(event).1 == match states.slot(trigger).spec_update(event).1 {
            Some(hold) => Some((trigger, hold)),
            None => None,
        },
{
}

/// Holds of the two triggers may overlap: where one trigger goes down, then
/// the other, and both go up in the same order, each release completes the
/// hold of its own trigger, and the second press is still pending after the
/// first release.
pub proof fn law_overlapping_holds<T: MenuTriggerEvent>(
    trigger: MenuTrigger,
    first_press: T,
    second_press: T,
    first_release: T,
    second_release: T,
)
    requires
        first_press.spec_menu_trigger() == Some(trigger),
        first_press.spec_key_state() == KeyState::Down,
        second_press.spec_menu_trigger() == Some(trigger.other()),
        second_press.spec_key_state() == KeyState::Down,
        first_release.spec_menu_trigger() == Some(trigger),
        first_release.spec_key_state() == KeyState::Up,
        second_release.spec_menu_trigger() == Some(trigger.other()),
        second_release.spec_key_state() == KeyState::Up,
    ensures
        ({
            let start = HoldStates::<T>::empty();
            let (released_first, completed) = start.spec_run(
                seq![first_press, second_press, first_release],
            );
            &&& completed == seq![
                None,
                None,
                Some((trigger, HoldEvent { press: first_press, release: first_release })),
            ]
            &&& released_first.slot(trigger).0 is None
            &&& released_first.slot(trigger.other()).0 == Some(second_press)
            &&& released_first.spec_update(second_release) == (
                start,
                Some(
                    (
                        trigger.other(),
                        HoldEvent { press: second_press, release: second_release },
                    ),
                ),
            )
        }),
{
    let start = HoldStates::<T>::empty();
    assert(start.spec_run(Seq::empty()) == (start, Seq::<Option<(MenuTrigger, HoldEvent<T>)>>::empty()));
    lemma_run_push(start, Seq::empty(), first_press);
    lemma_run_push(start, seq![first_press], second_press);
    lemma_run_push(start, seq![first_press, second_press], first_release);
    assert(Seq::<T>::empty().push(first_press) =~= seq![first_press]);
    assert(seq![first_press].push(second_press) =~= seq![first_press, second_press]);
    assert(seq![first_press, second_press].push(first_release) =~= seq![
        first_press,
        second_press,
        first_release,
    ]);
    let (released_first, completed) = start.spec_run(
        seq![first_press, second_press, first_release],
    );
    assert(completed =~= seq![
        None,
        None,
        Some((trigger, HoldEvent { press: first_press, release: first_release })),
    ]);
}

/// Whether `events` are presses and releases of one trigger in turn, a press
/// first.
pub open spec fn alternates<T: MenuTriggerEvent>(trigger: MenuTrigger, events: Seq<T>) -> bool {
    forall|i: int|
        0 <= i < events.len() ==> {
            &&& (#[trigger] events[i]).spec_menu_trigger() == Some(trigger)
            &&& events[i].spec_key_state() == if i % 2 == 0 {
                KeyState::Down
            } else {
                KeyState::Up
            }
        }
}

/// Presses and releases of one trigger in turn pair up: from a slot that is
/// empty, no press completes anything, and each release completes exactly the
/// hold that began with the press just before it. After a release the slot is
/// empty again; after a press that press is pending. The slot of the other
/// trigger stays as it was.
pub proof fn law_presses_pair_with_releases<T: MenuTriggerEvent>(
    states: HoldStates<T>,
    trigger: MenuTrigger,
    events: Seq<T>,
)
    requires
        states.slot(trigger).0 is None,
        alternates(trigger, events),
    ensures
        ({
            let (after, completed) = states.spec_run(events);
            &&& completed.len() == events.len()
            &&& forall|i: int|
                0 <= i < events.len() ==> #[trigger] completed[i] == if i % 2 == 0 {
                    None
                } else {
                    Some((trigger, HoldEvent { press: events[i - 1], release: events[i] }))
                }
            &&& after.slot(trigger).0 == if events.len() % 2 == 0 {
                None
            } else {
                Some(events.last())
            }
            &&& after.slot(trigger.other()) == states.slot(trigger.other())
        }),
    decreases events.len(),
{
    if events.len() > 0 {
        let earlier = events.drop_last();
        assert(alternates(trigger, earlier)) by {
            assert forall|i: int| 0 <= i < earlier.len() implies {
                &&& (#[trigger] earlier[i]).spec_menu_trigger() == Some(trigger)
                &&& earlier[i].spec_key_state() == if i % 2 == 0 {
                    KeyState::Down
                } else {
                    KeyState::Up
                }
            } by {
                assert(earlier[i] == events[i]);
            }
        }
        law_presses_pair_with_releases(states, trigger, earlier);
        let last = events.len() - 1;
        assert(events[last].spec_menu_trigger() == Some(trigger));
        if earlier.len() > 0 {
            assert(earlier.last() == events[last - 1]);
        }
    }
}

} // verus!
