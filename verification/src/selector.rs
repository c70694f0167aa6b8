//! The selection dialog as a state machine.
//!
//! The dialog shows one entry for each key and waits until the operator
//! confirms one entry or quits. The machine holds what the dialog decides:
//! it takes the events of the display loop one by one and answers each with
//! the action that the loop has to perform. The loop itself, which owns the
//! terminal, belongs to the caller.

use vstd::prelude::*;
use crate::error::Error;
use crate::keylist::{GPGKey, KeyRecord};
use crate::report::{email_or_placeholder, shown_email};

verus! {

/// One entry of the menu: the label shown, and the identifier of its key.
#[derive(Debug, Clone, PartialEq, Eq)]
pub struct SelectItem {
    pub label: String,
    pub id: String,
}

/// The mathematical value of a [`SelectItem`].
pub struct ItemRecord {
    pub label: Seq<char>,
    pub id: Seq<char>,
}

impl DeepView for SelectItem {
    type V = ItemRecord;

    open spec fn deep_view(&self) -> ItemRecord {
        ItemRecord { label: self.label@, id: self.id@ }
    }
}

impl View for SelectItem {
    type V = ItemRecord;

    open spec fn view(&self) -> ItemRecord {
        self.deep_view()
    }
}

/// The label of a key in the menu: the name, " / ", and the email address
/// or its placeholder.
pub open spec fn selection_label(key: KeyRecord) -> Seq<char> {
    key.username + " / "@ + shown_email(key.email)
}

/// The menu entry of a key.
pub open spec fn selection_item(key: KeyRecord) -> ItemRecord {
    ItemRecord { label: selection_label(key), id: key.id }
}

/// The menu of a sequence of keys: the entry of each key, in the order of
/// the keys.
pub open spec fn selection_items(keys: Seq<KeyRecord>) -> Seq<ItemRecord> {
    Seq::new(keys.len(), |i: int| selection_item(keys[i]))
}

/// Where the dialog stands.
#[derive(Debug, Clone, Copy, PartialEq, Eq, Structural)]
pub enum Phase {
    /// Made, not yet opened.
    Idle,
    /// The menu is on the screen and the operator has not decided.
    Rendering,
    /// The operator has confirmed an entry.
    Confirmed,
    /// The operator has quit without confirming an entry.
    Aborted,
    /// The display loop has ended. Nothing happens after this.
    Closed,
}

/// What the display loop tells the dialog.
#[derive(Debug, Clone, Copy, PartialEq, Eq, Structural)]
pub enum Event {
    /// The caller asks for the menu.
    Open,
    /// The operator activated the entry at this place of the menu.
    Confirm(usize),
    /// The operator gave the quit signal.
    Quit,
    /// The display loop has returned and the result slot was read.
    Exit,
    /// The display loop has returned and the result slot could not be read.
    ExitSlotLost,
}

/// What the dialog asks of the display loop, or hands to the caller.
#[derive(Debug, Clone, PartialEq, Eq)]
pub enum Action {
    /// Show the menu and start the display loop.
    Render,
    /// End the display loop.
    Stop,
    /// Done: this identifier was chosen.
    Deliver(String),
    /// Done: the dialog failed with this error.
    Fail(Error),
    /// The event changes nothing.
    Nothing,
}

/// The mathematical value of an [`Action`].
pub enum ActionRecord {
    Render,
    Stop,
    Deliver(Seq<char>),
    Fail(Error),
    Nothing,
}

impl DeepView for Action {
    type V = ActionRecord;

    open spec fn deep_view(&self) -> ActionRecord {
        match self {
            Action::Render => ActionRecord::Render,
            Action::Stop => ActionRecord::Stop,
            Action::Deliver(id) => ActionRecord::Deliver(id@),
            Action::Fail(error) => ActionRecord::Fail(*error),
            Action::Nothing => ActionRecord::Nothing,
        }
    }
}

impl View for Action {
    type V = ActionRecord;

    open spec fn view(&self) -> ActionRecord {
        self.deep_view()
    }
}

/// The mathematical value of a [`Selector`]: its phase, its menu, and the
/// result slot, which is empty until an entry is confirmed.
pub struct SelectorModel {
    pub phase: Phase,
    pub items: Seq<ItemRecord>,
    pub slot: Seq<char>,
}

/// The dialog before it is opened, for a sequence of keys.
pub open spec fn initial(keys: Seq<KeyRecord>) -> SelectorModel {
    SelectorModel { phase: Phase::Idle, items: selection_items(keys), slot: Seq::empty() }
}

/// Whether the display loop is running in this phase.
pub open spec fn looping(phase: Phase) -> bool {
    phase == Phase::Rendering || phase == Phase::Confirmed || phase == Phase::Aborted
}

/// What the result slot gives when the display loop has ended: the
/// identifier in it, or the failure of a dialog in which nothing was chosen.
pub open spec fn slot_result(slot: Seq<char>) -> ActionRecord {
    if slot.len() > 0 {
        ActionRecord::Deliver(slot)
    } else {
        ActionRecord::Fail(Error::NoSelectionMade)
    }
}

/// The transition of the dialog: the state after an event, and the action
/// that answers it.
///
/// - `Open` moves an idle dialog with a menu to `Rendering` and asks for the
///   menu to be shown. With an empty menu it fails with `EmptyKeySet`, and
///   the dialog stays idle.
/// - `Confirm` on an entry of the menu, while rendering, writes the entry's
///   identifier to the slot, moves to `Confirmed` and stops the loop.
/// - `Quit`, while rendering, moves to `Aborted` and stops the loop.
/// - `Exit`, while the loop runs, closes the dialog and gives what the slot
///   holds; `ExitSlotLost` closes it with `SelectionUnavailable`.
/// - Every other event changes nothing.
pub open spec fn next(pre: SelectorModel, event: Event) -> (SelectorModel, ActionRecord) {
    match event {
        Event::Open => if pre.phase != Phase::Idle {
            (pre, ActionRecord::Nothing)
        } else if pre.items.len() == 0 {
            (pre, ActionRecord::Fail(Error::EmptyKeySet))
        } else {
            (SelectorModel { phase: Phase::Rendering, ..pre }, ActionRecord::Render)
        },
        Event::Confirm(index) => if pre.phase == Phase::Rendering && index < pre.items.len() {
            (
                SelectorModel {
                    phase: Phase::Confirmed,
                    slot: pre.items[index as int].id,
                    ..pre
                },
                ActionRecord::Stop,
            )
        } else {
            (pre, ActionRecord::Nothing)
        },
        Event::Quit => if pre.phase == Phase::Rendering {
            (SelectorModel { phase: Phase::Aborted, ..pre }, ActionRecord::Stop)
        } else {
            (pre, ActionRecord::Nothing)
        },
        Event::Exit => if looping(pre.phase) {
            (SelectorModel { phase: Phase::Closed, ..pre }, slot_result(pre.slot))
        } else {
            (pre, ActionRecord::Nothing)
        },
        Event::ExitSlotLost => if looping(pre.phase) {
            (
                SelectorModel { phase: Phase::Closed, ..pre },
                ActionRecord::Fail(Error::SelectionUnavailable),
            )
        } else {
            (pre, ActionRecord::Nothing)
        },
    }
}

/// The states that a dialog can be in: the loop runs only over a menu that
/// has entries; the slot is empty until an entry is confirmed; and what
/// it holds afterwards is the identifier of an entry of the menu.
pub open spec fn coherent(state: SelectorModel) -> bool {
    &&& looping(state.phase) ==> state.items.len() > 0
    &&& state.phase == Phase::Idle || state.phase == Phase::Rendering || state.phase
        == Phase::Aborted ==> state.slot.len() == 0
    &&& state.phase == Phase::Confirmed ==> exists|i: int|
        0 <= i < state.items.len() && state.slot == (#[trigger] state.items[i]).id
    &&& state.phase == Phase::Closed ==> state.slot.len() == 0 || exists|i: int|
        0 <= i < state.items.len() && state.slot == (#[trigger] state.items[i]).id
}

/// The selection dialog.
#[derive(Debug)]
pub struct Selector {
    phase: Phase,
    items: Vec<SelectItem>,
    slot: String,
}

impl DeepView for Selector {
    type V = SelectorModel;

    closed spec fn deep_view(&self) -> SelectorModel {
        SelectorModel { phase: self.phase, items: self.items.deep_view(), slot: self.slot@ }
    }
}

impl View for Selector {
    type V = SelectorModel;

    open spec fn view(&self) -> SelectorModel {
        self.deep_view()
    }
}

/// The label of a key in the menu.
pub fn label_of(key: &GPGKey) -> (label: String)
    ensures
        label@ == selection_label(key@),
{
    let mut label = key.username.clone();
    label.append(" / ");
    let email = email_or_placeholder(&key.email);
    label.append(email.as_str());
    label
}

/// The menu of a sequence of keys.
pub fn items_of(gpg_info_list: &Vec<GPGKey>) -> (items: Vec<SelectItem>)
    ensures
        items.deep_view() == selection_items(gpg_info_list.deep_view()),
{
    let mut items: Vec<SelectItem> = Vec::new();
    let mut n: usize = 0;
    while n < gpg_info_list.len()
        invariant
            n <= gpg_info_list.len(),
            items.len() == n,
            forall|i: int|
                0 <= i < n ==> (#[trigger] items.deep_view()[i]) == selection_item(
                    gpg_info_list.deep_view()[i],
                ),
        decreases gpg_info_list.len() - n,
    {
        let key = &gpg_info_list[n];
        let item = SelectItem { label: label_of(key), id: key.id.clone() };
        let ghost before = items.deep_view();
        items.push(item);
        assert forall|i: int| 0 <= i <= n implies (#[trigger] items.deep_view()[i])
            == selection_item(gpg_info_list.deep_view()[i]) by {
            if i < n {
                assert(items.deep_view()[i] == before[i]);
            }
        }
        n = n + 1;
    }
    assert(items.deep_view() =~= selection_items(gpg_info_list.deep_view()));
    items
}

impl Selector {
    /// Makes the dialog for a sequence of keys: idle, with the menu of the
    /// keys and an empty result slot.
    pub fn new(gpg_info_list: &Vec<GPGKey>) -> (selector: Selector)
        ensures
            selector@ == initial(gpg_info_list.deep_view()),
            coherent(selector@),
    {
        Selector { phase: Phase::Idle, items: items_of(gpg_info_list), slot: String::new() }
    }

    /// The phase of the dialog.
    pub fn phase(&self) -> (phase: Phase)
        ensures
            phase == self@.phase,
    {
        self.phase
    }

    /// The menu of the dialog.
    pub fn items(&self) -> (items: &Vec<SelectItem>)
        ensures
            items.deep_view() == self@.items,
    {
        &self.items
    }

    /// Takes one event of the display loop: moves the dialog as [`next`]
    /// says and returns the action that answers the event.
    pub fn step(&mut self, event: Event) -> (action: Action)
        ensures
            (final(self)@, action@) == next(old(self)@, event),
            coherent(old(self)@) ==> coherent(final(self)@),
    {
        proof {
            if coherent(self@) {
                lemma_step_keeps_coherence(self@, event);
            }
        }
        let running = match self.phase {
            Phase::Rendering | Phase::Confirmed | Phase::Aborted => true,
            _ => false,
        };
        match event {
            Event::Open => {
                if self.phase != Phase::Idle {
                    Action::Nothing
                } else if self.items.len() == 0 {
                    Action::Fail(Error::EmptyKeySet)
                } else {
                    self.phase = Phase::Rendering;
                    Action::Render
                }
            },
            Event::Confirm(index) => {
                if self.phase == Phase::Rendering && index < self.items.len() {
                    self.slot = self.items[index].id.clone();
                    self.phase = Phase::Confirmed;
                    Action::Stop
                } else {
                    Action::Nothing
                }
            },
            Event::Quit => {
                if self.phase == Phase::Rendering {
                    self.phase = Phase::Aborted;
                    Action::Stop
                } else {
                    Action::Nothing
                }
            },
            Event::Exit => {
                if running {
                    self.phase = Phase::Closed;
                    if !self.slot.as_str().is_empty() {
                        Action::Deliver(self.slot.clone())
                    } else {
                        Action::Fail(Error::NoSelectionMade)
                    }
                } else {
                    Action::Nothing
                }
            },
            Event::ExitSlotLost => {
                if running {
                    self.phase = Phase::Closed;
                    Action::Fail(Error::SelectionUnavailable)
                } else {
                    Action::Nothing
                }
            },
        }
    }
}

/// No event leads out of the coherent states.
pub proof fn lemma_step_keeps_coherence(pre: SelectorModel, event: Event)
    requires
        coherent(pre),
    ensures
        coherent(next(pre, event).0),
{
    let post = next(pre, event).0;
    match event {
        Event::Confirm(index) => {
            if pre.phase == Phase::Rendering && index < pre.items.len() {
                assert(post.slot == post.items[index as int].id);
            }
        },
        Event::Exit | Event::ExitSlotLost => {
            if pre.phase == Phase::Confirmed {
                let i = choose|i: int|
                    0 <= i < pre.items.len() && pre.slot == (#[trigger] pre.items[i]).id;
                assert(post.slot == post.items[i].id);
            }
        },
        _ => {},
    }
}

/// `Closed` is terminal: a closed dialog answers every event with
/// `Nothing` and stays as it is.
pub proof fn lemma_closed_is_terminal(pre: SelectorModel, event: Event)
    requires
        pre.phase == Phase::Closed,
    ensures
        next(pre, event) == (pre, ActionRecord::Nothing),
{
}

/// One confirm is honoured: after it the menu, the slot and the phase stay
/// as they are until the loop ends, whatever the operator does.
pub proof fn lemma_one_confirm(pre: SelectorModel, event: Event)
    requires
        pre.phase == Phase::Confirmed,
        event != Event::Exit,
        event != Event::ExitSlotLost,
    ensures
        next(pre, event) == (pre, ActionRecord::Nothing),
{
}

/// Opening a dialog without keys fails with `EmptyKeySet`; the dialog stays
/// idle, so the menu is never asked to be shown.
pub proof fn lemma_empty_menu_is_not_shown(keys: Seq<KeyRecord>)
    requires
        keys.len() == 0,
    ensures
        next(initial(keys), Event::Open) == (
            initial(keys),
            ActionRecord::Fail(Error::EmptyKeySet),
        ),
{
}

} // verus!
