//! Small state machines behind the user interface: hover descriptions in
//! the status bar, the deferred error message, and the select-all toggle.

use vstd::prelude::*;

verus! {

// ---------------------------------------------------------------------------
// Hover descriptions
// ---------------------------------------------------------------------------

/// What the status bar should do after a mouse event on a control.
#[derive(Debug, Clone, Copy, PartialEq, Eq, Structural)]
pub enum HoverAction {
    /// Nothing changes.
    Nothing,
    /// Show the control's description and ask for a mouse-leave notification.
    ShowDescription,
    /// Clear the status bar text.
    ClearDescription,
}

/// A mouse message that reaches a control.
#[derive(Debug, Clone, Copy, PartialEq, Eq, Structural)]
pub enum HoverEvent {
    /// `WM_MOUSEMOVE`.
    MouseMove,
    /// `WM_MOUSELEAVE`.
    MouseLeave,
}

/// One step of the hover state: whether the mouse is inside afterwards, and
/// the action, from whether it was inside and the message.
pub open spec fn hover_step(inside: bool, event: HoverEvent) -> (bool, HoverAction) {
    match event {
        HoverEvent::MouseMove => (true, if inside { HoverAction::Nothing } else { HoverAction::ShowDescription }),
        HoverEvent::MouseLeave => (false, HoverAction::ClearDescription),
    }
}

/// Whether the mouse is inside after `events`, starting outside.
pub open spec fn inside_after(events: Seq<HoverEvent>) -> bool
    decreases events.len(),
{
    if events.len() == 0 {
        false
    } else {
        hover_step(inside_after(events.drop_last()), events.last()).0
    }
}

/// The action that the message at `k` of `events` leads to, starting outside.
pub open spec fn action_at(events: Seq<HoverEvent>, k: int) -> HoverAction {
    hover_step(inside_after(events.take(k)), events[k]).1
}

/// Over any sequence of mouse messages, starting from a new tracker: every
/// leave clears the description; a move shows it when it is the first
/// message or follows a leave, and changes nothing when it follows a move.
pub proof fn lemma_hover_sequence(events: Seq<HoverEvent>, k: int)
    requires
        0 <= k < events.len(),
    ensures
        action_at(events, k) == match events[k] {
            HoverEvent::MouseLeave => HoverAction::ClearDescription,
            HoverEvent::MouseMove => if k > 0 && events[k - 1] == HoverEvent::MouseMove {
                HoverAction::Nothing
            } else {
                HoverAction::ShowDescription
            },
        },
{
    let before = events.take(k);
    if k > 0 {
        assert(before.drop_last() =~= events.take(k - 1));
        assert(before.last() == events[k - 1]);
    }
}

/// Tracks whether the mouse is over a control, so that a description is
/// shown once when the mouse enters and cleared when it leaves.
#[derive(Debug, Clone, Copy, PartialEq, Eq, Structural)]
pub struct HoverTracker {
    pub mouse_inside: bool,
}

impl HoverTracker {
    /// A tracker with the mouse outside the control.
    pub fn new() -> (result: Self)
        ensures
            !result.mouse_inside,
    {
        HoverTracker { mouse_inside: false }
    }

    /// A mouse move over the control: the first one after the mouse was
    /// outside shows the description; later ones change nothing.
    pub fn on_mouse_move(&mut self) -> (action: HoverAction)
        ensures
            final(self).mouse_inside,
            action == if old(self).mouse_inside { HoverAction::Nothing } else { HoverAction::ShowDescription },
            (final(self).mouse_inside, action) == hover_step(old(self).mouse_inside, HoverEvent::MouseMove),
    {
        if self.mouse_inside {
            HoverAction::Nothing
        } else {
            self.mouse_inside = true;
            HoverAction::ShowDescription
        }
    }

    /// The mouse left the control: the description is cleared.
    pub fn on_mouse_leave(&mut self) -> (action: HoverAction)
        ensures
            !final(self).mouse_inside,
            action == HoverAction::ClearDescription,
            (final(self).mouse_inside, action) == hover_step(old(self).mouse_inside, HoverEvent::MouseLeave),
    {
        self.mouse_inside = false;
        HoverAction::ClearDescription
    }
}

// ---------------------------------------------------------------------------
// Deferred error message
// ---------------------------------------------------------------------------

/// An error message waiting to be shown once the current message handler
/// has returned, so that no modal dialog opens inside a menu loop.
#[derive(Debug, Clone, PartialEq, Eq)]
pub struct PendingErrorMessage {
    message: Option<String>,
}

impl PendingErrorMessage {
    /// The message waiting, if any.
    pub closed spec fn pending(&self) -> Option<Seq<char>> {
        match self.message {
            Some(m) => Some(m@),
            None => None,
        }
    }

    /// Nothing waiting.
    pub fn new() -> (result: Self)
        ensures
            result.pending() == None::<Seq<char>>,
    {
        PendingErrorMessage { message: None }
    }

    /// Stores a message to show, replacing any message not yet shown.
    pub fn post(&mut self, error_message: String)
        ensures
            final(self).pending() == Some(error_message@),
    {
        self.message = Some(error_message);
    }

    /// Takes the waiting message, leaving nothing waiting.
    pub fn take(&mut self) -> (result: Option<String>)
        ensures
            final(self).pending() == None::<Seq<char>>,
            match result {
                Some(m) => old(self).pending() == Some(m@),
                None => old(self).pending() == None::<Seq<char>>,
            },
    {
        let result = self.message.take();
        result
    }
}

// ---------------------------------------------------------------------------
// Select all / deselect all
// ---------------------------------------------------------------------------

/// Whether every checkbox is checked.
pub open spec fn all_checked(states: Seq<bool>) -> bool {
    forall|i: int| 0 <= i < states.len() ==> states[i]
}

/// The states after the select-all toggle: all unchecked when all were
/// checked, all checked otherwise.
pub open spec fn toggled_all(states: Seq<bool>) -> Seq<bool> {
    Seq::new(states.len(), |i: int| !all_checked(states))
}

/// The state the select-all toggle sets every checkbox to.
pub fn select_all_target(states: &Vec<bool>) -> (result: bool)
    ensures
        result == !all_checked(states@),
{
    let mut i: usize = 0;
    while i < states.len()
        invariant
            i <= states.len(),
            forall|j: int| 0 <= j < i ==> states@[j],
        decreases states.len() - i,
    {
        if !states[i] {
            return true;
        }
        i = i + 1;
    }
    false
}

/// Two clicks of the select-all toggle leave every checkbox checked exactly
/// when all were checked before; one click makes them all alike.
pub proof fn lemma_select_all_twice(states: Seq<bool>)
    requires
        states.len() > 0,
    ensures
        toggled_all(toggled_all(states)) == Seq::new(states.len(), |i: int| all_checked(states)),
        forall|i: int, j: int| 0 <= i < states.len() && 0 <= j < states.len() ==> toggled_all(states)[i]
            == toggled_all(states)[j],
{
    let once = toggled_all(states);
    assert(once[0] == !all_checked(states));
    assert(all_checked(once) == !all_checked(states));
    assert(toggled_all(once) =~= Seq::new(states.len(), |i: int| all_checked(states)));
}

} // verus!
