//! A yes/no gate shown before a destructive action.

use vstd::prelude::*;

verus! {

/// The two answers of a confirmation.
#[derive(Clone, Copy, Debug, PartialEq, Eq, Structural)]
pub enum Choice {
    Yes,
    No,
}

impl Choice {
    /// The other answer.
    pub open spec fn flipped(self) -> Choice {
        match self {
            Choice::Yes => Choice::No,
            Choice::No => Choice::Yes,
        }
    }
}

/// A confirmation dialog: whether it is on screen, and the answer that is
/// highlighted. A dialog that is put away forgets its answer.
#[derive(Clone, Copy, Debug, PartialEq, Eq, Structural)]
pub struct ConfirmState {
    pub show: bool,
    pub choice: Choice,
}

impl ConfirmState {
    /// A hidden dialog with the answer "no".
    pub open spec fn hidden() -> ConfirmState {
        ConfirmState { show: false, choice: Choice::No }
    }

    /// The dialog after `toggle`.
    pub open spec fn toggled(self) -> ConfirmState {
        ConfirmState { show: self.show, choice: self.choice.flipped() }
    }

    /// The dialog after `confirm`.
    pub open spec fn confirmed(self) -> ConfirmState {
        if self.show {
            ConfirmState { show: true, choice: Choice::Yes }
        } else {
            self
        }
    }

    /// The answer that `resolve` hands to the page: none while hidden.
    pub open spec fn outcome(self) -> Option<bool> {
        if self.show {
            Some(self.choice == Choice::Yes)
        } else {
            None
        }
    }

    pub fn new() -> (state: ConfirmState)
        ensures
            state == ConfirmState::hidden(),
    {
        ConfirmState { show: false, choice: Choice::No }
    }

    /// Puts the dialog on screen; the highlighted answer stays.
    pub fn show(&mut self)
        ensures
            *final(self) == (ConfirmState { show: true, choice: old(self).choice }),
    {
        self.show = true;
    }

    /// Puts the dialog away and resets the answer to "no".
    pub fn close(&mut self)
        ensures
            *final(self) == ConfirmState::hidden(),
    {
        self.show = false;
        self.choice = Choice::No;
    }

    /// Moves the highlight to the other answer.
    pub fn toggle(&mut self)
        ensures
            *final(self) == old(self).toggled(),
    {
        self.choice = match self.choice {
            Choice::Yes => Choice::No,
            Choice::No => Choice::Yes,
        };
    }

    /// Highlights "yes"; a hidden dialog stays as it is.
    pub fn confirm(&mut self)
        ensures
            *final(self) == old(self).confirmed(),
    {
        if self.show {
            self.choice = Choice::Yes;
        }
    }

    /// Whether "yes" is highlighted.
    pub fn is_confirm(&self) -> (yes: bool)
        ensures
            yes == (self.choice == Choice::Yes),
    {
        self.choice == Choice::Yes
    }

    /// Closes a visible dialog and hands back its answer. A hidden dialog has
    /// no answer and stays as it is.
    pub fn resolve(&mut self) -> (answer: Option<bool>)
        ensures
            answer == old(self).outcome(),
            *final(self) == (if old(self).show { ConfirmState::hidden() } else { *old(self) }),
    {
        if self.show {
            let yes = self.choice == Choice::Yes;
            self.close();
            Some(yes)
        } else {
            None
        }
    }
}

impl Default for ConfirmState {
    fn default() -> (state: ConfirmState)
        ensures
            state == ConfirmState::hidden(),
    {
        ConfirmState::new()
    }
}

/// Toggling twice gives back the dialog as it was.
pub proof fn lemma_toggle_twice(state: ConfirmState)
    ensures
        state.toggled().toggled() == state,
{
}

/// Confirming a hidden dialog changes nothing.
pub proof fn lemma_confirm_hidden(state: ConfirmState)
    requires
        !state.show,
    ensures
        state.confirmed() == state,
        state.confirmed().outcome() == None::<bool>,
{
}

} // verus!
