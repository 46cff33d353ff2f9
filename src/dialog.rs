use vstd::prelude::*;

verus! {

/// How many missions the new-game dialog offers.
pub const MISSION_CHOICES: usize = 6;

/// The new-game dialog: whether it is shown and which mission it has chosen.
#[derive(Debug, Clone, Copy, PartialEq, Eq, Structural)]
pub struct NewGameDialog {
    pub open: bool,
    pub selected_mission: usize,
}

impl Default for NewGameDialog {
    fn default() -> (r: NewGameDialog)
        ensures
            r == (NewGameDialog { open: false, selected_mission: 1 }),
    {
        NewGameDialog { open: false, selected_mission: 1 }
    }
}

/// What the dialog asks of the game after a click.
#[derive(Debug, Clone, Copy, PartialEq, Eq, Structural)]
pub enum DialogOutcome {
    /// Nothing to do beyond redrawing.
    Stay,
    /// Start the mission with this id.
    Start(usize),
}

pub open spec fn label_of(mission: int) -> Seq<char> {
    if mission == 1 {
        "Mission 1: First Steps - Basic Base Setup"@
    } else if mission == 2 {
        "Mission 2: Power Grid - Energy Management"@
    } else if mission == 3 {
        "Mission 3: Life Support - Oxygen Systems"@
    } else if mission == 4 {
        "Mission 4: Research - Science Operations"@
    } else if mission == 5 {
        "Mission 5: Mining - Resource Extraction"@
    } else {
        "Mission 6: Full Operations - Complete Base"@
    }
}

/// The caption of the choice for mission `mission`, one of 1 to 6.
pub fn mission_label(mission: usize) -> (r: &'static str)
    requires
        1 <= mission <= MISSION_CHOICES,
    ensures
        r@ == label_of(mission as int),
{
    if mission == 1 {
        "Mission 1: First Steps - Basic Base Setup"
    } else if mission == 2 {
        "Mission 2: Power Grid - Energy Management"
    } else if mission == 3 {
        "Mission 3: Life Support - Oxygen Systems"
    } else if mission == 4 {
        "Mission 4: Research - Science Operations"
    } else if mission == 5 {
        "Mission 5: Mining - Resource Extraction"
    } else {
        "Mission 6: Full Operations - Complete Base"
    }
}

impl NewGameDialog {
    /// Shows the dialog, keeping the choice made before.
    pub fn show(&mut self)
        ensures
            *final(self) == (NewGameDialog { open: true, ..*old(self) }),
    {
        self.open = true;
    }

    /// Chooses mission `mission`.
    pub fn pick_mission(&mut self, mission: usize)
        ensures
            *final(self) == (NewGameDialog { selected_mission: mission, ..*old(self) }),
    {
        self.selected_mission = mission;
    }

    /// Closes the dialog without starting anything.
    pub fn cancel(&mut self)
        ensures
            *final(self) == (NewGameDialog { open: false, ..*old(self) }),
    {
        self.open = false;
    }

    /// "Start Mission" was clicked: an open dialog closes and asks for the
    /// chosen mission; a closed one ignores the click.
    pub fn confirm(&mut self) -> (r: DialogOutcome)
        ensures
            old(self).open ==> r == DialogOutcome::Start(old(self).selected_mission),
            !old(self).open ==> r == DialogOutcome::Stay,
            *final(self) == (NewGameDialog { open: false, ..*old(self) }),
    {
        if self.open {
            self.open = false;
            DialogOutcome::Start(self.selected_mission)
        } else {
            DialogOutcome::Stay
        }
    }
}

} // verus!
