use vstd::prelude::*;

verus! {

/// Screen selection.
#[derive(Debug, Clone, Copy, PartialEq, Eq, Structural)]
pub enum Screen {
    GrowingRoom,
    Stats,
}

impl Default for Screen {
    fn default() -> (r: Self)
        ensures
            r == Screen::GrowingRoom,
    {
        Screen::GrowingRoom
    }
}

/// Events of the application.
#[derive(Debug, Clone, Copy, PartialEq, Eq, Structural)]
pub enum Message {
    Tick,
    Quit,
    HarvestPlant,
    ToggleAutoHarvest,
    CycleVisualMode,
    SwitchScreen(Screen),
}

} // verus!
