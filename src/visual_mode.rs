use vstd::prelude::*;

verus! {

/// Aesthetic themes.
#[derive(Debug, Clone, Copy, PartialEq, Eq, Structural)]
pub enum VisualMode {
    /// The RGB/16-colour system (default).
    Normal,
    /// Minimalist, soft colours, slow breathing.
    Zen,
    /// Cycling hues, energetic.
    Rainbow,
    /// Green monochrome.
    Matrix,
}

/// The mode that follows `m` in the cycle Normal, Zen, Rainbow, Matrix.
pub open spec fn next_mode(m: VisualMode) -> VisualMode {
    match m {
        VisualMode::Normal => VisualMode::Zen,
        VisualMode::Zen => VisualMode::Rainbow,
        VisualMode::Rainbow => VisualMode::Matrix,
        VisualMode::Matrix => VisualMode::Normal,
    }
}

impl VisualMode {
    /// The next mode in the cycle.
    pub fn next(&self) -> (r: Self)
        ensures
            r == next_mode(*self),
    {
        match self {
            VisualMode::Normal => VisualMode::Zen,
            VisualMode::Zen => VisualMode::Rainbow,
            VisualMode::Rainbow => VisualMode::Matrix,
            VisualMode::Matrix => VisualMode::Normal,
        }
    }

    /// Display name of the mode.
    pub fn name(&self) -> (r: &'static str)
        ensures
            r@ == match *self {
                VisualMode::Normal => "Normal"@,
                VisualMode::Zen => "Zen Garden"@,
                VisualMode::Rainbow => "Rainbow"@,
                VisualMode::Matrix => "Matrix"@,
            },
    {
        match self {
            VisualMode::Normal => "Normal",
            VisualMode::Zen => "Zen Garden",
            VisualMode::Rainbow => "Rainbow",
            VisualMode::Matrix => "Matrix",
        }
    }
}

impl Default for VisualMode {
    fn default() -> (r: Self)
        ensures
            r == VisualMode::Normal,
    {
        VisualMode::Normal
    }
}

/// The mode a save without one starts in.
pub fn default_visual_mode() -> (r: VisualMode)
    ensures
        r == VisualMode::Normal,
{
    VisualMode::Normal
}

} // verus!
