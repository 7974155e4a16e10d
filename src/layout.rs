use vstd::prelude::*;

verus! {

/// Layout modes by terminal size.
#[derive(Debug, Clone, Copy, PartialEq, Eq, Structural)]
pub enum LayoutMode {
    /// Under 80 columns or under 40 rows: vertical stacking.
    Small,
    /// 80 to 120 columns: horizontal split.
    Medium,
    /// Over 120 columns: centred plant with side panels.
    Large,
}

impl LayoutMode {
    /// Layout for a terminal of `width` columns and `height` rows.
    pub fn from_terminal_size(width: u16, height: u16) -> (r: Self)
        ensures
            r == if width < 80 || height < 40 {
                LayoutMode::Small
            } else if width <= 120 {
                LayoutMode::Medium
            } else {
                LayoutMode::Large
            },
    {
        if width < 80 || height < 40 {
            LayoutMode::Small
        } else if width <= 120 {
            LayoutMode::Medium
        } else {
            LayoutMode::Large
        }
    }

    /// One-letter indicator.
    pub fn indicator(&self) -> (r: &'static str)
        ensures
            r@ == match *self {
                LayoutMode::Small => "S"@,
                LayoutMode::Medium => "M"@,
                LayoutMode::Large => "L"@,
            },
    {
        match self {
            LayoutMode::Small => "S",
            LayoutMode::Medium => "M",
            LayoutMode::Large => "L",
        }
    }
}

} // verus!
