use vstd::prelude::*;
use crate::plant::GrowthStage;
use crate::visual_mode::VisualMode;

verus! {

/// Flower colour intensity by growth progress.
#[derive(Debug, Clone, Copy, PartialEq, Eq, Structural)]
pub enum FlowerIntensity {
    Early,
    Developing,
    Peak,
    Harvest,
}

/// Basic 16-colour ANSI palette.
#[derive(Debug, Clone, Copy)]
pub struct Basic16Palette;

/// 256-colour indexed palette; colours as the 16-colour one.
#[derive(Debug, Clone, Copy)]
pub struct Color256Palette;

/// 24-bit colour palette.
#[derive(Debug, Clone, Copy)]
pub struct TrueColorPalette;

/// Hue-cycling palette.
#[derive(Debug, Clone, Copy)]
pub struct RainbowPalette;

/// Soft pastel palette.
#[derive(Debug, Clone, Copy)]
pub struct ZenPalette;

/// Green monochrome palette.
#[derive(Debug, Clone, Copy)]
pub struct MatrixPalette;

/// A terminal colour: one of the sixteen named ANSI colours or a 24-bit one.
#[derive(Debug, Clone, Copy, PartialEq, Eq, Structural)]
pub enum TermColor {
    Black,
    Red,
    Green,
    Yellow,
    Blue,
    Magenta,
    Cyan,
    Gray,
    DarkGray,
    LightRed,
    LightGreen,
    LightYellow,
    LightBlue,
    LightMagenta,
    LightCyan,
    White,
    Rgb(u8, u8, u8),
}

/// Base flower colour of a 16-colour variant.
pub open spec fn basic_flower_base(variant: u8) -> TermColor {
    match variant % 6 {
        0 => TermColor::Magenta,
        1 => TermColor::Red,
        2 => TermColor::Yellow,
        3 => TermColor::LightMagenta,
        4 => TermColor::Cyan,
        _ => TermColor::White,
    }
}

/// 16-colour flower colour: the variant's base colour early on, its light
/// shade later (pink turns magenta while developing, white stays white).
pub open spec fn basic_flower(variant: u8, intensity: FlowerIntensity) -> TermColor {
    let base = basic_flower_base(variant);
    match intensity {
        FlowerIntensity::Early => base,
        FlowerIntensity::Developing => match base {
            TermColor::Magenta => TermColor::LightMagenta,
            TermColor::Red => TermColor::LightRed,
            TermColor::Yellow => TermColor::LightYellow,
            TermColor::LightMagenta => TermColor::Magenta,
            TermColor::Cyan => TermColor::LightCyan,
            _ => TermColor::White,
        },
        _ => match base {
            TermColor::Magenta => TermColor::LightMagenta,
            TermColor::Red => TermColor::LightRed,
            TermColor::Yellow => TermColor::LightYellow,
            TermColor::LightMagenta => TermColor::LightMagenta,
            TermColor::Cyan => TermColor::LightCyan,
            _ => TermColor::White,
        },
    }
}

impl Basic16Palette {
    pub fn new() -> Self {
        Basic16Palette
    }

    /// Flower colour of `variant` (of 6) at `intensity`.
    pub fn flower_color(&self, variant: u8, intensity: FlowerIntensity) -> (r: TermColor)
        ensures
            r == basic_flower(variant, intensity),
    {
        let base = match variant % 6 {
            0 => TermColor::Magenta,
            1 => TermColor::Red,
            2 => TermColor::Yellow,
            3 => TermColor::LightMagenta,
            4 => TermColor::Cyan,
            _ => TermColor::White,
        };
        match intensity {
            FlowerIntensity::Early => base,
            FlowerIntensity::Developing => match base {
                TermColor::Magenta => TermColor::LightMagenta,
                TermColor::Red => TermColor::LightRed,
                TermColor::Yellow => TermColor::LightYellow,
                TermColor::LightMagenta => TermColor::Magenta,
                TermColor::Cyan => TermColor::LightCyan,
                _ => TermColor::White,
            },
            _ => match base {
                TermColor::Magenta => TermColor::LightMagenta,
                TermColor::Red => TermColor::LightRed,
                TermColor::Yellow => TermColor::LightYellow,
                TermColor::LightMagenta => TermColor::LightMagenta,
                TermColor::Cyan => TermColor::LightCyan,
                _ => TermColor::White,
            },
        }
    }

    /// Foliage colour of `variant` (of 4): green or light green.
    pub fn foliage_color(&self, variant: u8) -> (r: TermColor)
        ensures
            r == if variant % 2 == 0 { TermColor::Green } else { TermColor::LightGreen },
    {
        if variant % 2 == 0 {
            TermColor::Green
        } else {
            TermColor::LightGreen
        }
    }

    /// Trunk colour of `variant` (of 3).
    pub fn trunk_color(&self, variant: u8) -> (r: TermColor)
        ensures
            r == if variant % 3 == 0 {
                TermColor::Yellow
            } else if variant % 3 == 1 {
                TermColor::Red
            } else {
                TermColor::DarkGray
            },
    {
        match variant % 3 {
            0 => TermColor::Yellow,
            1 => TermColor::Red,
            _ => TermColor::DarkGray,
        }
    }

    /// Water gauge colour for a level in thousandths of a percent: red below
    /// 20%, yellow below 40%, blue from there.
    pub fn water_color(&self, level: u32) -> (r: TermColor)
        ensures
            r == if level < 20_000 {
                TermColor::Red
            } else if level < 40_000 {
                TermColor::Yellow
            } else {
                TermColor::Blue
            },
    {
        if level < 20_000 {
            TermColor::Red
        } else if level < 40_000 {
            TermColor::Yellow
        } else {
            TermColor::Blue
        }
    }

    /// Nutrient gauge colour for a level in thousandths of a percent: red below
    /// 30%, yellow below 50%, green from there.
    pub fn nutrient_color(&self, level: u32) -> (r: TermColor)
        ensures
            r == if level < 30_000 {
                TermColor::Red
            } else if level < 50_000 {
                TermColor::Yellow
            } else {
                TermColor::Green
            },
    {
        if level < 30_000 {
            TermColor::Red
        } else if level < 50_000 {
            TermColor::Yellow
        } else {
            TermColor::Green
        }
    }
}

/// 24-bit flower colours: six variants, four intensities each.
pub open spec fn truecolor_flower(variant: u8, intensity: FlowerIntensity) -> (u8, u8, u8) {
    let v = variant % 6;
    match intensity {
        FlowerIntensity::Early => if v == 0 {
            (180u8, 120u8, 200u8)
        } else if v == 1 {
            (255, 180, 100)
        } else if v == 2 {
            (255, 255, 150)
        } else if v == 3 {
            (255, 200, 220)
        } else if v == 4 {
            (150, 220, 230)
        } else {
            (240, 240, 220)
        },
        FlowerIntensity::Developing => if v == 0 {
            (140u8, 80u8, 180u8)
        } else if v == 1 {
            (255, 140, 60)
        } else if v == 2 {
            (255, 220, 100)
        } else if v == 3 {
            (255, 150, 200)
        } else if v == 4 {
            (100, 200, 220)
        } else {
            (255, 255, 240)
        },
        FlowerIntensity::Peak => if v == 0 {
            (120u8, 40u8, 160u8)
        } else if v == 1 {
            (240, 100, 40)
        } else if v == 2 {
            (240, 200, 60)
        } else if v == 3 {
            (240, 100, 180)
        } else if v == 4 {
            (60, 180, 200)
        } else {
            (255, 255, 255)
        },
        FlowerIntensity::Harvest => if v == 0 {
            (100u8, 20u8, 140u8)
        } else if v == 1 {
            (220, 60, 20)
        } else if v == 2 {
            (220, 180, 40)
        } else if v == 3 {
            (220, 60, 160)
        } else if v == 4 {
            (40, 160, 180)
        } else {
            (240, 240, 255)
        },
    }
}

impl TrueColorPalette {
    /// Flower colour of `variant` (of 6) at `intensity`.
    pub fn flower_color(&self, variant: u8, intensity: FlowerIntensity) -> (r: TermColor)
        ensures
            r == TermColor::Rgb(
                truecolor_flower(variant, intensity).0,
                truecolor_flower(variant, intensity).1,
                truecolor_flower(variant, intensity).2,
            ),
    {
        let v = variant % 6;
        let (r, g, b): (u8, u8, u8) = match intensity {
            FlowerIntensity::Early => if v == 0 {
                (180, 120, 200)
            } else if v == 1 {
                (255, 180, 100)
            } else if v == 2 {
                (255, 255, 150)
            } else if v == 3 {
                (255, 200, 220)
            } else if v == 4 {
                (150, 220, 230)
            } else {
                (240, 240, 220)
            },
            FlowerIntensity::Developing => if v == 0 {
                (140, 80, 180)
            } else if v == 1 {
                (255, 140, 60)
            } else if v == 2 {
                (255, 220, 100)
            } else if v == 3 {
                (255, 150, 200)
            } else if v == 4 {
                (100, 200, 220)
            } else {
                (255, 255, 240)
            },
            FlowerIntensity::Peak => if v == 0 {
                (120, 40, 160)
            } else if v == 1 {
                (240, 100, 40)
            } else if v == 2 {
                (240, 200, 60)
            } else if v == 3 {
                (240, 100, 180)
            } else if v == 4 {
                (60, 180, 200)
            } else {
                (255, 255, 255)
            },
            FlowerIntensity::Harvest => if v == 0 {
                (100, 20, 140)
            } else if v == 1 {
                (220, 60, 20)
            } else if v == 2 {
                (220, 180, 40)
            } else if v == 3 {
                (220, 60, 160)
            } else if v == 4 {
                (40, 160, 180)
            } else {
                (240, 240, 255)
            },
        };
        TermColor::Rgb(r, g, b)
    }

    /// Soil colour for a moisture level in thousandths of a percent: dark
    /// above 70%, medium above 40%, light otherwise.
    pub fn soil_color(&self, moisture: u32) -> (r: TermColor)
        ensures
            r == if moisture > 70_000 {
                TermColor::Rgb(80, 60, 40)
            } else if moisture > 40_000 {
                TermColor::Rgb(120, 90, 60)
            } else {
                TermColor::Rgb(160, 130, 90)
            },
    {
        if moisture > 70_000 {
            TermColor::Rgb(80, 60, 40)
        } else if moisture > 40_000 {
            TermColor::Rgb(120, 90, 60)
        } else {
            TermColor::Rgb(160, 130, 90)
        }
    }

    /// Faint background tint of each stage.
    pub fn background_tint(&self, stage: GrowthStage) -> (r: TermColor)
        ensures
            r == match stage {
                GrowthStage::Seed | GrowthStage::Germination | GrowthStage::Seedling => TermColor::Rgb(5, 10, 5),
                GrowthStage::Vegetative => TermColor::Rgb(10, 20, 10),
                GrowthStage::PreFlower => TermColor::Rgb(20, 20, 5),
                GrowthStage::Flowering => TermColor::Rgb(15, 5, 20),
                GrowthStage::ReadyToHarvest => TermColor::Rgb(25, 20, 5),
            },
    {
        match stage {
            GrowthStage::Seed | GrowthStage::Germination | GrowthStage::Seedling => TermColor::Rgb(5, 10, 5),
            GrowthStage::Vegetative => TermColor::Rgb(10, 20, 10),
            GrowthStage::PreFlower => TermColor::Rgb(20, 20, 5),
            GrowthStage::Flowering => TermColor::Rgb(15, 5, 20),
            GrowthStage::ReadyToHarvest => TermColor::Rgb(25, 20, 5),
        }
    }
}

impl Color256Palette {
    pub fn new() -> Self {
        Color256Palette
    }
}

impl TrueColorPalette {
    pub fn new() -> Self {
        TrueColorPalette
    }
}

impl ZenPalette {
    /// Soft pastel flower colour at `intensity`.
    pub fn flower_color(&self, intensity: FlowerIntensity) -> (r: TermColor)
        ensures
            r == match intensity {
                FlowerIntensity::Early => TermColor::Rgb(200, 200, 220),
                FlowerIntensity::Developing => TermColor::Rgb(220, 200, 210),
                FlowerIntensity::Peak => TermColor::Rgb(230, 220, 210),
                FlowerIntensity::Harvest => TermColor::Rgb(240, 230, 220),
            },
    {
        match intensity {
            FlowerIntensity::Early => TermColor::Rgb(200, 200, 220),
            FlowerIntensity::Developing => TermColor::Rgb(220, 200, 210),
            FlowerIntensity::Peak => TermColor::Rgb(230, 220, 210),
            FlowerIntensity::Harvest => TermColor::Rgb(240, 230, 220),
        }
    }

    /// Sage foliage, paler as health (a score out of 100) falls.
    pub fn foliage_color(&self, health: u32) -> (r: TermColor)
        ensures
            r == if health > 70 {
                TermColor::Rgb(140, 160, 140)
            } else if health > 40 {
                TermColor::Rgb(160, 170, 150)
            } else {
                TermColor::Rgb(180, 180, 170)
            },
    {
        if health > 70 {
            TermColor::Rgb(140, 160, 140)
        } else if health > 40 {
            TermColor::Rgb(160, 170, 150)
        } else {
            TermColor::Rgb(180, 180, 170)
        }
    }

    /// Soil colour for a moisture level in thousandths of a percent.
    pub fn soil_color(&self, moisture: u32) -> (r: TermColor)
        ensures
            r == if moisture > 60_000 { TermColor::Rgb(130, 120, 110) } else { TermColor::Rgb(180, 170, 150) },
    {
        if moisture > 60_000 {
            TermColor::Rgb(130, 120, 110)
        } else {
            TermColor::Rgb(180, 170, 150)
        }
    }
}

impl MatrixPalette {
    /// Green flower colour at `intensity`.
    pub fn flower_color(&self, intensity: FlowerIntensity) -> (r: TermColor)
        ensures
            r == match intensity {
                FlowerIntensity::Early => TermColor::Rgb(0, 180, 0),
                FlowerIntensity::Developing => TermColor::Rgb(0, 220, 0),
                FlowerIntensity::Peak => TermColor::Rgb(0, 255, 0),
                FlowerIntensity::Harvest => TermColor::Rgb(100, 255, 100),
            },
    {
        match intensity {
            FlowerIntensity::Early => TermColor::Rgb(0, 180, 0),
            FlowerIntensity::Developing => TermColor::Rgb(0, 220, 0),
            FlowerIntensity::Peak => TermColor::Rgb(0, 255, 0),
            FlowerIntensity::Harvest => TermColor::Rgb(100, 255, 100),
        }
    }

    /// Trunk green brightening with age: `60 + min(age, 90) / 3`.
    pub fn trunk_color(&self, age_days: u32) -> (r: TermColor)
        ensures
            r == TermColor::Rgb(0, (60 + (if age_days < 90 { age_days } else { 90 }) / 3) as u8, 0),
    {
        let age: u32 = if age_days < 90 { age_days } else { 90 };
        TermColor::Rgb(0, (60 + age / 3) as u8, 0)
    }
}

/// The closed set of palettes, held by value.
#[derive(Debug, Clone, Copy, PartialEq, Eq, Structural)]
pub enum PaletteKind {
    Basic16,
    TrueColor,
    Zen,
    Rainbow,
    Matrix,
}

/// Palette for a terminal with or without 24-bit colour, in `mode`: the
/// 16-colour one without it, whatever the mode.
pub open spec fn palette_for(supports_truecolor: bool, mode: VisualMode) -> PaletteKind {
    if !supports_truecolor {
        PaletteKind::Basic16
    } else {
        match mode {
            VisualMode::Normal => PaletteKind::TrueColor,
            VisualMode::Zen => PaletteKind::Zen,
            VisualMode::Rainbow => PaletteKind::Rainbow,
            VisualMode::Matrix => PaletteKind::Matrix,
        }
    }
}

/// Palette for the terminal's colour support and the visual mode.
pub fn create_palette(supports_truecolor: bool, visual_mode: VisualMode) -> (r: PaletteKind)
    ensures
        r == palette_for(supports_truecolor, visual_mode),
{
    if !supports_truecolor {
        return PaletteKind::Basic16;
    }
    match visual_mode {
        VisualMode::Normal => PaletteKind::TrueColor,
        VisualMode::Zen => PaletteKind::Zen,
        VisualMode::Rainbow => PaletteKind::Rainbow,
        VisualMode::Matrix => PaletteKind::Matrix,
    }
}

impl PaletteKind {
    /// Whether the palette uses RGB colours.
    pub fn supports_rgb(&self) -> (r: bool)
        ensures
            r == (*self != PaletteKind::Basic16),
    {
        match self {
            PaletteKind::Basic16 => false,
            _ => true,
        }
    }
}

/// Day from which flowering buds are developing.
pub const FLOWER_DEVELOPING_DAY: u32 = 61;

/// Day from which flowering buds are at their peak.
pub const FLOWER_PEAK_DAY: u32 = 71;

/// Intensities of the three flower glyph colours at `stage` on `days`.
pub open spec fn intensities_of(stage: GrowthStage, days: u32) -> (FlowerIntensity, FlowerIntensity, FlowerIntensity) {
    match stage {
        GrowthStage::Flowering => if days < FLOWER_DEVELOPING_DAY {
            (FlowerIntensity::Early, FlowerIntensity::Early, FlowerIntensity::Developing)
        } else if days < FLOWER_PEAK_DAY {
            (FlowerIntensity::Developing, FlowerIntensity::Developing, FlowerIntensity::Peak)
        } else {
            (FlowerIntensity::Peak, FlowerIntensity::Peak, FlowerIntensity::Peak)
        },
        GrowthStage::ReadyToHarvest => (
            FlowerIntensity::Harvest,
            FlowerIntensity::Harvest,
            FlowerIntensity::Harvest,
        ),
        _ => (FlowerIntensity::Early, FlowerIntensity::Early, FlowerIntensity::Early),
    }
}

/// Flower intensities for `stage` on `days`.
pub fn flower_intensities(stage: GrowthStage, days: u32) -> (r: (FlowerIntensity, FlowerIntensity, FlowerIntensity))
    ensures
        r == intensities_of(stage, days),
{
    match stage {
        GrowthStage::Flowering => if days < FLOWER_DEVELOPING_DAY {
            (FlowerIntensity::Early, FlowerIntensity::Early, FlowerIntensity::Developing)
        } else if days < FLOWER_PEAK_DAY {
            (FlowerIntensity::Developing, FlowerIntensity::Developing, FlowerIntensity::Peak)
        } else {
            (FlowerIntensity::Peak, FlowerIntensity::Peak, FlowerIntensity::Peak)
        },
        GrowthStage::ReadyToHarvest => (
            FlowerIntensity::Harvest,
            FlowerIntensity::Harvest,
            FlowerIntensity::Harvest,
        ),
        _ => (FlowerIntensity::Early, FlowerIntensity::Early, FlowerIntensity::Early),
    }
}

/// Colour variants of a plant, from its seed: flower (of 6), foliage (of 4)
/// and trunk (of 3).
pub fn color_variants(seed: u64) -> (r: (u8, u8, u8))
    ensures
        r.0 == seed % 6,
        r.1 == (seed / 6) % 4,
        r.2 == (seed / 24) % 3,
{
    ((seed % 6) as u8, ((seed / 6) % 4) as u8, ((seed / 24) % 3) as u8)
}

} // verus!
