use ganjatui::layout::LayoutMode;
use ganjatui::message::{Message, Screen};
use ganjatui::palette::{
    color_variants, create_palette, flower_intensities, Basic16Palette, Color256Palette,
    FlowerIntensity, MatrixPalette, PaletteKind, TermColor, TrueColorPalette, ZenPalette,
};
use ganjatui::plant::GrowthStage;
use ganjatui::state::{key_to_message, update_at, App};
use ganjatui::visual_mode::{default_visual_mode, VisualMode};

fn app(truecolor: bool) -> App {
    App::new(truecolor, Vec::new())
}

#[test]
fn new_app_has_a_seedling() {
    let a = app(false);
    let p = a.current_plant.as_ref().unwrap();
    assert_eq!(p.stage, GrowthStage::Seedling);
    assert_eq!(p.days_alive, 1);
    assert_eq!(a.total_harvests, 0);
    assert!(a.harvest_history.is_empty());
    assert!(!a.auto_harvest);
    assert!(a.running);
    assert_eq!(a.current_screen, Screen::GrowingRoom);
    assert_eq!(a.color_palette, PaletteKind::Basic16);
    assert_eq!(app(true).color_palette, PaletteKind::TrueColor);
}

#[test]
fn harvest_records_and_replants() {
    let mut a = app(false);
    let old_id = a.current_plant.as_ref().unwrap().id;
    a.harvest_and_replant();
    assert_eq!(a.total_harvests, 1);
    assert_eq!(a.harvest_history.len(), 1);
    assert_eq!(a.harvest_history[0].harvest_day, 1);
    assert_eq!(a.harvest_history[0].weight_grams > 0, true);
    let p = a.current_plant.as_ref().unwrap();
    assert_ne!(p.id, old_id);
    assert_eq!(p.stage, GrowthStage::Seedling);
    a.current_plant = None;
    a.harvest_and_replant();
    assert_eq!(a.total_harvests, 1);
    assert!(a.current_plant.is_none());
}

#[test]
fn tick_advances_plant_and_frame() {
    let mut a = app(false);
    let start = a.last_tick;
    a = update_at(a, Message::Tick, start + 1000);
    let p = a.current_plant.as_ref().unwrap();
    assert_eq!(p.total_hours_elapsed, 36_111);
    assert_eq!(p.days_alive, 1);
    assert_eq!(a.animation_frame, 1);
    assert_eq!(a.last_tick, start + 1000);
    let same = update_at(a, Message::Tick, start);
    assert_eq!(same.animation_frame, 1);
    assert_eq!(same.last_tick, start + 1000);
}

#[test]
fn auto_harvest_after_day_96() {
    let mut a = app(false);
    a.auto_harvest = true;
    a.update_time(60_000, 5);
    // 60 s real time is 2166.66 game hours: past day 90, not yet 96.
    assert_eq!(a.total_harvests, 0);
    assert_eq!(a.current_plant.as_ref().unwrap().days_alive, 90);
    a.update_time(10_000, 6);
    assert_eq!(a.total_harvests, 1);
    assert_eq!(a.harvest_history[0].harvest_day, 105);
    assert_eq!(a.current_plant.as_ref().unwrap().days_alive, 1);
    let mut b = app(false);
    b.update_time(70_000, 5);
    assert_eq!(b.total_harvests, 0);
    assert_eq!(b.current_plant.as_ref().unwrap().stage, GrowthStage::ReadyToHarvest);
}

#[test]
fn messages_change_settings() {
    let a = app(true);
    let a = update_at(a, Message::SwitchScreen(Screen::Stats), 0);
    assert_eq!(a.current_screen, Screen::Stats);
    let a = update_at(a, Message::ToggleAutoHarvest, 0);
    assert!(a.auto_harvest);
    let a = update_at(a, Message::CycleVisualMode, 0);
    assert_eq!(a.visual_mode, VisualMode::Zen);
    assert_eq!(a.color_palette, PaletteKind::Zen);
    let a = update_at(a, Message::HarvestPlant, 0);
    assert_eq!(a.total_harvests, 1);
    let a = update_at(a, Message::Quit, 0);
    assert!(!a.running);
}

#[test]
fn basic_palette_keeps_normal_mode() {
    let mut a = app(false);
    a.cycle_visual_mode();
    assert_eq!(a.visual_mode, VisualMode::Normal);
    assert_eq!(a.color_palette, PaletteKind::Basic16);
}

#[test]
fn keys_map_to_messages() {
    assert_eq!(key_to_message(Some('q'), None), Message::Quit);
    assert_eq!(key_to_message(Some('1'), None), Message::SwitchScreen(Screen::GrowingRoom));
    assert_eq!(key_to_message(Some('2'), None), Message::SwitchScreen(Screen::Stats));
    assert_eq!(key_to_message(Some('s'), None), Message::SwitchScreen(Screen::Stats));
    assert_eq!(key_to_message(Some('a'), None), Message::ToggleAutoHarvest);
    assert_eq!(key_to_message(Some('v'), None), Message::CycleVisualMode);
    assert_eq!(key_to_message(Some('h'), Some(GrowthStage::Flowering)), Message::Tick);
    assert_eq!(key_to_message(Some('h'), Some(GrowthStage::ReadyToHarvest)), Message::HarvestPlant);
    assert_eq!(key_to_message(Some('x'), None), Message::Tick);
    assert_eq!(key_to_message(None, None), Message::Tick);
}

#[test]
fn visual_modes_cycle() {
    assert_eq!(VisualMode::Normal.next(), VisualMode::Zen);
    assert_eq!(VisualMode::Zen.next(), VisualMode::Rainbow);
    assert_eq!(VisualMode::Rainbow.next(), VisualMode::Matrix);
    assert_eq!(VisualMode::Matrix.next(), VisualMode::Normal);
    assert_eq!(VisualMode::Zen.name(), "Zen Garden");
    assert_eq!(VisualMode::Matrix.name(), "Matrix");
    assert_eq!(VisualMode::default(), VisualMode::Normal);
    assert_eq!(default_visual_mode(), VisualMode::Normal);
}

#[test]
fn layout_by_terminal_size() {
    assert_eq!(LayoutMode::from_terminal_size(79, 50), LayoutMode::Small);
    assert_eq!(LayoutMode::from_terminal_size(100, 39), LayoutMode::Small);
    assert_eq!(LayoutMode::from_terminal_size(80, 40), LayoutMode::Medium);
    assert_eq!(LayoutMode::from_terminal_size(120, 40), LayoutMode::Medium);
    assert_eq!(LayoutMode::from_terminal_size(121, 40), LayoutMode::Large);
    assert_eq!(LayoutMode::Small.indicator(), "S");
    assert_eq!(LayoutMode::Medium.indicator(), "M");
    assert_eq!(LayoutMode::Large.indicator(), "L");
}

#[test]
fn palettes() {
    let _ = Basic16Palette::new();
    let _ = Color256Palette::new();
    let _ = TrueColorPalette::new();
    assert_eq!(create_palette(false, VisualMode::Rainbow), PaletteKind::Basic16);
    assert_eq!(create_palette(true, VisualMode::Normal), PaletteKind::TrueColor);
    assert_eq!(create_palette(true, VisualMode::Rainbow), PaletteKind::Rainbow);
    assert_eq!(create_palette(true, VisualMode::Matrix), PaletteKind::Matrix);
    assert!(!PaletteKind::Basic16.supports_rgb());
    assert!(PaletteKind::Zen.supports_rgb());
}

#[test]
fn flower_intensity_progression() {
    assert_eq!(flower_intensities(GrowthStage::PreFlower, 45), (FlowerIntensity::Early, FlowerIntensity::Early, FlowerIntensity::Early));
    assert_eq!(flower_intensities(GrowthStage::Flowering, 60), (FlowerIntensity::Early, FlowerIntensity::Early, FlowerIntensity::Developing));
    assert_eq!(flower_intensities(GrowthStage::Flowering, 61), (FlowerIntensity::Developing, FlowerIntensity::Developing, FlowerIntensity::Peak));
    assert_eq!(flower_intensities(GrowthStage::Flowering, 71), (FlowerIntensity::Peak, FlowerIntensity::Peak, FlowerIntensity::Peak));
    assert_eq!(flower_intensities(GrowthStage::ReadyToHarvest, 90), (FlowerIntensity::Harvest, FlowerIntensity::Harvest, FlowerIntensity::Harvest));
    assert_eq!(color_variants(100), (4, 0, 1));
}

#[test]
fn palette_colours() {
    let basic = Basic16Palette::new();
    assert_eq!(basic.flower_color(0, FlowerIntensity::Early), TermColor::Magenta);
    assert_eq!(basic.flower_color(3, FlowerIntensity::Developing), TermColor::Magenta);
    assert_eq!(basic.flower_color(3, FlowerIntensity::Peak), TermColor::LightMagenta);
    assert_eq!(basic.flower_color(7, FlowerIntensity::Harvest), TermColor::LightRed);
    assert_eq!(basic.flower_color(5, FlowerIntensity::Developing), TermColor::White);
    assert_eq!(basic.foliage_color(2), TermColor::Green);
    assert_eq!(basic.foliage_color(3), TermColor::LightGreen);
    assert_eq!(basic.trunk_color(4), TermColor::Red);
    assert_eq!(basic.water_color(19_999), TermColor::Red);
    assert_eq!(basic.water_color(20_000), TermColor::Yellow);
    assert_eq!(basic.water_color(40_000), TermColor::Blue);
    assert_eq!(basic.nutrient_color(49_999), TermColor::Yellow);
    let rgb = TrueColorPalette::new();
    assert_eq!(rgb.flower_color(0, FlowerIntensity::Harvest), TermColor::Rgb(100, 20, 140));
    assert_eq!(rgb.flower_color(10, FlowerIntensity::Peak), TermColor::Rgb(60, 180, 200));
    assert_eq!(rgb.soil_color(70_001), TermColor::Rgb(80, 60, 40));
    assert_eq!(rgb.soil_color(40_000), TermColor::Rgb(160, 130, 90));
    assert_eq!(rgb.background_tint(GrowthStage::Flowering), TermColor::Rgb(15, 5, 20));
    assert_eq!(ZenPalette.foliage_color(80), TermColor::Rgb(140, 160, 140));
    assert_eq!(ZenPalette.soil_color(60_000), TermColor::Rgb(180, 170, 150));
    assert_eq!(ZenPalette.flower_color(FlowerIntensity::Peak), TermColor::Rgb(230, 220, 210));
    assert_eq!(MatrixPalette.trunk_color(30), TermColor::Rgb(0, 70, 0));
    assert_eq!(MatrixPalette.trunk_color(500), TermColor::Rgb(0, 90, 0));
    assert_eq!(MatrixPalette.flower_color(FlowerIntensity::Harvest), TermColor::Rgb(100, 255, 100));
}
