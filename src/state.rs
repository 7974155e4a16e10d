use vstd::prelude::*;
use crate::genetics::StrainInfo;
use crate::harvest::{HarvestResult, harvest_of};
use crate::message::{Message, Screen};
use crate::palette::{PaletteKind, create_palette, palette_for};
use crate::plant::{
    GrowthStage, Plant, advanced, capped, fresh_seedling, game_hours, game_hours_of, now_millis,
};
use crate::visual_mode::{VisualMode, next_mode};

verus! {

/// Day from which a ready plant is harvested automatically.
pub const AUTO_HARVEST_DAY: u32 = 96;

/// Application state: the live plant, the harvest record and the view settings.
#[derive(Debug)]
pub struct App {
    pub current_plant: Option<Plant>,
    pub harvest_history: Vec<HarvestResult>,
    /// Time of the last tick, in milliseconds since the Unix epoch.
    pub last_tick: i64,
    pub total_harvests: u32,
    /// Harvest and replant automatically once ready and old enough.
    pub auto_harvest: bool,
    pub visual_mode: VisualMode,
    pub current_screen: Screen,
    pub running: bool,
    pub animation_frame: usize,
    pub color_palette: PaletteKind,
    /// Strain database that new seeds are drawn from.
    pub strains: Vec<StrainInfo>,
}

impl Default for App {
    /// A new application with the 16-colour palette and no strain database.
    fn default() -> (r: Self)
        ensures
            r.current_plant matches Some(p) && fresh_seedling(p, Seq::empty()),
            r.harvest_history@.len() == 0,
            r.total_harvests == 0,
            r.color_palette == PaletteKind::Basic16,
            r.strains@.len() == 0,
    {
        App::new(false, Vec::new())
    }
}

/// `f` is `o` with the plant `p` harvested and a fresh seed planted.
pub open spec fn harvested(o: App, p: Plant, f: App) -> bool {
    &&& f.harvest_history@.len() == o.harvest_history@.len() + 1
    &&& f.harvest_history@.drop_last() == o.harvest_history@
    &&& harvest_of(p, f.harvest_history@.last().completed_at, f.harvest_history@.last())
    &&& f.total_harvests == capped(o.total_harvests + 1, u32::MAX as int)
    &&& f.current_plant matches Some(q) && fresh_seedling(q, o.strains@)
}

/// The fields that neither the plant's growth nor a harvest touches.
pub open spec fn same_settings(o: App, f: App) -> bool {
    &&& f.auto_harvest == o.auto_harvest
    &&& f.visual_mode == o.visual_mode
    &&& f.current_screen == o.current_screen
    &&& f.running == o.running
    &&& f.color_palette == o.color_palette
    &&& f.strains == o.strains
}

/// `f` is `o` after a tick of `millis` real milliseconds ending at `now`.
pub open spec fn ticked(o: App, f: App, millis: u64, now: i64) -> bool {
    &&& same_settings(o, f)
    &&& f.last_tick == now
    &&& f.animation_frame == if o.animation_frame == usize::MAX { 0 } else { o.animation_frame + 1 }
    &&& match o.current_plant {
        None => f.current_plant is None && f.harvest_history == o.harvest_history
            && f.total_harvests == o.total_harvests,
        Some(p) => exists|q: Plant|
            #![trigger advanced(p, q, game_hours_of(millis) as u64)]
            advanced(p, q, game_hours_of(millis) as u64) && if o.auto_harvest && q.stage
                == GrowthStage::ReadyToHarvest && q.days_alive >= AUTO_HARVEST_DAY {
                harvested(o, q, f)
            } else {
                f.current_plant == Some(q) && f.harvest_history == o.harvest_history
                    && f.total_harvests == o.total_harvests
            },
    }
}

impl App {
    /// A new application with a freshly planted seed, ticking from now.
    pub fn new(supports_truecolor: bool, strains: Vec<StrainInfo>) -> (r: Self)
        ensures
            r.current_plant matches Some(p) && fresh_seedling(p, strains@),
            r.harvest_history@.len() == 0,
            r.total_harvests == 0,
            !r.auto_harvest,
            r.visual_mode == VisualMode::Normal,
            r.current_screen == Screen::GrowingRoom,
            r.running,
            r.animation_frame == 0,
            r.color_palette == palette_for(supports_truecolor, VisualMode::Normal),
            r.strains == strains,
    {
        let plant = Plant::new_random(&strains);
        App {
            current_plant: Some(plant),
            harvest_history: Vec::new(),
            last_tick: now_millis(),
            total_harvests: 0,
            auto_harvest: false,
            visual_mode: VisualMode::Normal,
            current_screen: Screen::GrowingRoom,
            running: true,
            animation_frame: 0,
            color_palette: create_palette(supports_truecolor, VisualMode::Normal),
            strains,
        }
    }

    /// Plants a new seed, replacing the current plant.
    pub fn plant_new_seed(&mut self)
        ensures
            final(self).current_plant matches Some(p) && fresh_seedling(p, old(self).strains@),
            final(self).harvest_history == old(self).harvest_history,
            final(self).total_harvests == old(self).total_harvests,
            final(self).last_tick == old(self).last_tick,
            final(self).animation_frame == old(self).animation_frame,
            same_settings(*old(self), *final(self)),
    {
        self.current_plant = Some(Plant::new_random(&self.strains));
    }

    fn harvest(&mut self, plant: Plant)
        ensures
            harvested(*old(self), plant, *final(self)),
            final(self).last_tick == old(self).last_tick,
            final(self).animation_frame == old(self).animation_frame,
            same_settings(*old(self), *final(self)),
    {
        let result = HarvestResult::from_plant(&plant);
        self.harvest_history.push(result);
        self.total_harvests = self.total_harvests.saturating_add(1);
        self.plant_new_seed();
        assert(self.harvest_history@.drop_last() =~= old(self).harvest_history@);
    }

    /// Harvests the current plant, if any, records the result, and plants a
    /// new seed.
    pub fn harvest_and_replant(&mut self)
        ensures
            match old(self).current_plant {
                Some(p) => harvested(*old(self), p, *final(self)),
                None => final(self).current_plant is None && final(self).harvest_history
                    == old(self).harvest_history && final(self).total_harvests == old(
                    self,
                ).total_harvests,
            },
            final(self).last_tick == old(self).last_tick,
            final(self).animation_frame == old(self).animation_frame,
            same_settings(*old(self), *final(self)),
    {
        match self.current_plant.take() {
            Some(plant) => self.harvest(plant),
            None => {},
        }
    }

    /// Switches automatic harvesting on or off.
    pub fn toggle_auto_harvest(&mut self)
        ensures
            *final(self) == (App { auto_harvest: !old(self).auto_harvest, ..*old(self) }),
    {
        self.auto_harvest = !self.auto_harvest;
    }

    /// Moves to the next visual mode, in RGB palettes only.
    pub fn cycle_visual_mode(&mut self)
        ensures
            old(self).color_palette == PaletteKind::Basic16 ==> *final(self) == *old(self),
            old(self).color_palette != PaletteKind::Basic16 ==> *final(self) == (App {
                visual_mode: next_mode(old(self).visual_mode),
                color_palette: palette_for(true, next_mode(old(self).visual_mode)),
                ..*old(self)
            }),
    {
        if !self.color_palette.supports_rgb() {
            return;
        }
        self.visual_mode = self.visual_mode.next();
        let supports_rgb = self.color_palette.supports_rgb();
        self.color_palette = create_palette(supports_rgb, self.visual_mode);
    }

    /// Advances the plant by `elapsed_millis` of real time (one real second is
    /// 130000 / 3600 game hours), harvests it automatically when enabled, ready
    /// and at least `AUTO_HARVEST_DAY` days old, records `now` as the last
    /// tick and steps the animation frame.
    pub fn update_time(&mut self, elapsed_millis: u64, now: i64)
        ensures
            ticked(*old(self), *final(self), elapsed_millis, now),
    {
        let hours = game_hours(elapsed_millis);
        let ghost o = *old(self);
        match self.current_plant.take() {
            Some(plant) => {
                let ghost p = plant;
                let mut plant = plant;
                plant.advance(hours);
                let ghost q = plant;
                let harvest_now = self.auto_harvest && plant.stage == GrowthStage::ReadyToHarvest
                    && plant.days_alive >= AUTO_HARVEST_DAY;
                if harvest_now {
                    self.harvest(plant);
                    assert(harvested(o, q, *self));
                } else {
                    self.current_plant = Some(plant);
                }
                assert(advanced(p, q, game_hours_of(elapsed_millis) as u64));
                assert(o.current_plant == Some(p));
            },
            None => {},
        }
        self.last_tick = now;
        self.animation_frame = if self.animation_frame == usize::MAX { 0 } else { self.animation_frame + 1 };
    }
}

/// The state after `message` at time `now` (milliseconds since the Unix epoch).
pub open spec fn updated(o: App, message: Message, now: i64, f: App) -> bool {
    match message {
        Message::Tick => if now as int - o.last_tick as int > 0 {
            ticked(o, f, capped(now as int - o.last_tick as int, u64::MAX as int) as u64, now)
        } else {
            f == o
        },
        Message::SwitchScreen(screen) => f == App { current_screen: screen, ..o },
        Message::Quit => f == App { running: false, ..o },
        Message::HarvestPlant => match o.current_plant {
            Some(p) => harvested(o, p, f) && f.last_tick == o.last_tick && same_settings(o, f),
            None => f == o,
        },
        Message::ToggleAutoHarvest => f == App { auto_harvest: !o.auto_harvest, ..o },
        Message::CycleVisualMode => if o.color_palette == PaletteKind::Basic16 {
            f == o
        } else {
            f == App {
                visual_mode: next_mode(o.visual_mode),
                color_palette: palette_for(true, next_mode(o.visual_mode)),
                ..o
            }
        },
    }
}

/// Applies `message` to `app`, reading the clock for a tick.
pub fn update(app: App, message: Message) -> (r: App)
    ensures
        exists|now: i64| updated(app, message, now, r),
{
    let now = now_millis();
    update_at(app, message, now)
}

/// Applies `message` to `app` at time `now`: a tick advances by the time since
/// the last one (nothing happens when no time has passed), the other messages
/// switch the screen, stop, harvest, toggle auto-harvest or cycle the mode.
pub fn update_at(app: App, message: Message, now: i64) -> (r: App)
    ensures
        updated(app, message, now, r),
{
    let mut app = app;
    match message {
        Message::Tick => {
            let elapsed: i128 = now as i128 - app.last_tick as i128;
            if elapsed > 0 {
                let millis: u64 = if elapsed > u64::MAX as i128 { u64::MAX } else { elapsed as u64 };
                assert(millis == capped(now as int - app.last_tick as int, u64::MAX as int) as u64);
                app.update_time(millis, now);
            }
        },
        Message::SwitchScreen(screen) => {
            app.current_screen = screen;
        },
        Message::Quit => {
            app.running = false;
        },
        Message::HarvestPlant => {
            app.harvest_and_replant();
        },
        Message::ToggleAutoHarvest => {
            app.toggle_auto_harvest();
        },
        Message::CycleVisualMode => {
            app.cycle_visual_mode();
        },
    }
    app
}

/// Message for a key press: `key` is the character of a character key (none
/// for other keys) and `stage` the live plant's stage, if any. Harvesting is
/// only asked for a plant that is ready; every other key is a plain tick.
pub open spec fn message_for(key: Option<char>, stage: Option<GrowthStage>) -> Message {
    match key {
        Some('q') => Message::Quit,
        Some('1') => Message::SwitchScreen(Screen::GrowingRoom),
        Some('s') | Some('2') => Message::SwitchScreen(Screen::Stats),
        Some('a') => Message::ToggleAutoHarvest,
        Some('v') => Message::CycleVisualMode,
        Some('h') => if stage == Some(GrowthStage::ReadyToHarvest) {
            Message::HarvestPlant
        } else {
            Message::Tick
        },
        _ => Message::Tick,
    }
}

/// The message a key press asks for.
pub fn key_to_message(key: Option<char>, stage: Option<GrowthStage>) -> (r: Message)
    ensures
        r == message_for(key, stage),
{
    match key {
        Some('q') => Message::Quit,
        Some('1') => Message::SwitchScreen(Screen::GrowingRoom),
        Some('s') | Some('2') => Message::SwitchScreen(Screen::Stats),
        Some('a') => Message::ToggleAutoHarvest,
        Some('v') => Message::CycleVisualMode,
        Some('h') => match stage {
            Some(GrowthStage::ReadyToHarvest) => Message::HarvestPlant,
            _ => Message::Tick,
        },
        _ => Message::Tick,
    }
}

} // verus!
