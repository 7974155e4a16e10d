use vstd::prelude::*;
use crate::genetics::{Genetics, StrainInfo, drawn_from};

verus! {

/// Scale of every percentage level: one unit is a thousandth of a percent,
/// so 100% is `100_000`.
pub const PERCENT: u32 = 1000;

/// Full scale of a level (100%).
pub const FULL: u32 = 100_000;

/// Growth stages of the plant.
#[derive(Debug, Clone, Copy, PartialEq, Eq, Structural)]
pub enum GrowthStage {
    Seed,
    Germination,
    Seedling,
    Vegetative,
    PreFlower,
    Flowering,
    ReadyToHarvest,
}

impl GrowthStage {
    /// The stage's display name.
    pub fn as_str(&self) -> (r: &'static str)
        ensures
            r@ == stage_name(*self),
    {
        match self {
            GrowthStage::Seed => "Seed",
            GrowthStage::Germination => "Germination",
            GrowthStage::Seedling => "Seedling",
            GrowthStage::Vegetative => "Vegetative",
            GrowthStage::PreFlower => "Pre-Flower",
            GrowthStage::Flowering => "Flowering",
            GrowthStage::ReadyToHarvest => "Ready to Harvest",
        }
    }
}

/// Display name of each stage.
pub open spec fn stage_name(s: GrowthStage) -> Seq<char> {
    match s {
        GrowthStage::Seed => "Seed"@,
        GrowthStage::Germination => "Germination"@,
        GrowthStage::Seedling => "Seedling"@,
        GrowthStage::Vegetative => "Vegetative"@,
        GrowthStage::PreFlower => "Pre-Flower"@,
        GrowthStage::Flowering => "Flowering"@,
        GrowthStage::ReadyToHarvest => "Ready to Harvest"@,
    }
}

/// Light cycle settings.
#[derive(Debug, Clone, Copy, PartialEq, Eq, Structural)]
pub enum LightCycle {
    /// 18 hours on, 6 hours off (vegetative).
    Veg18_6,
    /// 12 hours on, 12 hours off (flowering).
    Flower12_12,
}

/// Plant health status.
#[derive(Debug, Clone, Copy, PartialEq, Eq, Structural)]
pub enum HealthStatus {
    Excellent,
    Good,
    Fair,
    Poor,
    Critical,
}

/// Stress event severity.
#[derive(Debug, Clone, Copy, PartialEq, Eq, Structural)]
pub enum StressSeverity {
    Minor,
    Moderate,
    Severe,
}

/// Cause of stress.
#[derive(Debug, Clone, Copy, PartialEq, Eq, Structural)]
pub enum StressCause {
    LowWater,
    HighWater,
    LowNutrients,
    NutrientBurn,
    WrongLightCycle,
}

/// A stress event recorded in the care history.
#[derive(Debug, Clone, Copy, PartialEq, Eq, Structural)]
pub struct StressEvent {
    pub day: u32,
    pub severity: StressSeverity,
    pub cause: StressCause,
}

/// Stage of a plant that has been alive `days` days: up to day 10 (day 0, the
/// first hours after planting, included) Seedling, then Vegetative to day 40,
/// PreFlower to day 48, Flowering to day 85, ReadyToHarvest from day 86.
pub open spec fn stage_for_day(days: u32) -> GrowthStage {
    if days <= 10 {
        GrowthStage::Seedling
    } else if 11 <= days <= 40 {
        GrowthStage::Vegetative
    } else if 41 <= days <= 48 {
        GrowthStage::PreFlower
    } else if 49 <= days <= 85 {
        GrowthStage::Flowering
    } else {
        GrowthStage::ReadyToHarvest
    }
}

/// Position of a stage in the growth order.
pub open spec fn stage_rank(s: GrowthStage) -> int {
    match s {
        GrowthStage::Seed => 0,
        GrowthStage::Germination => 1,
        GrowthStage::Seedling => 2,
        GrowthStage::Vegetative => 3,
        GrowthStage::PreFlower => 4,
        GrowthStage::Flowering => 5,
        GrowthStage::ReadyToHarvest => 6,
    }
}

/// The stage never goes back as a plant ages: a later day has a stage at
/// least as far along.
pub proof fn lemma_stage_never_regresses(day1: u32, day2: u32)
    requires
        day1 <= day2,
    ensures
        stage_rank(stage_for_day(day1)) <= stage_rank(stage_for_day(day2)),
{
}

/// Water in its optimal band, [40%, 80%].
pub open spec fn water_in_band(water: u32) -> bool {
    40 * PERCENT <= water <= 80 * PERCENT
}

/// Nutrients in their optimal band, [50%, 80%].
pub open spec fn nutrients_in_band(nutrients: u32) -> bool {
    50 * PERCENT <= nutrients <= 80 * PERCENT
}

/// Health from the water and nutrient levels (both in thousandths of a percent).
pub open spec fn health_for(water: u32, nutrients: u32) -> HealthStatus {
    let water_critical = water < 10 * PERCENT || water > 95 * PERCENT;
    let nutrient_critical = nutrients < 20 * PERCENT || nutrients > 95 * PERCENT;
    if water_critical || nutrient_critical {
        HealthStatus::Critical
    } else if !water_in_band(water) && !nutrients_in_band(nutrients) {
        HealthStatus::Poor
    } else if !water_in_band(water) || !nutrients_in_band(nutrients) {
        HealthStatus::Fair
    } else if 50 * PERCENT <= water <= 70 * PERCENT && 60 * PERCENT <= nutrients <= 75 * PERCENT {
        HealthStatus::Excellent
    } else {
        HealthStatus::Good
    }
}

/// Whether an event of `cause` lies among the last ten of `events`, on a day no
/// more than five days before `day`.
pub open spec fn recent_stress(events: Seq<StressEvent>, cause: StressCause, day: u32) -> bool {
    let floor: int = if day >= 5 { day - 5 } else { 0 };
    exists|i: int|
        #![trigger events[i]]
        events.len() - 10 <= i < events.len() && 0 <= i && events[i].cause == cause
            && events[i].day >= floor
}

/// Number of events of `cause` in `events`.
pub open spec fn count_cause(events: Seq<StressEvent>, cause: StressCause) -> nat
    decreases events.len(),
{
    if events.len() == 0 {
        0
    } else {
        count_cause(events.drop_last(), cause) + if events.last().cause == cause {
            1nat
        } else {
            0nat
        }
    }
}

/// Appends an event of `cause` at `day` unless one is recent.
pub open spec fn note_stress(
    events: Seq<StressEvent>,
    active: bool,
    cause: StressCause,
    severity: StressSeverity,
    day: u32,
) -> Seq<StressEvent> {
    if active && !recent_stress(events, cause, day) {
        events.push(StressEvent { day, severity, cause })
    } else {
        events
    }
}

/// The events after one check of the levels on `day`: low water (< 20%), high
/// water (> 90%), low nutrients (< 30%), nutrient burn (> 90%), in that order.
pub open spec fn stress_after(
    events: Seq<StressEvent>,
    water: u32,
    nutrients: u32,
    day: u32,
) -> Seq<StressEvent> {
    let e1 = note_stress(
        events,
        water < 20 * PERCENT,
        StressCause::LowWater,
        StressSeverity::Moderate,
        day,
    );
    let e2 = note_stress(
        e1,
        water > 90 * PERCENT,
        StressCause::HighWater,
        StressSeverity::Moderate,
        day,
    );
    let e3 = note_stress(
        e2,
        nutrients < 30 * PERCENT,
        StressCause::LowNutrients,
        StressSeverity::Moderate,
        day,
    );
    note_stress(e3, nutrients > 90 * PERCENT, StressCause::NutrientBurn, StressSeverity::Severe, day)
}

/// Share of `part` in `total` in thousandths of a percent; a full share when no
/// time has passed.
pub open spec fn share_of(part: u64, total: u64) -> int {
    if total == 0 {
        FULL as int
    } else {
        part as int * FULL as int / total as int
    }
}

/// Cumulative care record used for harvest quality.
#[derive(Debug, Clone)]
pub struct CareHistory {
    /// Game time elapsed, in thousandths of an hour.
    pub total_hours: u64,
    /// Game time with water in its optimal band, in thousandths of an hour.
    pub total_optimal_water_hours: u64,
    /// Game time with nutrients in their optimal band, in thousandths of an hour.
    pub total_optimal_nutrient_hours: u64,
    /// Whether the light cycle was appropriate for the stages.
    pub light_cycle_correct: bool,
    /// Recorded stress events.
    pub stress_events: Vec<StressEvent>,
}

impl Default for CareHistory {
    fn default() -> (r: Self)
        ensures
            r.total_hours == 0,
            r.total_optimal_water_hours == 0,
            r.total_optimal_nutrient_hours == 0,
            r.light_cycle_correct,
            r.stress_events@.len() == 0,
    {
        CareHistory::new()
    }
}

impl CareHistory {
    /// An empty record.
    pub fn new() -> (r: Self)
        ensures
            r.total_hours == 0,
            r.total_optimal_water_hours == 0,
            r.total_optimal_nutrient_hours == 0,
            r.light_cycle_correct,
            r.stress_events@.len() == 0,
    {
        CareHistory {
            total_hours: 0,
            total_optimal_water_hours: 0,
            total_optimal_nutrient_hours: 0,
            light_cycle_correct: true,
            stress_events: Vec::new(),
        }
    }

    /// Share of time with water in its optimal band, in thousandths of a percent.
    pub fn calculate_water_percentage(&self) -> (r: u128)
        ensures
            r == share_of(self.total_optimal_water_hours, self.total_hours),
    {
        share(self.total_optimal_water_hours, self.total_hours)
    }

    /// Share of time with nutrients in their optimal band, in thousandths of a percent.
    pub fn calculate_nutrient_percentage(&self) -> (r: u128)
        ensures
            r == share_of(self.total_optimal_nutrient_hours, self.total_hours),
    {
        share(self.total_optimal_nutrient_hours, self.total_hours)
    }

    /// Whether an event of `cause` was recorded among the last ten events, on a
    /// day at most five days before `current_day`.
    pub fn has_recent_stress(&self, cause: StressCause, current_day: u32) -> (r: bool)
        ensures
            r == recent_stress(self.stress_events@, cause, current_day),
    {
        let floor: u32 = current_day.saturating_sub(5);
        let n = self.stress_events.len();
        let start: usize = if n >= 10 { n - 10 } else { 0 };
        let mut i: usize = n;
        while i > start
            invariant
                start <= i <= n,
                n == self.stress_events@.len(),
                start as int == if n >= 10 { n - 10 } else { 0 },
                floor as int == if current_day >= 5 { current_day - 5 } else { 0 },
                forall|j: int|
                    i <= j < n ==> !(#[trigger] self.stress_events@[j].cause == cause
                        && self.stress_events@[j].day >= floor),
            decreases i,
        {
            i = i - 1;
            let e = self.stress_events[i];
            if e.cause == cause && e.day >= floor {
                return true;
            }
        }
        assert(!recent_stress(self.stress_events@, cause, current_day)) by {
            if recent_stress(self.stress_events@, cause, current_day) {
                let j = choose|j: int|
                    #![trigger self.stress_events@[j]]
                    self.stress_events@.len() - 10 <= j < self.stress_events@.len() && 0 <= j
                        && self.stress_events@[j].cause == cause
                        && self.stress_events@[j].day >= floor;
                assert(i <= j);
            }
        }
        false
    }

    /// Records the stress that the levels show on `day`, skipping a cause that
    /// already has a recent event.
    pub fn record_stress(&mut self, water: u32, nutrients: u32, day: u32)
        ensures
            final(self).stress_events@ == stress_after(old(self).stress_events@, water, nutrients, day),
            final(self).total_hours == old(self).total_hours,
            final(self).total_optimal_water_hours == old(self).total_optimal_water_hours,
            final(self).total_optimal_nutrient_hours == old(self).total_optimal_nutrient_hours,
            final(self).light_cycle_correct == old(self).light_cycle_correct,
    {
        self.note(water < 20 * PERCENT, StressCause::LowWater, StressSeverity::Moderate, day);
        self.note(water > 90 * PERCENT, StressCause::HighWater, StressSeverity::Moderate, day);
        self.note(nutrients < 30 * PERCENT, StressCause::LowNutrients, StressSeverity::Moderate, day);
        self.note(nutrients > 90 * PERCENT, StressCause::NutrientBurn, StressSeverity::Severe, day);
    }

    /// Appends an event of `cause` on `day` when `active` and none is recent.
    fn note(&mut self, active: bool, cause: StressCause, severity: StressSeverity, day: u32)
        ensures
            final(self).stress_events@ == note_stress(old(self).stress_events@, active, cause, severity, day),
            final(self).total_hours == old(self).total_hours,
            final(self).total_optimal_water_hours == old(self).total_optimal_water_hours,
            final(self).total_optimal_nutrient_hours == old(self).total_optimal_nutrient_hours,
            final(self).light_cycle_correct == old(self).light_cycle_correct,
    {
        if active && !self.has_recent_stress(cause, day) {
            self.stress_events.push(StressEvent { day, severity, cause });
        }
    }
}

/// `share_of`, computed.
fn share(part: u64, total: u64) -> (r: u128)
    ensures
        r == share_of(part, total),
{
    if total == 0 {
        FULL as u128
    } else {
        assert(part as int * FULL as int <= u64::MAX as int * 100_000) by (nonlinear_arith)
            requires part <= u64::MAX, FULL == 100_000;
        (part as u128) * (FULL as u128) / (total as u128)
    }
}

/// Game time per day, in thousandths of an hour.
pub const DAY: u64 = 24_000;

/// Water drained per hour at `stage`, in tenths of a percent.
pub open spec fn water_drain_of(stage: GrowthStage) -> u64 {
    match stage {
        GrowthStage::Vegetative => 10,
        GrowthStage::Flowering => 8,
        _ => 5,
    }
}

/// Nutrients drained per hour at `stage`, in tenths of a percent.
pub open spec fn nutrient_drain_of(stage: GrowthStage) -> u64 {
    match stage {
        GrowthStage::Vegetative => 8,
        GrowthStage::Flowering => 10,
        _ => 4,
    }
}

/// `level` after `hours` (thousandths) at `rate` tenths of a percent per
/// hour, not below zero.
pub open spec fn drained(level: u32, rate: u64, hours: u64) -> u32 {
    let loss = rate as int * hours as int / 10;
    if loss >= level {
        0
    } else {
        (level - loss) as u32
    }
}

/// Automatic top-up: below `threshold`, `amount` is added, up to 100%.
pub open spec fn topped_up(level: u32, threshold: u32, amount: u32) -> u32 {
    if level < threshold {
        if level + amount > FULL {
            FULL
        } else {
            (level + amount) as u32
        }
    } else {
        level
    }
}

/// Light absorption base of `stage`, in thousandths of a percent.
pub open spec fn light_base_of(stage: GrowthStage) -> int {
    match stage {
        GrowthStage::Seed | GrowthStage::Germination | GrowthStage::Seedling => 40 * PERCENT,
        GrowthStage::Vegetative => 60 * PERCENT,
        GrowthStage::PreFlower => 75 * PERCENT,
        GrowthStage::Flowering | GrowthStage::ReadyToHarvest => 85 * PERCENT,
    }
}

/// `v` capped at `cap`.
pub open spec fn capped(v: int, cap: int) -> int {
    if v > cap {
        cap
    } else {
        v
    }
}

/// Canopy density before the health factor: a stage base (growing with the
/// days) scaled by the growth-rate multiplier (thousandths), at most 100%.
pub open spec fn canopy_base_of(stage: GrowthStage, days: u32, growth_rate: u32) -> int {
    let base: int = match stage {
        GrowthStage::Seed | GrowthStage::Germination => 5 * PERCENT * 1000,
        GrowthStage::Seedling => 15 * PERCENT * growth_rate,
        GrowthStage::Vegetative => (40 * PERCENT + days * 800) * growth_rate,
        GrowthStage::PreFlower => (60 * PERCENT + days * 600) * growth_rate,
        GrowthStage::Flowering | GrowthStage::ReadyToHarvest => (80 * PERCENT + days * 200)
            * growth_rate,
    };
    capped(base / 1000, FULL as int)
}

/// Canopy factor of a health tier, in thousandths, softened by resilience
/// (thousandths).
pub open spec fn health_factor(h: HealthStatus, resilience: u32) -> int {
    match h {
        HealthStatus::Excellent | HealthStatus::Good => 1000,
        HealthStatus::Fair => 850 + resilience * 150 / 1000,
        HealthStatus::Poor => 650 + resilience * 350 / 1000,
        HealthStatus::Critical => 400 + resilience * 600 / 1000,
    }
}

/// The main plant state.
#[derive(Debug, Clone)]
pub struct Plant {
    /// Identity; its low 64 bits seed the structure generator.
    pub id: u128,
    pub strain_name: String,
    pub stage: GrowthStage,
    /// Planting time, in milliseconds since the Unix epoch.
    pub planted_at: i64,
    pub days_alive: u32,
    /// Game time, in thousandths of an hour.
    pub total_hours_elapsed: u64,
    /// Water, in thousandths of a percent.
    pub water_level: u32,
    /// Nutrients, in thousandths of a percent.
    pub nutrient_level: u32,
    pub light_cycle: LightCycle,
    pub health: HealthStatus,
    pub genetics: Genetics,
    pub care_history: CareHistory,
    /// CO2 availability, in thousandths of a percent.
    pub co2_level: u32,
    /// Photosynthesis efficiency, in thousandths of a percent.
    pub light_absorption: u32,
    /// Temperature, in thousandths of a degree Celsius.
    pub temperature: u32,
    /// Humidity, in thousandths of a percent.
    pub humidity: u32,
    /// Root system strength, in thousandths of a percent.
    pub root_development: u32,
    /// Foliage coverage, in thousandths of a percent.
    pub canopy_density: u32,
}

impl Plant {
    /// A fresh seedling on day 1 with the given identity, genetics and planting time.
    pub fn sprout(id: u128, genetics: Genetics, strain_name: String, planted_at: i64) -> (r: Self)
        ensures
            r.id == id,
            r.strain_name@ == strain_name@,
            r.stage == GrowthStage::Seedling,
            r.planted_at == planted_at,
            r.days_alive == 1,
            r.total_hours_elapsed == 0,
            r.water_level == 60 * PERCENT,
            r.nutrient_level == 60 * PERCENT,
            r.light_cycle == LightCycle::Veg18_6,
            r.health == HealthStatus::Excellent,
            r.genetics == genetics,
            r.care_history.total_hours == 0,
            r.care_history.total_optimal_water_hours == 0,
            r.care_history.total_optimal_nutrient_hours == 0,
            r.care_history.stress_events@.len() == 0,
            r.co2_level == 80 * PERCENT,
            r.light_absorption == 50 * PERCENT,
            r.temperature == 24 * PERCENT,
            r.humidity == 60 * PERCENT,
            r.root_development == 10 * PERCENT,
            r.canopy_density == 5 * PERCENT,
    {
        Plant {
            id,
            strain_name,
            stage: GrowthStage::Seedling,
            planted_at,
            days_alive: 1,
            total_hours_elapsed: 0,
            water_level: 60 * PERCENT,
            nutrient_level: 60 * PERCENT,
            light_cycle: LightCycle::Veg18_6,
            health: HealthStatus::Excellent,
            genetics,
            care_history: CareHistory::new(),
            co2_level: 80 * PERCENT,
            light_absorption: 50 * PERCENT,
            temperature: 24 * PERCENT,
            humidity: 60 * PERCENT,
            root_development: 10 * PERCENT,
            canopy_density: 5 * PERCENT,
        }
    }

    /// Growth stage of a plant alive `days` days: 0-10 Seedling, 11-40
    /// Vegetative, 41-48 PreFlower, 49-85 Flowering, 86 on ReadyToHarvest.
    pub fn calculate_stage(days: u32) -> (r: GrowthStage)
        ensures
            r == stage_for_day(days),
    {
        if days <= 10 {
            GrowthStage::Seedling
        } else if 11 <= days && days <= 40 {
            GrowthStage::Vegetative
        } else if 41 <= days && days <= 48 {
            GrowthStage::PreFlower
        } else if 49 <= days && days <= 85 {
            GrowthStage::Flowering
        } else {
            GrowthStage::ReadyToHarvest
        }
    }

    /// Health from the water and nutrient levels (thousandths of a percent).
    /// A critical level (water < 10% or > 95%, nutrients < 20% or > 95%)
    /// overrides everything else.
    pub fn calculate_health(water: u32, nutrients: u32) -> (r: HealthStatus)
        ensures
            r == health_for(water, nutrients),
    {
        let water_optimal = 40 * PERCENT <= water && water <= 80 * PERCENT;
        let nutrient_optimal = 50 * PERCENT <= nutrients && nutrients <= 80 * PERCENT;
        let water_critical = water < 10 * PERCENT || water > 95 * PERCENT;
        let nutrient_critical = nutrients < 20 * PERCENT || nutrients > 95 * PERCENT;
        if water_critical || nutrient_critical {
            HealthStatus::Critical
        } else if !water_optimal && !nutrient_optimal {
            HealthStatus::Poor
        } else if !water_optimal || !nutrient_optimal {
            HealthStatus::Fair
        } else if 50 * PERCENT <= water && water <= 70 * PERCENT && 60 * PERCENT <= nutrients
            && nutrients <= 75 * PERCENT {
            HealthStatus::Excellent
        } else {
            HealthStatus::Good
        }
    }

    /// Switches between the vegetative and the flowering light cycle.
    pub fn toggle_light_cycle(&mut self)
        ensures
            final(self).light_cycle == match old(self).light_cycle {
                LightCycle::Veg18_6 => LightCycle::Flower12_12,
                LightCycle::Flower12_12 => LightCycle::Veg18_6,
            },
            final(self).stage == old(self).stage,
            final(self).days_alive == old(self).days_alive,
    {
        self.light_cycle = match self.light_cycle {
            LightCycle::Veg18_6 => LightCycle::Flower12_12,
            LightCycle::Flower12_12 => LightCycle::Veg18_6,
        };
    }

    /// Sets the temperature to 24 °C plus `swing` (thousandths of a degree),
    /// kept within 20 to 28 °C.
    pub fn apply_temperature_swing(&mut self, swing: i32)
        ensures
            final(self).temperature as int == if 24 * PERCENT + swing < 20 * PERCENT {
                20 * PERCENT as int
            } else if 24 * PERCENT + swing > 28 * PERCENT {
                28 * PERCENT as int
            } else {
                24 * PERCENT + swing
            },
    {
        let t: i64 = 24 * PERCENT as i64 + swing as i64;
        self.temperature = if t < 20 * PERCENT as i64 {
            20 * PERCENT
        } else if t > 28 * PERCENT as i64 {
            28 * PERCENT
        } else {
            t as u32
        };
    }
}

/// A newly planted seed: random genetics drawn from `strains`, named after
/// its strain, on day 1 at the starting levels.
pub open spec fn fresh_seedling(r: Plant, strains: Seq<StrainInfo>) -> bool {
    &&& drawn_from(r.genetics, strains)
    &&& r.strain_name@ == match r.genetics.strain_info {
        Some(s) => s.name@,
        None => "Unknown Strain"@,
    }
    &&& r.stage == GrowthStage::Seedling
    &&& r.days_alive == 1
    &&& r.total_hours_elapsed == 0
    &&& r.water_level == 60 * PERCENT
    &&& r.nutrient_level == 60 * PERCENT
    &&& r.light_cycle == LightCycle::Veg18_6
    &&& r.health == HealthStatus::Excellent
    &&& r.care_history.total_hours == 0
    &&& r.care_history.total_optimal_water_hours == 0
    &&& r.care_history.total_optimal_nutrient_hours == 0
    &&& r.care_history.stress_events@.len() == 0
    &&& r.co2_level == 80 * PERCENT
    &&& r.light_absorption == 50 * PERCENT
    &&& r.temperature == 24 * PERCENT
    &&& r.humidity == 60 * PERCENT
    &&& r.root_development == 10 * PERCENT
    &&& r.canopy_density == 5 * PERCENT
}

/// Relies on `chrono::Utc::now` (read as milliseconds since the Unix epoch):
/// the current time; nothing is promised of its value.
#[verifier::external_body]
pub(crate) fn now_millis() -> (r: i64) {
    chrono::Utc::now().timestamp_millis()
}

/// Relies on `uuid::Uuid::new_v4` (read as its 128-bit value): a random
/// identity; nothing is promised of its value.
#[verifier::external_body]
fn fresh_id() -> (r: u128) {
    uuid::Uuid::new_v4().as_u128()
}

impl Plant {
    /// A fresh seedling with a new identity and random genetics drawn from
    /// `strains`, named after its strain ("Unknown Strain" without one).
    pub fn new_random(strains: &Vec<StrainInfo>) -> (r: Self)
        ensures
            fresh_seedling(r, strains@),
    {
        let genetics = Genetics::random(strains);
        let strain_name = match &genetics.strain_info {
            Some(s) => s.name.clone(),
            None => "Unknown Strain".to_owned(),
        };
        let id = fresh_id();
        let planted_at = now_millis();
        Plant::sprout(id, genetics, strain_name, planted_at)
    }
}

/// A critical level decides health whatever the other level is: water
/// below 10% or above 95%, or nutrients below 20% or above 95%, give Critical.
pub proof fn lemma_critical_overrides(water: u32, nutrients: u32)
    requires
        water < 10 * PERCENT || water > 95 * PERCENT || nutrients < 20 * PERCENT || nutrients > 95
            * PERCENT,
    ensures
        health_for(water, nutrients) == HealthStatus::Critical,
{
}

/// Counting after one more event.
proof fn lemma_count_push(s: Seq<StressEvent>, e: StressEvent, c: StressCause)
    ensures
        count_cause(s.push(e), c) == count_cause(s, c) + if e.cause == c { 1nat } else { 0nat },
{
    assert(s.push(e).drop_last() =~= s);
}

/// One note keeps the events before it and appends at most one, on `day`.
proof fn lemma_note_shape(
    events: Seq<StressEvent>,
    active: bool,
    cause: StressCause,
    severity: StressSeverity,
    day: u32,
)
    ensures
        ({
            let r = note_stress(events, active, cause, severity, day);
            &&& events.len() <= r.len() <= events.len() + 1
            &&& forall|i: int| 0 <= i < events.len() ==> r[i] == events[i]
            &&& forall|i: int| events.len() <= i < r.len() ==> r[i].day == day && r[i].cause == cause
            &&& forall|c: StressCause|
                c != cause ==> #[trigger] count_cause(r, c) == count_cause(events, c)
            &&& count_cause(r, cause) == count_cause(events, cause) + if active && !recent_stress(
                events,
                cause,
                day,
            ) {
                1nat
            } else {
                0nat
            }
        }),
{
    let e = StressEvent { day, severity, cause };
    lemma_count_push(events, e, cause);
    assert forall|c: StressCause| c != cause implies #[trigger] count_cause(
        note_stress(events, active, cause, severity, day),
        c,
    ) == count_cause(events, c) by {
        lemma_count_push(events, e, c);
    }
}

/// One check keeps the events before it, appends at most four, all on `day`,
/// and adds a low-water event exactly when water is low and none is recent.
proof fn lemma_check_shape(events: Seq<StressEvent>, water: u32, nutrients: u32, day: u32)
    ensures
        ({
            let r = stress_after(events, water, nutrients, day);
            &&& events.len() <= r.len() <= events.len() + 4
            &&& forall|i: int| 0 <= i < events.len() ==> r[i] == events[i]
            &&& forall|i: int| events.len() <= i < r.len() ==> r[i].day == day
            &&& count_cause(r, StressCause::LowWater) == count_cause(events, StressCause::LowWater)
                + if water < 20 * PERCENT && !recent_stress(events, StressCause::LowWater, day) {
                1nat
            } else {
                0nat
            }
            &&& (water < 20 * PERCENT && !recent_stress(events, StressCause::LowWater, day)) ==> r[events.len() as int]
                == (StressEvent { day, severity: StressSeverity::Moderate, cause: StressCause::LowWater })
        }),
{
    let e1 = note_stress(events, water < 20 * PERCENT, StressCause::LowWater, StressSeverity::Moderate, day);
    let e2 = note_stress(e1, water > 90 * PERCENT, StressCause::HighWater, StressSeverity::Moderate, day);
    let e3 = note_stress(e2, nutrients < 30 * PERCENT, StressCause::LowNutrients, StressSeverity::Moderate, day);
    let e4 = note_stress(e3, nutrients > 90 * PERCENT, StressCause::NutrientBurn, StressSeverity::Severe, day);
    lemma_note_shape(events, water < 20 * PERCENT, StressCause::LowWater, StressSeverity::Moderate, day);
    lemma_note_shape(e1, water > 90 * PERCENT, StressCause::HighWater, StressSeverity::Moderate, day);
    lemma_note_shape(e2, nutrients < 30 * PERCENT, StressCause::LowNutrients, StressSeverity::Moderate, day);
    lemma_note_shape(e3, nutrients > 90 * PERCENT, StressCause::NutrientBurn, StressSeverity::Severe, day);
    assert(count_cause(e2, StressCause::LowWater) == count_cause(e1, StressCause::LowWater));
    assert(count_cause(e3, StressCause::LowWater) == count_cause(e2, StressCause::LowWater));
    assert(count_cause(e4, StressCause::LowWater) == count_cause(e3, StressCause::LowWater));
    if water < 20 * PERCENT && !recent_stress(events, StressCause::LowWater, day) {
        assert(e1 == events.push(StressEvent { day, severity: StressSeverity::Moderate, cause: StressCause::LowWater }));
        assert(e4[events.len() as int] == e3[events.len() as int]);
        assert(e3[events.len() as int] == e2[events.len() as int]);
        assert(e2[events.len() as int] == e1[events.len() as int]);
    }
}

/// Stress is not recorded twice for one cause within the window: low water
/// seen on `day` and again two days later yields exactly one new low-water
/// event, when none was recent before.
pub proof fn lemma_stress_dedup_within_window(
    events: Seq<StressEvent>,
    water1: u32,
    nutrients1: u32,
    water2: u32,
    nutrients2: u32,
    day: u32,
)
    requires
        water1 < 20 * PERCENT,
        water2 < 20 * PERCENT,
        day + 2 <= u32::MAX,
        !recent_stress(events, StressCause::LowWater, day),
    ensures
        count_cause(
            stress_after(stress_after(events, water1, nutrients1, day), water2, nutrients2, (day + 2) as u32),
            StressCause::LowWater,
        ) == count_cause(events, StressCause::LowWater) + 1,
{
    let e1 = stress_after(events, water1, nutrients1, day);
    lemma_check_shape(events, water1, nutrients1, day);
    lemma_check_shape(e1, water2, nutrients2, (day + 2) as u32);
    let i = events.len() as int;
    assert(e1[i].cause == StressCause::LowWater && e1[i].day == day);
    assert(recent_stress(e1, StressCause::LowWater, (day + 2) as u32));
}

/// Outside the window a cause is recorded again: low water seen on `day` and
/// again six days later yields two new low-water events, when none was
/// recent before.
pub proof fn lemma_stress_recorded_after_window(
    events: Seq<StressEvent>,
    water1: u32,
    nutrients1: u32,
    water2: u32,
    nutrients2: u32,
    day: u32,
)
    requires
        water1 < 20 * PERCENT,
        water2 < 20 * PERCENT,
        day + 6 <= u32::MAX,
        !recent_stress(events, StressCause::LowWater, day),
    ensures
        count_cause(
            stress_after(stress_after(events, water1, nutrients1, day), water2, nutrients2, (day + 6) as u32),
            StressCause::LowWater,
        ) == count_cause(events, StressCause::LowWater) + 2,
{
    let e1 = stress_after(events, water1, nutrients1, day);
    lemma_check_shape(events, water1, nutrients1, day);
    lemma_check_shape(e1, water2, nutrients2, (day + 6) as u32);
    assert(!recent_stress(e1, StressCause::LowWater, (day + 6) as u32)) by {
        if recent_stress(e1, StressCause::LowWater, (day + 6) as u32) {
            let j = choose|j: int|
                #![trigger e1[j]]
                e1.len() - 10 <= j < e1.len() && 0 <= j && e1[j].cause == StressCause::LowWater
                    && e1[j].day >= day + 1;
            if j < events.len() {
                assert(e1[j] == events[j]);
                assert(recent_stress(events, StressCause::LowWater, day));
            }
        }
    }
}

/// Game time (thousandths of an hour) for `millis` of real time: one real
/// second is 130000 / 3600 game hours.
pub open spec fn game_hours_of(millis: u64) -> int {
    capped(millis as int * 325 / 9, u64::MAX as int)
}

/// `game_hours_of`, computed.
pub fn game_hours(millis: u64) -> (r: u64)
    ensures
        r == game_hours_of(millis),
{
    let h: u128 = (millis as u128) * 325 / 9;
    if h > u64::MAX as u128 {
        u64::MAX
    } else {
        h as u64
    }
}

/// The plant after `hours` more game time: what `Plant::advance` does.
pub open spec fn advanced(o: Plant, f: Plant, hours: u64) -> bool {
    let total = capped(o.total_hours_elapsed + hours, u64::MAX as int);
    let days = capped(total / DAY as int, u32::MAX as int);
    let water = topped_up(drained(o.water_level, water_drain_of(o.stage), hours), 40_000, 50_000);
    let nutrients = topped_up(
        drained(o.nutrient_level, nutrient_drain_of(o.stage), hours),
        50_000,
        40_000,
    );
    let health = health_for(water, nutrients);
    &&& f.total_hours_elapsed == total
    &&& f.days_alive == days
    &&& f.water_level == water
    &&& f.nutrient_level == nutrients
    &&& f.co2_level == capped(80 * PERCENT + o.canopy_density / 5, FULL as int)
    &&& f.light_absorption == capped(light_base_of(o.stage) + o.canopy_density / 10, FULL as int)
    &&& f.humidity == capped(50 * PERCENT + water / 5, 80 * PERCENT)
    &&& f.root_development == capped(days * FULL / 90, FULL as int)
    &&& f.stage == stage_for_day(days as u32)
    &&& f.light_cycle == if days >= 45 && o.light_cycle == LightCycle::Veg18_6 {
        LightCycle::Flower12_12
    } else {
        o.light_cycle
    }
    &&& f.health == health
    &&& f.canopy_density == capped(
        canopy_base_of(o.stage, days as u32, o.genetics.growth_rate) * health_factor(
            health,
            o.genetics.resilience,
        ) / 1000,
        u32::MAX as int,
    )
    &&& f.care_history.total_hours == capped(o.care_history.total_hours + hours, u64::MAX as int)
    &&& f.care_history.total_optimal_water_hours == if water_in_band(water) {
        capped(o.care_history.total_optimal_water_hours + hours, u64::MAX as int)
    } else {
        o.care_history.total_optimal_water_hours as int
    }
    &&& f.care_history.total_optimal_nutrient_hours == if nutrients_in_band(nutrients) {
        capped(o.care_history.total_optimal_nutrient_hours + hours, u64::MAX as int)
    } else {
        o.care_history.total_optimal_nutrient_hours as int
    }
    &&& f.care_history.stress_events@ == stress_after(
        o.care_history.stress_events@,
        water,
        nutrients,
        days as u32,
    )
    &&& f.care_history.light_cycle_correct == o.care_history.light_cycle_correct
    &&& f.id == o.id
    &&& f.strain_name == o.strain_name
    &&& f.planted_at == o.planted_at
    &&& f.genetics == o.genetics
    &&& f.temperature == o.temperature
}

impl Plant {
    /// Advances the plant by `hours` of game time (thousandths of an hour):
    /// drains and tops up water and nutrients, recomputes the environment,
    /// stage, light cycle, health and canopy, and updates the care record.
    pub fn advance(&mut self, hours: u64)
        ensures
            advanced(*old(self), *final(self), hours),
    {
        let old_stage = self.stage;
        let old_canopy = self.canopy_density;
        self.total_hours_elapsed = self.total_hours_elapsed.saturating_add(hours);
        let days64: u64 = self.total_hours_elapsed / DAY;
        let days: u32 = if days64 > u32::MAX as u64 { u32::MAX } else { days64 as u32 };
        self.days_alive = days;
        let water_rate: u64 = match old_stage {
            GrowthStage::Vegetative => 10,
            GrowthStage::Flowering => 8,
            _ => 5,
        };
        let nutrient_rate: u64 = match old_stage {
            GrowthStage::Vegetative => 8,
            GrowthStage::Flowering => 10,
            _ => 4,
        };
        let water = top_up(drain(self.water_level, water_rate, hours), 40 * PERCENT, 50 * PERCENT);
        let nutrients = top_up(drain(self.nutrient_level, nutrient_rate, hours), 50 * PERCENT, 40 * PERCENT);
        self.water_level = water;
        self.nutrient_level = nutrients;
        let co2: u32 = 80 * PERCENT + old_canopy / 5;
        self.co2_level = if co2 > FULL { FULL } else { co2 };
        let light_base: u32 = match old_stage {
            GrowthStage::Seed | GrowthStage::Germination | GrowthStage::Seedling => 40 * PERCENT,
            GrowthStage::Vegetative => 60 * PERCENT,
            GrowthStage::PreFlower => 75 * PERCENT,
            GrowthStage::Flowering | GrowthStage::ReadyToHarvest => 85 * PERCENT,
        };
        let light: u32 = light_base + old_canopy / 10;
        self.light_absorption = if light > FULL { FULL } else { light };
        let humid: u32 = 50 * PERCENT + water / 5;
        self.humidity = if humid > 80 * PERCENT { 80 * PERCENT } else { humid };
        let root: u64 = (days as u64) * (FULL as u64) / 90;
        self.root_development = if root > FULL as u64 { FULL } else { root as u32 };
        let base = canopy_base(old_stage, days, self.genetics.growth_rate);
        self.stage = Plant::calculate_stage(days);
        if days >= 45 && self.light_cycle == LightCycle::Veg18_6 {
            self.light_cycle = LightCycle::Flower12_12;
        }
        let health = Plant::calculate_health(water, nutrients);
        self.health = health;
        let res: u64 = self.genetics.resilience as u64;
        let factor: u64 = match health {
            HealthStatus::Excellent | HealthStatus::Good => 1000,
            HealthStatus::Fair => 850 + res * 150 / 1000,
            HealthStatus::Poor => 650 + res * 350 / 1000,
            HealthStatus::Critical => 400 + res * 600 / 1000,
        };
        self.canopy_density = scale(base, factor);
        if 40 * PERCENT <= water && water <= 80 * PERCENT {
            self.care_history.total_optimal_water_hours = self.care_history.total_optimal_water_hours.saturating_add(hours);
        }
        if 50 * PERCENT <= nutrients && nutrients <= 80 * PERCENT {
            self.care_history.total_optimal_nutrient_hours = self.care_history.total_optimal_nutrient_hours.saturating_add(hours);
        }
        self.care_history.total_hours = self.care_history.total_hours.saturating_add(hours);
        self.care_history.record_stress(water, nutrients, days);
    }
}

/// `drained`, computed.
fn drain(level: u32, rate: u64, hours: u64) -> (r: u32)
    requires
        rate <= 10,
    ensures
        r == drained(level, rate, hours),
{
    assert(rate as int * hours as int <= 10 * u64::MAX) by (nonlinear_arith)
        requires rate <= 10, hours <= u64::MAX;
    let loss: u128 = (rate as u128) * (hours as u128) / 10;
    if loss >= level as u128 {
        0
    } else {
        level - loss as u32
    }
}

/// `topped_up`, computed.
fn top_up(level: u32, threshold: u32, amount: u32) -> (r: u32)
    requires
        amount <= FULL,
    ensures
        r == topped_up(level, threshold, amount),
{
    if level < threshold {
        let raised: u64 = level as u64 + amount as u64;
        if raised > FULL as u64 {
            FULL
        } else {
            raised as u32
        }
    } else {
        level
    }
}

/// `canopy_base_of`, computed.
fn canopy_base(stage: GrowthStage, days: u32, growth_rate: u32) -> (r: u32)
    ensures
        r == canopy_base_of(stage, days, growth_rate),
{
    let d: u128 = days as u128;
    let g: u128 = growth_rate as u128;
    let p: u128 = PERCENT as u128;
    assert(d * 800 <= 0x1_0000_0000 * 800 && 15 * p * g <= 15000 * 0x1_0000_0000) by (nonlinear_arith)
        requires d <= u32::MAX, g <= u32::MAX, p == 1000;
    assert((40 * p + d * 800) * g <= (80000 + 0x1_0000_0000 * 800) * 0x1_0000_0000) by (nonlinear_arith)
        requires d <= u32::MAX, g <= u32::MAX, p == 1000;
    assert((60 * p + d * 600) * g <= (80000 + 0x1_0000_0000 * 800) * 0x1_0000_0000) by (nonlinear_arith)
        requires d <= u32::MAX, g <= u32::MAX, p == 1000;
    assert((80 * p + d * 200) * g <= (80000 + 0x1_0000_0000 * 800) * 0x1_0000_0000) by (nonlinear_arith)
        requires d <= u32::MAX, g <= u32::MAX, p == 1000;
    let base: u128 = match stage {
        GrowthStage::Seed | GrowthStage::Germination => 5 * p * 1000,
        GrowthStage::Seedling => 15 * p * g,
        GrowthStage::Vegetative => (40 * p + d * 800) * g,
        GrowthStage::PreFlower => (60 * p + d * 600) * g,
        GrowthStage::Flowering | GrowthStage::ReadyToHarvest => (80 * p + d * 200) * g,
    };
    let scaled: u128 = base / 1000;
    if scaled > FULL as u128 {
        FULL
    } else {
        scaled as u32
    }
}

/// `v * factor / 1000`, saturating at `u32::MAX`.
fn scale(v: u32, factor: u64) -> (r: u32)
    ensures
        r == capped(v as int * factor as int / 1000, u32::MAX as int),
{
    assert(v as int * factor as int <= u32::MAX * u64::MAX) by (nonlinear_arith)
        requires v <= u32::MAX, factor <= u64::MAX;
    let p: u128 = (v as u128) * (factor as u128) / 1000;
    if p > u32::MAX as u128 {
        u32::MAX
    } else {
        p as u32
    }
}

} // verus!
