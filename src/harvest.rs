use vstd::prelude::*;
use crate::plant::{Plant, capped, share_of, now_millis};

verus! {

/// Care quality in thousandths: the mean of the water and nutrient optimal
/// shares (thousandths of a percent each), at least 700.
pub open spec fn care_quality_of(water_pct: int, nutrient_pct: int) -> int {
    let q = (water_pct + nutrient_pct) / 200;
    if q < 700 {
        700
    } else {
        q
    }
}

/// Stress penalty in thousandths: 20 per event, at most 300.
pub open spec fn stress_penalty_of(events: int) -> int {
    if events * 20 > 300 {
        300
    } else {
        events * 20
    }
}

/// Harvest weight in milligrams: `yield * care * (1 - penalty)`.
pub open spec fn weight_of(yield_mg: int, care: int, penalty: int) -> int {
    capped(yield_mg * care * (1000 - penalty) / 1_000_000, u64::MAX as int)
}

/// Quality score in thousandths of a point: `care * 100 * (1 - penalty)`,
/// within 0 to 100 points.
pub open spec fn quality_of(care: int, penalty: int) -> int {
    capped(care * (1000 - penalty) / 10, 100_000)
}

/// Cannabinoid multiplier in thousandths: `0.7 + quality / 100 * 0.3`.
pub open spec fn cannabinoid_factor_of(quality: int) -> int {
    700 + quality * 3 / 1000
}

/// Result of harvesting a plant.
#[derive(Debug, Clone)]
pub struct HarvestResult {
    pub strain_name: String,
    pub harvest_day: u32,
    /// Harvest time, in milliseconds since the Unix epoch.
    pub completed_at: i64,
    /// Weight, in milligrams.
    pub weight_grams: u64,
    /// Quality score, in thousandths of a point (0 to 100 points).
    pub quality_score: u32,
    /// THC content, in thousandths of a percent.
    pub thc_percent: u32,
    /// CBD content, in thousandths of a percent.
    pub cbd_percent: u32,
}

/// The harvest of `p` completed at `at`.
pub open spec fn harvest_of(p: Plant, at: i64, r: HarvestResult) -> bool {
    let care = care_quality_of(
        share_of(p.care_history.total_optimal_water_hours, p.care_history.total_hours),
        share_of(p.care_history.total_optimal_nutrient_hours, p.care_history.total_hours),
    );
    let penalty = stress_penalty_of(p.care_history.stress_events@.len() as int);
    let quality = quality_of(care, penalty);
    let factor = cannabinoid_factor_of(quality);
    &&& r.strain_name@ == p.strain_name@
    &&& r.harvest_day == p.days_alive
    &&& r.completed_at == at
    &&& r.weight_grams == weight_of(p.genetics.yield_potential as int, care, penalty)
    &&& r.quality_score == quality
    &&& r.thc_percent == p.genetics.thc_percent * factor / 1000
    &&& r.cbd_percent == p.genetics.cbd_percent * factor / 1000
}

impl HarvestResult {
    /// The harvest of `plant`, completed now.
    pub fn from_plant(plant: &Plant) -> (r: Self)
        ensures
            harvest_of(*plant, r.completed_at, r),
    {
        let at = now_millis();
        HarvestResult::from_plant_at(plant, at)
    }

    /// The harvest of `plant`, completed at `completed_at` (milliseconds since
    /// the Unix epoch).
    pub fn from_plant_at(plant: &Plant, completed_at: i64) -> (r: Self)
        ensures
            harvest_of(*plant, completed_at, r),
    {
        let water_pct = plant.care_history.calculate_water_percentage();
        let nutrient_pct = plant.care_history.calculate_nutrient_percentage();
        assert(water_pct <= u64::MAX as int * 100_000 && nutrient_pct <= u64::MAX as int * 100_000) by {
            lemma_share_bound(plant.care_history.total_optimal_water_hours, plant.care_history.total_hours);
            lemma_share_bound(plant.care_history.total_optimal_nutrient_hours, plant.care_history.total_hours);
        }
        let mean: u128 = (water_pct + nutrient_pct) / 200;
        let care: u128 = if mean < 700 { 700 } else { mean };
        let count: usize = plant.care_history.stress_events.len();
        let penalty: u128 = if count > 15 { 300 } else { (count as u128) * 20 };
        let keep: u128 = 1000 - penalty;
        assert(care <= u64::MAX as int * 1000);
        assert(care * keep <= u64::MAX as int * 1_000_000) by (nonlinear_arith)
            requires care <= u64::MAX as int * 1000, keep <= 1000;
        assert(plant.genetics.yield_potential as int * (care * keep) <= u32::MAX as int * (u64::MAX as int * 1_000_000)) by (nonlinear_arith)
            requires care * keep <= u64::MAX as int * 1_000_000, plant.genetics.yield_potential <= u32::MAX;
        let w: u128 = (plant.genetics.yield_potential as u128) * (care * keep) / 1_000_000;
        assert(plant.genetics.yield_potential as int * (care * keep) == plant.genetics.yield_potential as int * care * keep) by (nonlinear_arith);
        let weight: u64 = if w > u64::MAX as u128 { u64::MAX } else { w as u64 };
        let q: u128 = care * keep / 10;
        let quality: u32 = if q > 100_000 { 100_000 } else { q as u32 };
        let factor: u64 = 700 + (quality as u64) * 3 / 1000;
        assert(plant.genetics.thc_percent as int * factor <= u32::MAX as int * 1000) by (nonlinear_arith)
            requires factor <= 1000, plant.genetics.thc_percent <= u32::MAX;
        assert(plant.genetics.cbd_percent as int * factor <= u32::MAX as int * 1000) by (nonlinear_arith)
            requires factor <= 1000, plant.genetics.cbd_percent <= u32::MAX;
        let thc: u64 = (plant.genetics.thc_percent as u64) * factor / 1000;
        let cbd: u64 = (plant.genetics.cbd_percent as u64) * factor / 1000;
        HarvestResult {
            strain_name: plant.strain_name.clone(),
            harvest_day: plant.days_alive,
            completed_at,
            weight_grams: weight,
            quality_score: quality,
            thc_percent: thc as u32,
            cbd_percent: cbd as u32,
        }
    }
}

proof fn lemma_share_bound(part: u64, total: u64)
    ensures
        0 <= share_of(part, total) <= u64::MAX as int * 100_000,
{
    if total > 0 {
        assert(part as int * 100_000 / total as int <= part as int * 100_000) by (nonlinear_arith)
            requires total >= 1, part >= 0;
        assert(part as int * 100_000 <= u64::MAX as int * 100_000) by (nonlinear_arith)
            requires part <= u64::MAX;
    }
}

/// With no stress and full care, the harvest weighs the yield potential and
/// scores 100 points, and the cannabinoids keep their genetic content.
pub proof fn lemma_ideal_harvest(p: Plant, at: i64, r: HarvestResult)
    requires
        harvest_of(p, at, r),
        p.care_history.stress_events@.len() == 0,
        share_of(p.care_history.total_optimal_water_hours, p.care_history.total_hours) == 100_000,
        share_of(p.care_history.total_optimal_nutrient_hours, p.care_history.total_hours) == 100_000,
    ensures
        r.weight_grams == p.genetics.yield_potential,
        r.quality_score == 100_000,
        r.thc_percent == p.genetics.thc_percent,
        r.cbd_percent == p.genetics.cbd_percent,
{
    assert(p.genetics.yield_potential as int * 1000 * 1000 / 1_000_000 == p.genetics.yield_potential) by (nonlinear_arith);
}

} // verus!
