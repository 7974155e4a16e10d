use ganjatui::genetics::{same_text, Genetics, StrainInfo};
use ganjatui::harvest::HarvestResult;
use ganjatui::plant::{
    game_hours, CareHistory, GrowthStage, HealthStatus, LightCycle, Plant, StressCause,
    StressEvent, StressSeverity,
};

fn genetics() -> Genetics {
    Genetics {
        yield_potential: 100_000,
        growth_rate: 1000,
        resilience: 500,
        quality_ceiling: 90_000,
        strain_info: None,
        thc_percent: 20_000,
        cbd_percent: 500,
    }
}

fn strain(yield_class: &str, difficulty: &str, kind: &str) -> StrainInfo {
    StrainInfo {
        name: "Test Kush".to_string(),
        strain_type: kind.to_string(),
        genetics: "Test x Test".to_string(),
        thc_min: 18_000,
        thc_max: 22_000,
        cbd_min: 100,
        cbd_max: 300,
        flowering_time: 60,
        difficulty: difficulty.to_string(),
        yield_potential: yield_class.to_string(),
        dominant_terpenes: vec!["Myrcene".to_string()],
        aroma: vec!["Earthy".to_string(), "Pine".to_string()],
        effects: vec!["Relaxed".to_string()],
        height: "Medium".to_string(),
        phenotype: "Indica-dominant".to_string(),
    }
}

fn seedling() -> Plant {
    Plant::sprout(7, genetics(), "Test Kush".to_string(), 0)
}

#[test]
fn stage_banding_by_day() {
    assert_eq!(Plant::calculate_stage(1), GrowthStage::Seedling);
    assert_eq!(Plant::calculate_stage(10), GrowthStage::Seedling);
    assert_eq!(Plant::calculate_stage(11), GrowthStage::Vegetative);
    assert_eq!(Plant::calculate_stage(40), GrowthStage::Vegetative);
    assert_eq!(Plant::calculate_stage(41), GrowthStage::PreFlower);
    assert_eq!(Plant::calculate_stage(48), GrowthStage::PreFlower);
    assert_eq!(Plant::calculate_stage(49), GrowthStage::Flowering);
    assert_eq!(Plant::calculate_stage(85), GrowthStage::Flowering);
    assert_eq!(Plant::calculate_stage(86), GrowthStage::ReadyToHarvest);
    assert_eq!(Plant::calculate_stage(0), GrowthStage::Seedling);
    assert_eq!(Plant::calculate_stage(u32::MAX), GrowthStage::ReadyToHarvest);
}

#[test]
fn stage_names() {
    assert_eq!(GrowthStage::PreFlower.as_str(), "Pre-Flower");
    assert_eq!(GrowthStage::ReadyToHarvest.as_str(), "Ready to Harvest");
    assert_eq!(GrowthStage::Seed.as_str(), "Seed");
}

#[test]
fn health_critical_overrides() {
    assert_eq!(Plant::calculate_health(5_000, 60_000), HealthStatus::Critical);
    assert_eq!(Plant::calculate_health(96_000, 60_000), HealthStatus::Critical);
    assert_eq!(Plant::calculate_health(60_000, 19_999), HealthStatus::Critical);
    assert_eq!(Plant::calculate_health(60_000, 95_001), HealthStatus::Critical);
}

#[test]
fn health_tiers() {
    assert_eq!(Plant::calculate_health(60_000, 65_000), HealthStatus::Excellent);
    assert_eq!(Plant::calculate_health(75_000, 65_000), HealthStatus::Good);
    assert_eq!(Plant::calculate_health(30_000, 65_000), HealthStatus::Fair);
    assert_eq!(Plant::calculate_health(30_000, 30_000), HealthStatus::Poor);
    assert_eq!(Plant::calculate_health(40_000, 50_000), HealthStatus::Good);
    assert_eq!(Plant::calculate_health(10_000, 20_000), HealthStatus::Poor);
}

#[test]
fn stress_within_window_recorded_once() {
    let mut care = CareHistory::new();
    care.record_stress(15_000, 60_000, 10);
    care.record_stress(15_000, 60_000, 12);
    let low = care.stress_events.iter().filter(|e| e.cause == StressCause::LowWater).count();
    assert_eq!(low, 1);
    assert_eq!(care.stress_events[0], StressEvent { day: 10, severity: StressSeverity::Moderate, cause: StressCause::LowWater });
}

#[test]
fn stress_after_window_recorded_again() {
    let mut care = CareHistory::new();
    care.record_stress(15_000, 60_000, 10);
    care.record_stress(15_000, 60_000, 16);
    let low = care.stress_events.iter().filter(|e| e.cause == StressCause::LowWater).count();
    assert_eq!(low, 2);
}

#[test]
fn stress_causes_and_severity() {
    let mut care = CareHistory::new();
    care.record_stress(95_000, 95_000, 3);
    assert_eq!(care.stress_events.len(), 2);
    assert_eq!(care.stress_events[0].cause, StressCause::HighWater);
    assert_eq!(care.stress_events[0].severity, StressSeverity::Moderate);
    assert_eq!(care.stress_events[1].cause, StressCause::NutrientBurn);
    assert_eq!(care.stress_events[1].severity, StressSeverity::Severe);
    care.record_stress(50_000, 25_000, 3);
    assert_eq!(care.stress_events[2].cause, StressCause::LowNutrients);
    care.record_stress(50_000, 60_000, 3);
    assert_eq!(care.stress_events.len(), 3);
}

#[test]
fn recent_stress_looks_at_last_ten_only() {
    let mut care = CareHistory::new();
    care.stress_events.push(StressEvent { day: 20, severity: StressSeverity::Moderate, cause: StressCause::LowWater });
    assert!(care.has_recent_stress(StressCause::LowWater, 25));
    assert!(!care.has_recent_stress(StressCause::LowWater, 26));
    assert!(!care.has_recent_stress(StressCause::HighWater, 20));
    for _ in 0..10 {
        care.stress_events.push(StressEvent { day: 20, severity: StressSeverity::Moderate, cause: StressCause::HighWater });
    }
    assert!(!care.has_recent_stress(StressCause::LowWater, 21));
    assert!(care.has_recent_stress(StressCause::HighWater, 3));
}

#[test]
fn care_percentages() {
    let mut care = CareHistory::new();
    assert_eq!(care.calculate_water_percentage(), 100_000);
    assert_eq!(care.calculate_nutrient_percentage(), 100_000);
    care.total_hours = 4000;
    care.total_optimal_water_hours = 1000;
    care.total_optimal_nutrient_hours = 3000;
    assert_eq!(care.calculate_water_percentage(), 25_000);
    assert_eq!(care.calculate_nutrient_percentage(), 75_000);
}

#[test]
fn game_time_conversion() {
    assert_eq!(game_hours(0), 0);
    assert_eq!(game_hours(1000), 36_111);
    assert_eq!(game_hours(3600), 130_000);
    assert_eq!(game_hours(u64::MAX), u64::MAX);
}

#[test]
fn advance_one_day_as_seedling() {
    let mut p = seedling();
    p.advance(24_000);
    assert_eq!(p.total_hours_elapsed, 24_000);
    assert_eq!(p.days_alive, 1);
    assert_eq!(p.water_level, 48_000);
    assert_eq!(p.nutrient_level, 50_400);
    assert_eq!(p.stage, GrowthStage::Seedling);
    assert_eq!(p.health, HealthStatus::Good);
    assert_eq!(p.co2_level, 81_000);
    assert_eq!(p.light_absorption, 40_500);
    assert_eq!(p.humidity, 59_600);
    assert_eq!(p.root_development, 1_111);
    assert_eq!(p.canopy_density, 15_000);
    assert_eq!(p.care_history.total_hours, 24_000);
    assert_eq!(p.care_history.total_optimal_water_hours, 24_000);
    assert_eq!(p.care_history.total_optimal_nutrient_hours, 24_000);
    assert!(p.care_history.stress_events.is_empty());
}

#[test]
fn advance_tops_up_and_clamps() {
    let mut p = seedling();
    p.advance(24_000_000);
    assert_eq!(p.days_alive, 1000);
    assert_eq!(p.water_level, 50_000);
    assert_eq!(p.nutrient_level, 40_000);
    assert_eq!(p.stage, GrowthStage::ReadyToHarvest);
    assert_eq!(p.light_cycle, LightCycle::Flower12_12);
    assert_eq!(p.root_development, 100_000);
    assert_eq!(p.health, HealthStatus::Fair);
    assert_eq!(p.care_history.stress_events.len(), 0);
    assert_eq!(p.care_history.total_optimal_nutrient_hours, 0);
}

#[test]
fn light_cycle_switches_at_day_45() {
    let mut p = seedling();
    p.advance(44 * 24_000);
    assert_eq!(p.light_cycle, LightCycle::Veg18_6);
    p.advance(24_000);
    assert_eq!(p.days_alive, 45);
    assert_eq!(p.light_cycle, LightCycle::Flower12_12);
    p.toggle_light_cycle();
    assert_eq!(p.light_cycle, LightCycle::Veg18_6);
}

#[test]
fn temperature_swing_is_clamped() {
    let mut p = seedling();
    p.apply_temperature_swing(1_500);
    assert_eq!(p.temperature, 25_500);
    p.apply_temperature_swing(-9_000);
    assert_eq!(p.temperature, 20_000);
    p.apply_temperature_swing(9_000);
    assert_eq!(p.temperature, 28_000);
}

#[test]
fn ideal_harvest() {
    let p = seedling();
    let h = HarvestResult::from_plant_at(&p, 1234);
    assert_eq!(h.weight_grams, 100_000);
    assert_eq!(h.quality_score, 100_000);
    assert_eq!(h.thc_percent, 20_000);
    assert_eq!(h.cbd_percent, 500);
    assert_eq!(h.harvest_day, 1);
    assert_eq!(h.completed_at, 1234);
    assert_eq!(h.strain_name, "Test Kush");
}

#[test]
fn harvest_with_stress_and_poor_care() {
    let mut p = seedling();
    p.care_history.total_hours = 1000;
    p.care_history.total_optimal_water_hours = 500;
    p.care_history.total_optimal_nutrient_hours = 700;
    for d in 0..5 {
        p.care_history.stress_events.push(StressEvent { day: d, severity: StressSeverity::Moderate, cause: StressCause::LowWater });
    }
    let h = HarvestResult::from_plant_at(&p, 0);
    // care 0.7 (floor), penalty 0.1
    assert_eq!(h.weight_grams, 63_000);
    assert_eq!(h.quality_score, 63_000);
    assert_eq!(h.thc_percent, 20_000 * 889 / 1000);
    for d in 0..20 {
        p.care_history.stress_events.push(StressEvent { day: d, severity: StressSeverity::Moderate, cause: StressCause::HighWater });
    }
    let h = HarvestResult::from_plant_at(&p, 0);
    // penalty capped at 0.3
    assert_eq!(h.weight_grams, 49_000);
    assert_eq!(h.quality_score, 49_000);
}

#[test]
fn harvest_now_has_a_timestamp() {
    let h = HarvestResult::from_plant(&seedling());
    assert!(h.completed_at > 1_500_000_000_000);
}

#[test]
fn text_comparison() {
    assert!(same_text("High", "High"));
    assert!(!same_text("High", "Hig"));
    assert!(!same_text("High", "high"));
    assert!(same_text("", ""));
}

#[test]
fn random_genetics_without_strains() {
    for _ in 0..50 {
        let g = Genetics::random(&Vec::new());
        assert!(g.strain_info.is_none());
        assert!(g.yield_potential >= 50_000 && g.yield_potential <= 150_000);
        assert!(g.resilience <= 1000);
        assert!(g.quality_ceiling >= 70_000 && g.quality_ceiling <= 100_000);
        assert!(g.thc_percent >= 15_000 && g.thc_percent <= 25_000);
        assert!(g.cbd_percent >= 100 && g.cbd_percent <= 1000);
        assert!(g.growth_rate >= 900 && g.growth_rate <= 1100);
    }
}

#[test]
fn random_genetics_follow_the_strain() {
    let strains = vec![strain("High", "Easy", "Hybrid")];
    for _ in 0..50 {
        let g = Genetics::random(&strains);
        let s = g.strain_info.as_ref().unwrap();
        assert_eq!(s.name, "Test Kush");
        assert_eq!(s.aroma, vec!["Earthy".to_string(), "Pine".to_string()]);
        assert!(g.yield_potential >= 100_000 && g.yield_potential <= 150_000);
        assert!(g.resilience >= 700 && g.resilience <= 1000);
        assert!(g.quality_ceiling >= 85_000);
        assert!(g.thc_percent >= 18_000 && g.thc_percent <= 22_000);
        assert!(g.cbd_percent >= 100 && g.cbd_percent <= 300);
    }
    let hard = vec![strain("Low", "Hard", "Sativa")];
    for _ in 0..50 {
        let g = Genetics::random(&hard);
        assert!(g.yield_potential >= 50_000 && g.yield_potential <= 80_000);
        assert!(g.resilience <= 400);
        assert!(g.quality_ceiling >= 80_000);
    }
}

#[test]
fn new_random_plant() {
    let strains = vec![strain("Medium", "Medium", "Indica")];
    let p = Plant::new_random(&strains);
    assert_eq!(p.strain_name, "Test Kush");
    assert_eq!(p.stage, GrowthStage::Seedling);
    assert_eq!(p.days_alive, 1);
    assert_eq!(p.water_level, 60_000);
    let q = Plant::new_random(&Vec::new());
    assert_eq!(q.strain_name, "Unknown Strain");
    assert_ne!(p.id, q.id);
    assert!(q.planted_at > 1_500_000_000_000);
}

#[test]
fn random_genetics_vary() {
    let draws: Vec<u32> = (0..40).map(|_| Genetics::random(&Vec::new()).yield_potential).collect();
    assert!(draws.iter().any(|d| *d != draws[0]));
    assert!(draws.iter().any(|d| *d != 50_000));
}

#[test]
fn first_tick_keeps_a_seedling() {
    let mut p = Plant::new_random(&Vec::new());
    assert_eq!(p.co2_level, 80_000);
    assert_eq!(p.light_absorption, 50_000);
    assert_eq!(p.temperature, 24_000);
    assert_eq!(p.humidity, 60_000);
    assert_eq!(p.root_development, 10_000);
    assert_eq!(p.canopy_density, 5_000);
    p.advance(1_000);
    assert_eq!(p.days_alive, 0);
    assert_eq!(p.stage, GrowthStage::Seedling);
    assert_eq!(
        ganjatui::state::key_to_message(Some('h'), Some(p.stage)),
        ganjatui::message::Message::Tick
    );
}
