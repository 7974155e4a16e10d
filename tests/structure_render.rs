use ganjatui::cache::StructureCache;
use ganjatui::plant::GrowthStage;
use ganjatui::render::{get_border_decoration, get_nutrient_sparkles, get_plant_ascii, get_water_drops, glyph_class, render_plant_structure, render_stage, GlyphClass};
use ganjatui::rng::SimpleRng;
use ganjatui::structure::{Branch, Phenotype, PlantStructure, TrunkSplit};

#[test]
fn rng_first_draws() {
    let mut rng = SimpleRng::new(0);
    assert_eq!(rng.state, 1);
    let v = rng.next();
    assert_eq!(rng.state, 1103515245 + 12345);
    assert_eq!(v, ((1103515245u64 + 12345) / 65536) % 32768);
    let mut wrap = SimpleRng::new(u64::MAX);
    assert_eq!(wrap.state, 0);
    assert_eq!(wrap.next(), (12345u64 / 65536) % 32768);
}

#[test]
fn generation_is_deterministic() {
    for seed in [0u64, 1, 42, 7, 123456789, u64::MAX] {
        let a = PlantStructure::generate(seed);
        let b = PlantStructure::generate(seed);
        assert_eq!(a.branches, b.branches);
        assert_eq!(a.trunk_splits, b.trunk_splits);
        assert_eq!(a.phenotype, b.phenotype);
        assert_eq!(a.max_height, b.max_height);
        assert_eq!(a.growth_rate, b.growth_rate);
        assert_eq!(a.foliage_density, b.foliage_density);
        assert_eq!(a.branch_density, b.branch_density);
        assert_eq!(a.seed, seed);
    }
}

#[test]
fn generation_of_seed_42() {
    let s = PlantStructure::generate(42);
    assert_eq!(s.phenotype, Phenotype::Bushy);
    assert_eq!(s.max_height, 16);
    assert_eq!(s.growth_rate, 22);
    assert_eq!(s.foliage_density, 90);
    assert_eq!(s.branch_density, 100);
    assert_eq!(s.branches.len(), 52);
    assert_eq!(s.branches[0], Branch { level: 2, direction: 1, growth_start_day: 16, max_length: 10, thickness: 2, is_secondary: false, parent_index: None, curve: 0, can_bifurcate: false, bifurcation_day: 999 });
    assert_eq!(s.branches[2], Branch { level: 3, direction: -1, growth_start_day: 14, max_length: 11, thickness: 1, is_secondary: false, parent_index: None, curve: 0, can_bifurcate: true, bifurcation_day: 27 });
    assert_eq!(s.branches[51], Branch { level: 13, direction: -1, growth_start_day: 17, max_length: 7, thickness: 1, is_secondary: true, parent_index: Some(21), curve: 1, can_bifurcate: false, bifurcation_day: 999 });
    assert_eq!(s.trunk_splits, vec![TrunkSplit { split_day: 22, split_level: 4, angle: 2 }, TrunkSplit { split_day: 36, split_level: 7, angle: -2 }]);
}

#[test]
fn generation_of_other_seeds() {
    let s0 = PlantStructure::generate(0);
    assert_eq!(s0.phenotype, Phenotype::Balanced);
    assert_eq!(s0.max_height, 19);
    assert_eq!(s0.branches.len(), 46);
    assert!(s0.trunk_splits.is_empty());
    let s7 = PlantStructure::generate(7);
    assert_eq!(s7.phenotype, Phenotype::Bushy);
    assert_eq!(s7.max_height, 16);
    assert_eq!(s7.branches.len(), 70);
    assert_eq!(s7.branches[0], Branch { level: 15, direction: 1, growth_start_day: 5, max_length: 11, thickness: 2, is_secondary: false, parent_index: None, curve: 1, can_bifurcate: true, bifurcation_day: 19 });
    assert_eq!(s7.trunk_splits, vec![TrunkSplit { split_day: 47, split_level: 7, angle: 0 }]);
}

#[test]
fn generated_structures_are_well_formed() {
    for seed in 0u64..200 {
        let s = PlantStructure::generate(seed);
        assert!(12 <= s.max_height && s.max_height <= 24);
        let primaries = s.branches.iter().filter(|b| !b.is_secondary).count();
        assert!(primaries >= 15 && primaries <= 40);
        for (i, b) in s.branches.iter().enumerate() {
            assert!(b.level >= 1 && b.level < s.max_height);
            assert!(b.direction == -1 || b.direction == 1);
            assert!(b.max_length >= 4 && b.max_length <= 13);
            assert!(b.curve >= -1 && b.curve <= 1);
            match b.parent_index {
                Some(p) => {
                    assert!(b.is_secondary);
                    assert!(p < primaries && p < i);
                    assert!(b.thickness == 1);
                }
                None => assert!(!b.is_secondary),
            }
            if !b.can_bifurcate {
                assert_eq!(b.bifurcation_day, 999);
            }
        }
        assert!(s.trunk_splits.len() <= 2);
        for t in &s.trunk_splits {
            assert!(t.split_day >= 20 && t.split_day < 50);
            assert!(t.split_level >= 4 && t.split_level < 8);
            assert!(t.angle >= -2 && t.angle <= 2);
        }
    }
}

#[test]
fn trunk_height_grows_to_its_maximum() {
    let s = PlantStructure::generate(42);
    let heights: Vec<usize> = [0u32, 4, 5, 50, 72, 73, 100, 1000].iter().map(|d| s.trunk_height(*d)).collect();
    assert_eq!(heights, vec![0, 0, 1, 11, 15, 16, 16, 16]);
    assert_eq!(s.trunk_height(u32::MAX), 16);
    let mut last = 0;
    for day in 0u32..200 {
        let h = s.trunk_height(day);
        assert!(h >= last && h <= s.max_height);
        last = h;
    }
}

#[test]
fn branch_length_follows_the_growth_curve() {
    let s = PlantStructure::generate(42);
    let b = Branch { level: 2, direction: 1, growth_start_day: 16, max_length: 10, thickness: 2, is_secondary: false, parent_index: None, curve: 0, can_bifurcate: false, bifurcation_day: 999 };
    let got: Vec<u32> = [15u32, 16, 17, 20, 25, 30, 40, 46, 100].iter().map(|d| s.branch_length(&b, *d)).collect();
    assert_eq!(got, vec![0, 0, 0, 1, 2, 5, 10, 10, 10]);
    let short = Branch { max_length: 4, growth_start_day: 0, ..b };
    let got: Vec<u32> = (0u32..14).map(|d| s.branch_length(&short, d)).collect();
    assert_eq!(got, vec![0, 0, 0, 0, 1, 2, 2, 3, 4, 4, 4, 4, 4, 4]);
    let eleven = Branch { max_length: 11, growth_start_day: 0, ..b };
    assert_eq!(s.branch_length(&eleven, 7), 1);
    assert_eq!(s.branch_length(&eleven, 26), 11);
    assert_eq!(s.branch_length(&eleven, 25), 10);
    let long = Branch { max_length: 20, growth_start_day: 0, ..b };
    assert_eq!(s.branch_length(&long, 1000), 20);
    assert_eq!(s.branch_length(&long, 0), 0);
    let none = Branch { max_length: 0, ..b };
    assert_eq!(s.branch_length(&none, 500), 0);
}

#[test]
fn visible_branches_are_those_started() {
    let s = PlantStructure::generate(42);
    let v = s.visible_branches(20);
    assert_eq!(v.len(), 51);
    assert!(v.iter().all(|b| b.growth_start_day <= 20));
    assert_eq!(s.visible_branches(0).len(), 0);
    assert_eq!(s.visible_branches(1000).len(), s.branches.len());
    let early = s.visible_branches(20);
    let later = s.visible_branches(30);
    assert!(early.iter().all(|b| later.contains(b)));
}

#[test]
fn foliage_density_grows_until_day_90() {
    let s = PlantStructure::generate(42);
    assert_eq!(s.current_foliage_density(0), 0);
    assert_eq!(s.current_foliage_density(45), 450);
    assert_eq!(s.current_foliage_density(90), 900);
    assert_eq!(s.current_foliage_density(500), 900);
    assert!(!s.foliage_exceeds(50, 500));
    assert!(s.foliage_exceeds(51, 500));
    assert!(!s.foliage_exceeds(60, 600));
    assert!(s.foliage_exceeds(61, 600));
}

#[test]
fn cache_generates_once_per_seed() {
    let mut cache = StructureCache::new();
    assert!(!cache.contains(42));
    let a = cache.get_or_generate(42);
    assert!(cache.contains(42));
    assert!(!cache.contains(7));
    let b = cache.get_or_generate(42);
    assert_eq!(a.branches, b.branches);
    assert_eq!(a.trunk_splits, b.trunk_splits);
    assert_eq!(a.branches, PlantStructure::generate(42).branches);
}

fn expected_seed_42_flowering() -> Vec<&'static str> {
    vec![
        "                                                                      ",
        "                                                                      ",
        "                                                                      ",
        "                                                                      ",
        "                                                                      ",
        "                                                                      ",
        "                                                                      ",
        "                                                                      ",
        "                                                                      ",
        "                                                                      ",
        "                                                                      ",
        "                                                                      ",
        "                            o/             o                          ",
        "                      o/o/    //         //                           ",
        "                        ////   o_|\\|/|=========o                      ",
        "                      o__________|\\|/|_____/o                         ",
        "                          o=////=|\\|/|o__//_o                         ",
        "                           o__///|\\|/|=//==o\\                         ",
        "                           o____/|\\|/|//\\ /  o                        ",
        "                         o   o___\\\\|/\\/___o                           ",
        "                        o/========\\|/_\\====o                          ",
        "                          //o/__o_\\|/==\\\\==oo_o                       ",
        "                           o______\\|/____\\\\o                          ",
        "                          o   o//_\\        \\\\                         ",
        "                        o_________\\|         \\\\                       ",
        "                                   |/========o o                      ",
        "                                   |                                  ",
        "                ~~~~~~~~~~~~~~~~~~~~~~~~~~~~~~~~~~~~~~                ",
    ]
}

fn expected_seed_7_ready() -> Vec<&'static str> {
    vec![
        "                                                                      ",
        "                                                                      ",
        "                                                                      ",
        "                                                                      ",
        "                                                                      ",
        "                                                                      ",
        "                                                                      ",
        "                      */                                              ",
        "                        //                   /*                       ",
        "                          //               //                         ",
        "                            //           ///*                         ",
        "                       *.     //   ║   //// *                         ",
        "                         *.*. * /=\\║/=///\\ /                          ",
        "                        *=========\\║/______*                          ",
        "                           *//_*__\\║/======****                       ",
        "                           *======\\║/__________*                      ",
        "                        *=======/=\\║/=\\__//*                          ",
        "                           *______\\║  *\\\\ *                           ",
        "                         *  \\*\\\\   ║/=========*                       ",
        "                      *___________\\\\/______\\\\                         ",
        "                      *__**__*____\\║       /*\\\\                       ",
        "                      *___________\\║/===========*                     ",
        "                       *=====\\///=\\║/========*                        ",
        "                         *________\\║/=/\\\\\\\\                           ",
        "                              \\\\\\=\\║/_______**                        ",
        "                            \\\\\\\\/_\\║/=========*                       ",
        "                          \\\\\\\\     ║                                  ",
        "                ~~~~~~~~~~~~~~~~~~~~~~~~~~~~~~~~~~~~~~                ",
    ]
}

#[test]
fn render_of_seed_42_flowering() {
    let rows = get_plant_ascii(GrowthStage::Flowering, 60, 42, 0);
    assert_eq!(rows, expected_seed_42_flowering());
}

#[test]
fn render_of_seed_7_ready_with_split() {
    let rows = get_plant_ascii(GrowthStage::ReadyToHarvest, 95, 7, 3);
    assert_eq!(rows, expected_seed_7_ready());
}

#[test]
fn render_has_fixed_shape() {
    let stages = [GrowthStage::Seed, GrowthStage::Germination, GrowthStage::Seedling, GrowthStage::Vegetative, GrowthStage::PreFlower, GrowthStage::Flowering, GrowthStage::ReadyToHarvest];
    for seed in [0u64, 7, 42, 99, u64::MAX] {
        let s = PlantStructure::generate(seed);
        for stage in stages {
            for day in [0u32, 1, 10, 30, 60, 90, 200, u32::MAX] {
                for frame in [0usize, 1, 5, 11, usize::MAX] {
                    let rows = render_stage(&s, stage, day, frame);
                    assert_eq!(rows.len(), 28);
                    for r in &rows {
                        assert_eq!(r.chars().count(), 70);
                    }
                    let soil: Vec<char> = rows[27].chars().collect();
                    for x in 16..54 {
                        assert_eq!(soil[x], '~');
                    }
                }
            }
        }
    }
}

#[test]
fn soil_overrides_trunk() {
    let rows = get_plant_ascii(GrowthStage::Vegetative, 40, 42, 0);
    let soil: Vec<char> = rows[27].chars().collect();
    assert_eq!(soil[35], '~');
    assert_eq!(&rows[27][16..54], "~~~~~~~~~~~~~~~~~~~~~~~~~~~~~~~~~~~~~~");
}

#[test]
fn day_zero_shows_only_soil() {
    let rows = get_plant_ascii(GrowthStage::Seedling, 0, 42, 0);
    for r in &rows[..27] {
        assert_eq!(r.as_str(), " ".repeat(70));
    }
    let rows = get_plant_ascii(GrowthStage::Seedling, 8, 7, 0);
    assert_eq!(rows[26].chars().nth(35), Some('|'));
    let rows = get_plant_ascii(GrowthStage::Seedling, 8, 7, 1);
    assert_eq!(rows[26].chars().nth(35), Some('!'));
}

#[test]
fn flowers_tip_branches_only_when_shown() {
    let s = PlantStructure::generate(42);
    let with = render_plant_structure(60, &s, 0, true, 'o', GrowthStage::Flowering);
    let without = render_plant_structure(60, &s, 0, false, 'o', GrowthStage::Flowering);
    assert!(with.iter().any(|r| r.contains('o')));
    assert!(!without.iter().any(|r| r.contains('o')));
}

#[test]
fn decorations_cycle() {
    let borders: Vec<&str> = (0..8).map(get_border_decoration).collect();
    assert_eq!(borders, vec!["~", "~", "-", "-", "~", "~", "-", "-"]);
    let drops: Vec<&str> = (0..8).map(get_water_drops).collect();
    assert_eq!(drops, vec![".", "o", ".", "O", ".", "o", ".", " "]);
    let sparkles: Vec<&str> = (0..12).map(get_nutrient_sparkles).collect();
    assert_eq!(sparkles, vec!["*", "+", "*", "x", "*", "+", "*", "X", "*", "x", "*", " "]);
    assert_eq!(get_water_drops(9), "o");
    assert_eq!(get_nutrient_sparkles(19), "X");
}

#[test]
fn glyph_classes() {
    assert_eq!(glyph_class('|'), GlyphClass::Trunk);
    assert_eq!(glyph_class('║'), GlyphClass::Trunk);
    assert_eq!(glyph_class('\\'), GlyphClass::Branch);
    assert_eq!(glyph_class('='), GlyphClass::Branch);
    assert_eq!(glyph_class('*'), GlyphClass::Sparkle);
    assert_eq!(glyph_class('o'), GlyphClass::SmallBud);
    assert_eq!(glyph_class('@'), GlyphClass::LargeBud);
    assert_eq!(glyph_class(':'), GlyphClass::Foliage);
    assert_eq!(glyph_class('~'), GlyphClass::Soil);
    assert_eq!(glyph_class('.'), GlyphClass::Plain);
    assert_eq!(glyph_class(' '), GlyphClass::Plain);
}
