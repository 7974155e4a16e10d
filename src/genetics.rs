use vstd::prelude::*;
use vstd::string::StrSliceExecFns;

verus! {

/// Strain record of the strain database. Percentages are in thousandths of a
/// percent.
#[derive(Debug, Clone)]
pub struct StrainInfo {
    pub name: String,
    pub strain_type: String,
    pub genetics: String,
    pub thc_min: u32,
    pub thc_max: u32,
    pub cbd_min: u32,
    pub cbd_max: u32,
    pub flowering_time: u32,
    pub difficulty: String,
    pub yield_potential: String,
    pub dominant_terpenes: Vec<String>,
    pub aroma: Vec<String>,
    pub effects: Vec<String>,
    pub height: String,
    pub phenotype: String,
}

/// Genetic traits of one plant.
#[derive(Debug, Clone)]
pub struct Genetics {
    /// Base yield in milligrams (50 to 150 grams).
    pub yield_potential: u32,
    /// Growth-rate multiplier in thousandths (900 to 1100).
    pub growth_rate: u32,
    /// Tolerance to care mistakes in thousandths (0 to 1000).
    pub resilience: u32,
    /// Highest achievable quality, in thousandths of a percent (70% to 100%).
    pub quality_ceiling: u32,
    /// The strain the plant was drawn from, if any.
    pub strain_info: Option<StrainInfo>,
    /// THC content in thousandths of a percent.
    pub thc_percent: u32,
    /// CBD content in thousandths of a percent.
    pub cbd_percent: u32,
}

/// Relies on `rand::thread_rng` and `Rng::gen_range` over `lo..=hi`: a value
/// inside that non-empty range.
#[verifier::external_body]
fn draw_between(lo: u64, hi: u64) -> (r: u64)
    requires
        lo <= hi,
    ensures
        lo <= r <= hi,
{
    rand::Rng::gen_range(&mut rand::thread_rng(), lo..=hi)
}

/// Whether two texts are equal, char for char.
pub fn same_text(a: &str, b: &str) -> (r: bool)
    ensures
        r == (a@ == b@),
{
    let n = a.unicode_len();
    if n != b.unicode_len() {
        return false;
    }
    let mut i: usize = 0;
    while i < n
        invariant
            n == a@.len() == b@.len(),
            i <= n,
            forall|k: int| 0 <= k < i ==> a@[k] == b@[k],
        decreases n - i,
    {
        if a.get_char(i) != b.get_char(i) {
            return false;
        }
        i = i + 1;
    }
    assert(a@ =~= b@);
    true
}

/// Range of the yield potential (milligrams) for a strain's yield class.
pub open spec fn yield_range(s: Option<StrainInfo>) -> (int, int) {
    match s {
        Some(s) => if s.yield_potential@ == "High"@ {
            (100_000, 150_000)
        } else if s.yield_potential@ == "Medium"@ {
            (70_000, 110_000)
        } else if s.yield_potential@ == "Low"@ {
            (50_000, 80_000)
        } else {
            (50_000, 150_000)
        },
        None => (50_000, 150_000),
    }
}

/// Range of the resilience (thousandths) for a strain's difficulty.
pub open spec fn resilience_range(s: Option<StrainInfo>) -> (int, int) {
    match s {
        Some(s) => if s.difficulty@ == "Easy"@ {
            (700, 1000)
        } else if s.difficulty@ == "Medium"@ {
            (400, 700)
        } else if s.difficulty@ == "Hard"@ {
            (0, 400)
        } else {
            (0, 1000)
        },
        None => (0, 1000),
    }
}

/// Range of the quality ceiling (thousandths of a percent) for a strain's type.
pub open spec fn quality_range(s: Option<StrainInfo>) -> (int, int) {
    match s {
        Some(s) => if s.strain_type@ == "Sativa"@ || s.strain_type@ == "Indica"@ {
            (80_000, 100_000)
        } else if s.strain_type@ == "Hybrid"@ {
            (85_000, 100_000)
        } else {
            (70_000, 100_000)
        },
        None => (70_000, 100_000),
    }
}

/// `(lo, hi)` in increasing order.
pub open spec fn ordered(a: u32, b: u32) -> (int, int) {
    if a <= b {
        (a as int, b as int)
    } else {
        (b as int, a as int)
    }
}

/// Range of the THC content (thousandths of a percent).
pub open spec fn thc_range(s: Option<StrainInfo>) -> (int, int) {
    match s {
        Some(s) => ordered(s.thc_min, s.thc_max),
        None => (15_000, 25_000),
    }
}

/// Range of the CBD content (thousandths of a percent).
pub open spec fn cbd_range(s: Option<StrainInfo>) -> (int, int) {
    match s {
        Some(s) => ordered(s.cbd_min, s.cbd_max),
        None => (100, 1000),
    }
}

/// `v` lies in the closed range.
pub open spec fn within(v: int, range: (int, int)) -> bool {
    range.0 <= v <= range.1
}

/// Two strain records with the same content.
pub open spec fn same_strain(a: StrainInfo, b: StrainInfo) -> bool {
    &&& a.name@ == b.name@
    &&& a.strain_type@ == b.strain_type@
    &&& a.genetics@ == b.genetics@
    &&& a.thc_min == b.thc_min
    &&& a.thc_max == b.thc_max
    &&& a.cbd_min == b.cbd_min
    &&& a.cbd_max == b.cbd_max
    &&& a.flowering_time == b.flowering_time
    &&& a.difficulty@ == b.difficulty@
    &&& a.yield_potential@ == b.yield_potential@
    &&& a.height@ == b.height@
    &&& a.phenotype@ == b.phenotype@
    &&& same_texts(a.dominant_terpenes@, b.dominant_terpenes@)
    &&& same_texts(a.aroma@, b.aroma@)
    &&& same_texts(a.effects@, b.effects@)
}

/// Two lists of texts with the same content.
pub open spec fn same_texts(a: Seq<String>, b: Seq<String>) -> bool {
    a.len() == b.len() && forall|i: int| 0 <= i < a.len() ==> (#[trigger] a[i])@ == b[i]@
}

/// What `Genetics::random` promises: every trait within the range its
/// strain (or the lack of one) sets, and the strain taken from `strains`.
pub open spec fn drawn_from(g: Genetics, strains: Seq<StrainInfo>) -> bool {
    &&& (strains.len() == 0 <==> g.strain_info is None)
    &&& (g.strain_info matches Some(s) ==> exists|i: int|
        0 <= i < strains.len() && same_strain(s, #[trigger] strains[i]))
    &&& within(g.yield_potential as int, yield_range(g.strain_info))
    &&& within(g.resilience as int, resilience_range(g.strain_info))
    &&& within(g.quality_ceiling as int, quality_range(g.strain_info))
    &&& within(g.thc_percent as int, thc_range(g.strain_info))
    &&& within(g.cbd_percent as int, cbd_range(g.strain_info))
    &&& 900 <= g.growth_rate <= 1100
}

/// A copy of a list of texts.
fn copy_texts(v: &Vec<String>) -> (r: Vec<String>)
    ensures
        same_texts(r@, v@),
{
    let mut out: Vec<String> = Vec::new();
    let mut i: usize = 0;
    while i < v.len()
        invariant
            i <= v@.len(),
            out@.len() == i,
            forall|k: int| 0 <= k < i ==> (#[trigger] out@[k])@ == v@[k]@,
        decreases v@.len() - i,
    {
        out.push(v[i].clone());
        i = i + 1;
    }
    out
}

impl StrainInfo {
    /// A copy with the same content.
    pub fn duplicate(&self) -> (r: Self)
        ensures
            same_strain(r, *self),
    {
        StrainInfo {
            name: self.name.clone(),
            strain_type: self.strain_type.clone(),
            genetics: self.genetics.clone(),
            thc_min: self.thc_min,
            thc_max: self.thc_max,
            cbd_min: self.cbd_min,
            cbd_max: self.cbd_max,
            flowering_time: self.flowering_time,
            difficulty: self.difficulty.clone(),
            yield_potential: self.yield_potential.clone(),
            dominant_terpenes: copy_texts(&self.dominant_terpenes),
            aroma: copy_texts(&self.aroma),
            effects: copy_texts(&self.effects),
            height: self.height.clone(),
            phenotype: self.phenotype.clone(),
        }
    }
}

/// A random value between `lo` and `hi`, whichever order they come in.
fn draw_in(lo: u32, hi: u32) -> (r: u32)
    ensures
        within(r as int, ordered(lo, hi)),
{
    if lo <= hi {
        draw_between(lo as u64, hi as u64) as u32
    } else {
        draw_between(hi as u64, lo as u64) as u32
    }
}

impl Genetics {
    /// Random genetics: a strain drawn from `strains` (none when it is
    /// empty), then each trait drawn within the range that the strain's
    /// yield class, difficulty, type and cannabinoid bounds set.
    pub fn random(strains: &Vec<StrainInfo>) -> (r: Self)
        ensures
            drawn_from(r, strains@),
    {
        let strain_info: Option<StrainInfo> = if strains.len() > 0 {
            let i = draw_between(0, (strains.len() - 1) as u64) as usize;
            Some(strains[i].duplicate())
        } else {
            None
        };
        let (yield_potential, resilience, quality_ceiling, thc_percent, cbd_percent) = match &strain_info {
            Some(strain) => {
                let yield_base = if same_text(strain.yield_potential.as_str(), "High") {
                    draw_in(100_000, 150_000)
                } else if same_text(strain.yield_potential.as_str(), "Medium") {
                    draw_in(70_000, 110_000)
                } else if same_text(strain.yield_potential.as_str(), "Low") {
                    draw_in(50_000, 80_000)
                } else {
                    draw_in(50_000, 150_000)
                };
                let resilience_val = if same_text(strain.difficulty.as_str(), "Easy") {
                    draw_in(700, 1000)
                } else if same_text(strain.difficulty.as_str(), "Medium") {
                    draw_in(400, 700)
                } else if same_text(strain.difficulty.as_str(), "Hard") {
                    draw_in(0, 400)
                } else {
                    draw_in(0, 1000)
                };
                let quality_val = if same_text(strain.strain_type.as_str(), "Sativa") || same_text(
                    strain.strain_type.as_str(),
                    "Indica",
                ) {
                    draw_in(80_000, 100_000)
                } else if same_text(strain.strain_type.as_str(), "Hybrid") {
                    draw_in(85_000, 100_000)
                } else {
                    draw_in(70_000, 100_000)
                };
                let thc = draw_in(strain.thc_min, strain.thc_max);
                let cbd = draw_in(strain.cbd_min, strain.cbd_max);
                (yield_base, resilience_val, quality_val, thc, cbd)
            },
            None => (
                draw_in(50_000, 150_000),
                draw_in(0, 1000),
                draw_in(70_000, 100_000),
                draw_in(15_000, 25_000),
                draw_in(100, 1000),
            ),
        };
        let growth_rate = draw_in(900, 1100);
        Genetics {
            yield_potential,
            growth_rate,
            resilience,
            quality_ceiling,
            strain_info,
            thc_percent,
            cbd_percent,
        }
    }
}

} // verus!
