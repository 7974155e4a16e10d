use vstd::prelude::*;
use crate::rng::{SimpleRng, lcg_step, lcg_output};

verus! {

/// Body plan of a generated plant.
#[derive(Debug, Clone, Copy, PartialEq, Eq, Structural)]
pub enum Phenotype {
    /// Tall, thin, spaced-out branches.
    Tall,
    /// Short and dense, many branches.
    Bushy,
    /// Between the two.
    Balanced,
}

/// A scheduled fork of the main stem.
#[derive(Debug, Clone, Copy, PartialEq, Eq, Structural)]
pub struct TrunkSplit {
    /// Day from which the fork is drawn.
    pub split_day: u32,
    /// Trunk row (counted up from the soil) where the fork sits.
    pub split_level: usize,
    /// Horizontal offset of the two arms (-2 to 2; its magnitude is used).
    pub angle: i8,
}

/// One branch of the skeleton.
#[derive(Debug, Clone, Copy, PartialEq, Eq, Structural)]
pub struct Branch {
    /// Trunk row (counted up from the soil) where the branch attaches.
    pub level: usize,
    /// -1 grows left, 1 grows right.
    pub direction: i8,
    /// Day the branch starts growing.
    pub growth_start_day: u32,
    /// Length the branch tends to.
    pub max_length: u8,
    /// 1 to 3.
    pub thickness: u8,
    /// Grown from another branch.
    pub is_secondary: bool,
    /// Index of the parent of a secondary branch.
    pub parent_index: Option<usize>,
    /// Bend: -1, 0 or 1.
    pub curve: i8,
    /// Whether the branch forks in two.
    pub can_bifurcate: bool,
    /// Day from which a forking branch forks.
    pub bifurcation_day: u32,
}

/// Day value of a fork that never comes.
pub const NEVER: u32 = 999;

/// Mathematical content of a structure.
pub struct StructureModel {
    pub seed: u64,
    pub phenotype: Phenotype,
    pub branch_density: u32,
    pub foliage_density: u32,
    pub max_height: usize,
    pub growth_rate: u32,
    pub branches: Seq<Branch>,
    pub trunk_splits: Seq<TrunkSplit>,
}

/// A procedurally generated plant skeleton; one per seed.
#[derive(Debug, Clone)]
pub struct PlantStructure {
    pub branches: Vec<Branch>,
    pub seed: u64,
    pub phenotype: Phenotype,
    /// Branch density in percent.
    pub branch_density: u32,
    /// Base foliage density in percent.
    pub foliage_density: u32,
    /// Trunk forks.
    pub trunk_splits: Vec<TrunkSplit>,
    /// Tallest the trunk gets, in rows.
    pub max_height: usize,
    /// Trunk growth in hundredths of a row per day.
    pub growth_rate: u32,
}

impl View for PlantStructure {
    type V = StructureModel;

    open spec fn view(&self) -> StructureModel {
        StructureModel {
            seed: self.seed,
            phenotype: self.phenotype,
            branch_density: self.branch_density,
            foliage_density: self.foliage_density,
            max_height: self.max_height,
            growth_rate: self.growth_rate,
            branches: self.branches@,
            trunk_splits: self.trunk_splits@,
        }
    }
}

// ---------------------------------------------------------------------------
// The generator as mathematics: each draw steps the state once.

/// Phenotype of the first draw.
pub open spec fn phenotype_of(v: u64) -> Phenotype {
    if v % 3 == 0 {
        Phenotype::Tall
    } else if v % 3 == 1 {
        Phenotype::Bushy
    } else {
        Phenotype::Balanced
    }
}

/// (branch density %, foliage density %, lowest max height, growth rate in hundredths).
pub open spec fn phenotype_params(p: Phenotype) -> (u32, u32, usize, u32) {
    match p {
        Phenotype::Tall => (60, 40, 20, 25),
        Phenotype::Bushy => (100, 90, 12, 22),
        Phenotype::Balanced => (80, 70, 16, 23),
    }
}

/// Number of primary branches for a draw `v`.
pub open spec fn primary_count_of(p: Phenotype, v: u64) -> int {
    match p {
        Phenotype::Tall => 15 + v % 10,
        Phenotype::Bushy => 25 + v % 15,
        Phenotype::Balanced => 20 + v % 12,
    }
}

/// Secondary branches per phenotype: half, four fifths or three fifths of the primaries.
pub open spec fn secondary_count_of(p: Phenotype, n: int) -> int {
    match p {
        Phenotype::Tall => n / 2,
        Phenotype::Bushy => n * 4 / 5,
        Phenotype::Balanced => n * 3 / 5,
    }
}

/// Days for `n` trunk rows: 1.2, 0.8 or 1 day per row, rounded down.
pub open spec fn days_for_rows(p: Phenotype, n: int) -> int {
    match p {
        Phenotype::Tall => n * 6 / 5,
        Phenotype::Bushy => n * 4 / 5,
        Phenotype::Balanced => n,
    }
}

/// Left (-1) on an even draw, right (1) on an odd one.
pub open spec fn sign_of(v: u64) -> i8 {
    if v % 2 == 0 {
        -1i8
    } else {
        1i8
    }
}

/// A primary branch drawn from state `st`, with the state after it.
pub open spec fn primary_spec(p: Phenotype, mh: usize, st: u64) -> (Branch, u64) {
    let s1 = lcg_step(st);
    let level: int = match p {
        Phenotype::Tall => 1 + lcg_output(s1) % ((mh - 1) as u64),
        _ => 2 + lcg_output(s1) % ((mh - 2) as u64),
    };
    let s2 = lcg_step(s1);
    let start: int = 4 + days_for_rows(p, mh - level) + lcg_output(s2) % 3;
    let s3 = lcg_step(s2);
    let direction = sign_of(lcg_output(s3));
    let s4 = lcg_step(s3);
    let max_length: int = match p {
        Phenotype::Bushy => 8 + lcg_output(s4) % 6,
        _ => 6 + lcg_output(s4) % 8,
    };
    let s5 = match p {
        Phenotype::Tall => s4,
        _ => lcg_step(s4),
    };
    let thickness: u8 = match p {
        Phenotype::Tall => 1u8,
        Phenotype::Bushy => if lcg_output(s5) % 2 == 0 { 2u8 } else { 1u8 },
        Phenotype::Balanced => if lcg_output(s5) % 3 == 0 { 2u8 } else { 1u8 },
    };
    let s6 = lcg_step(s5);
    let bends = lcg_output(s6) % 3 == 0;
    let s7 = if bends { lcg_step(s6) } else { s6 };
    let curve: i8 = if bends { sign_of(lcg_output(s7)) } else { 0i8 };
    let s8 = lcg_step(s7);
    let forks = lcg_output(s8) % 3 == 0;
    let s9 = if forks { lcg_step(s8) } else { s8 };
    let fork_day: int = if forks { start + 8 + lcg_output(s9) % 8 } else { NEVER as int };
    (
        Branch {
            level: level as usize,
            direction,
            growth_start_day: start as u32,
            max_length: max_length as u8,
            thickness,
            is_secondary: false,
            parent_index: None,
            curve,
            can_bifurcate: forks,
            bifurcation_day: fork_day as u32,
        },
        s9,
    )
}

/// Start day, level, direction and length of a secondary branch grown from
/// `parent`, drawn from state `st`, with the state after them.
pub open spec fn secondary_body_spec(mh: usize, parent: Branch, st: u64) -> (u32, usize, i8, u8, u64) {
    let s2 = lcg_step(st);
    let start: int = parent.growth_start_day + 5 + lcg_output(s2) % 5;
    let s3 = lcg_step(s2);
    let shifted: int = parent.level + lcg_output(s3) % 3 - 1;
    let level: int = if shifted < 1 {
        1
    } else if shifted > mh - 1 {
        mh - 1
    } else {
        shifted
    };
    let s4 = lcg_step(s3);
    let direction: i8 = if lcg_output(s4) % 3 == 0 {
        parent.direction
    } else {
        (-parent.direction) as i8
    };
    let s5 = lcg_step(s4);
    let max_length: int = 4 + lcg_output(s5) % 6;
    (start as u32, level as usize, direction, max_length as u8, s5)
}

/// Curve, fork and fork day of a secondary branch starting on `start`, drawn
/// from state `st`, with the state after them.
pub open spec fn secondary_tail_spec(start: u32, st: u64) -> (i8, bool, u32, u64) {
    let s6 = lcg_step(st);
    let bends = lcg_output(s6) % 2 == 0;
    let s7 = if bends { lcg_step(s6) } else { s6 };
    let curve: i8 = if bends { sign_of(lcg_output(s7)) } else { 0i8 };
    let s8 = lcg_step(s7);
    let forks = lcg_output(s8) % 5 == 0;
    let s9 = if forks { lcg_step(s8) } else { s8 };
    let fork_day: int = if forks { start + 10 + lcg_output(s9) % 8 } else { NEVER as int };
    (curve, forks, fork_day as u32, s9)
}

/// A secondary branch drawn from state `st`, grown from one of `prims`.
pub open spec fn secondary_spec(mh: usize, prims: Seq<Branch>, st: u64) -> (Branch, u64) {
    let s1 = lcg_step(st);
    let parent_index: int = lcg_output(s1) as int % prims.len() as int;
    let (start, level, direction, max_length, s5) = secondary_body_spec(mh, prims[parent_index], s1);
    let (curve, forks, fork_day, s9) = secondary_tail_spec(start, s5);
    (
        Branch {
            level,
            direction,
            growth_start_day: start,
            max_length,
            thickness: 1,
            is_secondary: true,
            parent_index: Some(parent_index as usize),
            curve,
            can_bifurcate: forks,
            bifurcation_day: fork_day,
        },
        s9,
    )
}

/// A trunk split drawn from state `st`.
pub open spec fn split_spec(st: u64) -> (TrunkSplit, u64) {
    let s1 = lcg_step(st);
    let s2 = lcg_step(s1);
    let s3 = lcg_step(s2);
    (
        TrunkSplit {
            split_day: (20 + lcg_output(s1) % 30) as u32,
            split_level: (4 + lcg_output(s2) % 4) as usize,
            angle: (lcg_output(s3) % 5 - 2) as i8,
        },
        s3,
    )
}

/// `n` primary branches drawn in turn from state `st`, with the state after them.
pub open spec fn primaries_spec(p: Phenotype, mh: usize, st: u64, n: nat) -> (Seq<Branch>, u64)
    decreases n,
{
    if n == 0 {
        (Seq::empty(), st)
    } else {
        let (bs, s) = primaries_spec(p, mh, st, (n - 1) as nat);
        let (b, s2) = primary_spec(p, mh, s);
        (bs.push(b), s2)
    }
}

/// `n` secondary branches drawn in turn from state `st`, with the state after them.
pub open spec fn secondaries_spec(mh: usize, prims: Seq<Branch>, st: u64, n: nat) -> (
    Seq<Branch>,
    u64,
)
    decreases n,
{
    if n == 0 {
        (Seq::empty(), st)
    } else {
        let (bs, s) = secondaries_spec(mh, prims, st, (n - 1) as nat);
        let (b, s2) = secondary_spec(mh, prims, s);
        (bs.push(b), s2)
    }
}

/// `n` trunk splits drawn in turn from state `st`, with the state after them.
pub open spec fn splits_spec(st: u64, n: nat) -> (Seq<TrunkSplit>, u64)
    decreases n,
{
    if n == 0 {
        (Seq::empty(), st)
    } else {
        let (ts, s) = splits_spec(st, (n - 1) as nat);
        let (t, s2) = split_spec(s);
        (ts.push(t), s2)
    }
}

/// Number of trunk splits for a draw `v`.
pub open spec fn split_count_of(p: Phenotype, v: u64) -> nat {
    match p {
        Phenotype::Tall => if v % 3 == 0 { 1 } else { 0 },
        Phenotype::Bushy => if v % 2 == 0 { 1 } else { 2 },
        Phenotype::Balanced => if v % 4 == 0 { 1 } else { 0 },
    }
}

/// The structure that `seed` generates.
pub open spec fn generated(seed: u64) -> StructureModel {
    let s0 = ((seed as int + 1) % 0x1_0000_0000_0000_0000int) as u64;
    let s1 = lcg_step(s0);
    let p = phenotype_of(lcg_output(s1));
    let (bd, fd, base, rate) = phenotype_params(p);
    let s2 = lcg_step(s1);
    let mh = (base + lcg_output(s2) % 5) as usize;
    let s3 = lcg_step(s2);
    let np = primary_count_of(p, lcg_output(s3));
    let (prims, s4) = primaries_spec(p, mh, s3, np as nat);
    let (secs, s5) = secondaries_spec(mh, prims, s4, secondary_count_of(p, np) as nat);
    let s6 = lcg_step(s5);
    let (splits, _) = splits_spec(s6, split_count_of(p, lcg_output(s6)));
    StructureModel {
        seed,
        phenotype: p,
        branch_density: bd,
        foliage_density: fd,
        max_height: mh,
        growth_rate: rate,
        branches: prims + secs,
        trunk_splits: splits,
    }
}

// ---------------------------------------------------------------------------
// Well-formedness of what the generator produces.

/// Bounds that every generated branch keeps.
pub open spec fn branch_ok(b: Branch, mh: usize) -> bool {
    &&& 1 <= b.level < mh
    &&& b.direction == -1 || b.direction == 1
    &&& 4 <= b.max_length <= 13
    &&& 1 <= b.thickness <= 2
    &&& -1 <= b.curve <= 1
    &&& b.growth_start_day <= 100
    &&& !b.is_secondary ==> b.growth_start_day <= 40
    &&& b.is_secondary <==> b.parent_index.is_some()
    &&& b.bifurcation_day <= NEVER
}

/// Bounds that every generated split keeps.
pub open spec fn split_ok(t: TrunkSplit) -> bool {
    &&& 20 <= t.split_day < 50
    &&& 4 <= t.split_level < 8
    &&& -2 <= t.angle <= 2
}

impl StructureModel {
    /// Invariant of every generated structure.
    pub open spec fn wf(&self) -> bool {
        &&& 12 <= self.max_height <= 24
        &&& self.foliage_density <= 100
        &&& forall|i: int|
            0 <= i < self.branches.len() ==> branch_ok(#[trigger] self.branches[i], self.max_height)
        &&& forall|i: int|
            0 <= i < self.branches.len() ==> match (#[trigger] self.branches[i]).parent_index {
                Some(p) => p < i,
                None => true,
            }
        &&& forall|i: int| 0 <= i < self.trunk_splits.len() ==> split_ok(#[trigger] self.trunk_splits[i])
    }
}

/// `sign_of`, computed.
fn sign(v: u64) -> (r: i8)
    ensures
        r == sign_of(v),
{
    if v % 2 == 0 {
        -1
    } else {
        1
    }
}

/// Draws one primary branch.
fn gen_primary(rng: &mut SimpleRng, p: Phenotype, mh: usize) -> (r: Branch)
    requires
        12 <= mh <= 24,
    ensures
        (r, final(rng).state) == primary_spec(p, mh, old(rng).state),
        branch_ok(r, mh),
        r.parent_index.is_none(),
{
    let v1 = rng.next();
    let level: usize = match p {
        Phenotype::Tall => 1 + (v1 % ((mh - 1) as u64)) as usize,
        _ => 2 + (v1 % ((mh - 2) as u64)) as usize,
    };
    let rows = (mh - level) as u32;
    let level_days: u32 = match p {
        Phenotype::Tall => rows * 6 / 5,
        Phenotype::Bushy => rows * 4 / 5,
        Phenotype::Balanced => rows,
    };
    let v2 = rng.next();
    let start: u32 = 4 + level_days + (v2 % 3) as u32;
    let v3 = rng.next();
    let direction = sign(v3);
    let v4 = rng.next();
    let max_length: u8 = match p {
        Phenotype::Bushy => 8 + (v4 % 6) as u8,
        _ => 6 + (v4 % 8) as u8,
    };
    let thickness: u8 = match p {
        Phenotype::Tall => 1,
        Phenotype::Bushy => if rng.next() % 2 == 0 { 2 } else { 1 },
        Phenotype::Balanced => if rng.next() % 3 == 0 { 2 } else { 1 },
    };
    let curve: i8 = if rng.next() % 3 == 0 {
        sign(rng.next())
    } else {
        0
    };
    let can_bifurcate = rng.next() % 3 == 0;
    let bifurcation_day: u32 = if can_bifurcate {
        start + 8 + (rng.next() % 8) as u32
    } else {
        NEVER
    };
    Branch {
        level,
        direction,
        growth_start_day: start,
        max_length,
        thickness,
        is_secondary: false,
        parent_index: None,
        curve,
        can_bifurcate,
        bifurcation_day,
    }
}

/// Draws one secondary branch, grown from one of the first `primary_count` branches.
fn gen_secondary(rng: &mut SimpleRng, mh: usize, branches: &Vec<Branch>, primary_count: usize) -> (r: Branch)
    requires
        12 <= mh <= 24,
        0 < primary_count <= branches@.len(),
        forall|i: int| 0 <= i < primary_count ==> branch_ok(#[trigger] branches@[i], mh),
        forall|i: int| 0 <= i < primary_count ==> !(#[trigger] branches@[i]).is_secondary,
    ensures
        (r, final(rng).state) == secondary_spec(mh, branches@.subrange(0, primary_count as int), old(rng).state),
        branch_ok(r, mh),
        r.parent_index.is_some() && r.parent_index.unwrap() < primary_count,
{
    let ghost prims = branches@.subrange(0, primary_count as int);
    let v1 = rng.next();
    let parent_index: usize = (v1 as usize) % primary_count;
    let parent = branches[parent_index];
    assert(parent == prims[parent_index as int]);
    let (start, level, direction, max_length) = secondary_body(rng, mh, parent);
    let (curve, can_bifurcate, bifurcation_day) = secondary_tail(rng, start);
    Branch {
        level,
        direction,
        growth_start_day: start,
        max_length,
        thickness: 1,
        is_secondary: true,
        parent_index: Some(parent_index),
        curve,
        can_bifurcate,
        bifurcation_day,
    }
}

/// Start day, level, direction and length of a secondary branch.
fn secondary_body(rng: &mut SimpleRng, mh: usize, parent: Branch) -> (r: (u32, usize, i8, u8))
    requires
        12 <= mh <= 24,
        branch_ok(parent, mh),
        !parent.is_secondary,
    ensures
        (r.0, r.1, r.2, r.3, final(rng).state) == secondary_body_spec(mh, parent, old(rng).state),
        r.0 <= 60,
        1 <= r.1 < mh,
        r.2 == -1 || r.2 == 1,
        4 <= r.3 <= 9,
{
    let v2 = rng.next();
    let start: u32 = parent.growth_start_day + 5 + (v2 % 5) as u32;
    let v3 = rng.next();
    let shifted: usize = parent.level + (v3 % 3) as usize;
    let level: usize = if shifted < 2 {
        1
    } else if shifted - 1 > mh - 1 {
        mh - 1
    } else {
        shifted - 1
    };
    let v4 = rng.next();
    let direction: i8 = if v4 % 3 == 0 {
        parent.direction
    } else {
        -parent.direction
    };
    let v5 = rng.next();
    let max_length: u8 = 4 + (v5 % 6) as u8;
    (start, level, direction, max_length)
}

/// Curve and fork of a secondary branch (the draws after its length).
fn secondary_tail(rng: &mut SimpleRng, start: u32) -> (r: (i8, bool, u32))
    requires
        start <= 60,
    ensures
        (r.0, r.1, r.2, final(rng).state) == secondary_tail_spec(start, old(rng).state),
        -1 <= r.0 <= 1,
        r.2 <= NEVER,
        r.1 || r.2 == NEVER,
{
    let curve: i8 = if rng.next() % 2 == 0 {
        sign(rng.next())
    } else {
        0
    };
    let can_bifurcate = rng.next() % 5 == 0;
    let bifurcation_day: u32 = if can_bifurcate {
        start + 10 + (rng.next() % 8) as u32
    } else {
        NEVER
    };
    (curve, can_bifurcate, bifurcation_day)
}

/// Draws one trunk split.
fn gen_split(rng: &mut SimpleRng) -> (r: TrunkSplit)
    ensures
        (r, final(rng).state) == split_spec(old(rng).state),
        split_ok(r),
{
    let v1 = rng.next();
    let v2 = rng.next();
    let v3 = rng.next();
    TrunkSplit {
        split_day: 20 + (v1 % 30) as u32,
        split_level: 4 + (v2 % 4) as usize,
        angle: (v3 % 5) as i8 - 2,
    }
}

/// Draws `n` primary branches.
fn gen_primaries(rng: &mut SimpleRng, p: Phenotype, mh: usize, n: usize) -> (r: Vec<Branch>)
    requires
        12 <= mh <= 24,
    ensures
        (r@, final(rng).state) == primaries_spec(p, mh, old(rng).state, n as nat),
        forall|k: int| 0 <= k < r@.len() ==> branch_ok(#[trigger] r@[k], mh),
        forall|k: int| 0 <= k < r@.len() ==> (#[trigger] r@[k]).parent_index.is_none(),
{
    let ghost s0 = rng.state;
    let mut branches: Vec<Branch> = Vec::new();
    let mut i: usize = 0;
    while i < n
        invariant
            12 <= mh <= 24,
            i <= n,
            (branches@, rng.state) == primaries_spec(p, mh, s0, i as nat),
            forall|k: int| 0 <= k < branches@.len() ==> branch_ok(#[trigger] branches@[k], mh),
            forall|k: int| 0 <= k < branches@.len() ==> (#[trigger] branches@[k]).parent_index.is_none(),
        decreases n - i,
    {
        let b = gen_primary(rng, p, mh);
        branches.push(b);
        i = i + 1;
    }
    branches
}

/// Appends `n` secondary branches grown from the primaries already in `branches`.
fn gen_secondaries(rng: &mut SimpleRng, mh: usize, branches: &mut Vec<Branch>, n: usize)
    requires
        12 <= mh <= 24,
        0 < old(branches)@.len(),
        forall|k: int| 0 <= k < old(branches)@.len() ==> branch_ok(#[trigger] old(branches)@[k], mh),
        forall|k: int| 0 <= k < old(branches)@.len() ==> (#[trigger] old(branches)@[k]).parent_index.is_none(),
    ensures
        final(branches)@ == old(branches)@ + secondaries_spec(mh, old(branches)@, old(rng).state, n as nat).0,
        final(rng).state == secondaries_spec(mh, old(branches)@, old(rng).state, n as nat).1,
        forall|k: int| 0 <= k < final(branches)@.len() ==> branch_ok(#[trigger] final(branches)@[k], mh),
        forall|k: int| 0 <= k < final(branches)@.len() ==> match (#[trigger] final(branches)@[k]).parent_index {
            Some(q) => q < k,
            None => true,
        },
{
    let ghost s0 = rng.state;
    let ghost prims = branches@;
    let primary_count = branches.len();
    let mut j: usize = 0;
    while j < n
        invariant
            12 <= mh <= 24,
            primary_count == prims.len() > 0,
            j <= n,
            branches@.len() == primary_count + j,
            branches@.subrange(0, primary_count as int) == prims,
            forall|k: int| 0 <= k < primary_count ==> (#[trigger] prims[k]).parent_index.is_none(),
            (branches@.subrange(primary_count as int, branches@.len() as int), rng.state)
                == secondaries_spec(mh, prims, s0, j as nat),
            forall|k: int| 0 <= k < branches@.len() ==> branch_ok(#[trigger] branches@[k], mh),
            forall|k: int| 0 <= k < branches@.len() ==> match (#[trigger] branches@[k]).parent_index {
                Some(q) => q < primary_count && q < k,
                None => true,
            },
        decreases n - j,
    {
        proof {
            assert forall|k: int| 0 <= k < primary_count implies !(#[trigger] branches@[k]).is_secondary by {
                assert(branches@[k] == branches@.subrange(0, primary_count as int)[k]);
            }
        }
        let b = gen_secondary(rng, mh, branches, primary_count);
        let ghost before = branches@;
        branches.push(b);
        assert(branches@.subrange(0, primary_count as int) =~= before.subrange(0, primary_count as int));
        assert(branches@.subrange(primary_count as int, branches@.len() as int)
            =~= before.subrange(primary_count as int, before.len() as int).push(b));
        j = j + 1;
    }
    assert(branches@ =~= prims + branches@.subrange(primary_count as int, branches@.len() as int));
}

/// Draws `n` trunk splits.
fn gen_splits(rng: &mut SimpleRng, n: usize) -> (r: Vec<TrunkSplit>)
    ensures
        (r@, final(rng).state) == splits_spec(old(rng).state, n as nat),
        forall|m: int| 0 <= m < r@.len() ==> split_ok(#[trigger] r@[m]),
{
    let ghost s0 = rng.state;
    let mut splits: Vec<TrunkSplit> = Vec::new();
    let mut k: usize = 0;
    while k < n
        invariant
            k <= n,
            (splits@, rng.state) == splits_spec(s0, k as nat),
            forall|m: int| 0 <= m < splits@.len() ==> split_ok(#[trigger] splits@[m]),
        decreases n - k,
    {
        let t = gen_split(rng);
        splits.push(t);
        k = k + 1;
    }
    splits
}

impl PlantStructure {
    /// Generates the structure of `seed`. The result is a function of the seed
    /// alone: the same seed always yields the same phenotype, branches (fields
    /// and order) and splits.
    pub fn generate(seed: u64) -> (r: Self)
        ensures
            r@ == generated(seed),
            r@.wf(),
    {
        let mut rng = SimpleRng::new(seed);
        let v = rng.next();
        let phenotype = if v % 3 == 0 {
            Phenotype::Tall
        } else if v % 3 == 1 {
            Phenotype::Bushy
        } else {
            Phenotype::Balanced
        };
        let (branch_density, foliage_density, base, growth_rate): (u32, u32, usize, u32) =
            match phenotype {
            Phenotype::Tall => (60, 40, 20, 25),
            Phenotype::Bushy => (100, 90, 12, 22),
            Phenotype::Balanced => (80, 70, 16, 23),
        };
        let max_height: usize = base + (rng.next() % 5) as usize;
        let v3 = rng.next();
        let num_primary: usize = match phenotype {
            Phenotype::Tall => 15 + (v3 % 10) as usize,
            Phenotype::Bushy => 25 + (v3 % 15) as usize,
            Phenotype::Balanced => 20 + (v3 % 12) as usize,
        };
        let mut branches = gen_primaries(&mut rng, phenotype, max_height, num_primary);
        let num_secondary: usize = match phenotype {
            Phenotype::Tall => num_primary / 2,
            Phenotype::Bushy => num_primary * 4 / 5,
            Phenotype::Balanced => num_primary * 3 / 5,
        };
        gen_secondaries(&mut rng, max_height, &mut branches, num_secondary);
        let num_splits: usize = match phenotype {
            Phenotype::Tall => if rng.next() % 3 == 0 { 1 } else { 0 },
            Phenotype::Bushy => if rng.next() % 2 == 0 { 1 } else { 2 },
            Phenotype::Balanced => if rng.next() % 4 == 0 { 1 } else { 0 },
        };
        let trunk_splits = gen_splits(&mut rng, num_splits);
        PlantStructure {
            branches,
            seed,
            phenotype,
            branch_density,
            foliage_density,
            trunk_splits,
            max_height,
            growth_rate,
        }
    }
}

// ---------------------------------------------------------------------------
// Growth over time.

/// Trunk height on `day`: `day * growth_rate / 100` rows, at most `max_height`.
pub open spec fn trunk_height_of(s: StructureModel, day: u32) -> int {
    let grown = day as int * s.growth_rate as int / 100;
    if grown < s.max_height as int {
        grown
    } else {
        s.max_height as int
    }
}

/// Longest branch that the cell table covers; the generator makes 4 to 13.
pub const TABLE_MAX_LENGTH: u8 = 13;

/// The growth table: for a branch of length `l` (1 to 13) and its cell `k`
/// (1 to `l`), the days of growth from which `l * sigmoid(8 * (days / (3 * l) - 1/2))`,
/// evaluated in single precision, is over `k - 1` (over one half for the first
/// cell), so that its rounding up reaches `k`. Row `l` starts at `l * (l - 1) / 2`.
pub open spec fn growth_thresholds() -> Seq<u32> {
    seq![
        2, 3, 4, 3, 4, 6, 4, 5, 7, 8,
        4, 5, 7, 9, 11, 4, 6, 8, 10, 11,
        13, 4, 6, 9, 10, 12, 13, 16, 4, 7,
        9, 11, 13, 14, 16, 18, 4, 7, 10, 12,
        13, 15, 16, 18, 21, 4, 7, 10, 12, 14,
        16, 17, 19, 21, 24, 4, 8, 11, 13, 15,
        16, 18, 19, 21, 23, 26, 4, 8, 11, 14,
        15, 17, 19, 20, 22, 23, 26, 29, 4, 8,
        12, 14, 16, 18, 19, 21, 22, 24, 26, 28,
        32,
    ]
}

/// Days of growth at which a branch of length `l` shows its `k`-th cell.
pub open spec fn cell_threshold(l: int, k: int) -> int {
    growth_thresholds()[l * (l - 1) / 2 + k - 1] as int
}

/// Cells among the first `k` of a branch of length `l` shown after `grown` days.
pub open spec fn cells_reached(l: int, grown: int, k: int) -> int
    decreases k,
{
    if k <= 0 {
        0
    } else {
        cells_reached(l, grown, k - 1) + if grown >= cell_threshold(l, k) {
            1int
        } else {
            0int
        }
    }
}

/// The logistic curve `1 / (1 + e^-x)` in millionths, at `x = -4 + i/2` for
/// `i` in 0..=16.
pub open spec fn logistic_point(i: int) -> int {
    if i <= 0 {
        17986
    } else if i == 1 {
        29312
    } else if i == 2 {
        47426
    } else if i == 3 {
        75858
    } else if i == 4 {
        119203
    } else if i == 5 {
        182426
    } else if i == 6 {
        268941
    } else if i == 7 {
        377541
    } else if i == 8 {
        500000
    } else if i == 9 {
        622459
    } else if i == 10 {
        731059
    } else if i == 11 {
        817574
    } else if i == 12 {
        880797
    } else if i == 13 {
        924142
    } else if i == 14 {
        952574
    } else if i == 15 {
        970688
    } else {
        982014
    }
}

/// The growth curve after `grown` of `total` days, scaled by `1_000_000 * total`:
/// the logistic at `x = 8 * (grown / total - 1/2)`, read piecewise linearly
/// between its half-unit points, and flat once `grown >= total`.
pub open spec fn growth_curve(grown: int, total: int) -> int {
    let pos = if grown >= total { 16 * total } else { 16 * grown };
    let i = pos / total;
    let r = pos % total;
    if i >= 16 {
        logistic_point(16) * total
    } else {
        logistic_point(i) * total + (logistic_point(i + 1) - logistic_point(i as int)) * r
    }
}

/// Cells of branch `b` drawn on `day`: none before it starts growing. For a
/// length up to `TABLE_MAX_LENGTH` (all that the generator makes) the sigmoid
/// growth curve `max_length * sigmoid(8 * (progress - 1/2))` rounded up, with
/// progress `min(days grown / (3 * max_length), 1)` and no cell under half a
/// cell, as the growth table gives it. Longer branches follow the logistic
/// sampled at half units and read piecewise linearly.
pub open spec fn branch_length_of(b: Branch, day: u32) -> int {
    if day < b.growth_start_day || b.max_length == 0 {
        0
    } else if b.max_length <= TABLE_MAX_LENGTH {
        cells_reached(b.max_length as int, day - b.growth_start_day, b.max_length as int)
    } else {
        let total = 3 * b.max_length;
        let num = b.max_length * growth_curve(day - b.growth_start_day, total);
        let den = total * 1_000_000;
        if 2 * num < den {
            0
        } else {
            (num + den - 1) / den
        }
    }
}

/// Foliage density on `day` in thousandths: the base density scaled by
/// `min(day / 90, 1)`, rounded down.
pub open spec fn foliage_density_of(s: StructureModel, day: u32) -> int {
    let d: int = if day < 90 { day as int } else { 90 };
    s.foliage_density * d * 10 / 90
}

/// Whether the foliage density on `day` is above `limit` thousandths (exactly).
pub open spec fn foliage_above(s: StructureModel, day: u32, limit: int) -> bool {
    let d: int = if day < 90 { day as int } else { 90 };
    s.foliage_density * d * 10 > limit * 90
}

/// The branches of `bs` that have started growing on `day`, in order.
pub open spec fn started(bs: Seq<Branch>, day: u32) -> Seq<Branch>
    decreases bs.len(),
{
    if bs.len() == 0 {
        Seq::empty()
    } else {
        let rest = started(bs.drop_last(), day);
        if bs.last().growth_start_day <= day {
            rest.push(bs.last())
        } else {
            rest
        }
    }
}

/// `cells_reached` over a whole branch of length `l` (1 to 13), computed.
fn tabled_length(l: u8, grown: u32) -> (r: u32)
    requires
        1 <= l <= TABLE_MAX_LENGTH,
    ensures
        r == cells_reached(l as int, grown as int, l as int),
        r <= l,
{
    let table: [u32; 91] = [
        2, 3, 4, 3, 4, 6, 4, 5, 7, 8,
        4, 5, 7, 9, 11, 4, 6, 8, 10, 11,
        13, 4, 6, 9, 10, 12, 13, 16, 4, 7,
        9, 11, 13, 14, 16, 18, 4, 7, 10, 12,
        13, 15, 16, 18, 21, 4, 7, 10, 12, 14,
        16, 17, 19, 21, 24, 4, 8, 11, 13, 15,
        16, 18, 19, 21, 23, 26, 4, 8, 11, 14,
        15, 17, 19, 20, 22, 23, 26, 29, 4, 8,
        12, 14, 16, 18, 19, 21, 22, 24, 26, 28,
        32,
    ];
    assert(table@ =~= growth_thresholds());
    let n: usize = l as usize;
    assert(n * (n - 1) <= 13 * 12) by (nonlinear_arith)
        requires 1 <= n <= 13;
    let row: usize = n * (n - 1) / 2;
    assert(row + n <= 91) by (nonlinear_arith)
        requires 1 <= n <= 13, row == n * (n - 1) / 2;
    let mut count: u32 = 0;
    let mut k: usize = 1;
    while k <= n
        invariant
            1 <= k <= n + 1,
            n == l,
            1 <= n <= 13,
            row == n * (n - 1) / 2,
            row + n <= 91,
            table@ == growth_thresholds(),
            count as int == cells_reached(n as int, grown as int, k - 1),
            count < k,
        decreases n + 1 - k,
    {
        if grown >= table[row + k - 1] {
            count = count + 1;
        }
        k = k + 1;
    }
    count
}

/// `logistic_point`, computed.
fn logistic_at(i: u64) -> (r: u64)
    ensures
        r == logistic_point(i as int),
{
    match i {
        0 => 17986,
        1 => 29312,
        2 => 47426,
        3 => 75858,
        4 => 119203,
        5 => 182426,
        6 => 268941,
        7 => 377541,
        8 => 500000,
        9 => 622459,
        10 => 731059,
        11 => 817574,
        12 => 880797,
        13 => 924142,
        14 => 952574,
        15 => 970688,
        _ => 982014,
    }
}

/// The sampled logistic curve rises strictly.
proof fn lemma_logistic_rises(i: int)
    requires
        0 <= i < 16,
    ensures
        0 < logistic_point(i) < logistic_point(i + 1) <= 982014,
{
}

impl PlantStructure {
    /// Trunk height on `day`, in rows.
    pub fn trunk_height(&self, day: u32) -> (r: usize)
        ensures
            r == trunk_height_of(self@, day),
    {
        assert((day as int) * (self.growth_rate as int) <= 0xffff_ffff * 0xffff_ffff) by (nonlinear_arith)
            requires day <= 0xffff_ffffu32, self.growth_rate <= 0xffff_ffffu32;
        let grown: u64 = (day as u64) * (self.growth_rate as u64) / 100;
        if grown < self.max_height as u64 {
            grown as usize
        } else {
            self.max_height
        }
    }

    /// Cells of `branch` drawn on `current_day` (0 when it is not drawn).
    pub fn branch_length(&self, branch: &Branch, current_day: u32) -> (r: u32)
        ensures
            r == branch_length_of(*branch, current_day),
            r <= branch.max_length,
    {
        if current_day < branch.growth_start_day || branch.max_length == 0 {
            return 0;
        }
        if branch.max_length <= TABLE_MAX_LENGTH {
            return tabled_length(branch.max_length, current_day - branch.growth_start_day);
        }
        let l: u64 = branch.max_length as u64;
        let total: u64 = 3 * l;
        let grown: u64 = (current_day - branch.growth_start_day) as u64;
        let pos: u64 = if grown >= total { 16 * total } else { 16 * grown };
        let i: u64 = pos / total;
        let rem: u64 = pos % total;
        let curve: u64 = if i >= 16 {
            let top = logistic_at(16);
            assert(top * total <= 982014 * 765) by (nonlinear_arith)
                requires top == 982014, total <= 765;
            top * total
        } else {
            proof {
                lemma_logistic_rises(i as int);
            }
            let lo = logistic_at(i);
            let hi = logistic_at(i + 1);
            assert(lo * total + (hi - lo) * rem <= 982014 * 765 * 2) by (nonlinear_arith)
                requires rem < total, total <= 765, 0 < lo < hi <= 982014;
            lo * total + (hi - lo) * rem
        };
        assert(curve == growth_curve(grown as int, total as int));
        assert(curve <= 1_000_000 * total) by {
            if i >= 16 {
                assert(982014 * total <= 1_000_000 * total) by (nonlinear_arith)
                    requires total >= 0;
            } else {
                lemma_logistic_rises(i as int);
                assert(logistic_point(i as int) * total + (logistic_point(i + 1) - logistic_point(i as int)) * rem
                    <= logistic_point(i + 1) * total) by (nonlinear_arith)
                    requires rem < total, logistic_point(i as int) < logistic_point(i + 1);
                assert(logistic_point(i + 1) * total <= 1_000_000 * total) by (nonlinear_arith)
                    requires logistic_point(i + 1) <= 982014, total >= 0;
            }
        }
        assert(l * curve <= 255 * (1_000_000 * 765)) by (nonlinear_arith)
            requires l <= 255, curve <= 1_000_000 * total, total == 3 * l;
        let num: u64 = l * curve;
        let den: u64 = total * 1_000_000;
        assert(num <= l * den) by (nonlinear_arith)
            requires num == l * curve, curve <= 1_000_000 * total, den == total * 1_000_000, l >= 0;
        if 2 * num < den {
            0
        } else {
            let r = (num + den - 1) / den;
            assert(r <= l) by (nonlinear_arith)
                requires r as int == (num as int + den as int - 1) / den as int, num <= l * den, den > 0;
            r as u32
        }
    }

    /// The branches that have started growing on `day`, in generation order.
    pub fn visible_branches(&self, day: u32) -> (r: Vec<Branch>)
        ensures
            r@ == started(self.branches@, day),
    {
        let mut out: Vec<Branch> = Vec::new();
        let mut i: usize = 0;
        while i < self.branches.len()
            invariant
                i <= self.branches@.len(),
                out@ == started(self.branches@.subrange(0, i as int), day),
            decreases self.branches@.len() - i,
        {
            let b = self.branches[i];
            assert(self.branches@.subrange(0, i + 1).drop_last() =~= self.branches@.subrange(0, i as int));
            if b.growth_start_day <= day {
                out.push(b);
            }
            i = i + 1;
        }
        assert(self.branches@.subrange(0, i as int) =~= self.branches@);
        out
    }

    /// Foliage density on `day`, in thousandths.
    pub fn current_foliage_density(&self, day: u32) -> (r: u64)
        ensures
            r == foliage_density_of(self@, day),
    {
        let d: u64 = if day < 90 { day as u64 } else { 90 };
        assert((self.foliage_density as int) * d * 10 <= 0xffff_ffff * 900) by (nonlinear_arith)
            requires self.foliage_density <= 0xffff_ffffu32, d <= 90;
        (self.foliage_density as u64) * d * 10 / 90
    }

    /// Whether the foliage density on `day` exceeds `limit` thousandths.
    pub fn foliage_exceeds(&self, day: u32, limit: u32) -> (r: bool)
        ensures
            r == foliage_above(self@, day, limit as int),
    {
        let d: u64 = if day < 90 { day as u64 } else { 90 };
        assert((self.foliage_density as int) * d * 10 <= 0xffff_ffff * 900) by (nonlinear_arith)
            requires self.foliage_density <= 0xffff_ffffu32, d <= 90;
        (self.foliage_density as u64) * d * 10 > (limit as u64) * 90
    }

    /// A copy with the same content.
    pub fn duplicate(&self) -> (r: Self)
        ensures
            r@ == self@,
    {
        let mut branches: Vec<Branch> = Vec::new();
        let mut i: usize = 0;
        while i < self.branches.len()
            invariant
                i <= self.branches@.len(),
                branches@ == self.branches@.subrange(0, i as int),
            decreases self.branches@.len() - i,
        {
            branches.push(self.branches[i]);
            i = i + 1;
        }
        let mut trunk_splits: Vec<TrunkSplit> = Vec::new();
        let mut k: usize = 0;
        while k < self.trunk_splits.len()
            invariant
                k <= self.trunk_splits@.len(),
                trunk_splits@ == self.trunk_splits@.subrange(0, k as int),
            decreases self.trunk_splits@.len() - k,
        {
            trunk_splits.push(self.trunk_splits[k]);
            k = k + 1;
        }
        assert(branches@ =~= self.branches@);
        assert(trunk_splits@ =~= self.trunk_splits@);
        PlantStructure {
            branches,
            seed: self.seed,
            phenotype: self.phenotype,
            branch_density: self.branch_density,
            foliage_density: self.foliage_density,
            trunk_splits,
            max_height: self.max_height,
            growth_rate: self.growth_rate,
        }
    }
}

/// Whether branch `b` of `s` is visible on `day`: it has started growing and
/// the trunk has reached its row.
pub open spec fn branch_visible(s: StructureModel, b: Branch, day: u32) -> bool {
    b.growth_start_day <= day && b.level <= trunk_height_of(s, day)
}

/// The trunk never shrinks and never passes its maximum: for days
/// `day1 < day2`, `trunk_height(day1) <= trunk_height(day2) <= max_height`.
pub proof fn lemma_trunk_growth_monotone(s: StructureModel, day1: u32, day2: u32)
    requires
        day1 < day2,
    ensures
        trunk_height_of(s, day1) <= trunk_height_of(s, day2) <= s.max_height,
{
    assert(day1 as int * s.growth_rate as int <= day2 as int * s.growth_rate as int) by (nonlinear_arith)
        requires day1 < day2, s.growth_rate >= 0;
    vstd::arithmetic::div_mod::lemma_div_is_ordered(
        day1 as int * s.growth_rate as int,
        day2 as int * s.growth_rate as int,
        100,
    );
}

/// A branch visible on some day stays visible on every later day.
pub proof fn lemma_branch_visibility_monotone(s: StructureModel, b: Branch, day1: u32, day2: u32)
    requires
        day1 < day2,
        branch_visible(s, b, day1),
    ensures
        branch_visible(s, b, day2),
{
    lemma_trunk_growth_monotone(s, day1, day2);
}

/// A branch among those started on some day is among those started on every
/// later day.
pub proof fn lemma_started_monotone(bs: Seq<Branch>, b: Branch, day1: u32, day2: u32)
    requires
        day1 < day2,
        started(bs, day1).contains(b),
    ensures
        started(bs, day2).contains(b),
    decreases bs.len(),
{
    lemma_started_members(bs, day1);
    lemma_started_members(bs, day2);
    let i = choose|i: int| 0 <= i < bs.len() && bs[i] == b && b.growth_start_day <= day1;
    assert(bs[i] == b);
}

/// What `started` keeps: exactly the branches of `bs` that began by `day`.
pub proof fn lemma_started_members(bs: Seq<Branch>, day: u32)
    ensures
        forall|b: Branch|
            started(bs, day).contains(b) <==> (exists|i: int|
                0 <= i < bs.len() && bs[i] == b && b.growth_start_day <= day),
    decreases bs.len(),
{
    if bs.len() > 0 {
        lemma_started_members(bs.drop_last(), day);
        let rest = started(bs.drop_last(), day);
        assert forall|b: Branch|
            started(bs, day).contains(b) <==> (exists|i: int|
                0 <= i < bs.len() && bs[i] == b && b.growth_start_day <= day) by {
            let st = started(bs, day);
            if st.contains(b) {
                if rest.contains(b) {
                    let i = choose|i: int|
                        0 <= i < bs.drop_last().len() && bs.drop_last()[i] == b && b.growth_start_day <= day;
                    assert(bs[i] == b);
                } else {
                    let j = choose|j: int| 0 <= j < st.len() && st[j] == b;
                    if bs.last().growth_start_day <= day {
                        assert(st == rest.push(bs.last()));
                        if j < rest.len() {
                            assert(rest[j] == b);
                            assert(false);
                        }
                        assert(b == bs.last());
                        assert(bs[bs.len() - 1] == b);
                    } else {
                        assert(st == rest);
                        assert(rest[j] == b);
                        assert(false);
                    }
                }
            }
            if exists|i: int| 0 <= i < bs.len() && bs[i] == b && b.growth_start_day <= day {
                let i = choose|i: int| 0 <= i < bs.len() && bs[i] == b && b.growth_start_day <= day;
                if i < bs.len() - 1 {
                    assert(bs.drop_last()[i] == b);
                    assert(rest.contains(b));
                    let k = choose|k: int| 0 <= k < rest.len() && rest[k] == b;
                    if bs.last().growth_start_day <= day {
                        assert(st == rest.push(bs.last()));
                        assert(st[k] == b);
                    } else {
                        assert(st == rest);
                    }
                    assert(st.contains(b));
                } else {
                    assert(bs.last() == b);
                    assert(st == rest.push(b));
                    assert(st[rest.len() as int] == b);
                }
            }
        }
    }
}

} // verus!
