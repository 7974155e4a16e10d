use vstd::prelude::*;
use crate::plant::GrowthStage;
use crate::structure::{
    Branch, PlantStructure, TrunkSplit, StructureModel, trunk_height_of, generated,
    branch_length_of, foliage_above, started,
};

verus! {

/// Columns of the grid.
pub const WIDTH: usize = 70;

/// Rows of the grid.
pub const HEIGHT: usize = 28;

/// Row of the soil line, the last one.
pub const SOIL_ROW: usize = 27;

/// Column of the trunk.
pub const CENTER: usize = 35;

/// First column of the soil line.
pub const SOIL_START: usize = 16;

/// Number of soil glyphs.
pub const SOIL_LEN: usize = 38;

/// Glyph of the soil line.
pub const SOIL: char = '~';

/// Cells of the grid, row after row.
pub const CELLS: usize = 1960;

/// Trunk glyph of `stage` on animation `frame`.
pub open spec fn trunk_glyph_of(stage: GrowthStage, frame: usize) -> char {
    match stage {
        GrowthStage::Seed | GrowthStage::Germination | GrowthStage::Seedling => if frame % 2
            == 0 {
            '|'
        } else {
            '!'
        },
        GrowthStage::Vegetative => if frame % 3 == 0 {
            '|'
        } else if frame % 3 == 1 {
            '!'
        } else {
            'I'
        },
        GrowthStage::PreFlower | GrowthStage::Flowering => if frame % 4 == 0 {
            '|'
        } else if frame % 4 == 1 {
            '!'
        } else if frame % 4 == 2 {
            'I'
        } else {
            '║'
        },
        GrowthStage::ReadyToHarvest => if frame % 2 == 0 {
            'I'
        } else {
            '║'
        },
    }
}

/// Flower glyph of `stage` on `frame`, for the stages that show flowers.
pub open spec fn flower_glyph_of(stage: GrowthStage, frame: usize) -> Option<char> {
    match stage {
        GrowthStage::PreFlower => Some(seq!['.', '*', '.', ' ', '.', '*', '.', ' '][(frame % 8) as int]),
        GrowthStage::Flowering => Some(
            seq!['o', 'o', 'O', 'O', '@', '@', 'O', 'O', 'o', 'o', '.', '.'][(frame % 12) as int],
        ),
        GrowthStage::ReadyToHarvest => Some(seq!['@', '#', '@', '*', '#', '@', '*', '#'][(frame % 8) as int]),
        _ => None,
    }
}

/// The renderer's vocabulary: every cell of a grid drawn with trunk glyph
/// `trunk` and flower glyph `flower` is one of these.
pub open spec fn plant_glyph(c: char, trunk: char, flower: char) -> bool {
    c == ' ' || c == trunk || c == flower || c == '/' || c == '\\' || c == '_' || c == '='
        || c == '#' || c == ':' || c == '*' || c == '.' || c == SOIL
}

/// A grid of `HEIGHT` rows of `WIDTH` glyphs, with the soil line in place.
pub open spec fn grid_shape(rows: Seq<String>) -> bool {
    &&& rows.len() == HEIGHT
    &&& forall|y: int| 0 <= y < HEIGHT ==> (#[trigger] rows[y])@.len() == WIDTH
    &&& forall|x: int| SOIL_START <= x < SOIL_START + SOIL_LEN ==> rows[SOIL_ROW as int]@[x] == SOIL
}

/// Every cell of `rows` is blank or a glyph of the vocabulary.
pub open spec fn grid_glyphs(rows: Seq<String>, trunk: char, flower: char) -> bool {
    forall|y: int, x: int|
        0 <= y < rows.len() && 0 <= x < rows[y]@.len() ==> plant_glyph(
            #[trigger] rows[y]@[x],
            trunk,
            flower,
        )
}

/// Relies on `String::push`: the char is appended at the end.
#[verifier::external_body]
fn push_char(s: &mut String, c: char)
    ensures
        final(s)@ == old(s)@.push(c),
{
    s.push(c);
}

/// `trunk_glyph_of`, computed.
fn trunk_glyph(stage: GrowthStage, frame: usize) -> (r: char)
    ensures
        r == trunk_glyph_of(stage, frame),
{
    match stage {
        GrowthStage::Seed | GrowthStage::Germination | GrowthStage::Seedling => if frame % 2
            == 0 {
            '|'
        } else {
            '!'
        },
        GrowthStage::Vegetative => if frame % 3 == 0 {
            '|'
        } else if frame % 3 == 1 {
            '!'
        } else {
            'I'
        },
        GrowthStage::PreFlower | GrowthStage::Flowering => if frame % 4 == 0 {
            '|'
        } else if frame % 4 == 1 {
            '!'
        } else if frame % 4 == 2 {
            'I'
        } else {
            '║'
        },
        GrowthStage::ReadyToHarvest => if frame % 2 == 0 {
            'I'
        } else {
            '║'
        },
    }
}

/// `flower_glyph_of`, computed.
fn flower_glyph(stage: GrowthStage, frame: usize) -> (r: Option<char>)
    ensures
        r == flower_glyph_of(stage, frame),
{
    match stage {
        GrowthStage::PreFlower => {
            let flowers: [char; 8] = ['.', '*', '.', ' ', '.', '*', '.', ' '];
            assert(flowers@ =~= seq!['.', '*', '.', ' ', '.', '*', '.', ' ']);
            Some(flowers[frame % 8])
        },
        GrowthStage::Flowering => {
            let buds: [char; 12] = ['o', 'o', 'O', 'O', '@', '@', 'O', 'O', 'o', 'o', '.', '.'];
            assert(buds@ =~= seq!['o', 'o', 'O', 'O', '@', '@', 'O', 'O', 'o', 'o', '.', '.']);
            Some(buds[frame % 12])
        },
        GrowthStage::ReadyToHarvest => {
            let sparkle: [char; 8] = ['@', '#', '@', '*', '#', '@', '*', '#'];
            assert(sparkle@ =~= seq!['@', '#', '@', '*', '#', '@', '*', '#']);
            Some(sparkle[frame % 8])
        },
        _ => None,
    }
}

/// No trunk split is active on `day`.
pub open spec fn no_active_split(splits: Seq<TrunkSplit>, day: u32) -> bool {
    forall|k: int| 0 <= k < splits.len() ==> (#[trigger] splits[k]).split_day > day
}

/// Top grid row of the trunk on `day`.
pub open spec fn trunk_top(s: StructureModel, day: u32) -> int {
    let h = trunk_height_of(s, day);
    if h >= SOIL_ROW { 0 } else { SOIL_ROW - h }
}

/// Without an active split, the trunk glyph fills column `CENTER` from the
/// trunk's top row down to the row above the soil.
pub open spec fn trunk_drawn(rows: Seq<String>, s: StructureModel, day: u32, trunk: char) -> bool {
    no_active_split(s.trunk_splits, day) ==> forall|y: int|
        trunk_top(s, day) <= y < SOIL_ROW ==> (#[trigger] rows[y])@[CENTER as int] == trunk
}

/// Painting that only fills blank cells: every marked cell keeps its glyph.
pub open spec fn keeps_marks(before: Seq<char>, after: Seq<char>) -> bool {
    &&& before.len() == after.len()
    &&& forall|i: int| 0 <= i < before.len() && before[i] != ' ' ==> #[trigger] after[i] == before[i]
}

/// Index of cell (`x`, `y`) in a grid stored row after row.
pub open spec fn cell(x: int, y: int) -> int {
    y * WIDTH + x
}

/// Whether cell (`x`, `y`) lies on the grid.
pub open spec fn on_grid(x: int, y: int) -> bool {
    0 <= x < WIDTH && 0 <= y < HEIGHT
}

/// `g` with cell (`x`, `y`) set to `c`; writes off the grid are dropped.
pub open spec fn put(g: Seq<char>, x: int, y: int, c: char) -> Seq<char> {
    if on_grid(x, y) {
        g.update(cell(x, y), c)
    } else {
        g
    }
}

/// `g` with cell (`x`, `y`) set to `c` if it is on the grid and blank: the
/// first writer of a cell wins.
pub open spec fn put_blank(g: Seq<char>, x: int, y: int, c: char) -> Seq<char> {
    if on_grid(x, y) && g[cell(x, y)] == ' ' {
        g.update(cell(x, y), c)
    } else {
        g
    }
}

/// The first split of `splits`, in order, that is active on `day` and sits at
/// trunk row `level`.
pub open spec fn first_split(splits: Seq<TrunkSplit>, day: u32, level: int) -> Option<TrunkSplit>
    decreases splits.len(),
{
    if splits.len() == 0 {
        None
    } else if splits[0].split_day <= day && splits[0].split_level == level {
        Some(splits[0])
    } else {
        first_split(splits.subrange(1, splits.len() as int), day, level)
    }
}

/// Both arms of a split continued upward with the trunk glyph, rows `from`
/// up to (not including) `to`.
pub open spec fn arms(g: Seq<char>, left: int, right: int, from: int, to: int, trunk: char) -> Seq<char>
    decreases to - from,
{
    if from >= to {
        g
    } else {
        arms(put(put(g, left, from, trunk), right, from, trunk), left, right, from + 1, to, trunk)
    }
}

/// `g` with a split `t` drawn at grid row `level`: the trunk glyph there, the
/// two diverging connectors one row up, and both arms up to the trunk's top.
pub open spec fn fork_trunk(g: Seq<char>, t: TrunkSplit, level: int, top: int, trunk: char) -> Seq<char> {
    let spread: int = if t.angle < 0 { -t.angle } else { t.angle as int };
    let left = CENTER - spread;
    let right = CENTER + spread;
    let g1 = put(g, CENTER as int, level, trunk);
    let g2 = if level > 0 {
        put(
            put(g1, left, level - 1, if t.angle < 0 { '\\' } else { '/' }),
            right,
            level - 1,
            if t.angle > 0 { '/' } else { '\\' },
        )
    } else {
        g1
    };
    if level >= 2 {
        arms(g2, left, right, top, level - 1, trunk)
    } else {
        g2
    }
}

/// The trunk drawn on `g` from grid row `level` down to the soil, where
/// `found` tells whether a split was drawn already (at row `found_level`):
/// only the first active split met is drawn, and the plain trunk continues
/// only below it.
pub open spec fn trunk_from(
    g: Seq<char>,
    splits: Seq<TrunkSplit>,
    day: u32,
    top: int,
    level: int,
    found: bool,
    found_level: int,
    trunk: char,
) -> Seq<char>
    decreases SOIL_ROW + 1 - level,
{
    if level > SOIL_ROW {
        g
    } else {
        match first_split(splits, day, SOIL_ROW - level) {
            Some(t) => if !found {
                trunk_from(fork_trunk(g, t, level, top, trunk), splits, day, top, level + 1, true, level, trunk)
            } else {
                trunk_from(g, splits, day, top, level + 1, found, found_level, trunk)
            },
            None => {
                let g1 = if !found || level > found_level {
                    put(g, CENTER as int, level, trunk)
                } else {
                    g
                };
                trunk_from(g1, splits, day, top, level + 1, found, found_level, trunk)
            },
        }
    }
}

/// Without an active split, the trunk is the trunk glyph in column `CENTER`
/// from `level` down to the soil row, and the rows above are untouched there.
proof fn lemma_plain_trunk(g: Seq<char>, splits: Seq<TrunkSplit>, day: u32, top: int, level: int, trunk: char)
    requires
        no_active_split(splits, day),
        g.len() == CELLS,
        0 <= level,
    ensures
        ({
            let r = trunk_from(g, splits, day, top, level, false, 0, trunk);
            &&& r.len() == CELLS
            &&& forall|y: int| level <= y <= SOIL_ROW ==> #[trigger] r[cell(CENTER as int, y)] == trunk
            &&& forall|y: int| 0 <= y < level ==> #[trigger] r[cell(CENTER as int, y)] == g[cell(CENTER as int, y)]
        }),
    decreases SOIL_ROW + 1 - level,
{
    if level <= SOIL_ROW {
        lemma_no_split_found(splits, day, SOIL_ROW - level);
        let g1 = put(g, CENTER as int, level, trunk);
        lemma_plain_trunk(g1, splits, day, top, level + 1, trunk);
        let r = trunk_from(g, splits, day, top, level, false, 0, trunk);
        assert(r == trunk_from(g1, splits, day, top, level + 1, false, 0, trunk));
        assert forall|y: int| 0 <= y < level implies #[trigger] r[cell(CENTER as int, y)] == g[cell(CENTER as int, y)] by {
            assert(r[cell(CENTER as int, y)] == g1[cell(CENTER as int, y)]);
        }
        assert(r[cell(CENTER as int, level)] == g1[cell(CENTER as int, level)]);
    }
}

/// Glyph of cell `i` (1-based) of a branch `len` cells long.
pub open spec fn stroke_glyph(b: Branch, i: int, len: int, show: bool, flower: char, lush: bool) -> char {
    if i == len && show {
        flower
    } else if i == 1 {
        if b.direction < 0 { '\\' } else { '/' }
    } else if i == len {
        if lush {
            if b.direction < 0 { '\\' } else { '/' }
        } else {
            if b.direction < 0 { '/' } else { '\\' }
        }
    } else if b.curve != 0 && i > 2 {
        if b.curve > 0 { '/' } else { '\\' }
    } else if b.thickness == 2 {
        '='
    } else if b.thickness == 3 {
        '#'
    } else {
        '_'
    }
}

/// Grid row of cell `i` of a branch attached at `row`: past the second cell a
/// curved branch bends by `curve * ((i - 2) / 2)` rows, kept on the grid.
pub open spec fn stroke_row(b: Branch, row: int, i: int) -> int {
    if b.curve != 0 && i > 2 {
        let y = row - ((i - 2) / 2) * b.curve;
        if y < 0 {
            0
        } else if y > SOIL_ROW {
            SOIL_ROW as int
        } else {
            y
        }
    } else {
        row
    }
}

/// Cells `i..=len` of the branch painted outward from the trunk, each only
/// where the grid is still blank.
pub open spec fn stroke(
    g: Seq<char>,
    b: Branch,
    row: int,
    len: int,
    show: bool,
    flower: char,
    lush: bool,
    i: int,
) -> Seq<char>
    decreases len + 1 - i,
{
    if i > len {
        g
    } else {
        let x = CENTER + i * b.direction;
        let g1 = if 0 <= x < WIDTH {
            put_blank(g, x, stroke_row(b, row, i), stroke_glyph(b, i, len, show, flower, lush))
        } else {
            g
        };
        stroke(g1, b, row, len, show, flower, lush, i + 1)
    }
}

/// A foliage glyph one row above the branch, `off` cells in from its tip, in
/// the upper left part of the grid only.
pub open spec fn leaf(g: Seq<char>, b: Branch, row: int, len: int, off: int, show: bool, lush: bool) -> Seq<char> {
    let fx = CENTER + (len - off) * b.direction;
    let fy = row - 1;
    if fx > 0 && fx < 34 && fy < 14 && lush {
        put_blank(g, fx, fy, if show { if off == 1 { '*' } else { '.' } } else { ':' })
    } else {
        g
    }
}

/// The foliage of a branch at least three cells long on dense days.
pub open spec fn foliage(g: Seq<char>, b: Branch, row: int, len: int, show: bool, dense: bool, lush: bool) -> Seq<char> {
    if dense && len >= 3 {
        leaf(leaf(g, b, row, len, 1, show, lush), b, row, len, 2, show, lush)
    } else {
        g
    }
}

/// Cell `k` of the sub-branch going `side` from the fork point `base_x`.
pub open spec fn twig(g: Seq<char>, base_x: int, row: int, side: int, k: int, show: bool, flower: char) -> Seq<char> {
    put_blank(
        g,
        base_x + k * side,
        row - k / 2,
        if k == 2 && show { flower } else if side < 0 { '\\' } else { '/' },
    )
}

/// The two sub-branches of a forking branch, from two thirds along it.
pub open spec fn forks(g: Seq<char>, b: Branch, row: int, len: int, day: u32, show: bool, flower: char) -> Seq<char> {
    if b.can_bifurcate && day >= b.bifurcation_day && len >= 3 {
        let third = len * 2 / 3;
        let split_point = if third < 2 { 2 } else { third };
        let base_x = CENTER + split_point * b.direction;
        let g1 = twig(g, base_x, row, -1, 1, show, flower);
        let g2 = twig(g1, base_x, row, -1, 2, show, flower);
        let g3 = twig(g2, base_x, row, 1, 1, show, flower);
        twig(g3, base_x, row, 1, 2, show, flower)
    } else {
        g
    }
}

/// One branch drawn on `g`: its cells, its foliage, its fork.
pub open spec fn branch_drawn(
    g: Seq<char>,
    b: Branch,
    row: int,
    len: int,
    day: u32,
    dense: bool,
    lush: bool,
    show: bool,
    flower: char,
) -> Seq<char> {
    forks(
        foliage(stroke(g, b, row, len, show, flower, lush, 1), b, row, len, show, dense, lush),
        b,
        row,
        len,
        day,
        show,
        flower,
    )
}

/// The started branches `vis[k..]` drawn on `g` in order, each that the
/// trunk has reached and that is at least one cell long.
pub open spec fn branches_from(
    g: Seq<char>,
    vis: Seq<Branch>,
    k: int,
    day: u32,
    height: int,
    dense: bool,
    lush: bool,
    show: bool,
    flower: char,
) -> Seq<char>
    decreases vis.len() - k,
{
    if k >= vis.len() || k < 0 {
        g
    } else {
        let b = vis[k];
        let len = branch_length_of(b, day);
        let g1 = if 1 <= b.level <= SOIL_ROW && b.level <= height && len > 0 {
            let row = SOIL_ROW - b.level;
            branch_drawn(g, b, row, len, day, dense && row > 0, lush, show, flower)
        } else {
            g
        };
        branches_from(g1, vis, k + 1, day, height, dense, lush, show, flower)
    }
}

/// The soil glyph over cells `i..SOIL_LEN` of the soil run, overwriting.
pub open spec fn soil_from(g: Seq<char>, i: int) -> Seq<char>
    decreases SOIL_LEN - i,
{
    if i >= SOIL_LEN {
        g
    } else {
        soil_from(g.update(cell(SOIL_START + i, SOIL_ROW as int), SOIL), i + 1)
    }
}

/// An empty grid.
pub open spec fn blank_grid() -> Seq<char> {
    Seq::new(CELLS as nat, |i: int| ' ')
}

/// The grid of structure `s` on `day`: on a blank grid the trunk (with its
/// first active split), then every started branch that the trunk has
/// reached, with foliage when the density on `day` is above 0.5 (its tip
/// glyphs and leaves as above 0.6), then the soil line.
pub open spec fn painted(
    s: StructureModel,
    day: u32,
    frame: usize,
    show: bool,
    flower: char,
    stage: GrowthStage,
) -> Seq<char> {
    let trunk = trunk_glyph_of(stage, frame);
    let top = trunk_top(s, day);
    let g1 = trunk_from(blank_grid(), s.trunk_splits, day, top, top, false, 0, trunk);
    let g2 = branches_from(
        g1,
        started(s.branches, day),
        0,
        day,
        trunk_height_of(s, day),
        foliage_above(s, day, 500),
        foliage_above(s, day, 600),
        show,
        flower,
    );
    soil_from(g2, 0)
}

/// `rows` are the rows of grid `g`.
pub open spec fn rows_of(rows: Seq<String>, g: Seq<char>) -> bool {
    &&& rows.len() == HEIGHT
    &&& forall|y: int| 0 <= y < HEIGHT ==> (#[trigger] rows[y])@ == g.subrange(y * WIDTH, y * WIDTH + WIDTH)
}

/// Grid invariant while painting.
pub open spec fn canvas_ok(g: Seq<char>, trunk: char, flower: char) -> bool {
    &&& g.len() == CELLS
    &&& forall|i: int| 0 <= i < CELLS ==> plant_glyph(#[trigger] g[i], trunk, flower)
}

/// Paints cell (`x`, `y`), if it lies on the grid.
fn paint(g: &mut Vec<char>, x: i64, y: i64, c: char, Ghost(trunk): Ghost<char>, Ghost(flower): Ghost<char>)
    requires
        canvas_ok(old(g)@, trunk, flower),
        plant_glyph(c, trunk, flower),
    ensures
        canvas_ok(final(g)@, trunk, flower),
        final(g)@ == put(old(g)@, x as int, y as int, c),
{
    if 0 <= x && x < WIDTH as i64 && 0 <= y && y < HEIGHT as i64 {
        let i = (y as usize) * WIDTH + (x as usize);
        g.set(i, c);
    }
}

/// Paints cell (`x`, `y`) only if it is on the grid and still blank.
fn paint_blank(g: &mut Vec<char>, x: i64, y: i64, c: char, Ghost(trunk): Ghost<char>, Ghost(flower): Ghost<char>)
    requires
        canvas_ok(old(g)@, trunk, flower),
        plant_glyph(c, trunk, flower),
    ensures
        canvas_ok(final(g)@, trunk, flower),
        keeps_marks(old(g)@, final(g)@),
        final(g)@ == put_blank(old(g)@, x as int, y as int, c),
{
    if 0 <= x && x < WIDTH as i64 && 0 <= y && y < HEIGHT as i64 {
        let i = (y as usize) * WIDTH + (x as usize);
        if g[i] == ' ' {
            g.set(i, c);
        }
    }
}

/// The first split among `splits` that is active on `day` and sits at trunk row `level`.
fn split_at(splits: &Vec<TrunkSplit>, day: u32, level: usize) -> (r: Option<TrunkSplit>)
    ensures
        r == first_split(splits@, day, level as int),
{
    let mut i: usize = 0;
    assert(splits@.subrange(0, splits@.len() as int) =~= splits@);
    while i < splits.len()
        invariant
            i <= splits@.len(),
            first_split(splits@, day, level as int) == first_split(
                splits@.subrange(i as int, splits@.len() as int),
                day,
                level as int,
            ),
        decreases splits@.len() - i,
    {
        let t = splits[i];
        let ghost rest = splits@.subrange(i as int, splits@.len() as int);
        assert(rest[0] == t);
        if t.split_day <= day && t.split_level == level {
            return Some(t);
        }
        assert(rest.subrange(1, rest.len() as int) =~= splits@.subrange(i + 1, splits@.len() as int));
        i = i + 1;
    }
    assert(splits@.subrange(i as int, splits@.len() as int).len() == 0);
    None
}

/// No split of `splits` is active on `day`, so none is found at any level.
proof fn lemma_no_split_found(splits: Seq<TrunkSplit>, day: u32, level: int)
    requires
        no_active_split(splits, day),
    ensures
        first_split(splits, day, level) is None,
    decreases splits.len(),
{
    if splits.len() > 0 {
        let rest = splits.subrange(1, splits.len() as int);
        assert forall|k: int| 0 <= k < rest.len() implies (#[trigger] rest[k]).split_day > day by {
            assert(rest[k] == splits[k + 1]);
        }
        lemma_no_split_found(rest, day, level);
    }
}

/// Draws the trunk rows from `top` down to the soil, forking at the first
/// active split met on the way up.
fn draw_trunk(g: &mut Vec<char>, s: &PlantStructure, day: u32, top: usize, trunk: char, Ghost(flower): Ghost<char>)
    requires
        canvas_ok(old(g)@, trunk, flower),
        top <= SOIL_ROW,
    ensures
        canvas_ok(final(g)@, trunk, flower),
        final(g)@ == trunk_from(old(g)@, s.trunk_splits@, day, top as int, top as int, false, 0, trunk),
{
    let ghost result = trunk_from(g@, s.trunk_splits@, day, top as int, top as int, false, 0, trunk);
    let center: i64 = CENTER as i64;
    let mut split_found = false;
    let mut split_level_found: usize = 0;
    let mut level: usize = top;
    while level <= SOIL_ROW
        invariant
            canvas_ok(g@, trunk, flower),
            top <= level <= SOIL_ROW + 1,
            center == CENTER as i64,
            result == trunk_from(g@, s.trunk_splits@, day, top as int, level as int, split_found, split_level_found as int, trunk),
        decreases SOIL_ROW + 1 - level,
    {
        match split_at(&s.trunk_splits, day, SOIL_ROW - level) {
            Some(split) => {
                if !split_found {
                    let ghost g0 = g@;
                    paint(g, center, level as i64, trunk, Ghost(trunk), Ghost(flower));
                    let spread: i64 = if split.angle < 0 { -(split.angle as i64) } else { split.angle as i64 };
                    let left: i64 = center - spread;
                    let right: i64 = center + spread;
                    if level > 0 {
                        let up: i64 = level as i64 - 1;
                        paint(g, left, up, if split.angle < 0 { '\\' } else { '/' }, Ghost(trunk), Ghost(flower));
                        paint(g, right, up, if split.angle > 0 { '/' } else { '\\' }, Ghost(trunk), Ghost(flower));
                    }
                    if level >= 2 {
                        let ghost g2 = g@;
                        let mut up_level: usize = top;
                        while up_level < level - 1
                            invariant
                                canvas_ok(g@, trunk, flower),
                                2 <= level <= SOIL_ROW,
                                top <= up_level,
                                -200 <= left <= 200,
                                -200 <= right <= 200,
                                arms(g2, left as int, right as int, top as int, level - 1, trunk)
                                    == arms(g@, left as int, right as int, up_level as int, level - 1, trunk),
                            decreases level - 1 - up_level,
                        {
                            paint(g, left, up_level as i64, trunk, Ghost(trunk), Ghost(flower));
                            paint(g, right, up_level as i64, trunk, Ghost(trunk), Ghost(flower));
                            up_level = up_level + 1;
                        }
                    }
                    assert(g@ == fork_trunk(g0, split, level as int, top as int, trunk));
                    split_found = true;
                    split_level_found = level;
                }
            },
            None => {
                if !split_found || level > split_level_found {
                    paint(g, center, level as i64, trunk, Ghost(trunk), Ghost(flower));
                }
            },
        }
        level = level + 1;
    }
}

/// Draws one branch attached at grid row `row`, `len` cells long, with its
/// foliage and fork.
fn draw_branch(
    g: &mut Vec<char>,
    b: Branch,
    row: usize,
    len: u32,
    day: u32,
    dense: bool,
    lush: bool,
    show_flowers: bool,
    flower: char,
    Ghost(trunk): Ghost<char>,
)
    requires
        canvas_ok(old(g)@, trunk, flower),
        row < SOIL_ROW,
        dense ==> row >= 1,
        1 <= len <= 255,
    ensures
        canvas_ok(final(g)@, trunk, flower),
        keeps_marks(old(g)@, final(g)@),
        final(g)@ == branch_drawn(old(g)@, b, row as int, len as int, day, dense, lush, show_flowers, flower),
{
    let ghost g0 = g@;
    let ghost stroked = stroke(g@, b, row as int, len as int, show_flowers, flower, lush, 1);
    let center: i64 = CENTER as i64;
    let dir: i64 = b.direction as i64;
    let curve: i64 = b.curve as i64;
    let mut i: u32 = 1;
    while i <= len
        invariant
            canvas_ok(g@, trunk, flower),
            keeps_marks(g0, g@),
            row < SOIL_ROW,
            len <= 255,
            1 <= i <= len + 1,
            dir == b.direction,
            curve == b.curve,
            center == CENTER as i64,
            stroked == stroke(g@, b, row as int, len as int, show_flowers, flower, lush, i as int),
        decreases len + 1 - i,
    {
        assert(-40000 <= (i as i64) * dir <= 40000) by (nonlinear_arith)
            requires 1 <= i <= 256, -128 <= dir <= 127;
        let x: i64 = center + (i as i64) * dir;
        let mut y: i64 = row as i64;
        if curve != 0 && i > 2 {
            assert(-40000 <= ((i as i64 - 2) / 2) * curve <= 40000) by (nonlinear_arith)
                requires 3 <= i <= 256, -128 <= curve <= 127;
            let bend: i64 = ((i as i64 - 2) / 2) * curve;
            y = y - bend;
            if y < 0 {
                y = 0;
            }
            if y > SOIL_ROW as i64 {
                y = SOIL_ROW as i64;
            }
        }
        if 0 <= x && x < WIDTH as i64 {
            let c: char = if i == len && show_flowers {
                flower
            } else if i == 1 {
                if dir < 0 { '\\' } else { '/' }
            } else if i == len {
                if lush {
                    if dir < 0 { '\\' } else { '/' }
                } else {
                    if dir < 0 { '/' } else { '\\' }
                }
            } else if curve != 0 && i > 2 {
                if curve > 0 { '/' } else { '\\' }
            } else if b.thickness == 2 {
                '='
            } else if b.thickness == 3 {
                '#'
            } else {
                '_'
            };
            assert(y == stroke_row(b, row as int, i as int));
            assert(c == stroke_glyph(b, i as int, len as int, show_flowers, flower, lush));
            paint_blank(g, x, y, c, Ghost(trunk), Ghost(flower));
        }
        i = i + 1;
    }
    if dense && len >= 3 {
        let fy: i64 = row as i64 - 1;
        let c1: char = if show_flowers { '*' } else { ':' };
        let c2: char = if show_flowers { '.' } else { ':' };
        assert(-40000 <= ((len - 1) as i64) * dir <= 40000 && -40000 <= ((len - 2) as i64) * dir <= 40000) by (nonlinear_arith)
            requires 3 <= len <= 255, -128 <= dir <= 127;
        let fx1: i64 = center + ((len - 1) as i64) * dir;
        if fx1 > 0 && fx1 < 34 && fy < 14 && lush {
            paint_blank(g, fx1, fy, c1, Ghost(trunk), Ghost(flower));
        }
        let fx2: i64 = center + ((len - 2) as i64) * dir;
        if fx2 > 0 && fx2 < 34 && fy < 14 && lush {
            paint_blank(g, fx2, fy, c2, Ghost(trunk), Ghost(flower));
        }
    }
    if b.can_bifurcate && day >= b.bifurcation_day && len >= 3 {
        let third: u32 = len * 2 / 3;
        let split_point: i64 = if third < 2 { 2 } else { third as i64 };
        assert(split_point <= 170);
        assert(-25000 <= split_point * dir <= 25000) by (nonlinear_arith)
            requires 2 <= split_point <= 170, -128 <= dir <= 127;
        let base_x: i64 = center + split_point * dir;
        let y0: i64 = row as i64;
        let tip: char = if show_flowers { flower } else { '\\' };
        paint_blank(g, base_x - 1, y0, '\\', Ghost(trunk), Ghost(flower));
        paint_blank(g, base_x - 2, y0 - 1, tip, Ghost(trunk), Ghost(flower));
        let tip_right: char = if show_flowers { flower } else { '/' };
        paint_blank(g, base_x + 1, y0, '/', Ghost(trunk), Ghost(flower));
        paint_blank(g, base_x + 2, y0 - 1, tip_right, Ghost(trunk), Ghost(flower));
    }
}

/// Splits the painted cells into rows of text.
fn to_rows(g: &Vec<char>, Ghost(trunk): Ghost<char>, Ghost(flower): Ghost<char>) -> (r: Vec<String>)
    requires
        canvas_ok(g@, trunk, flower),
    ensures
        r@.len() == HEIGHT,
        forall|y: int| 0 <= y < HEIGHT ==> (#[trigger] r@[y])@ == g@.subrange(y * WIDTH, y * WIDTH + WIDTH),
        grid_glyphs(r@, trunk, flower),
{
    let mut rows: Vec<String> = Vec::new();
    let mut y: usize = 0;
    while y < HEIGHT
        invariant
            canvas_ok(g@, trunk, flower),
            y <= HEIGHT,
            rows@.len() == y,
            forall|yy: int| 0 <= yy < y ==> (#[trigger] rows@[yy])@ == g@.subrange(yy * WIDTH, yy * WIDTH + WIDTH),
        decreases HEIGHT - y,
    {
        let mut line = String::new();
        let mut x: usize = 0;
        while x < WIDTH
            invariant
                canvas_ok(g@, trunk, flower),
                y < HEIGHT,
                x <= WIDTH,
                line@ == g@.subrange(y * WIDTH, y * WIDTH + x),
            decreases WIDTH - x,
        {
            push_char(&mut line, g[y * WIDTH + x]);
            assert(g@.subrange(y * WIDTH, y * WIDTH + x + 1) =~= g@.subrange(y * WIDTH, y * WIDTH + x).push(g@[y * WIDTH + x]));
            x = x + 1;
        }
        rows.push(line);
        y = y + 1;
    }
    assert forall|yy: int, xx: int|
        0 <= yy < rows@.len() && 0 <= xx < rows@[yy]@.len() implies plant_glyph(
            #[trigger] rows@[yy]@[xx],
            trunk,
            flower,
        ) by {
        assert(rows@[yy]@ == g@.subrange(yy * WIDTH, yy * WIDTH + WIDTH));
        assert(rows@[yy]@[xx] == g@[yy * WIDTH + xx]);
    }
    rows
}

/// Paints the whole plant for `day` into a grid of `HEIGHT` rows of `WIDTH`
/// glyphs: the trunk (with its first active split), each started branch
/// that the trunk has reached (with foliage and fork), then the soil line.
/// Flowers tip the branches when `show_flowers` holds.
pub fn render_plant_structure(
    day: u32,
    structure: &PlantStructure,
    frame: usize,
    show_flowers: bool,
    flower_char: char,
    stage: GrowthStage,
) -> (r: Vec<String>)
    ensures
        grid_shape(r@),
        grid_glyphs(r@, trunk_glyph_of(stage, frame), flower_char),
        trunk_drawn(r@, structure@, day, trunk_glyph_of(stage, frame)),
        rows_of(r@, painted(structure@, day, frame, show_flowers, flower_char, stage)),
{
    let trunk = trunk_glyph(stage, frame);
    let ghost flower = flower_char;
    let mut g: Vec<char> = Vec::new();
    let mut n: usize = 0;
    while n < CELLS
        invariant
            n <= CELLS,
            g@.len() == n,
            forall|i: int| 0 <= i < n ==> #[trigger] g@[i] == ' ',
        decreases CELLS - n,
    {
        g.push(' ');
        n = n + 1;
    }
    let height = structure.trunk_height(day);
    let top: usize = if height >= SOIL_ROW { 0 } else { SOIL_ROW - height };
    let ghost blank = g@;
    assert(blank =~= blank_grid());
    draw_trunk(&mut g, structure, day, top, trunk, Ghost(flower));
    let ghost g1 = g@;
    proof {
        if no_active_split(structure.trunk_splits@, day) {
            lemma_plain_trunk(blank, structure.trunk_splits@, day, top as int, top as int, trunk);
        }
    }
    let dense = structure.foliage_exceeds(day, 500);
    let lush = structure.foliage_exceeds(day, 600);
    let visible = structure.visible_branches(day);
    let ghost with_branches = branches_from(
        g@,
        visible@,
        0,
        day,
        height as int,
        dense,
        lush,
        show_flowers,
        flower_char,
    );
    let mut k: usize = 0;
    while k < visible.len()
        invariant
            canvas_ok(g@, trunk, flower),
            keeps_marks(g1, g@),
            flower == flower_char,
            k <= visible@.len(),
            with_branches == branches_from(g@, visible@, k as int, day, height as int, dense, lush, show_flowers, flower_char),
        decreases visible@.len() - k,
    {
        let b = visible[k];
        if b.level >= 1 && b.level <= SOIL_ROW && b.level <= height {
            let len = structure.branch_length(&b, day);
            if len > 0 {
                let row: usize = SOIL_ROW - b.level;
                draw_branch(&mut g, b, row, len, day, dense && row > 0, lush, show_flowers, flower_char, Ghost(trunk));
            }
        }
        k = k + 1;
    }
    let ghost g2 = g@;
    let ghost grid = soil_from(g@, 0);
    let mut i: usize = 0;
    while i < SOIL_LEN
        invariant
            canvas_ok(g@, trunk, flower),
            g@.len() == g2.len(),
            forall|j: int| 0 <= j < SOIL_ROW * WIDTH ==> #[trigger] g@[j] == g2[j],
            grid == soil_from(g@, i as int),
            flower == flower_char,
            i <= SOIL_LEN,
            forall|x: int| SOIL_START <= x < SOIL_START + i ==> #[trigger] g@[SOIL_ROW * WIDTH + x] == SOIL,
        decreases SOIL_LEN - i,
    {
        g.set(SOIL_ROW * WIDTH + SOIL_START + i, SOIL);
        i = i + 1;
    }
    let rows = to_rows(&g, Ghost(trunk), Ghost(flower));
    assert(trunk != ' ');
    assert forall|y: int|
        no_active_split(structure.trunk_splits@, day) && trunk_top(structure@, day) <= y < SOIL_ROW implies (
        #[trigger] rows@[y])@[CENTER as int] == trunk by {
        assert(rows@[y]@ == g@.subrange(y * WIDTH, y * WIDTH + WIDTH));
        assert(g1[cell(CENTER as int, y)] == trunk);
        assert(g2[y * WIDTH + CENTER] == trunk);
    }
    assert forall|x: int| SOIL_START <= x < SOIL_START + SOIL_LEN implies rows@[SOIL_ROW as int]@[x] == SOIL by {
        assert(rows@[SOIL_ROW as int]@ == g@.subrange(SOIL_ROW * WIDTH, SOIL_ROW * WIDTH + WIDTH));
        assert(g@[SOIL_ROW * WIDTH + x] == SOIL);
    }
    rows
}

/// Flower glyph drawn for `stage` on `frame`, blank for the stages without flowers.
pub open spec fn shown_flower(stage: GrowthStage, frame: usize) -> char {
    match flower_glyph_of(stage, frame) {
        Some(c) => c,
        None => ' ',
    }
}

/// The plant of `seed` on `day`, at `stage` and animation `frame`: a grid of
/// `HEIGHT` rows of `WIDTH` glyphs with the soil line at the bottom.
pub fn get_plant_ascii(stage: GrowthStage, day: u32, seed: u64, frame: usize) -> (r: Vec<String>)
    ensures
        grid_shape(r@),
        grid_glyphs(r@, trunk_glyph_of(stage, frame), shown_flower(stage, frame)),
        trunk_drawn(r@, generated(seed), day, trunk_glyph_of(stage, frame)),
        rows_of(
            r@,
            painted(
                generated(seed),
                day,
                frame,
                flower_glyph_of(stage, frame) is Some,
                shown_flower(stage, frame),
                stage,
            ),
        ),
{
    let structure = PlantStructure::generate(seed);
    render_stage(&structure, stage, day, frame)
}

/// The plant of `structure` on `day`, at `stage` and animation `frame`.
pub fn render_stage(structure: &PlantStructure, stage: GrowthStage, day: u32, frame: usize) -> (r: Vec<String>)
    ensures
        grid_shape(r@),
        grid_glyphs(r@, trunk_glyph_of(stage, frame), shown_flower(stage, frame)),
        trunk_drawn(r@, structure@, day, trunk_glyph_of(stage, frame)),
        rows_of(
            r@,
            painted(
                structure@,
                day,
                frame,
                flower_glyph_of(stage, frame) is Some,
                shown_flower(stage, frame),
                stage,
            ),
        ),
{
    match flower_glyph(stage, frame) {
        Some(f) => render_plant_structure(day, structure, frame, true, f, stage),
        None => render_plant_structure(day, structure, frame, false, ' ', stage),
    }
}

/// What a glyph of the grid stands for, for the display layer to colour.
#[derive(Debug, Clone, Copy, PartialEq, Eq, Structural)]
pub enum GlyphClass {
    /// `|`, `!`, `I`, `║`.
    Trunk,
    /// `/`, `\`, `_`, `=`.
    Branch,
    /// `*`: a sparkle or a young flower.
    Sparkle,
    /// `o`: a small bud.
    SmallBud,
    /// `O`, `@`, `#`: a large bud.
    LargeBud,
    /// `:`.
    Foliage,
    /// `~`.
    Soil,
    /// Anything else, blank included.
    Plain,
}

/// Class of glyph `c`.
pub open spec fn class_of(c: char) -> GlyphClass {
    if c == '|' || c == '!' || c == 'I' || c == '║' {
        GlyphClass::Trunk
    } else if c == '/' || c == '\\' || c == '_' || c == '=' {
        GlyphClass::Branch
    } else if c == '*' {
        GlyphClass::Sparkle
    } else if c == 'o' {
        GlyphClass::SmallBud
    } else if c == 'O' || c == '@' || c == '#' {
        GlyphClass::LargeBud
    } else if c == ':' {
        GlyphClass::Foliage
    } else if c == SOIL {
        GlyphClass::Soil
    } else {
        GlyphClass::Plain
    }
}

/// The class of a glyph of the grid.
pub fn glyph_class(c: char) -> (r: GlyphClass)
    ensures
        r == class_of(c),
{
    match c {
        '|' | '!' | 'I' | '║' => GlyphClass::Trunk,
        '/' | '\\' | '_' | '=' => GlyphClass::Branch,
        '*' => GlyphClass::Sparkle,
        'o' => GlyphClass::SmallBud,
        'O' | '@' | '#' => GlyphClass::LargeBud,
        ':' => GlyphClass::Foliage,
        '~' => GlyphClass::Soil,
        _ => GlyphClass::Plain,
    }
}

/// Animated border decoration.
pub fn get_border_decoration(frame: usize) -> (r: &'static str)
    ensures
        r@ == (if frame % 4 < 2 { "~"@ } else { "-"@ }),
{
    if frame % 4 < 2 {
        "~"
    } else {
        "-"
    }
}

/// Animated water drops.
pub fn get_water_drops(frame: usize) -> (r: &'static str)
    ensures
        r@ == seq!["."@, "o"@, "."@, "O"@, "."@, "o"@, "."@, " "@][(frame % 8) as int],
{
    let f = frame % 8;
    if f == 1 || f == 5 {
        "o"
    } else if f == 3 {
        "O"
    } else if f == 7 {
        " "
    } else {
        "."
    }
}

/// Animated nutrient sparkles.
pub fn get_nutrient_sparkles(frame: usize) -> (r: &'static str)
    ensures
        r@ == seq!["*"@, "+"@, "*"@, "x"@, "*"@, "+"@, "*"@, "X"@, "*"@, "x"@, "*"@, " "@][(frame
            % 12) as int],
{
    let f = frame % 12;
    if f == 1 || f == 5 {
        "+"
    } else if f == 3 || f == 9 {
        "x"
    } else if f == 7 {
        "X"
    } else if f == 11 {
        " "
    } else {
        "*"
    }
}

} // verus!
