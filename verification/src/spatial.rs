//! A uniform grid that files entity indices by the cell they stand in, for
//! coarse neighbour queries.
//!
//! The grid is rebuilt each tick. A query returns the indices filed in a square
//! block of cells around a point: candidates, to be filtered by distance.
use crate::fixed::Fixed;
use std::collections::HashMap;
use vstd::prelude::*;

verus! {

/// The contents of every cell, by cell coordinates.
pub type Grid = Map<(int, int), Seq<usize>>;

/// The grid with nothing filed.
pub open spec fn empty_grid() -> Grid {
    Map::total(|k: (int, int)| Seq::<usize>::empty())
}

/// `v` pinned to the 32-bit range of cell coordinates.
pub open spec fn clamp_cell(v: int) -> int {
    if v > i32::MAX {
        i32::MAX as int
    } else if v < i32::MIN {
        i32::MIN as int
    } else {
        v
    }
}

/// The coordinate of the cell of size `size` that holds `v`: `v / size` rounded
/// down, pinned to the 32-bit range. For a size of zero, the end of the range
/// on the side of `v`.
pub open spec fn cell_coord(v: Fixed, size: Fixed) -> int {
    if size.raw > 0 {
        clamp_cell(v.raw as int / size.raw as int)
    } else if size.raw < 0 {
        clamp_cell((-v.raw) / (-size.raw))
    } else if v.raw > 0 {
        i32::MAX as int
    } else if v.raw < 0 {
        i32::MIN as int
    } else {
        0
    }
}

/// The cell that holds the point `(x, y)`.
pub open spec fn cell_of(x: Fixed, y: Fixed, size: Fixed) -> (int, int) {
    (cell_coord(x, size), cell_coord(y, size))
}

/// `grid` with `index` filed at the end of cell `c`.
pub open spec fn filed(grid: Grid, c: (int, int), index: usize) -> Grid {
    grid.insert(c, grid[c].push(index))
}

/// The contents of the cells `(cx, cy - r)` to `(cx, cy + k - 1)`, one after
/// the other.
pub open spec fn column(grid: Grid, cx: int, cy: int, r: int, k: int) -> Seq<usize>
    decreases k + r,
{
    if k <= -r {
        Seq::empty()
    } else {
        column(grid, cx, cy, r, k - 1) + grid[(cx, cy + k - 1)]
    }
}

/// The contents of the columns `cx - r` to `cx + k - 1` of the block of
/// radius `r` around `(cx, cy)`, one after the other.
pub open spec fn columns(grid: Grid, cx: int, cy: int, r: int, k: int) -> Seq<usize>
    decreases k + r,
{
    if k <= -r {
        Seq::empty()
    } else {
        columns(grid, cx, cy, r, k - 1) + column(grid, cx + k - 1, cy, r, r + 1)
    }
}

/// What a query of radius `r` around the cell `(cx, cy)` returns: the contents
/// of the `(2r + 1)` by `(2r + 1)` block of cells around it, column by column.
/// Nothing for a negative radius.
pub open spec fn window(grid: Grid, cx: int, cy: int, r: int) -> Seq<usize> {
    columns(grid, cx, cy, r, r + 1)
}

/// A column holds what is filed in each of its cells.
pub proof fn lemma_column_holds(grid: Grid, cx: int, cy: int, r: int, k: int, b: int, index: usize)
    requires
        cy - r <= b < cy + k,
        grid[(cx, b)].contains(index),
    ensures
        column(grid, cx, cy, r, k).contains(index),
    decreases k + r,
{
    let rest = column(grid, cx, cy, r, k - 1);
    let last = grid[(cx, cy + k - 1)];
    if b == cy + k - 1 {
        let j = choose|j: int| 0 <= j < last.len() && last[j] == index;
        assert((rest + last)[rest.len() + j] == index);
    } else {
        lemma_column_holds(grid, cx, cy, r, k - 1, b, index);
        let j = choose|j: int| 0 <= j < rest.len() && rest[j] == index;
        assert((rest + last)[j] == index);
    }
}

/// The columns hold what is filed in each of their cells.
pub proof fn lemma_columns_hold(
    grid: Grid,
    cx: int,
    cy: int,
    r: int,
    k: int,
    a: int,
    b: int,
    index: usize,
)
    requires
        cx - r <= a < cx + k,
        cy - r <= b <= cy + r,
        grid[(a, b)].contains(index),
    ensures
        columns(grid, cx, cy, r, k).contains(index),
    decreases k + r,
{
    let rest = columns(grid, cx, cy, r, k - 1);
    let last = column(grid, cx + k - 1, cy, r, r + 1);
    if a == cx + k - 1 {
        lemma_column_holds(grid, a, cy, r, r + 1, b, index);
        let j = choose|j: int| 0 <= j < last.len() && last[j] == index;
        assert((rest + last)[rest.len() + j] == index);
    } else {
        lemma_columns_hold(grid, cx, cy, r, k - 1, a, b, index);
        let j = choose|j: int| 0 <= j < rest.len() && rest[j] == index;
        assert((rest + last)[j] == index);
    }
}

/// A query returns whatever is filed in a cell at most `r` cells away in each
/// direction.
pub proof fn lemma_window_holds(grid: Grid, cx: int, cy: int, r: int, a: int, b: int, index: usize)
    requires
        cx - r <= a <= cx + r,
        cy - r <= b <= cy + r,
        grid[(a, b)].contains(index),
    ensures
        window(grid, cx, cy, r).contains(index),
{
    lemma_columns_hold(grid, cx, cy, r, r + 1, a, b, index);
}

/// A query of radius 0 returns the contents of the cell itself.
pub proof fn lemma_window_of_radius_zero(grid: Grid, cx: int, cy: int)
    ensures
        window(grid, cx, cy, 0) == grid[(cx, cy)],
{
    reveal_with_fuel(column, 3);
    reveal_with_fuel(columns, 3);
    assert(column(grid, cx, cy, 0, 1) =~= grid[(cx, cy)]);
    assert(columns(grid, cx, cy, 0, 1) =~= grid[(cx, cy)]);
}

/// Two coordinates no more than `r` cell sizes apart lie in cells no more than
/// `r` apart.
pub proof fn lemma_cells_close(a: Fixed, b: Fixed, size: Fixed, r: int)
    requires
        size.raw > 0,
        r >= 0,
        -(r * size.raw) <= a.raw - b.raw <= r * size.raw,
    ensures
        -r <= cell_coord(a, size) - cell_coord(b, size) <= r,
{
    let s = size.raw as int;
    let x = a.raw as int;
    let y = b.raw as int;
    vstd::arithmetic::div_mod::lemma_fundamental_div_mod(x, s);
    vstd::arithmetic::div_mod::lemma_fundamental_div_mod(y, s);
    let qx = x / s;
    let qy = y / s;
    assert(0 <= x % s < s && 0 <= y % s < s) by (nonlinear_arith)
        requires
            s > 0,
    ;
    assert(qx - qy <= r) by (nonlinear_arith)
        requires
            s > 0,
            x == s * qx + x % s,
            y == s * qy + y % s,
            0 <= x % s < s,
            0 <= y % s < s,
            x - y <= r * s,
    ;
    assert(qy - qx <= r) by (nonlinear_arith)
        requires
            s > 0,
            x == s * qx + x % s,
            y == s * qy + y % s,
            0 <= x % s < s,
            0 <= y % s < s,
            y - x <= r * s,
    ;
}

/// No false negatives: an entity filed at the cell of its position `(px, py)`
/// is among the candidates of a query of radius `r` around any point `(qx, qy)`
/// whose Euclidean distance from it is at most `r` cell sizes.
pub proof fn lemma_query_finds_close_entities(
    grid: Grid,
    size: Fixed,
    index: usize,
    px: Fixed,
    py: Fixed,
    qx: Fixed,
    qy: Fixed,
    r: int,
)
    requires
        size.raw > 0,
        r >= 0,
        grid[cell_of(px, py, size)].contains(index),
        (px.raw - qx.raw) * (px.raw - qx.raw) + (py.raw - qy.raw) * (py.raw - qy.raw) <= (r
            * size.raw) * (r * size.raw),
    ensures
        window(grid, cell_coord(qx, size), cell_coord(qy, size), r).contains(index),
{
    let dx = px.raw - qx.raw;
    let dy = py.raw - qy.raw;
    let reach = r * size.raw;
    assert(0 <= reach) by (nonlinear_arith)
        requires
            r >= 0,
            size.raw > 0,
            reach == r * size.raw,
    ;
    assert(-reach <= dx <= reach && -reach <= dy <= reach) by (nonlinear_arith)
        requires
            dx * dx + dy * dy <= reach * reach,
            0 <= reach,
    ;
    lemma_cells_close(px, qx, size, r);
    lemma_cells_close(py, qy, size, r);
    lemma_window_holds(
        grid,
        cell_coord(qx, size),
        cell_coord(qy, size),
        r,
        cell_coord(px, size),
        cell_coord(py, size),
        index,
    );
}

/// Entities filed in the same cell appear together in a query of radius 0 from
/// within that cell.
pub proof fn lemma_same_cell_found_at_radius_zero(
    grid: Grid,
    size: Fixed,
    index: usize,
    px: Fixed,
    py: Fixed,
    qx: Fixed,
    qy: Fixed,
)
    requires
        cell_of(px, py, size) == cell_of(qx, qy, size),
        grid[cell_of(px, py, size)].contains(index),
    ensures
        window(grid, cell_coord(qx, size), cell_coord(qy, size), 0).contains(index),
{
    lemma_window_of_radius_zero(grid, cell_coord(qx, size), cell_coord(qy, size));
}

/// The key under which the cell `(cx, cy)` is kept.
pub open spec fn cell_key(cx: int, cy: int) -> u64 {
    ((cx + 0x8000_0000) * 0x1_0000_0000 + (cy + 0x8000_0000)) as u64
}

/// Whether both coordinates are 32-bit cell coordinates.
pub open spec fn in_grid(cx: int, cy: int) -> bool {
    i32::MIN <= cx <= i32::MAX && i32::MIN <= cy <= i32::MAX
}

/// The coordinate of the cell that holds `v`.
fn cell_index(v: Fixed, size: Fixed) -> (c: i32)
    ensures
        c == cell_coord(v, size),
{
    if size.raw == 0 {
        return if v.raw > 0 {
            i32::MAX
        } else if v.raw < 0 {
            i32::MIN
        } else {
            0
        };
    }
    let (a, s): (i128, i128) = if size.raw > 0 {
        (v.raw as i128, size.raw as i128)
    } else {
        (-(v.raw as i128), -(size.raw as i128))
    };
    let q: i128 = if a >= 0 {
        a / s
    } else {
        let u: i128 = -(a + 1);
        let d: i128 = u / s;
        proof {
            vstd::arithmetic::div_mod::lemma_fundamental_div_mod(u as int, s as int);
            let m = (u as int) % (s as int);
            assert(0 <= m < s) by (nonlinear_arith)
                requires
                    s > 0,
                    m == (u as int) % (s as int),
            ;
            assert(a == (-(d + 1)) * s + (s - 1 - m)) by (nonlinear_arith)
                requires
                    u == -(a + 1),
                    u == s * d + m,
            ;
            vstd::arithmetic::div_mod::lemma_fundamental_div_mod_converse(
                a as int,
                s as int,
                -(d + 1),
                (s - 1 - m) as int,
            );
            assert(0 <= d <= u) by (nonlinear_arith)
                requires
                    u >= 0,
                    s > 0,
                    d == (u as int) / (s as int),
            ;
        }
        -d - 1
    };
    if q > 2_147_483_647i128 {
        i32::MAX
    } else if q < -2_147_483_648i128 {
        i32::MIN
    } else {
        q as i32
    }
}

/// The key under which the cell `(cx, cy)` is kept.
fn key_of(cx: i32, cy: i32) -> (k: u64)
    ensures
        k == cell_key(cx as int, cy as int),
{
    let hi: u64 = (cx as i64 + 0x8000_0000i64) as u64;
    let lo: u64 = (cy as i64 + 0x8000_0000i64) as u64;
    hi * 0x1_0000_0000u64 + lo
}

/// A grid of square cells, each holding the indices filed in it, in the order
/// in which they came.
pub struct SpatialHash {
    cell_size: Fixed,
    cells: HashMap<u64, Vec<usize>>,
}

impl View for SpatialHash {
    type V = Grid;

    /// The contents of every cell; empty where nothing was filed.
    closed spec fn view(&self) -> Grid {
        Map::total(
            |k: (int, int)|
                if in_grid(k.0, k.1) && self.cells@.contains_key(cell_key(k.0, k.1)) {
                    self.cells@[cell_key(k.0, k.1)]@
                } else {
                    Seq::<usize>::empty()
                },
        )
    }
}

impl SpatialHash {
    /// The side of a cell.
    pub closed spec fn size(&self) -> Fixed {
        self.cell_size
    }

    /// An empty grid of cells of the given size.
    pub fn new(cell_size: Fixed) -> (grid: SpatialHash)
        ensures
            grid.size() == cell_size,
            grid@ == empty_grid(),
    {
        let grid = SpatialHash { cell_size, cells: HashMap::new() };
        assert(grid@ =~= empty_grid());
        grid
    }

    /// Empties every cell.
    pub fn clear(&mut self)
        ensures
            final(self).size() == old(self).size(),
            final(self)@ == empty_grid(),
    {
        self.cells.clear();
        assert(self@ =~= empty_grid());
    }

    /// Files `index` under the cell that holds `(x, y)`, after what is there.
    pub fn insert(&mut self, index: usize, x: Fixed, y: Fixed)
        ensures
            final(self).size() == old(self).size(),
            final(self)@ == filed(old(self)@, cell_of(x, y, old(self).size()), index),
    {
        let cx = cell_index(x, self.cell_size);
        let cy = cell_index(y, self.cell_size);
        let key = key_of(cx, cy);
        let mut bucket: Vec<usize> = match self.cells.remove(&key) {
            Some(present) => present,
            None => Vec::new(),
        };
        bucket.push(index);
        self.cells.insert(key, bucket);
        proof {
            let c = (cx as int, cy as int);
            let want = filed(old(self)@, c, index);
            assert forall|k: (int, int)| #[trigger] self@[k] == want[k] by {
                if in_grid(k.0, k.1) && k != c {
                    assert(cell_key(k.0, k.1) != key);
                }
            }
            assert(self@ =~= want);
        }
    }

    /// The indices filed in the block of cells of the given radius around the
    /// cell that holds `(x, y)`, column by column.
    pub fn get_nearby(&self, x: Fixed, y: Fixed, radius: i32) -> (results: Vec<usize>)
        ensures
            results@ == window(
                self@,
                cell_coord(x, self.size()),
                cell_coord(y, self.size()),
                radius as int,
            ),
    {
        let mut results: Vec<usize> = Vec::new();
        self.get_nearby_into(x, y, radius, &mut results);
        results
    }

    /// Appends the contents of the cell `(cx, cy)` to `buffer`.
    fn append_cell(&self, cx: i64, cy: i64, buffer: &mut Vec<usize>)
        ensures
            final(buffer)@ == old(buffer)@ + self@[(cx as int, cy as int)],
    {
        if cx < -2_147_483_648i64 || cx > 2_147_483_647i64 || cy < -2_147_483_648i64 || cy
            > 2_147_483_647i64 {
            assert(buffer@ =~= old(buffer)@ + self@[(cx as int, cy as int)]);
            return ;
        }
        let key = key_of(cx as i32, cy as i32);
        match self.cells.get(&key) {
            Some(indices) => {
                let mut i: usize = 0;
                while i < indices.len()
                    invariant
                        i <= indices.len(),
                        buffer@ == old(buffer)@ + indices@.subrange(0, i as int),
                    decreases indices.len() - i,
                {
                    buffer.push(indices[i]);
                    assert(indices@.subrange(0, i + 1) =~= indices@.subrange(0, i as int).push(
                        indices@[i as int],
                    ));
                    assert(buffer@ =~= old(buffer)@ + indices@.subrange(0, i + 1));
                    i = i + 1;
                }
                assert(indices@.subrange(0, indices@.len() as int) =~= indices@);
            },
            None => {
                assert(buffer@ =~= old(buffer)@ + self@[(cx as int, cy as int)]);
            },
        }
    }

    /// Overwrites `buffer` with the indices filed in the block of cells of the
    /// given radius around the cell that holds `(x, y)`, column by column.
    pub fn get_nearby_into(&self, x: Fixed, y: Fixed, radius: i32, buffer: &mut Vec<usize>)
        ensures
            final(buffer)@ == window(
                self@,
                cell_coord(x, self.size()),
                cell_coord(y, self.size()),
                radius as int,
            ),
    {
        buffer.clear();
        let cx: i64 = cell_index(x, self.cell_size) as i64;
        let cy: i64 = cell_index(y, self.cell_size) as i64;
        let r: i64 = radius as i64;
        let mut dx: i64 = -r;
        while dx <= r
            invariant
                -r <= dx <= r + 1 || (r < 0 && dx == -r),
                -0x8000_0000 <= r <= 0x7fff_ffff,
                -0x8000_0000 <= cx <= 0x7fff_ffff,
                -0x8000_0000 <= cy <= 0x7fff_ffff,
                buffer@ == columns(self@, cx as int, cy as int, r as int, dx as int),
            decreases r - dx + 1,
        {
            let ghost before = buffer@;
            let mut dy: i64 = -r;
            while dy <= r
                invariant
                    -r <= dy <= r + 1,
                    -r <= dx <= r,
                    -0x8000_0000 <= r <= 0x7fff_ffff,
                    -0x8000_0000 <= cx <= 0x7fff_ffff,
                    -0x8000_0000 <= cy <= 0x7fff_ffff,
                    buffer@ == before + column(self@, cx + dx, cy as int, r as int, dy as int),
                decreases r - dy + 1,
            {
                self.append_cell(cx + dx, cy + dy, buffer);
                assert(buffer@ =~= before + column(self@, cx + dx, cy as int, r as int, dy + 1));
                dy = dy + 1;
            }
            dx = dx + 1;
        }
    }
}

} // verus!
