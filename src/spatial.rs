use vstd::prelude::*;

verus! {

/// A grid cell as `floor(coordinate / cell_size)` on each axis, before
/// clamping to the grid.
#[derive(Clone, Copy, Debug, PartialEq, Eq, Structural)]
pub struct CellCoord {
    pub x: i64,
    pub y: i64,
}

/// `v` clamped into `0..n`.
pub open spec fn clamp_axis(v: i64, n: u32) -> int {
    if v < 0 {
        0
    } else if v >= n {
        n - 1
    } else {
        v as int
    }
}

/// Two clamped cells are the same or touch, diagonals included.
pub open spec fn adjacent(a: (int, int), b: (int, int)) -> bool {
    -1 <= a.0 - b.0 <= 1 && -1 <= a.1 - b.1 <= 1
}

/// Grid cells per axis for the default cell size of 0.16: `ceil(1 / 0.16)`.
pub const DEFAULT_GRID_CELLS: u32 = 7;

/// Uniform grid of buckets over the unit square. Each bucket lists, in
/// increasing order, the indices of the points last given to `rebuild` that
/// fall in its cell.
pub struct SpatialHash {
    grid_width: u32,
    grid_height: u32,
    cells: Vec<Vec<usize>>,
    placed: Vec<(u32, u32)>,
}

impl SpatialHash {
    pub closed spec fn width(&self) -> u32 {
        self.grid_width
    }

    pub closed spec fn height(&self) -> u32 {
        self.grid_height
    }

    /// The clamped cell of each point, by index.
    pub closed spec fn points(&self) -> Seq<(int, int)> {
        self.placed@.map_values(|p: (u32, u32)| (p.0 as int, p.1 as int))
    }

    /// The cell that a query at `c` looks around.
    pub open spec fn cell_of(&self, c: CellCoord) -> (int, int) {
        (clamp_axis(c.x, self.width()), clamp_axis(c.y, self.height()))
    }

    /// The indices a query at `c` finds: every point whose cell is that of
    /// `c` or one of its eight neighbours.
    pub open spec fn nearby(&self, c: CellCoord) -> Set<usize> {
        Set::new(
            |j: usize|
                j < self.points().len() && adjacent(self.points()[j as int], self.cell_of(c)),
        )
    }

    spec fn bucket(&self, p: (u32, u32)) -> int {
        p.1 as int * self.grid_width as int + p.0 as int
    }

    pub closed spec fn wf(&self) -> bool {
        &&& self.grid_width >= 1
        &&& self.grid_height >= 1
        &&& self.grid_width as int * self.grid_height as int <= usize::MAX
        &&& self.cells@.len() == self.grid_width as int * self.grid_height as int
        &&& forall|j: int|
            0 <= j < self.placed@.len() ==> (#[trigger] self.placed@[j]).0 < self.grid_width
                && self.placed@[j].1 < self.grid_height
        &&& forall|b: int, k: int|
            0 <= b < self.cells@.len() && 0 <= k < self.cells@[b]@.len() ==> {
                &&& (#[trigger] self.cells@[b]@[k]) < self.placed@.len()
                &&& self.bucket(self.placed@[self.cells@[b]@[k] as int]) == b
            }
        &&& forall|b: int, k1: int, k2: int|
            0 <= b < self.cells@.len() && 0 <= k1 < k2 < self.cells@[b]@.len()
                ==> #[trigger] self.cells@[b]@[k1] < #[trigger] self.cells@[b]@[k2]
        &&& forall|j: int|
            0 <= j < self.placed@.len() ==> #[trigger] self.cells@[self.bucket(
                self.placed@[j],
            )]@.contains(j as usize)
    }
}

fn clamp_to(v: i64, n: u32) -> (r: u32)
    requires
        n >= 1,
    ensures
        r as int == clamp_axis(v, n),
        r < n,
{
    if v < 0 {
        0
    } else if v >= n as i64 {
        n - 1
    } else {
        v as u32
    }
}

proof fn lemma_bucket_in_grid(x: u32, y: u32, w: u32, h: u32)
    requires
        x < w,
        y < h,
    ensures
        0 <= (y as int) * (w as int) + (x as int) < (w as int) * (h as int),
{
    assert((y as int) * (w as int) + (x as int) < (w as int) * (h as int)) by (nonlinear_arith)
        requires
            x < w,
            y < h,
    ;
    assert(0 <= (y as int) * (w as int)) by (nonlinear_arith);
}

impl SpatialHash {
    /// An empty grid of `width` by `height` cells.
    pub fn with_grid(width: u32, height: u32) -> (r: Self)
        requires
            width >= 1,
            height >= 1,
            width as int * height as int <= usize::MAX,
        ensures
            r.wf(),
            r.width() == width,
            r.height() == height,
            r.points().len() == 0,
    {
        let n = width as usize * height as usize;
        let mut cells: Vec<Vec<usize>> = Vec::new();
        let mut b: usize = 0;
        while b < n
            invariant
                b <= n,
                cells@.len() == b,
                forall|i: int| 0 <= i < b ==> (#[trigger] cells@[i])@.len() == 0,
            decreases n - b,
        {
            cells.push(Vec::new());
            b = b + 1;
        }
        SpatialHash { grid_width: width, grid_height: height, cells, placed: Vec::new() }
    }

    /// An empty grid for the default cell size of 0.16, which needs 7 cells
    /// per axis to cover the unit square.
    pub fn new() -> (r: Self)
        ensures
            r.wf(),
            r.width() == DEFAULT_GRID_CELLS,
            r.height() == DEFAULT_GRID_CELLS,
            r.points().len() == 0,
    {
        Self::with_grid(DEFAULT_GRID_CELLS, DEFAULT_GRID_CELLS)
    }

    /// Clears every bucket and files point `i` under the clamped cell
    /// `cells[i]`, for each index in order.
    pub fn rebuild(&mut self, cells: &Vec<CellCoord>)
        requires
            old(self).wf(),
        ensures
            final(self).wf(),
            final(self).width() == old(self).width(),
            final(self).height() == old(self).height(),
            final(self).points().len() == cells@.len(),
            forall|i: int|
                0 <= i < cells@.len() ==> #[trigger] final(self).points()[i] == old(self).cell_of(
                    cells@[i],
                ),
    {
        let w = self.grid_width;
        let h = self.grid_height;
        let n = w as usize * h as usize;
        let mut buckets: Vec<Vec<usize>> = Vec::new();
        let mut b: usize = 0;
        while b < n
            invariant
                b <= n,
                buckets@.len() == b,
                forall|i: int| 0 <= i < b ==> (#[trigger] buckets@[i])@.len() == 0,
            decreases n - b,
        {
            buckets.push(Vec::new());
            b = b + 1;
        }
        let mut placed: Vec<(u32, u32)> = Vec::new();
        let mut i: usize = 0;
        while i < cells.len()
            invariant
                w >= 1,
                h >= 1,
                n == w as int * h as int,
                i <= cells@.len(),
                placed@.len() == i,
                buckets@.len() == n,
                forall|j: int|
                    0 <= j < i ==> (#[trigger] placed@[j]).0 as int == clamp_axis(cells@[j].x, w)
                        && placed@[j].1 as int == clamp_axis(cells@[j].y, h),
                forall|j: int| 0 <= j < i ==> (#[trigger] placed@[j]).0 < w && placed@[j].1 < h,
                forall|b: int, k: int|
                    0 <= b < n && 0 <= k < buckets@[b]@.len() ==> {
                        &&& (#[trigger] buckets@[b]@[k]) < i
                        &&& placed@[buckets@[b]@[k] as int].1 as int * w as int
                            + placed@[buckets@[b]@[k] as int].0 as int == b
                    },
                forall|b: int, k1: int, k2: int|
                    0 <= b < n && 0 <= k1 < k2 < buckets@[b]@.len()
                        ==> #[trigger] buckets@[b]@[k1] < #[trigger] buckets@[b]@[k2],
                forall|j: int|
                    0 <= j < i ==> #[trigger] buckets@[placed@[j].1 as int * w as int
                        + placed@[j].0 as int]@.contains(j as usize),
            decreases cells@.len() - i,
        {
            let cx = clamp_to(cells[i].x, w);
            let cy = clamp_to(cells[i].y, h);
            proof { lemma_bucket_in_grid(cx, cy, w, h); }
            let bk = cy as usize * w as usize + cx as usize;
            let ghost before = buckets@;
            buckets[bk].push(i);
            placed.push((cx, cy));
            proof {
                assert forall|j: int| 0 <= j < i implies #[trigger] buckets@[placed@[j].1 as int * w as int
                    + placed@[j].0 as int]@.contains(j as usize) by {
                    let bj = placed@[j].1 as int * w as int + placed@[j].0 as int;
                    lemma_bucket_in_grid(placed@[j].0, placed@[j].1, w, h);
                    assert(before[bj]@.contains(j as usize));
                    if bj == bk {
                        let k = choose|k: int| 0 <= k < before[bj]@.len() && before[bj]@[k] == j as usize;
                        assert(buckets@[bj]@[k] == j as usize);
                    }
                }
                assert(buckets@[bk as int]@[buckets@[bk as int]@.len() - 1] == i);
            }
            i = i + 1;
        }
        self.cells = buckets;
        self.placed = placed;
        assert(self.points().len() == cells@.len());
    }

    /// How many points the last `rebuild` filed.
    pub fn agent_count(&self) -> (r: usize)
        ensures
            r == self.points().len(),
    {
        self.placed.len()
    }
}

/// Offset `d` comes before offset `(dx, dy)` in the scan order: by column
/// offset first, then by row offset.
spec fn scanned_before(d: (int, int), dx: int, dy: int) -> bool {
    d.0 < dx || (d.0 == dx && d.1 < dy)
}

proof fn lemma_bucket_injective(x1: int, y1: int, x2: int, y2: int, w: int)
    requires
        0 <= x1 < w,
        0 <= x2 < w,
        0 <= y1,
        0 <= y2,
        y1 * w + x1 == y2 * w + x2,
    ensures
        x1 == x2,
        y1 == y2,
{
    if y1 < y2 {
        assert(y1 * w + w <= y2 * w) by (nonlinear_arith)
            requires
                y1 < y2,
                w > 0,
        ;
    } else if y2 < y1 {
        assert(y2 * w + w <= y1 * w) by (nonlinear_arith)
            requires
                y2 < y1,
                w > 0,
        ;
    }
}

impl SpatialHash {
    spec fn offset(&self, j: int, c: (int, int)) -> (int, int) {
        (self.points()[j].0 - c.0, self.points()[j].1 - c.1)
    }

    spec fn scan_inv(&self, out: Seq<usize>, c: (int, int), dx: int, dy: int) -> bool {
        &&& out.no_duplicates()
        &&& forall|m: int|
            0 <= m < out.len() ==> {
                &&& (#[trigger] out[m]) < self.points().len()
                &&& adjacent(self.points()[out[m] as int], c)
                &&& scanned_before(self.offset(out[m] as int, c), dx, dy)
            }
        &&& forall|j: int|
            0 <= j < self.points().len() && adjacent(self.points()[j], c) && scanned_before(
                #[trigger] self.offset(j, c),
                dx,
                dy,
            ) ==> out.contains(j as usize)
    }

    /// The indices in the cell of `c` (clamped to the grid) and its eight
    /// neighbours, each once. The caller leaves out its own index.
    pub fn get_nearby(&self, c: CellCoord) -> (r: Vec<usize>)
        requires
            self.wf(),
        ensures
            r@.no_duplicates(),
            forall|j: usize| #[trigger] r@.contains(j) <==> self.nearby(c).contains(j),
    {
        let w = self.grid_width;
        let h = self.grid_height;
        let cx = clamp_to(c.x, w) as i64;
        let cy = clamp_to(c.y, h) as i64;
        let ghost cc = self.cell_of(c);
        let mut out: Vec<usize> = Vec::new();
        let mut dx: i64 = -1;
        while dx <= 1
            invariant
                self.wf(),
                w == self.grid_width,
                h == self.grid_height,
                cc == self.cell_of(c),
                cc == (cx as int, cy as int),
                0 <= cx < w,
                0 <= cy < h,
                -1 <= dx <= 2,
                self.scan_inv(out@, cc, dx as int, -1),
            decreases 2 - dx,
        {
            let mut dy: i64 = -1;
            while dy <= 1
                invariant
                    self.wf(),
                    w == self.grid_width,
                    h == self.grid_height,
                    cc == (cx as int, cy as int),
                    0 <= cx < w,
                    0 <= cy < h,
                    -1 <= dx <= 1,
                    -1 <= dy <= 2,
                    self.scan_inv(out@, cc, dx as int, dy as int),
                decreases 2 - dy,
            {
                let nx = cx + dx;
                let ny = cy + dy;
                if 0 <= nx && nx < w as i64 && 0 <= ny && ny < h as i64 {
                    proof { lemma_bucket_in_grid(nx as u32, ny as u32, w, h); }
                    let bk = ny as usize * w as usize + nx as usize;
                    let ghost start = out@;
                    let mut k: usize = 0;
                    while k < self.cells[bk].len()
                        invariant
                            self.wf(),
                            w == self.grid_width,
                            bk < self.cells@.len(),
                            bk == ny * w + nx,
                            0 <= nx < w,
                            0 <= ny,
                            cc == (cx as int, cy as int),
                            nx == cx + dx,
                            ny == cy + dy,
                            -1 <= dx <= 1,
                            -1 <= dy <= 1,
                            k <= self.cells@[bk as int]@.len(),
                            self.scan_inv(start, cc, dx as int, dy as int),
                            out@ == start + self.cells@[bk as int]@.subrange(0, k as int),
                            out@.no_duplicates(),
                        decreases self.cells@[bk as int]@.len() - k,
                    {
                        let j = self.cells[bk][k];
                        proof {
                            let pj = self.placed@[j as int];
                            lemma_bucket_injective(pj.0 as int, pj.1 as int, nx as int, ny as int, w as int);
                            assert(self.points()[j as int] == (nx as int, ny as int));
                            assert forall|m: int| 0 <= m < out@.len() implies out@[m] != j by {
                                if m < start.len() {
                                    assert(scanned_before(self.offset(start[m] as int, cc), dx as int, dy as int));
                                } else {
                                    let k2 = m - start.len();
                                    assert(self.cells@[bk as int]@[k2] < self.cells@[bk as int]@[k as int]);
                                }
                            }
                        }
                        out.push(j);
                        k = k + 1;
                        assert(out@ =~= start + self.cells@[bk as int]@.subrange(0, k as int));
                    }
                    proof {
                        let bucket = self.cells@[bk as int]@;
                        assert(bucket.subrange(0, k as int) == bucket);
                        assert forall|m: int| 0 <= m < out@.len() implies {
                            &&& (#[trigger] out@[m]) < self.points().len()
                            &&& adjacent(self.points()[out@[m] as int], cc)
                            &&& scanned_before(self.offset(out@[m] as int, cc), dx as int, dy as int + 1)
                        } by {
                            if m >= start.len() {
                                let j = out@[m];
                                assert(bucket[m - start.len()] == j);
                                let pj = self.placed@[j as int];
                                lemma_bucket_injective(pj.0 as int, pj.1 as int, nx as int, ny as int, w as int);
                            }
                        }
                        assert forall|j: int|
                            0 <= j < self.points().len() && adjacent(self.points()[j], cc) && scanned_before(
                                #[trigger] self.offset(j, cc),
                                dx as int,
                                dy as int + 1,
                            ) implies out@.contains(j as usize) by {
                            if !scanned_before(self.offset(j, cc), dx as int, dy as int) {
                                let pj = self.placed@[j];
                                lemma_bucket_in_grid(pj.0, pj.1, w, h);
                                assert(self.cells@[self.bucket(pj)]@.contains(j as usize));
                                let kk = choose|kk: int| 0 <= kk < bucket.len() && bucket[kk] == j as usize;
                                assert(out@[start.len() + kk] == j as usize);
                            } else {
                                assert(start.contains(j as usize));
                                let kk = choose|kk: int| 0 <= kk < start.len() && start[kk] == j as usize;
                                assert(out@[kk] == j as usize);
                            }
                        }
                    }
                } else {
                    proof {
                        assert forall|j: int|
                            0 <= j < self.points().len() && adjacent(self.points()[j], cc) && scanned_before(
                                #[trigger] self.offset(j, cc),
                                dx as int,
                                dy as int + 1,
                            ) implies out@.contains(j as usize) by {
                            assert(self.placed@[j].0 < w && self.placed@[j].1 < h);
                        }
                    }
                }
                dy = dy + 1;
            }
            dx = dx + 1;
        }
        proof {
            assert forall|j: usize| #[trigger] out@.contains(j) <==> self.nearby(c).contains(j) by {
                if out@.contains(j) {
                    let m = choose|m: int| 0 <= m < out@.len() && out@[m] == j;
                }
                if self.nearby(c).contains(j) {
                    assert(scanned_before(self.offset(j as int, cc), 2, -1));
                }
            }
        }
        out
    }
}

impl SpatialHash {
    /// Forgets every point; the grid keeps its size.
    pub fn clear(&mut self)
        requires
            old(self).wf(),
        ensures
            final(self).wf(),
            final(self).width() == old(self).width(),
            final(self).height() == old(self).height(),
            final(self).points().len() == 0,
    {
        *self = Self::with_grid(self.grid_width, self.grid_height);
    }
}

/// A neighbour query finds every point that occupies the queried cell.
pub proof fn lemma_same_cell_is_nearby(grid: &SpatialHash, c: CellCoord, j: usize)
    requires
        j < grid.points().len(),
        grid.points()[j as int] == grid.cell_of(c),
    ensures
        grid.nearby(c).contains(j),
{
}

impl Default for SpatialHash {
    fn default() -> (r: Self)
        ensures
            r.wf(),
            r.width() == DEFAULT_GRID_CELLS,
            r.height() == DEFAULT_GRID_CELLS,
            r.points().len() == 0,
    {
        Self::new()
    }
}

} // verus!
