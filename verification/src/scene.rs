//! Scene indexing: a collection of static props answering the spatial
//! query "which entities are near this point", as a set of indices into
//! the prop arena. Two interchangeable strategies share that contract: a
//! flat scene that returns every index, and a hash-grid scene that
//! buckets props into square cells and returns the 3-by-3 neighbourhood
//! of the query point's cell. Queries return indices rather than borrowed
//! iterators, so mutation goes through one exclusive borrow of the arena
//! while the grid stays read-only.

use vstd::prelude::*;
use crate::util::div_floor;
use crate::vec2::Vec2;

verus! {

/// Things with a position in the scene.
pub trait Positioned {
    /// The entity's position.
    spec fn pos_spec(&self) -> Vec2;

    /// Returns the entity's position.
    fn position(&self) -> (r: Vec2)
        ensures
            r == self.pos_spec(),
    ;
}

/// The scene strategy the game uses by default.
pub type Scene<P> = FlatScene<P>;

/// A naive scene in which every query returns all props.
#[derive(Debug)]
pub struct FlatScene<P> {
    pub props: Vec<P>,
}

impl<P: Positioned> FlatScene<P> {
    /// Builds a flat scene owning the given props.
    pub fn from_objects(props: Vec<P>) -> (r: FlatScene<P>)
        ensures
            r.props == props,
    {
        FlatScene { props }
    }

    /// The indices a query at `pos` returns: all of them, regardless of
    /// the position.
    pub open spec fn query_spec(self, pos: Vec2) -> Set<int> {
        Set::new(|i: int| 0 <= i < self.props@.len())
    }

    /// The indices of all props near `pos` (that is, of every prop), in
    /// ascending order.
    pub fn at(&self, pos: Vec2) -> (r: Vec<usize>)
        ensures
            r@.len() == self.props@.len(),
            forall|j: int| 0 <= j < r@.len() ==> r@[j] == j,
            forall|j1: int, j2: int|
                0 <= j1 < j2 < r@.len() ==> r@[j1] != r@[j2],
            forall|j: int| 0 <= j < r@.len() ==> self.query_spec(pos).contains(r@[j] as int),
            forall|i: int|
                self.query_spec(pos).contains(i) ==> r@.contains(i as usize),
    {
        let _ = pos;
        let mut r: Vec<usize> = Vec::new();
        let n = self.props.len();
        let mut i: usize = 0;
        while i < n
            invariant
                0 <= i <= n,
                n == self.props@.len(),
                r@.len() == i,
                forall|j: int| 0 <= j < i ==> r@[j] == j,
            decreases n - i,
        {
            r.push(i);
            i = i + 1;
        }
        proof {
            assert forall|k: int| self.query_spec(pos).contains(k) implies r@.contains(
                k as usize,
            ) by {
                assert(r@[k] == k as usize);
            }
        }
        r
    }

    /// How many props the scene owns.
    pub fn len(&self) -> (r: usize)
        ensures
            r == self.props@.len(),
    {
        self.props.len()
    }

    /// Borrows the prop at `i`.
    pub fn get(&self, i: usize) -> (r: &P)
        requires
            i < self.props@.len(),
        ensures
            *r == self.props@[i as int],
    {
        &self.props[i]
    }

    /// Exclusively borrows the prop at `i`.
    pub fn get_mut(&mut self, i: usize) -> (r: &mut P)
        requires
            i < old(self).props@.len(),
        ensures
            *r == old(self).props@[i as int],
            final(self).props@ == old(self).props@.update(i as int, *final(r)),
    {
        vstd::std_specs::vec::vec_index_mut(&mut self.props, i)
    }
}

/// One cell of the hash grid: its cell coordinates and the indices of the
/// props bucketed into it.
#[derive(Debug, Clone, PartialEq, Eq)]
pub struct GridCell {
    pub cx: i64,
    pub cy: i64,
    pub items: Vec<usize>,
}

/// The cell coordinate of a world coordinate: the coordinate
/// floor-divided by the cell size.
pub open spec fn cell_coord_spec(x: int, cell_size: int) -> int {
    x / cell_size
}

/// Whether two cell coordinates lie within Chebyshev distance one.
pub open spec fn cell_adjacent_spec(ax: int, ay: int, bx: int, by: int) -> bool {
    -1 <= ax - bx <= 1 && -1 <= ay - by <= 1
}

/// A scene in which props are kept in a grid of cells of a fixed size,
/// and a query unions the 3-by-3 block of cells around the query point.
#[derive(Debug)]
pub struct HashGridScene<P> {
    pub cell_size: i64,
    pub props: Vec<P>,
    pub grid: Vec<GridCell>,
}

impl<P: Positioned> HashGridScene<P> {
    /// The grid invariant: a positive cell size, prop positions within
    /// the coordinate window, pairwise-distinct cell keys, and every prop
    /// index in exactly the cell of its position.
    pub open spec fn wf(self) -> bool {
        &&& 1 <= self.cell_size <= 1_000_000_000
        &&& forall|i: int| 0 <= i < self.props@.len() ==> (#[trigger] self.props@[i]).pos_spec().in_bounds()
        &&& forall|b: int|
            0 <= b < self.grid@.len() ==> -1_000_000_000 <= (#[trigger] self.grid@[b]).cx
                <= 1_000_000_000 && -1_000_000_000 <= self.grid@[b].cy <= 1_000_000_000
        &&& forall|b1: int, b2: int|
            0 <= b1 < b2 < self.grid@.len() ==> !(self.grid@[b1].cx == self.grid@[b2].cx
                && self.grid@[b1].cy == self.grid@[b2].cy)
        &&& forall|b: int, j: int|
            0 <= b < self.grid@.len() && 0 <= j < self.grid@[b].items@.len()
                ==> (#[trigger] self.grid@[b].items@[j]) < self.props@.len()
        &&& forall|b: int, j: int|
            0 <= b < self.grid@.len() && 0 <= j < self.grid@[b].items@.len() ==> {
                let idx = #[trigger] self.grid@[b].items@[j];
                self.grid@[b].cx == cell_coord_spec(
                    self.props@[idx as int].pos_spec().x as int,
                    self.cell_size as int,
                ) && self.grid@[b].cy == cell_coord_spec(
                    self.props@[idx as int].pos_spec().y as int,
                    self.cell_size as int,
                )
            }
        &&& forall|b: int, j1: int, j2: int|
            0 <= b < self.grid@.len() && 0 <= j1 < j2 < self.grid@[b].items@.len()
                ==> self.grid@[b].items@[j1] != self.grid@[b].items@[j2]
        &&& forall|i: int|
            0 <= i < self.props@.len() ==> #[trigger] self.bucketed_below(
                self.grid@.len() as int,
                i,
            )
    }

    /// Whether `idx` sits in one of the first `bi` buckets.
    pub open spec fn bucketed_below(self, bi: int, idx: int) -> bool {
        exists|b: int, j: int|
            0 <= b < bi && 0 <= j < self.grid@[b].items@.len() && self.grid@[b].items@[j] == idx
    }

    /// Whether `idx` sits in one of the first `bi` buckets whose cell is
    /// adjacent to the cell `(qcx, qcy)`.
    pub open spec fn found_below(self, bi: int, qcx: int, qcy: int, idx: int) -> bool {
        exists|b: int, j: int|
            0 <= b < bi && 0 <= j < self.grid@[b].items@.len() && self.grid@[b].items@[j] == idx
                && cell_adjacent_spec(self.grid@[b].cx as int, self.grid@[b].cy as int, qcx, qcy)
    }

    /// The indices a query at `pos` returns: those of the props whose
    /// cell lies within Chebyshev distance one of the query point's cell.
    pub open spec fn query_spec(self, pos: Vec2) -> Set<int> {
        Set::new(
            |i: int|
                0 <= i < self.props@.len() && cell_adjacent_spec(
                    cell_coord_spec(self.props@[i].pos_spec().x as int, self.cell_size as int),
                    cell_coord_spec(self.props@[i].pos_spec().y as int, self.cell_size as int),
                    cell_coord_spec(pos.x as int, self.cell_size as int),
                    cell_coord_spec(pos.y as int, self.cell_size as int),
                ),
        )
    }

    /// Builds a hash-grid scene with the given cell size, bucketing each
    /// prop into the cell of its position.
    pub fn from_objects(cell_size: i64, props: Vec<P>) -> (r: HashGridScene<P>)
        requires
            1 <= cell_size <= 1_000_000_000,
            forall|i: int| 0 <= i < props@.len() ==> (#[trigger] props@[i]).pos_spec().in_bounds(),
        ensures
            r.wf(),
            r.props == props,
            r.cell_size == cell_size,
    {
        let mut grid: Vec<GridCell> = Vec::new();
        let n = props.len();
        let mut i: usize = 0;
        while i < n
            invariant
                0 <= i <= n,
                n == props@.len(),
                1 <= cell_size <= 1_000_000_000,
                forall|k: int| 0 <= k < props@.len() ==> (#[trigger] props@[k]).pos_spec().in_bounds(),
                forall|b: int|
                    0 <= b < grid@.len() ==> -1_000_000_000 <= (#[trigger] grid@[b]).cx
                        <= 1_000_000_000 && -1_000_000_000 <= grid@[b].cy <= 1_000_000_000,
                forall|b1: int, b2: int|
                    0 <= b1 < b2 < grid@.len() ==> !(grid@[b1].cx == grid@[b2].cx && grid@[b1].cy
                        == grid@[b2].cy),
                forall|b: int, j: int|
                    0 <= b < grid@.len() && 0 <= j < grid@[b].items@.len()
                        ==> (#[trigger] grid@[b].items@[j]) < i,
                forall|b: int, j: int|
                    0 <= b < grid@.len() && 0 <= j < grid@[b].items@.len() ==> {
                        let idx = #[trigger] grid@[b].items@[j];
                        grid@[b].cx == cell_coord_spec(
                            props@[idx as int].pos_spec().x as int,
                            cell_size as int,
                        ) && grid@[b].cy == cell_coord_spec(
                            props@[idx as int].pos_spec().y as int,
                            cell_size as int,
                        )
                    },
                forall|b: int, j1: int, j2: int|
                    0 <= b < grid@.len() && 0 <= j1 < j2 < grid@[b].items@.len()
                        ==> grid@[b].items@[j1] != grid@[b].items@[j2],
                forall|k: int| 0 <= k < i ==> #[trigger] seq_covered(grid@, k),
            decreases n - i,
        {
            let p = props[i].position();
            let cx = div_floor(p.x, cell_size);
            let cy = div_floor(p.y, cell_size);
            proof {
                lemma_cell_in_window(p.x as int, cell_size as int);
                lemma_cell_in_window(p.y as int, cell_size as int);
            }
            let mut b: usize = 0;
            let nb = grid.len();
            while b < nb && !(grid[b as usize].cx == cx && grid[b as usize].cy == cy)
                invariant
                    0 <= b <= nb,
                    nb == grid@.len(),
                    forall|k: int| 0 <= k < b ==> !((#[trigger] grid@[k]).cx == cx && grid@[k].cy == cy),
                decreases nb - b,
            {
                b = b + 1;
            }
            let ghost grid0 = grid@;
            if b < nb {
                let mut cell = grid.remove(b);
                cell.items.push(i);
                grid.insert(b, cell);
                proof {
                    assert(grid@.len() == grid0.len());
                    assert(forall|k: int|
                        0 <= k < grid0.len() && k != b ==> grid@[k] == grid0[k]);
                    assert(grid@[b as int].cx == grid0[b as int].cx && grid@[b as int].cy
                        == grid0[b as int].cy);
                    assert(grid@[b as int].items@ =~= grid0[b as int].items@.push(i));
                    assert forall|k: int| 0 <= k < i + 1 implies #[trigger] seq_covered(
                        grid@,
                        k,
                    ) by {
                        if k < i {
                            assert(seq_covered(grid0, k));
                            let (bb, jj) = choose|bb: int, jj: int|
                                0 <= bb < grid0.len() && 0 <= jj < grid0[bb].items@.len()
                                    && grid0[bb].items@[jj] == k;
                            if bb == b {
                                assert(grid@[bb].items@[jj] == grid0[bb].items@.push(i)[jj]);
                                assert(grid@[bb].items@[jj] == k);
                            } else {
                                assert(grid@[bb] == grid0[bb]);
                                assert(grid@[bb].items@[jj] == k);
                            }
                        } else {
                            assert(grid@[b as int].items@[grid0[b as int].items@.len() as int]
                                == i);
                        }
                    }
                }
            } else {
                let mut items: Vec<usize> = Vec::new();
                items.push(i);
                grid.push(GridCell { cx, cy, items });
                proof {
                    assert forall|k: int| 0 <= k < i + 1 implies #[trigger] seq_covered(
                        grid@,
                        k,
                    ) by {
                        if k < i {
                            assert(seq_covered(grid0, k));
                            let (bb, jj) = choose|bb: int, jj: int|
                                0 <= bb < grid0.len() && 0 <= jj < grid0[bb].items@.len()
                                    && grid0[bb].items@[jj] == k;
                            assert(grid@[bb] == grid0[bb]);
                            assert(grid@[bb].items@[jj] == k);
                        } else {
                            assert(grid@[grid0.len() as int].items@[0] == i);
                        }
                    }
                }
            }
            i = i + 1;
        }
        let r = HashGridScene { cell_size, props, grid };
        proof {
            assert forall|k: int| 0 <= k < r.props@.len() implies #[trigger] r.bucketed_below(
                r.grid@.len() as int,
                k,
            ) by {
                assert(seq_covered(r.grid@, k));
                let (bb, jj) = choose|bb: int, jj: int|
                    0 <= bb < r.grid@.len() && 0 <= jj < r.grid@[bb].items@.len()
                        && r.grid@[bb].items@[jj] == k;
                assert(0 <= bb < r.grid@.len() && 0 <= jj < r.grid@[bb].items@.len()
                    && r.grid@[bb].items@[jj] == k);
            }
        }
        r
    }

    /// The indices of all props in the 3-by-3 block of cells around
    /// `pos`, each exactly once.
    pub fn at(&self, pos: Vec2) -> (r: Vec<usize>)
        requires
            self.wf(),
            pos.in_bounds(),
        ensures
            forall|j1: int, j2: int| 0 <= j1 < j2 < r@.len() ==> r@[j1] != r@[j2],
            forall|j: int| 0 <= j < r@.len() ==> self.query_spec(pos).contains(r@[j] as int),
            forall|i: int| self.query_spec(pos).contains(i) ==> r@.contains(i as usize),
    {
        let qcx = div_floor(pos.x, self.cell_size);
        let qcy = div_floor(pos.y, self.cell_size);
        proof {
            lemma_cell_in_window(pos.x as int, self.cell_size as int);
            lemma_cell_in_window(pos.y as int, self.cell_size as int);
        }
        let mut r: Vec<usize> = Vec::new();
        let nb = self.grid.len();
        let mut b: usize = 0;
        while b < nb
            invariant
                self.wf(),
                pos.in_bounds(),
                0 <= b <= nb,
                nb == self.grid@.len(),
                qcx == cell_coord_spec(pos.x as int, self.cell_size as int),
                qcy == cell_coord_spec(pos.y as int, self.cell_size as int),
                -1_000_000_000 <= qcx <= 1_000_000_000,
                -1_000_000_000 <= qcy <= 1_000_000_000,
                forall|j1: int, j2: int| 0 <= j1 < j2 < r@.len() ==> r@[j1] != r@[j2],
                forall|j: int|
                    0 <= j < r@.len() ==> #[trigger] self.found_below(
                        b as int,
                        qcx as int,
                        qcy as int,
                        r@[j] as int,
                    ),
                forall|i: int|
                    self.found_below(b as int, qcx as int, qcy as int, i) ==> r@.contains(
                        i as usize,
                    ),
            decreases nb - b,
        {
            proof {
                assert(-1_000_000_000 <= self.grid@[b as int].cx <= 1_000_000_000
                    && -1_000_000_000 <= self.grid@[b as int].cy <= 1_000_000_000);
            }
            let dx = self.grid[b].cx - qcx;
            let dy = self.grid[b].cy - qcy;
            if dx >= -1 && dx <= 1 && dy >= -1 && dy <= 1 {
                let ghost r0 = r@;
                let m = self.grid[b].items.len();
                let mut k: usize = 0;
                while k < m
                    invariant
                        self.wf(),
                        0 <= k <= m,
                        0 <= b < self.grid@.len(),
                        m == self.grid@[b as int].items@.len(),
                        cell_adjacent_spec(
                            self.grid@[b as int].cx as int,
                            self.grid@[b as int].cy as int,
                            qcx as int,
                            qcy as int,
                        ),
                        r@ == r0 + self.grid@[b as int].items@.subrange(0, k as int),
                        forall|j1: int, j2: int| 0 <= j1 < j2 < r0.len() ==> r0[j1] != r0[j2],
                        forall|j: int|
                            0 <= j < r0.len() ==> #[trigger] self.found_below(
                                b as int,
                                qcx as int,
                                qcy as int,
                                r0[j] as int,
                            ),
                        forall|i: int|
                            self.found_below(b as int, qcx as int, qcy as int, i) ==> r0.contains(
                                i as usize,
                            ),
                    decreases m - k,
                {
                    let x = self.grid[b].items[k];
                    r.push(x);
                    proof {
                        assert(r@ =~= r0 + self.grid@[b as int].items@.subrange(0, k + 1));
                    }
                    k = k + 1;
                }
                proof {
                    let items = self.grid@[b as int].items@;
                    assert(items.subrange(0, m as int) =~= items);
                    // Elements of the finished bucket are distinct from the
                    // earlier ones: an index sits in only one bucket, since
                    // its cell key is determined and keys are pairwise
                    // distinct.
                    assert forall|j1: int, j2: int| 0 <= j1 < j2 < r@.len() implies r@[j1]
                        != r@[j2] by {
                        if j2 < r0.len() {
                        } else if j1 >= r0.len() {
                            assert(r@[j1] == items[j1 - r0.len()]);
                            assert(r@[j2] == items[j2 - r0.len()]);
                        } else {
                            assert(r@[j1] == r0[j1]);
                            assert(r@[j2] == items[j2 - r0.len()]);
                            if r@[j1] == r@[j2] {
                                assert(self.found_below(
                                    b as int,
                                    qcx as int,
                                    qcy as int,
                                    r0[j1] as int,
                                ));
                                let (bb, jj) = choose|bb: int, jj: int|
                                    0 <= bb < b && 0 <= jj < self.grid@[bb].items@.len()
                                        && self.grid@[bb].items@[jj] == r0[j1] as int
                                        && cell_adjacent_spec(
                                        self.grid@[bb].cx as int,
                                        self.grid@[bb].cy as int,
                                        qcx as int,
                                        qcy as int,
                                    );
                                assert(self.grid@[bb].items@[jj] == self.grid@[b as int].items@[j2
                                    - r0.len()]);
                                assert(self.grid@[bb].cx == self.grid@[b as int].cx
                                    && self.grid@[bb].cy == self.grid@[b as int].cy);
                            }
                        }
                    }
                    assert forall|j: int| 0 <= j < r@.len() implies #[trigger] self.found_below(
                        (b + 1) as int,
                        qcx as int,
                        qcy as int,
                        r@[j] as int,
                    ) by {
                        if j < r0.len() {
                            let x = r0[j] as int;
                            assert(self.found_below(b as int, qcx as int, qcy as int, x));
                            let (bb, jj) = choose|bb: int, jj: int|
                                0 <= bb < b && 0 <= jj < self.grid@[bb].items@.len()
                                    && self.grid@[bb].items@[jj] == x && cell_adjacent_spec(
                                    self.grid@[bb].cx as int,
                                    self.grid@[bb].cy as int,
                                    qcx as int,
                                    qcy as int,
                                );
                            assert(0 <= bb < b + 1 && 0 <= jj < self.grid@[bb].items@.len()
                                && self.grid@[bb].items@[jj] == x && cell_adjacent_spec(
                                self.grid@[bb].cx as int,
                                self.grid@[bb].cy as int,
                                qcx as int,
                                qcy as int,
                            ));
                        } else {
                            let jj = j - r0.len();
                            assert(self.grid@[b as int].items@[jj] == r@[j]);
                        }
                    }
                    assert forall|i: int| #[trigger] self.found_below(
                        (b + 1) as int,
                        qcx as int,
                        qcy as int,
                        i,
                    ) implies r@.contains(i as usize) by {
                        let (bb, jj) = choose|bb: int, jj: int|
                            0 <= bb < b + 1 && 0 <= jj < self.grid@[bb].items@.len()
                                && self.grid@[bb].items@[jj] == i && cell_adjacent_spec(
                                self.grid@[bb].cx as int,
                                self.grid@[bb].cy as int,
                                qcx as int,
                                qcy as int,
                            );
                        if bb < b {
                            assert(self.found_below(b as int, qcx as int, qcy as int, i));
                            assert(r0.contains(i as usize));
                            let j0 = choose|j0: int| 0 <= j0 < r0.len() && r0[j0] == i as usize;
                            assert(r@[j0] == r0[j0]);
                        } else {
                            assert(r@[r0.len() + jj] == items[jj]);
                        }
                    }
                }
            } else {
                proof {
                    assert forall|i: int| #[trigger] self.found_below(
                        (b + 1) as int,
                        qcx as int,
                        qcy as int,
                        i,
                    ) implies r@.contains(i as usize) by {
                        let (bb, jj) = choose|bb: int, jj: int|
                            0 <= bb < b + 1 && 0 <= jj < self.grid@[bb].items@.len()
                                && self.grid@[bb].items@[jj] == i && cell_adjacent_spec(
                                self.grid@[bb].cx as int,
                                self.grid@[bb].cy as int,
                                qcx as int,
                                qcy as int,
                            );
                        assert(bb != b);
                        assert(self.found_below(b as int, qcx as int, qcy as int, i));
                    }
                    assert forall|j: int| 0 <= j < r@.len() implies #[trigger] self.found_below(
                        (b + 1) as int,
                        qcx as int,
                        qcy as int,
                        r@[j] as int,
                    ) by {
                        let x = r@[j] as int;
                        assert(self.found_below(b as int, qcx as int, qcy as int, x));
                        let (bb, jj) = choose|bb: int, jj: int|
                            0 <= bb < b && 0 <= jj < self.grid@[bb].items@.len()
                                && self.grid@[bb].items@[jj] == x && cell_adjacent_spec(
                                self.grid@[bb].cx as int,
                                self.grid@[bb].cy as int,
                                qcx as int,
                                qcy as int,
                            );
                        assert(0 <= bb < b + 1 && 0 <= jj < self.grid@[bb].items@.len()
                            && self.grid@[bb].items@[jj] == x && cell_adjacent_spec(
                            self.grid@[bb].cx as int,
                            self.grid@[bb].cy as int,
                            qcx as int,
                            qcy as int,
                        ));
                    }
                }
            }
            b = b + 1;
        }
        proof {
            assert forall|j: int| 0 <= j < r@.len() implies self.query_spec(pos).contains(
                r@[j] as int,
            ) by {
                let x = r@[j] as int;
                assert(self.found_below(nb as int, qcx as int, qcy as int, x));
                let (bb, jj) = choose|bb: int, jj: int|
                    0 <= bb < nb && 0 <= jj < self.grid@[bb].items@.len() && self.grid@[bb].items@[jj]
                        == x && cell_adjacent_spec(
                        self.grid@[bb].cx as int,
                        self.grid@[bb].cy as int,
                        qcx as int,
                        qcy as int,
                    );
                assert(self.grid@[bb].items@[jj] < self.props@.len());
            }
            assert forall|i: int| self.query_spec(pos).contains(i) implies r@.contains(
                i as usize,
            ) by {
                assert(self.bucketed_below(self.grid@.len() as int, i));
                let (bb, jj) = choose|bb: int, jj: int|
                    0 <= bb < self.grid@.len() && 0 <= jj < self.grid@[bb].items@.len()
                        && self.grid@[bb].items@[jj] == i;
                assert(self.grid@[bb].cx == cell_coord_spec(
                    self.props@[i].pos_spec().x as int,
                    self.cell_size as int,
                ));
                assert(self.found_below(nb as int, qcx as int, qcy as int, i));
            }
        }
        r
    }

    /// How many props the scene owns.
    pub fn len(&self) -> (r: usize)
        ensures
            r == self.props@.len(),
    {
        self.props.len()
    }

    /// Borrows the prop at `i`.
    pub fn get(&self, i: usize) -> (r: &P)
        requires
            i < self.props@.len(),
        ensures
            *r == self.props@[i as int],
    {
        &self.props[i]
    }

    /// Exclusively borrows the prop at `i`. The grid stays as it is, so
    /// the invariant survives only mutations that keep the prop's
    /// position; the game mutates props in place and never moves them.
    pub fn get_mut(&mut self, i: usize) -> (r: &mut P)
        requires
            i < old(self).props@.len(),
        ensures
            *r == old(self).props@[i as int],
            final(self).props@ == old(self).props@.update(i as int, *final(r)),
            final(self).grid == old(self).grid,
            final(self).cell_size == old(self).cell_size,
    {
        vstd::std_specs::vec::vec_index_mut(&mut self.props, i)
    }
}

/// Whether some bucket of `grid` holds the index `idx`.
pub open spec fn seq_covered(grid: Seq<GridCell>, idx: int) -> bool {
    exists|b: int, j: int|
        0 <= b < grid.len() && 0 <= j < grid[b].items@.len() && grid[b].items@[j] == idx
}

/// The members of `s` whose entity lies within distance `d` of the query
/// point `q`.
pub open spec fn touching_filter<P: Positioned>(
    s: Set<int>,
    props: Seq<P>,
    q: Vec2,
    d: int,
) -> Set<int> {
    Set::new(
        |i: int|
            s.contains(i) && crate::entities::circle_touch_spec(props[i].pos_spec(), q, d),
    )
}

/// Scene equivalence: for one fixed set of entities and any query point,
/// the flat scene and the hash-grid scene return the same set of entities
/// lying within any interaction distance `d` of the point, provided the
/// grid's cells are at least `d` wide. The grid returns fewer candidates
/// overall, but never drops a touching one.
pub proof fn lemma_scene_query_equivalence<P: Positioned>(
    flat: FlatScene<P>,
    grid: HashGridScene<P>,
    q: Vec2,
    d: int,
)
    requires
        grid.wf(),
        flat.props@ == grid.props@,
        q.in_bounds(),
        0 < d <= grid.cell_size,
    ensures
        touching_filter(flat.query_spec(q), grid.props@, q, d) == touching_filter(
            grid.query_spec(q),
            grid.props@,
            q,
            d,
        ),
{
    let fs = touching_filter(flat.query_spec(q), grid.props@, q, d);
    let gs = touching_filter(grid.query_spec(q), grid.props@, q, d);
    assert forall|i: int| fs.contains(i) implies gs.contains(i) by {
        let e = grid.props@[i].pos_spec();
        assert(-d <= e.x - q.x <= d && -d <= e.y - q.y <= d) by (nonlinear_arith)
            requires
                (e.x - q.x) * (e.x - q.x) + (e.y - q.y) * (e.y - q.y) <= d * d,
                d >= 0,
        ;
        lemma_close_cells_adjacent(e.x as int, q.x as int, grid.cell_size as int);
        lemma_close_cells_adjacent(e.y as int, q.y as int, grid.cell_size as int);
    }
    assert forall|i: int| gs.contains(i) implies fs.contains(i) by {}
    assert(fs =~= gs);
}

/// Floor-dividing shifts by exactly one when the dividend moves by one
/// divisor.
proof fn lemma_div_shift(x: int, cs: int)
    requires
        1 <= cs,
    ensures
        (x + cs) / cs == x / cs + 1,
{
    vstd::arithmetic::div_mod::lemma_fundamental_div_mod(x, cs);
    vstd::arithmetic::div_mod::lemma_mod_division_less_than_divisor(x, cs);
    assert(x + cs == (x / cs + 1) * cs + x % cs) by (nonlinear_arith)
        requires
            x == cs * (x / cs) + x % cs,
    ;
    vstd::arithmetic::div_mod::lemma_fundamental_div_mod_converse(
        x + cs,
        cs,
        x / cs + 1,
        x % cs,
    );
}

/// Coordinates within one cell size of each other land on the same or an
/// adjacent cell.
proof fn lemma_close_cells_adjacent(a: int, b: int, cs: int)
    requires
        1 <= cs,
        -cs <= a - b <= cs,
    ensures
        -1 <= a / cs - b / cs <= 1,
{
    vstd::arithmetic::div_mod::lemma_div_is_ordered(a, b + cs, cs);
    lemma_div_shift(b, cs);
    vstd::arithmetic::div_mod::lemma_div_is_ordered(b, a + cs, cs);
    lemma_div_shift(a, cs);
}

/// A coordinate from the representable window lands on a cell coordinate
/// in the same window.
proof fn lemma_cell_in_window(x: int, cs: int)
    requires
        -1_000_000_000 <= x <= 1_000_000_000,
        1 <= cs,
    ensures
        -1_000_000_000 <= cell_coord_spec(x, cs) <= 1_000_000_000,
{
    if x >= 0 {
        vstd::arithmetic::div_mod::lemma_div_pos_is_pos(x, cs);
        vstd::arithmetic::div_mod::lemma_div_is_ordered_by_denominator(x, 1, cs);
        vstd::arithmetic::div_mod::lemma_div_basics(x);
    } else {
        assert(cs * x <= x) by (nonlinear_arith)
            requires
                x < 0,
                1 <= cs,
        ;
        vstd::arithmetic::div_mod::lemma_div_is_ordered(cs * x, x, cs);
        vstd::arithmetic::div_mod::lemma_div_multiples_vanish(x, cs);
        vstd::arithmetic::div_mod::lemma_div_is_ordered(x, 0, cs);
        vstd::arithmetic::div_mod::lemma_div_of0(cs);
    }
}

} // verus!
