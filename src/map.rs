//! [MapData]: a width-tagged flat grid of optional tiles, and its row traversal.

use vstd::prelude::*;

use crate::tile::{TileClass, TileModel};

verus! {

/// Abstract value of one slot.
pub open spec fn slot_model<T: TileClass>(o: Option<T>) -> Option<TileModel> {
    match o {
        Some(t) => Some(t.model()),
        None => None,
    }
}

/// Abstract value of a run of slots.
pub open spec fn slots_model<T: TileClass>(s: Seq<Option<T>>) -> Seq<Option<TileModel>> {
    s.map_values(|o: Option<T>| slot_model(o))
}

/// Abstract value of a grid: its spritesheet, its width and its slots, row by row.
pub struct MapModel {
    pub spritesheet: Seq<char>,
    pub width: nat,
    pub slots: Seq<Option<TileModel>>,
}

impl MapModel {
    /// A positive width that divides the number of slots.
    pub open spec fn wf(self) -> bool {
        self.width > 0 && self.slots.len() % self.width == 0
    }

    pub open spec fn height(self) -> nat {
        self.slots.len() / self.width
    }

    /// Flat index of column `x`, row `y`.
    pub open spec fn index(self, x: int, y: int) -> int {
        x + y * self.width
    }

    pub open spec fn slot(self, x: int, y: int) -> Option<TileModel> {
        self.slots[self.index(x, y)]
    }

    /// Row `k`: the slots of columns `0..width` of that row, in order.
    pub open spec fn row(self, k: int) -> Seq<Option<TileModel>> {
        self.slots.subrange(k * self.width, k * self.width + self.width)
    }

    /// All rows, bottom to top.
    pub open spec fn rows(self) -> Seq<Seq<Option<TileModel>>> {
        Seq::new(self.height(), |k: int| self.row(k))
    }
}

/// Every slot of a `width` by `height` grid lies inside it.
pub proof fn lemma_index_in_bounds(width: nat, height: nat, x: int, y: int)
    requires
        0 <= x < width,
        0 <= y < height,
    ensures
        0 <= x + y * width < width * height,
{
    assert(y * width <= (height - 1) * width) by (nonlinear_arith)
        requires
            0 <= y < height,
    ;
    assert((height - 1) * width + width == width * height) by (nonlinear_arith);
    assert(0 <= y * width) by (nonlinear_arith)
        requires
            0 <= y,
    ;
}

/// A well-formed grid holds `width * height` slots.
pub proof fn lemma_slot_count(m: MapModel)
    requires
        m.wf(),
    ensures
        m.slots.len() == m.width * m.height(),
{
    assert(m.slots.len() == m.width * m.height()) by (nonlinear_arith)
        requires
            m.width > 0,
            m.slots.len() % m.width == 0,
    ;
}

/// Row `k` of a grid is `width` long and lists slots `(0, k)` to
/// `(width - 1, k)` in order; there are `height` rows.
pub proof fn lemma_rows_shape(m: MapModel)
    requires
        m.wf(),
    ensures
        m.rows().len() == m.height(),
        forall|k: int| 0 <= k < m.height() ==> (#[trigger] m.rows()[k]).len() == m.width,
        forall|k: int, x: int|
            0 <= k < m.height() && 0 <= x < m.width ==> #[trigger] m.rows()[k][x] == m.slot(x, k),
{
    lemma_slot_count(m);
    assert forall|k: int| 0 <= k < m.height() implies (#[trigger] m.rows()[k]).len() == m.width by {
        lemma_index_in_bounds(m.width, m.height(), 0, k);
        lemma_index_in_bounds(m.width, m.height(), m.width - 1, k);
    }
    assert forall|k: int, x: int| 0 <= k < m.height() && 0 <= x < m.width implies #[trigger] m.rows()[k][x]
        == m.slot(x, k) by {
        lemma_index_in_bounds(m.width, m.height(), 0, k);
        lemma_index_in_bounds(m.width, m.height(), m.width - 1, k);
    }
}

/// Addressing: the slot written at `(x, y)` is the one at flat index
/// `x + y * width`, and it is what row `y`, column `x` then reads; the grid
/// keeps its shape.
pub proof fn lemma_write_then_read(m: MapModel, x: int, y: int, v: Option<TileModel>)
    requires
        m.wf(),
        0 <= x < m.width,
        0 <= y < m.height(),
    ensures
        ({
            let w = MapModel { slots: m.slots.update(m.index(x, y), v), ..m };
            &&& w.wf()
            &&& w.height() == m.height()
            &&& w.rows()[y][x] == v
            &&& forall|x2: int, y2: int|
                0 <= x2 < m.width && 0 <= y2 < m.height() && (x2 != x || y2 != y)
                    ==> #[trigger] w.rows()[y2][x2] == m.rows()[y2][x2]
        }),
{
    let w = MapModel { slots: m.slots.update(m.index(x, y), v), ..m };
    lemma_slot_count(m);
    lemma_index_in_bounds(m.width, m.height(), x, y);
    lemma_rows_shape(m);
    lemma_rows_shape(w);
    assert forall|x2: int, y2: int|
        0 <= x2 < m.width && 0 <= y2 < m.height() && (x2 != x || y2 != y)
            implies #[trigger] w.rows()[y2][x2] == m.rows()[y2][x2] by {
        lemma_index_in_bounds(m.width, m.height(), x2, y2);
        lemma_index_distinct(m.width, x, y, x2, y2);
    }
}

/// Distinct cells have distinct flat indices.
pub proof fn lemma_index_distinct(width: nat, x: int, y: int, x2: int, y2: int)
    requires
        0 <= x < width,
        0 <= x2 < width,
        0 <= y,
        0 <= y2,
        x != x2 || y != y2,
    ensures
        x + y * width != x2 + y2 * width,
{
    if y < y2 {
        assert((y + 1) * width <= y2 * width) by (nonlinear_arith)
            requires
                y + 1 <= y2,
        ;
        assert((y + 1) * width == y * width + width) by (nonlinear_arith);
    } else if y2 < y {
        assert((y2 + 1) * width <= y * width) by (nonlinear_arith)
            requires
                y2 + 1 <= y,
        ;
        assert((y2 + 1) * width == y2 * width + width) by (nonlinear_arith);
    }
}

/// A grid of optional tiles, stored row after row.
#[derive(Debug)]
pub struct MapData<T> {
    spritesheet: String,
    tiles: Vec<Option<T>>,
    width: usize,
}

impl<T: TileClass> View for MapData<T> {
    type V = MapModel;

    closed spec fn view(&self) -> MapModel {
        MapModel {
            spritesheet: self.spritesheet@,
            width: self.width as nat,
            slots: slots_model(self.tiles@),
        }
    }
}

impl<T: TileClass> MapData<T> {
    /// The slots as stored.
    pub closed spec fn tiles(&self) -> Seq<Option<T>> {
        self.tiles@
    }

    pub proof fn lemma_view(&self)
        ensures
            self@.slots == slots_model(self.tiles()),
            self@.slots.len() == self.tiles().len(),
            self@.width <= usize::MAX,
    {
    }

    /// A grid of `width` by `height` empty slots.
    pub fn new(width: usize, height: usize, spritesheet: String) -> (r: MapData<T>)
        requires
            width > 0,
            height > 0,
            width * height <= usize::MAX,
        ensures
            r@.wf(),
            r@.spritesheet == spritesheet@,
            r@.width == width,
            r@.height() == height,
            r@.slots == Seq::new((width * height) as nat, |i: int| None::<TileModel>),
    {
        let n: usize = width * height;
        let mut tiles: Vec<Option<T>> = Vec::with_capacity(n);
        let mut i: usize = 0;
        while i < n
            invariant
                i <= n,
                tiles@.len() == i,
                forall|j: int| 0 <= j < i ==> tiles@[j] is None,
            decreases n - i,
        {
            tiles.push(None);
            i = i + 1;
        }
        let r = MapData { spritesheet, tiles, width };
        assert(r@.slots =~= Seq::new((width * height) as nat, |i: int| None::<TileModel>));
        assert((width * height) as int % width as int == 0) by (nonlinear_arith)
            requires
                width > 0,
        ;
        assert((width * height) as int / width as int == height) by (nonlinear_arith)
            requires
                width > 0,
        ;
        r
    }

    /// Builds a grid from its parts; `None` unless `width` is positive and
    /// divides the number of slots.
    pub fn from_parts(spritesheet: String, tiles: Vec<Option<T>>, width: usize) -> (r: Option<
        MapData<T>,
    >)
        ensures
            match r {
                Some(m) => m@.wf() && m@ == (MapModel {
                    spritesheet: spritesheet@,
                    width: width as nat,
                    slots: slots_model(tiles@),
                }) && m.tiles() == tiles@,
                None => !(MapModel {
                    spritesheet: spritesheet@,
                    width: width as nat,
                    slots: slots_model(tiles@),
                }).wf(),
            },
    {
        if width == 0 || tiles.len() % width != 0 {
            None
        } else {
            Some(MapData { spritesheet, tiles, width })
        }
    }

    /// Rows of the grid, bottom to top.
    pub fn iter(&self) -> (r: MapIterator<'_, T>)
        requires
            self@.wf(),
        ensures
            r.wf(),
            r.remaining() == self@.rows(),
    {
        MapIterator::new(self)
    }

    /// The slot at column `x`, row `y`, to read or replace in place.
    pub fn get_mut(&mut self, x: usize, y: usize) -> (r: &mut Option<T>)
        requires
            old(self)@.wf(),
            x < old(self)@.width,
            y < old(self)@.height(),
        ensures
            slot_model(*r) == old(self)@.slot(x as int, y as int),
            final(self)@ == (MapModel {
                slots: old(self)@.slots.update(
                    old(self)@.index(x as int, y as int),
                    slot_model(*final(r)),
                ),
                ..old(self)@
            }),
    {
        let len: usize = self.tiles.len();
        proof {
            let m = self@;
            lemma_index_in_bounds(m.width, m.height(), x as int, y as int);
            assert(m.width * m.height() == m.slots.len()) by (nonlinear_arith)
                requires
                    m.width > 0,
                    m.slots.len() % m.width == 0,
            ;
            assert(m.slots.len() == self.tiles@.len());
            assert(x + y * m.width < self.tiles@.len());
            assert(0 <= y * self.width <= x + y * self.width < len);
        }
        let yw: usize = y * self.width;
        let i: usize = x + yw;
        let ghost m = self@;
        let r = &mut self.tiles[i];
        proof {
            assert(slots_model(after_borrow(self.tiles)@) =~= m.slots.update(
                i as int,
                slot_model(*final(r)),
            ));
        }
        r
    }

    /// Width and height of the grid.
    pub fn size(&self) -> (r: (usize, usize))
        requires
            self@.wf(),
        ensures
            r.0 == self@.width,
            r.1 == self@.height(),
    {
        (self.width, self.tiles.len() / self.width)
    }

    /// Number of slots.
    pub fn slot_count(&self) -> (r: usize)
        ensures
            r == self@.slots.len(),
    {
        self.tiles.len()
    }

    /// The slot at flat index `i`.
    pub fn slot_at(&self, i: usize) -> (r: &Option<T>)
        requires
            i < self@.slots.len(),
        ensures
            slot_model(*r) == self@.slots[i as int],
    {
        &self.tiles[i]
    }

    /// Name of the texture atlas this grid is drawn from.
    pub fn spritesheet(&self) -> (r: &String)
        ensures
            r@ == self@.spritesheet,
    {
        &self.spritesheet
    }
}

/// Row-by-row traversal of a [MapData]; read only, and independent of every
/// other traversal of the same grid.
pub struct MapIterator<'map, T> {
    map: &'map MapData<T>,
    row: usize,
}

impl<'map, T: TileClass> MapIterator<'map, T> {
    /// Rows still to come.
    pub closed spec fn remaining(&self) -> Seq<Seq<Option<TileModel>>> {
        self.map@.rows().skip(self.row as int)
    }

    pub closed spec fn wf(&self) -> bool {
        self.map@.wf() && self.row <= self.map@.height()
    }

    /// A traversal that starts at the bottom row.
    pub fn new(map: &'map MapData<T>) -> (r: MapIterator<'map, T>)
        requires
            map@.wf(),
        ensures
            r.wf(),
            r.remaining() == map@.rows(),
    {
        let r = MapIterator { map, row: 0 };
        assert(r.remaining() =~= map@.rows());
        r
    }

    /// The next row, or `None` once every row has been handed out.
    pub fn next(&mut self) -> (r: Option<&'map [Option<T>]>)
        requires
            old(self).wf(),
        ensures
            final(self).wf(),
            old(self).remaining().len() == 0 ==> r is None && final(self).remaining() == old(
                self,
            ).remaining(),
            old(self).remaining().len() > 0 ==> r is Some && slots_model(r.unwrap()@) == old(
                self,
            ).remaining()[0] && final(self).remaining() == old(self).remaining().drop_first(),
        decreases old(self).remaining().len(),
    {
        let h = self.map.tiles.len() / self.map.width;
        if self.row >= h {
            return None;
        }
        let w = self.map.width;
        proof {
            let m = self.map@;
            assert(self.row * w + w <= h * w) by (nonlinear_arith)
                requires
                    self.row < h,
            ;
            assert(h * w <= m.slots.len()) by (nonlinear_arith)
                requires
                    h == m.slots.len() / (w as nat),
                    w > 0,
            ;
        }
        let start: usize = self.row * w;
        let s = vstd::slice::slice_subrange(self.map.tiles.as_slice(), start, start + w);
        self.row = self.row + 1;
        proof {
            assert(slots_model(s@) =~= old(self).remaining()[0]);
            assert(self.remaining() =~= old(self).remaining().drop_first());
        }
        Some(s)
    }
}

} // verus!
