//! A grid of optional frame indices viewed through one animated sprite: the
//! editing surface of the tile editor. Drawing is planned here as pure data;
//! an external renderer executes the plan.

use vstd::arithmetic::mul::lemma_mul_upper_bound;
use vstd::prelude::*;

use crate::ani_sprite::{AniSprite, FrameRect};
use crate::tile_map::empty_tiles;

verus! {

/// The grid of a tile layer: rows of optional frame indices.
pub type Tilemap = Vec<Vec<Option<u16>>>;

/// One sprite instance to render: which frame, from which source rectangle,
/// at which pixel offset from the view's origin.
#[derive(Clone, Copy, Debug, PartialEq, Eq, Structural)]
pub struct DrawCommand {
    /// The frame index the cell holds.
    pub frame: u16,
    /// The source sub-rectangle of that frame in the sprite sheet.
    pub src: FrameRect,
    /// Horizontal offset: the first grid coordinate times the frame width.
    pub dx: u64,
    /// Vertical offset: the second grid coordinate times the frame height.
    pub dy: u64,
}

/// The draw command for the cell at grid position `(x, y)` holding frame `e`.
pub open spec fn cell_cmd(s: AniSprite, x: int, y: int, e: u16) -> DrawCommand {
    DrawCommand {
        frame: e,
        src: s.frame_rect_for(e as int),
        dx: (x * s.frame.w as int) as u64,
        dy: (y * s.frame.h as int) as u64,
    }
}

/// The draw commands of the non-empty cells of row `x`, in cell order.
pub open spec fn row_plan(s: AniSprite, row: Seq<Option<u16>>, x: int) -> Seq<DrawCommand>
    decreases row.len(),
{
    if row.len() == 0 {
        Seq::empty()
    } else {
        row_plan(s, row.drop_last(), x) + match row.last() {
            Some(e) => seq![cell_cmd(s, x, row.len() - 1, e)],
            None => Seq::empty(),
        }
    }
}

/// The draw commands of a whole grid, rows in order: row-major iteration over
/// the non-empty cells.
pub open spec fn plan_spec(s: AniSprite, grid: Seq<Vec<Option<u16>>>) -> Seq<DrawCommand>
    decreases grid.len(),
{
    if grid.len() == 0 {
        Seq::empty()
    } else {
        plan_spec(s, grid.drop_last()) + row_plan(s, grid.last()@, grid.len() - 1)
    }
}

/// A tile grid with the sprite sheet its cells are drawn from, owned
/// exclusively by one caller.
pub struct TileLayerView {
    /// The grid of optional frame indices.
    pub tilemap: Tilemap,
    /// The sprite sheet the cells are drawn from.
    pub tiles: AniSprite,
}

impl TileLayerView {
    /// Validity: a valid sprite, grid dimensions that keep pixel offsets
    /// representable, and every held frame index inside the sprite sheet.
    pub open spec fn wf(self) -> bool {
        &&& self.tiles.wf()
        &&& self.tilemap.len() <= u32::MAX
        &&& forall|i: int|
            0 <= i < self.tilemap.len() ==> (#[trigger] self.tilemap[i]).len() <= u32::MAX
        &&& forall|i: int, j: int|
            0 <= i < self.tilemap.len() && 0 <= j < self.tilemap[i].len() ==> ((
            #[trigger] self.tilemap[i][j]) matches Some(e) ==> (e as int)
                < self.tiles.num_frames_spec())
    }

    /// Create a new TileLayerView with the specified size. The tiles are in
    /// form of an AniSprite.
    pub fn new(dims: (usize, usize), tiles: AniSprite) -> (r: TileLayerView)
        requires
            tiles.wf(),
            dims.0 <= u32::MAX,
            dims.1 <= u32::MAX,
        ensures
            r.wf(),
            r.tiles == tiles,
            r.tilemap.len() == dims.1,
            forall|i: int| 0 <= i < dims.1 ==> (#[trigger] r.tilemap[i]).len() == dims.0,
            forall|i: int, j: int|
                0 <= i < dims.1 && 0 <= j < dims.0 ==> (#[trigger] r.tilemap[i][j]) is None,
    {
        let (width, height) = dims;
        TileLayerView { tilemap: empty_tiles(width, height), tiles }
    }

    /// Set the tile at position (x, y) to the value of to. Update without
    /// buffering.
    pub fn set_tile(&mut self, pos: (usize, usize), to: Option<u16>)
        requires
            old(self).wf(),
            pos.0 < old(self).tilemap.len(),
            pos.1 < old(self).tilemap[pos.0 as int].len(),
            to matches Some(e) ==> (e as int) < old(self).tiles.num_frames_spec(),
        ensures
            final(self).wf(),
            final(self).tiles == old(self).tiles,
            final(self).tilemap.len() == old(self).tilemap.len(),
            forall|i: int|
                0 <= i < old(self).tilemap.len() && i != pos.0 ==> (#[trigger] final(self).tilemap[i])
                    == old(self).tilemap[i],
            final(self).tilemap[pos.0 as int]@ == old(self).tilemap[pos.0 as int]@.update(
                pos.1 as int,
                to,
            ),
    {
        let (x, y) = pos;
        let new_row = row_with(&self.tilemap[x], y, to);
        self.tilemap.set(x, new_row);
        proof {
            assert forall|i: int, j: int|
                0 <= i < self.tilemap.len() && 0 <= j < self.tilemap[i].len() implies ((
            #[trigger] self.tilemap[i][j]) matches Some(e) ==> (e as int)
                < self.tiles.num_frames_spec()) by {
                if i == x {
                    if j != y {
                        assert(self.tilemap[i][j] == old(self).tilemap[i][j]);
                    }
                } else {
                    assert(self.tilemap[i] == old(self).tilemap[i]);
                }
            }
        }
    }

    /// Clone the tilemap information to this map. The individual values have
    /// to be copied over.
    pub fn clone_map(&mut self, map: &Tilemap)
        requires
            old(self).wf(),
            map.len() <= u32::MAX,
            forall|i: int| 0 <= i < map.len() ==> (#[trigger] map[i]).len() <= u32::MAX,
            forall|i: int, j: int|
                0 <= i < map.len() && 0 <= j < map[i].len() ==> ((#[trigger] map[i][j]) matches Some(
                    e,
                ) ==> (e as int) < old(self).tiles.num_frames_spec()),
        ensures
            final(self).wf(),
            final(self).tiles == old(self).tiles,
            final(self).tilemap.len() == map.len(),
            forall|i: int|
                0 <= i < map.len() ==> (#[trigger] final(self).tilemap[i])@ == map[i]@,
    {
        let mut copied: Tilemap = Vec::new();
        let mut i: usize = 0;
        while i < map.len()
            invariant
                i <= map.len(),
                copied@.len() == i,
                forall|k: int| 0 <= k < i ==> (#[trigger] copied[k])@ == map[k]@,
            decreases map.len() - i,
        {
            let row = copy_row(&map[i]);
            copied.push(row);
            i = i + 1;
        }
        self.tilemap = copied;
    }

    /// Plan one full draw of the view: for every non-empty cell, in row-major
    /// order, one command naming the frame, its source rectangle and its
    /// pixel offset from the view's origin.
    pub fn draw_plan(&self) -> (r: Vec<DrawCommand>)
        requires
            self.wf(),
        ensures
            r@ == plan_spec(self.tiles, self.tilemap@),
    {
        let mut out: Vec<DrawCommand> = Vec::new();
        let mut x: usize = 0;
        while x < self.tilemap.len()
            invariant
                self.wf(),
                x <= self.tilemap.len(),
                out@ == plan_spec(self.tiles, self.tilemap@.take(x as int)),
            decreases self.tilemap.len() - x,
        {
            let row = &self.tilemap[x];
            let mut y: usize = 0;
            while y < row.len()
                invariant
                    self.wf(),
                    x < self.tilemap.len(),
                    row == &self.tilemap[x as int],
                    y <= row.len(),
                    out@ == plan_spec(self.tiles, self.tilemap@.take(x as int)) + row_plan(
                        self.tiles,
                        row@.take(y as int),
                        x as int,
                    ),
                decreases row.len() - y,
            {
                if let Some(e) = row[y] {
                    proof {
                        lemma_mul_upper_bound(
                            x as int,
                            u32::MAX as int,
                            self.tiles.frame.w as int,
                            u32::MAX as int,
                        );
                        lemma_mul_upper_bound(
                            y as int,
                            u32::MAX as int,
                            self.tiles.frame.h as int,
                            u32::MAX as int,
                        );
                    }
                    let src = self.tiles.rect_for_frame(e as u32);
                    let dx = (x as u64) * (self.tiles.frame_width() as u64);
                    let dy = (y as u64) * (self.tiles.frame_height() as u64);
                    out.push(DrawCommand { frame: e, src, dx, dy });
                }
                proof {
                    assert(row@.take(y + 1).drop_last() =~= row@.take(y as int));
                    assert(row@.take(y + 1).last() == row@[y as int]);
                }
                y = y + 1;
            }
            proof {
                assert(row@.take(row@.len() as int) =~= row@);
                assert(self.tilemap@.take(x + 1).drop_last() =~= self.tilemap@.take(x as int));
                assert(self.tilemap@.take(x + 1).last() == self.tilemap@[x as int]);
            }
            x = x + 1;
        }
        proof {
            assert(self.tilemap@.take(self.tilemap@.len() as int) =~= self.tilemap@);
        }
        out
    }
}

/// A copy of `row` with the cell at `j` replaced by `v`.
fn row_with(row: &Vec<Option<u16>>, j: usize, v: Option<u16>) -> (r: Vec<Option<u16>>)
    requires
        j < row.len(),
    ensures
        r@ == row@.update(j as int, v),
{
    let mut out: Vec<Option<u16>> = Vec::new();
    let mut k: usize = 0;
    while k < row.len()
        invariant
            j < row.len(),
            k <= row.len(),
            out@.len() == k,
            forall|m: int|
                0 <= m < k ==> out[m] == (if m == j {
                    v
                } else {
                    row[m]
                }),
        decreases row.len() - k,
    {
        if k == j {
            out.push(v);
        } else {
            out.push(row[k]);
        }
        k = k + 1;
    }
    proof {
        assert(out@ =~= row@.update(j as int, v));
    }
    out
}

/// A cell-by-cell copy of `row`.
fn copy_row(row: &Vec<Option<u16>>) -> (r: Vec<Option<u16>>)
    ensures
        r@ == row@,
{
    let mut out: Vec<Option<u16>> = Vec::new();
    let mut k: usize = 0;
    while k < row.len()
        invariant
            k <= row.len(),
            out@ =~= row@.take(k as int),
        decreases row.len() - k,
    {
        out.push(row[k]);
        k = k + 1;
    }
    proof {
        assert(row@.take(row@.len() as int) =~= row@);
    }
    out
}

} // verus!
