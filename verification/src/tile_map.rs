//! Tile layers and the multi-layer tile map: simple 2-D grids of optional
//! frame indices, each rendered through one animated sprite.

use vstd::prelude::*;

use crate::ani_sprite::AniSprite;
use crate::rect::Rect;

verus! {

/// Create a grid of `height` rows, each `width` cells of nothing.
pub(crate) fn empty_tiles(width: usize, height: usize) -> (g: Vec<Vec<Option<u16>>>)
    ensures
        g@.len() == height,
        forall|i: int|
            0 <= i < height ==> (#[trigger] g@[i])@ =~= Seq::<Option<u16>>::new(
                width as nat,
                |j: int| None,
            ),
{
    let mut g: Vec<Vec<Option<u16>>> = Vec::new();
    let mut i: usize = 0;
    while i < height
        invariant
            i <= height,
            g@.len() == i,
            forall|k: int|
                0 <= k < i ==> (#[trigger] g@[k])@ =~= Seq::<Option<u16>>::new(
                    width as nat,
                    |j: int| None,
                ),
        decreases height - i,
    {
        let mut row: Vec<Option<u16>> = Vec::new();
        let mut j: usize = 0;
        while j < width
            invariant
                j <= width,
                row@ =~= Seq::<Option<u16>>::new(j as nat, |m: int| None),
            decreases width - j,
        {
            row.push(None);
            j = j + 1;
        }
        g.push(row);
        i = i + 1;
    }
    g
}

/// One grid of optional frame indices together with the sprite sheet its
/// cells are drawn from. All rows have the same length.
pub struct TileLayer {
    /// The rows of the grid, each cell an optional frame index.
    pub tiles: Vec<Vec<Option<u16>>>,
    /// The sprite sheet used to draw the cells.
    pub sprites: AniSprite,
}

impl TileLayer {
    /// The width of the grid: the length of its first row, or zero when it
    /// has no rows.
    pub open spec fn width_spec(self) -> int {
        if self.tiles.len() == 0 {
            0
        } else {
            self.tiles[0].len() as int
        }
    }

    /// The height of the grid: its number of rows.
    pub open spec fn height_spec(self) -> int {
        self.tiles.len() as int
    }

    /// Validity: a valid sprite and rows of one common length.
    pub open spec fn wf(self) -> bool {
        &&& self.sprites.wf()
        &&& forall|i: int|
            0 <= i < self.tiles.len() ==> (#[trigger] self.tiles[i]).len() == self.width_spec()
    }

    /// Create a new empty tile layer. The sprites that will be used are
    /// already required to be set and generally should not be changed later.
    pub fn new(dims: (usize, usize), sprites: AniSprite) -> (r: TileLayer)
        requires
            sprites.wf(),
        ensures
            r.wf(),
            r.height_spec() == dims.1,
            dims.1 > 0 ==> r.width_spec() == dims.0,
            r.sprites == sprites,
            forall|i: int, j: int|
                0 <= i < dims.1 && 0 <= j < dims.0 ==> (#[trigger] r.tiles[i][j]) is None,
    {
        let (width, height) = dims;
        TileLayer { tiles: empty_tiles(width, height), sprites }
    }

    /// Get the size of this TileLayer, as (width, height).
    pub fn size(&self) -> (r: (usize, usize))
        ensures
            r.0 == self.width_spec(),
            r.1 == self.height_spec(),
    {
        let height = self.tiles.len();

        if height != 0 {
            (self.tiles[0].len(), height)
        } else {
            (0, 0)
        }
    }
}

/// Represents a whole TileMap comprised of multiple Layers. The rules of the
/// Layers are as follows:
///
/// ## Background:
/// Rendered first, supposed to fill the whole screen at all times
///
/// ## GameLayer:
/// The same Layer the Player is in. The render time is dependent on the
/// Player position
///
/// ## Collisions:
/// Not a real layer, these are unbound objects that can be placed without
/// being bound to a grid and are invisible
///
/// ## Foreground:
/// Always rendered last, so that they overshadow everything
pub struct TileMap {
    /// The layer rendered first.
    pub background: TileLayer,
    /// The layer the player is in.
    pub game_layer: TileLayer,
    /// Invisible collision rectangles, not bound to the grid.
    pub collisions: Vec<Rect>,
    /// The layer rendered last.
    pub foreground: TileLayer,
}

impl TileMap {
    /// Validity: three valid layers of one common size.
    pub open spec fn wf(self) -> bool {
        &&& self.background.wf()
        &&& self.game_layer.wf()
        &&& self.foreground.wf()
        &&& self.background.width_spec() == self.game_layer.width_spec()
        &&& self.background.height_spec() == self.game_layer.height_spec()
        &&& self.game_layer.width_spec() == self.foreground.width_spec()
        &&& self.game_layer.height_spec() == self.foreground.height_spec()
    }

    /// Create a new TileMap from the provided Layers. The layers have to be
    /// the same size for it to work properly.
    pub fn new(
        background: TileLayer,
        game_layer: TileLayer,
        foreground: TileLayer,
        collisions: Vec<Rect>,
    ) -> (r: TileMap)
        requires
            background.wf(),
            game_layer.wf(),
            foreground.wf(),
            background.width_spec() == game_layer.width_spec(),
            background.height_spec() == game_layer.height_spec(),
            game_layer.width_spec() == foreground.width_spec(),
            game_layer.height_spec() == foreground.height_spec(),
        ensures
            r.wf(),
            r == (TileMap { background, game_layer, collisions, foreground }),
    {
        TileMap { background, game_layer, collisions, foreground }
    }

    /// Get the background TileLayer
    pub fn background(&self) -> (r: &TileLayer)
        ensures
            *r == self.background,
    {
        &self.background
    }

    /// Get the background TileLayer mutably
    pub fn background_mut(&mut self) -> (r: &mut TileLayer)
        ensures
            *r == old(self).background,
            *final(self) == (TileMap { background: *final(r), ..*old(self) }),
    {
        &mut self.background
    }

    /// Get the game TileLayer
    pub fn game_layer(&self) -> (r: &TileLayer)
        ensures
            *r == self.game_layer,
    {
        &self.game_layer
    }

    /// Get the game TileLayer mutably
    pub fn game_layer_mut(&mut self) -> (r: &mut TileLayer)
        ensures
            *r == old(self).game_layer,
            *final(self) == (TileMap { game_layer: *final(r), ..*old(self) }),
    {
        &mut self.game_layer
    }

    /// Get the foreground TileLayer
    pub fn foreground(&self) -> (r: &TileLayer)
        ensures
            *r == self.foreground,
    {
        &self.foreground
    }

    /// Get the foreground TileLayer mutably
    pub fn foreground_mut(&mut self) -> (r: &mut TileLayer)
        ensures
            *r == old(self).foreground,
            *final(self) == (TileMap { foreground: *final(r), ..*old(self) }),
    {
        &mut self.foreground
    }
}

} // verus!
