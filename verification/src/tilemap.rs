use vstd::prelude::*;
use vstd::string::StringSliceAdditionalSpecFns;
use crate::graphics::DrawCall;
use crate::parse::{parse_tilemap_layer, parsed_layer, LayerFault};
use crate::screens::ScreenUpdateContext;
use crate::utils::TILE_SIZE;

verus! {

/// The cells of one layer, row by row.
pub type Tiles = Vec<usize>;

/// Number of cells in every layer of a map.
pub const MAP_CELLS: usize = 1296;

/// What a collision query answers outside the map: a wall.
pub const SOLID: usize = 1;

/// The six layers of a map, in the order in which a map lists them.
#[derive(Clone, Copy, Debug, PartialEq, Eq, Structural)]
pub enum Layer {
    Background,
    Walls,
    Collision,
    Detail,
    Detail2,
    Special,
}

/// The six layers of a map as sequences of cell values.
pub struct TilemapView {
    pub background: Seq<usize>,
    pub walls: Seq<usize>,
    pub collision: Seq<usize>,
    pub detail: Seq<usize>,
    pub detail2: Seq<usize>,
    pub special: Seq<usize>,
}

/// Whether column `x`, row `y` is a cell of the map.
pub open spec fn in_bounds(x: int, y: int) -> bool {
    0 <= x < 48 && 0 <= y < 27
}

/// Position of cell (`x`, `y`) in a layer.
pub open spec fn cell_index(x: int, y: int) -> int {
    x + y * 48
}

impl TilemapView {
    /// Every layer holds one value for each cell.
    pub open spec fn wf(self) -> bool {
        &&& self.background.len() == MAP_CELLS
        &&& self.walls.len() == MAP_CELLS
        &&& self.collision.len() == MAP_CELLS
        &&& self.detail.len() == MAP_CELLS
        &&& self.detail2.len() == MAP_CELLS
        &&& self.special.len() == MAP_CELLS
    }

    /// The collision value of a cell; everything outside the map is a wall.
    pub open spec fn collision_at(self, x: int, y: int) -> usize {
        if in_bounds(x, y) {
            self.collision[cell_index(x, y)]
        } else {
            SOLID
        }
    }

    /// Whether an actor cannot enter cell (`x`, `y`).
    pub open spec fn solid_at(self, x: int, y: int) -> bool {
        self.collision_at(x, y) != 0
    }

    /// The marker of a cell; there are no markers outside the map.
    pub open spec fn special_at(self, x: int, y: int) -> usize {
        if in_bounds(x, y) {
            self.special[cell_index(x, y)]
        } else {
            0
        }
    }

    /// The instructions that paint the map: the five visible layers from
    /// the bottom up.
    pub open spec fn draw_calls(self) -> Seq<DrawCall> {
        layer_calls(self.background) + layer_calls(self.walls) + layer_calls(self.collision)
            + layer_calls(self.detail) + layer_calls(self.detail2)
    }

    /// Cell `i` of the special layer is the first that holds marker `code`,
    /// which a map stores as `code + 1`.
    pub open spec fn first_marker_at(self, code: int, i: int) -> bool {
        &&& 0 <= i < self.special.len()
        &&& self.special[i] == code + 1
        &&& forall|j: int| 0 <= j < i ==> self.special[j] != code + 1
    }

    /// Some cell of the special layer holds marker `code`.
    pub open spec fn has_marker(self, code: int) -> bool {
        exists|i: int| 0 <= i < self.special.len() && self.special[i] == code + 1
    }

    /// Column and row of the first cell, in row order, that holds marker
    /// `code`.
    pub open spec fn marker_cell(self, code: int) -> Option<(int, int)> {
        if self.has_marker(code) {
            let i = choose|i: int| self.first_marker_at(code, i);
            Some((i % 48, i / 48))
        } else {
            None
        }
    }
}

/// Nothing can be entered outside the map, and nothing is marked there:
/// left of it, right of it, above it or below it.
pub proof fn lemma_outside_the_map(map: TilemapView, x: int, y: int)
    requires
        x < 0 || x >= 48 || y < 0 || y >= 27,
    ensures
        map.collision_at(x, y) != 0,
        map.solid_at(x, y),
        map.special_at(x, y) == 0,
{
}

/// Two cells that both are the first to hold a marker are the same cell.
pub proof fn lemma_first_marker_unique(m: TilemapView, code: int, i: int, j: int)
    requires
        m.first_marker_at(code, i),
        m.first_marker_at(code, j),
    ensures
        i == j,
{
}

/// Why the text of a map could not be read: the first layer that failed,
/// and what was wrong with it.
#[derive(Clone, Copy, Debug, PartialEq, Eq, Structural)]
pub struct MapError {
    pub layer: Layer,
    pub fault: LayerFault,
}

/// The name under which the text of a map lists a layer.
pub open spec fn layer_name(layer: Layer) -> Seq<u8> {
    match layer {
        Layer::Background => "Background".spec_bytes(),
        Layer::Walls => "Walls".spec_bytes(),
        Layer::Collision => "Collision".spec_bytes(),
        Layer::Detail => "Detail".spec_bytes(),
        Layer::Detail2 => "Detail2".spec_bytes(),
        Layer::Special => "Special".spec_bytes(),
    }
}

/// One layer of the text of a map, or the error that names it.
pub open spec fn parsed_as(text: Seq<u8>, layer: Layer) -> Result<Seq<usize>, MapError> {
    match parsed_layer(text, layer_name(layer)) {
        Ok(tiles) => Ok(tiles),
        Err(fault) => Err(MapError { layer, fault }),
    }
}

/// The map that a text describes: its six layers, read in map order; the
/// first layer that cannot be read decides the error.
pub open spec fn parsed_map(text: Seq<u8>) -> Result<TilemapView, MapError> {
    match parsed_as(text, Layer::Background) {
        Err(e) => Err(e),
        Ok(background) => match parsed_as(text, Layer::Walls) {
            Err(e) => Err(e),
            Ok(walls) => match parsed_as(text, Layer::Collision) {
                Err(e) => Err(e),
                Ok(collision) => match parsed_as(text, Layer::Detail) {
                    Err(e) => Err(e),
                    Ok(detail) => match parsed_as(text, Layer::Detail2) {
                        Err(e) => Err(e),
                        Ok(detail2) => match parsed_as(text, Layer::Special) {
                            Err(e) => Err(e),
                            Ok(special) => Ok(
                                TilemapView {
                                    background,
                                    walls,
                                    collision,
                                    detail,
                                    detail2,
                                    special,
                                },
                            ),
                        },
                    },
                },
            },
        },
    }
}

/// The instruction that paints tile `tile`, which is not zero, at cell
/// `index` of a layer: tile sheets are 64 tiles wide and count from one.
pub open spec fn tile_call(index: int, tile: usize) -> DrawCall {
    DrawCall::Tileset(
        ((tile - 1) % 64) as usize,
        ((tile - 1) / 64) as usize,
        ((index % 48) * TILE_SIZE) as i64,
        ((index / 48) * TILE_SIZE) as i64,
    )
}

/// The instructions that paint a layer: one for each cell that is not
/// empty, in row order.
pub open spec fn layer_calls(layer: Seq<usize>) -> Seq<DrawCall>
    decreases layer.len(),
{
    if layer.len() == 0 {
        Seq::empty()
    } else if layer.last() == 0 {
        layer_calls(layer.drop_last())
    } else {
        layer_calls(layer.drop_last()).push(tile_call(layer.len() - 1, layer.last()))
    }
}

/// A map: six layers of 48 by 27 cells.
pub struct Tilemap {
    background: Tiles,
    walls: Tiles,
    collision: Tiles,
    detail: Tiles,
    detail2: Tiles,
    special: Tiles,
}

impl View for Tilemap {
    type V = TilemapView;

    closed spec fn view(&self) -> TilemapView {
        TilemapView {
            background: self.background@,
            walls: self.walls@,
            collision: self.collision@,
            detail: self.detail@,
            detail2: self.detail2@,
            special: self.special@,
        }
    }
}

impl Tilemap {
    #[verifier::type_invariant]
    spec fn well_formed(self) -> bool {
        self@.wf()
    }

    /// Builds a map from its six layers. A layer that does not hold exactly
    /// one value per cell is refused; the first such layer is named.
    pub fn from_layers(
        background: Tiles,
        walls: Tiles,
        collision: Tiles,
        detail: Tiles,
        detail2: Tiles,
        special: Tiles,
    ) -> (r: Result<Tilemap, MapError>)
        ensures
            match r {
                Ok(tilemap) => {
                    &&& tilemap@.wf()
                    &&& tilemap@.background == background@
                    &&& tilemap@.walls == walls@
                    &&& tilemap@.collision == collision@
                    &&& tilemap@.detail == detail@
                    &&& tilemap@.detail2 == detail2@
                    &&& tilemap@.special == special@
                },
                Err(e) => e == (MapError {
                    layer: first_short_layer(
                        background@.len(),
                        walls@.len(),
                        collision@.len(),
                        detail@.len(),
                        detail2@.len(),
                        special@.len(),
                    ),
                    fault: LayerFault::WrongLength,
                }),
            },
            r is Ok <==> {
                &&& background@.len() == MAP_CELLS
                &&& walls@.len() == MAP_CELLS
                &&& collision@.len() == MAP_CELLS
                &&& detail@.len() == MAP_CELLS
                &&& detail2@.len() == MAP_CELLS
                &&& special@.len() == MAP_CELLS
            },
    {
        let layer = if background.len() != MAP_CELLS {
            Layer::Background
        } else if walls.len() != MAP_CELLS {
            Layer::Walls
        } else if collision.len() != MAP_CELLS {
            Layer::Collision
        } else if detail.len() != MAP_CELLS {
            Layer::Detail
        } else if detail2.len() != MAP_CELLS {
            Layer::Detail2
        } else if special.len() != MAP_CELLS {
            Layer::Special
        } else {
            return Ok(Tilemap { background, walls, collision, detail, detail2, special });
        };
        Err(MapError { layer, fault: LayerFault::WrongLength })
    }

    /// The collision value of cell (`x`, `y`), and a wall outside the map.
    pub fn get_collision_tile(&self, x: i64, y: i64) -> (tile: usize)
        ensures
            tile == self@.collision_at(x as int, y as int),
            self@.wf(),
    {
        proof {
            use_type_invariant(self);
        }
        if x < 0 || x >= 48 {
            return SOLID;
        }
        if y < 0 || y >= 27 {
            return SOLID;
        }
        let i: usize = (x + y * 48) as usize;
        self.collision[i]
    }

    /// The marker of cell (`x`, `y`), and none outside the map.
    pub fn get_special_tile(&self, x: i64, y: i64) -> (tile: usize)
        ensures
            tile == self@.special_at(x as int, y as int),
            self@.wf(),
    {
        proof {
            use_type_invariant(self);
        }
        if x < 0 || x >= 48 {
            return 0;
        }
        if y < 0 || y >= 27 {
            return 0;
        }
        let i: usize = (x + y * 48) as usize;
        self.special[i]
    }

    /// Column and row of the first cell, in row order, whose marker is
    /// `tile_index`.
    pub fn find_special_tile(&self, tile_index: usize) -> (found: Option<(usize, usize)>)
        ensures
            self@.wf(),
            match found {
                Some((x, y)) => {
                    &&& x < 48
                    &&& y < 27
                    &&& self@.first_marker_at(tile_index as int, cell_index(x as int, y as int))
                },
                None => !self@.has_marker(tile_index as int),
            },
            self@.marker_cell(tile_index as int) == match found {
                Some((x, y)) => Some((x as int, y as int)),
                None => None,
            },
    {
        proof {
            use_type_invariant(self);
        }
        if tile_index == usize::MAX {
            return None;
        }
        let wanted: usize = tile_index + 1;
        let mut i: usize = 0;
        while i < MAP_CELLS
            invariant
                i <= MAP_CELLS,
                self@.wf(),
                wanted == tile_index + 1,
                forall|j: int| 0 <= j < i ==> self@.special[j] != wanted,
            decreases MAP_CELLS - i,
        {
            if self.special[i] == wanted {
                proof {
                    let code = tile_index as int;
                    assert(self@.first_marker_at(code, i as int));
                    assert(self@.has_marker(code));
                    let c = choose|c: int| self@.first_marker_at(code, c);
                    lemma_first_marker_unique(self@, code, c, i as int);
                    assert(cell_index((i % 48) as int, (i / 48) as int) == i);
                }
                return Some((i % 48, i / 48));
            }
            i += 1;
        }
        None
    }

    /// Reads one layer of the text of a map.
    fn read_layer(data: &str, layer: Layer) -> (tiles: Result<Tiles, MapError>)
        ensures
            match tiles {
                Ok(t) => parsed_as(data.spec_bytes(), layer) == Ok::<Seq<usize>, MapError>(t@)
                    && t@.len() == MAP_CELLS,
                Err(e) => parsed_as(data.spec_bytes(), layer) == Err::<Seq<usize>, MapError>(e),
            },
    {
        let name = match layer {
            Layer::Background => "Background",
            Layer::Walls => "Walls",
            Layer::Collision => "Collision",
            Layer::Detail => "Detail",
            Layer::Detail2 => "Detail2",
            Layer::Special => "Special",
        };
        match parse_tilemap_layer(data, name) {
            Ok(tiles) => Ok(tiles),
            Err(fault) => Err(MapError { layer, fault }),
        }
    }

    /// Reads a map from its text. Every layer must be there, with a data
    /// block that holds one number for each cell.
    pub fn from_file(data: &str) -> (map: Result<Tilemap, MapError>)
        ensures
            match map {
                Ok(m) => parsed_map(data.spec_bytes()) == Ok::<TilemapView, MapError>(m@) && m@.wf(),
                Err(e) => parsed_map(data.spec_bytes()) == Err::<TilemapView, MapError>(e),
            },
    {
        let background = match Tilemap::read_layer(data, Layer::Background) {
            Ok(tiles) => tiles,
            Err(e) => {
                return Err(e);
            },
        };
        let walls = match Tilemap::read_layer(data, Layer::Walls) {
            Ok(tiles) => tiles,
            Err(e) => {
                return Err(e);
            },
        };
        let collision = match Tilemap::read_layer(data, Layer::Collision) {
            Ok(tiles) => tiles,
            Err(e) => {
                return Err(e);
            },
        };
        let detail = match Tilemap::read_layer(data, Layer::Detail) {
            Ok(tiles) => tiles,
            Err(e) => {
                return Err(e);
            },
        };
        let detail2 = match Tilemap::read_layer(data, Layer::Detail2) {
            Ok(tiles) => tiles,
            Err(e) => {
                return Err(e);
            },
        };
        let special = match Tilemap::read_layer(data, Layer::Special) {
            Ok(tiles) => tiles,
            Err(e) => {
                return Err(e);
            },
        };
        Ok(Tilemap { background, walls, collision, detail, detail2, special })
    }

    /// The layers that are painted, from the bottom up.
    pub fn layers(&self) -> (layers: [&Tiles; 5])
        ensures
            self@.wf(),
            layers[0]@ == self@.background,
            layers[1]@ == self@.walls,
            layers[2]@ == self@.collision,
            layers[3]@ == self@.detail,
            layers[4]@ == self@.detail2,
    {
        proof {
            use_type_invariant(self);
        }
        [&self.background, &self.walls, &self.collision, &self.detail, &self.detail2]
    }

    /// Adds the instructions that paint the map to the layer of the world.
    pub fn draw(&self, ctx: &mut ScreenUpdateContext)
        ensures
            final(ctx).render_layers.world.calls@ == old(ctx).render_layers.world.calls@
                + self@.draw_calls(),
            final(ctx).render_layers.world_foreground == old(ctx).render_layers.world_foreground,
            final(ctx).render_layers.entities == old(ctx).render_layers.entities,
            final(ctx).render_layers.ui == old(ctx).render_layers.ui,
            *final(ctx).player == *old(ctx).player,
            final(ctx).input == old(ctx).input,
            *final(final(ctx).player) == *final(old(ctx).player),
            *final(final(ctx).render_layers) == *final(old(ctx).render_layers),
    {
        let layers = self.layers();
        let ghost start = ctx.render_layers.world.calls@;
        draw_layer(layers[0], &mut ctx.render_layers.world.calls);
        draw_layer(layers[1], &mut ctx.render_layers.world.calls);
        draw_layer(layers[2], &mut ctx.render_layers.world.calls);
        draw_layer(layers[3], &mut ctx.render_layers.world.calls);
        draw_layer(layers[4], &mut ctx.render_layers.world.calls);
        assert(ctx.render_layers.world.calls@ =~= start + self@.draw_calls());
    }
}

/// Adds the instructions that paint one layer to `calls`.
fn draw_layer(layer: &Tiles, calls: &mut Vec<DrawCall>)
    requires
        layer@.len() == MAP_CELLS,
    ensures
        final(calls)@ == old(calls)@ + layer_calls(layer@),
{
    let ghost start = calls@;
    let mut index: usize = 0;
    while index < layer.len()
        invariant
            index <= layer.len(),
            layer@.len() == MAP_CELLS,
            calls@ == start + layer_calls(layer@.take(index as int)),
        decreases layer.len() - index,
    {
        let tile = layer[index];
        proof {
            assert(layer@.take(index + 1).drop_last() =~= layer@.take(index as int));
            assert(layer@.take(index + 1).last() == tile);
        }
        if tile != 0 {
            let sheet: usize = tile - 1;
            let x: i64 = (index % 48) as i64;
            let y: i64 = (index / 48) as i64;
            calls.push(DrawCall::Tileset(sheet % 64, sheet / 64, x * TILE_SIZE, y * TILE_SIZE));
            assert(calls@ =~= start + layer_calls(layer@.take(index + 1)));
        }
        index += 1;
    }
    assert(layer@.take(layer.len() as int) =~= layer@);
}

/// The first layer, in map order, whose length is not the cell count; the
/// last layer if all are whole.
pub open spec fn first_short_layer(
    background: nat,
    walls: nat,
    collision: nat,
    detail: nat,
    detail2: nat,
    special: nat,
) -> Layer {
    if background != MAP_CELLS {
        Layer::Background
    } else if walls != MAP_CELLS {
        Layer::Walls
    } else if collision != MAP_CELLS {
        Layer::Collision
    } else if detail != MAP_CELLS {
        Layer::Detail
    } else if detail2 != MAP_CELLS {
        Layer::Detail2
    } else {
        Layer::Special
    }
}

} // verus!
