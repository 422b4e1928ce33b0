//! Terrain field: a fixed-size grid of cells, each tagged with an index into
//! an immutable catalog of terrain definitions.
//!
//! The catalog is built once at startup and passed explicitly wherever a
//! lookup needs it; the field itself is generated once and read-only
//! afterwards. Generation fills every cell with one caller-chosen definition
//! index: the uniform policy, with the index as configuration rather than a
//! constant baked into the generator.

use vstd::prelude::*;

use crate::defs::SurfaceDef;

verus! {

/// Failure of a terrain lookup.
#[derive(Clone, Copy, Debug, PartialEq, Eq, Structural)]
pub enum TerrainError {
    /// A cell references a definition index outside the catalog: an internal
    /// data-generation fault, never the result of external input.
    InvalidTerrainIndex,
}

/// One cell's terrain tag: an index into the definition catalog.
#[derive(Clone, Copy, Debug, PartialEq, Eq, Structural)]
pub struct TileTerrain {
    pub terrain_id: usize,
}

/// What a definition lookup returns: the catalog entry at the cell's index,
/// or the invalid-index error when the index exceeds the catalog.
pub open spec fn def_spec<'a>(
    c: TileTerrain,
    catalog: Seq<SurfaceDef<'a>>,
) -> Result<SurfaceDef<'a>, TerrainError> {
    if c.terrain_id < catalog.len() {
        Ok(catalog[c.terrain_id as int])
    } else {
        Err(TerrainError::InvalidTerrainIndex)
    }
}

impl TileTerrain {
    /// Pure lookup of this cell's terrain definition in the catalog.
    pub fn def<'a, 'b>(&self, catalog: &'a Vec<SurfaceDef<'b>>) -> (r: Result<
        &'a SurfaceDef<'b>,
        TerrainError,
    >)
        ensures
            match r {
                Ok(d) => def_spec(*self, catalog@) == Ok::<SurfaceDef<'b>, TerrainError>(*d),
                Err(e) => def_spec(*self, catalog@) == Err::<SurfaceDef<'b>, TerrainError>(e),
            },
    {
        if self.terrain_id < catalog.len() {
            Ok(&catalog[self.terrain_id])
        } else {
            Err(TerrainError::InvalidTerrainIndex)
        }
    }
}

/// The grid of terrain cells, stored row-major: cell `(x, y)` sits at
/// `y * width + x`.
pub struct TerrainField {
    pub width: u32,
    pub height: u32,
    pub cells: Vec<TileTerrain>,
}

impl TerrainField {
    /// The storage holds exactly one cell per grid position.
    pub open spec fn wf(self) -> bool {
        self.cells@.len() == self.width * self.height
    }

    /// Row-major index of cell `(x, y)`.
    pub open spec fn index_spec(self, x: int, y: int) -> int {
        y * self.width + x
    }

    /// The cell stored at `(x, y)`.
    pub open spec fn cell_spec(self, x: int, y: int) -> TileTerrain {
        self.cells@[self.index_spec(x, y)]
    }

    /// Every cell of the field carries the definition index `tid`.
    pub open spec fn uniform(self, tid: usize) -> bool {
        forall|i: int| 0 <= i < self.cells@.len() ==> self.cells@[i].terrain_id == tid
    }

    /// Read the cell at `(x, y)`.
    pub fn cell_at(&self, x: u32, y: u32) -> (r: TileTerrain)
        requires
            self.wf(),
            x < self.width,
            y < self.height,
        ensures
            r == self.cell_spec(x as int, y as int),
    {
        proof {
            lemma_row_major_in_range(
                x as int,
                y as int,
                self.width as int,
                self.height as int,
            );
        }
        let n: usize = self.cells.len();
        proof {
            assert((y as int) * (self.width as int) + x <= u64::MAX) by (nonlinear_arith)
                requires
                    x < 0x100000000,
                    y < 0x100000000,
                    self.width < 0x100000000,
            ;
        }
        let i: u64 = (y as u64) * (self.width as u64) + (x as u64);
        self.cells[i as usize]
    }
}

/// A row-major index computed from in-bounds coordinates lands inside the
/// `width * height` storage.
proof fn lemma_row_major_in_range(x: int, y: int, width: int, height: int)
    by (nonlinear_arith)
    requires
        0 <= x < width,
        0 <= y < height,
    ensures
        0 <= y * width + x,
        y * width + x < width * height,
{
}

/// Generate the ground layer: a `width x height` field with every cell tagged
/// with the definition index `tid`.
pub fn make_ground_layer(width: u32, height: u32, tid: usize) -> (r: TerrainField)
    requires
        width * height <= usize::MAX,
    ensures
        r.wf(),
        r.width == width,
        r.height == height,
        r.uniform(tid),
{
    let mut cells: Vec<TileTerrain> = Vec::new();
    let mut x: u32 = 0;
    while x < width
        invariant
            x <= width,
            width * height <= usize::MAX,
            cells@.len() == x * height,
            forall|i: int| 0 <= i < cells@.len() ==> cells@[i].terrain_id == tid,
        decreases width - x,
    {
        let mut y: u32 = 0;
        while y < height
            invariant
                x < width,
                y <= height,
                width * height <= usize::MAX,
                cells@.len() == x * height + y,
                forall|i: int| 0 <= i < cells@.len() ==> cells@[i].terrain_id == tid,
            decreases height - y,
        {
            proof {
                assert(x * height + y < width * height) by (nonlinear_arith)
                    requires
                        0 <= x < width,
                        0 <= y < height,
                ;
            }
            cells.push(TileTerrain { terrain_id: tid });
            y = y + 1;
        }
        proof {
            assert((x + 1) * height == x * height + height) by (nonlinear_arith);
        }
        x = x + 1;
    }
    TerrainField { width, height, cells }
}

/// Law: a definition lookup on any cell of a generated field succeeds and
/// hands back the catalog entry of the generation index unchanged, texture
/// index and support value included.
pub proof fn lemma_generation_def_round_trip<'a>(
    f: TerrainField,
    tid: usize,
    catalog: Seq<SurfaceDef<'a>>,
    x: int,
    y: int,
)
    requires
        f.wf(),
        f.uniform(tid),
        0 <= x < f.width,
        0 <= y < f.height,
        tid < catalog.len(),
    ensures
        def_spec(f.cell_spec(x, y), catalog) == Ok::<SurfaceDef<'a>, TerrainError>(
            catalog[tid as int],
        ),
{
    lemma_row_major_in_range(x, y, f.width as int, f.height as int);
}

} // verus!
