//! Mesh generation: turns the board into a flat list of textured
//! triangle vertices, one full-screen background quad plus one quad per
//! occupied cell, advancing each occupied cell's animation frame.
//!
//! Everything is measured in exact integer units. Positions are in
//! 1500ths of a normalized device coordinate, so the screen spans
//! [-1500, 1500] on each axis and one board cell steps 1000, which is
//! exactly two thirds of a normalized device coordinate. Texture
//! coordinates are in sixtieths of the sprite sheet: each of its 20
//! columns is 3 sixtieths wide and each of its 3 rows is 20 sixtieths
//! tall. A renderer divides by 1500 and 60 to recover the usual floats.

use vstd::prelude::*;

use crate::state::{Board, CellState, Tile, MAX_FRAME};

verus! {

/// Width of one sprite-sheet column, in sixtieths of the sheet.
pub const TW: u32 = 3;

/// Height of one sprite-sheet row, in sixtieths of the sheet.
pub const TH: u32 = 20;

/// Screen-space size of one board cell, in 1500ths of a normalized
/// device coordinate: exactly two thirds of one.
pub const TILE_STEP: i32 = 1000;

/// A vertex for rendering: a screen position in 1500ths of a
/// normalized device coordinate and a texture coordinate in sixtieths
/// of the sprite sheet.
#[derive(Clone, Copy, PartialEq, Debug)]
pub struct Vertex {
    pub pos: (i32, i32),
    pub tex_coords: (u32, u32),
}

/// The two triangles of the full-screen background quad; its texture is
/// at the bottom of the sprite sheet (third row, first column).
pub open spec fn background_vertices() -> Seq<Vertex> {
    seq![
        Vertex { pos: (-1500i32, 1500i32), tex_coords: (0, 40) },
        Vertex { pos: (-1500i32, -1500i32), tex_coords: (0, 60) },
        Vertex { pos: (1500i32, -1500i32), tex_coords: (3, 60) },
        Vertex { pos: (-1500i32, 1500i32), tex_coords: (0, 40) },
        Vertex { pos: (1500i32, -1500i32), tex_coords: (3, 60) },
        Vertex { pos: (1500i32, 1500i32), tex_coords: (3, 40) },
    ]
}

/// Sprite-sheet row for an occupant, in sixtieths: crosses animate on
/// the first row, knots on the second.
pub open spec fn sprite_row(s: CellState) -> u32 {
    match s {
        CellState::Empty => 0,
        CellState::Cross => 0,
        CellState::Knot => 20,
    }
}

/// The six vertices (two triangles) drawn for the occupied tile at
/// column `x`, row `y`, showing the tile's current animation frame.
pub open spec fn tile_quad(x: int, y: int, t: Tile) -> Seq<Vertex> {
    let x0 = (-1500 + 1000 * x) as i32;
    let y0 = (1500 - 1000 * y) as i32;
    let x1 = (-500 + 1000 * x) as i32;
    let y1 = (500 - 1000 * y) as i32;
    let u0 = (3 * t.frame) as u32;
    let u1 = (3 * t.frame + 3) as u32;
    let v0 = sprite_row(t.state);
    let v1 = (sprite_row(t.state) + 20) as u32;
    seq![
        Vertex { pos: (x0, y0), tex_coords: (u0, v0) },
        Vertex { pos: (x0, y1), tex_coords: (u0, v1) },
        Vertex { pos: (x1, y1), tex_coords: (u1, v1) },
        Vertex { pos: (x0, y0), tex_coords: (u0, v0) },
        Vertex { pos: (x1, y1), tex_coords: (u1, v1) },
        Vertex { pos: (x1, y0), tex_coords: (u1, v0) },
    ]
}

/// Vertices for the first `n` cells of the board, in traversal order:
/// cell index `i` covers column `i / 3`, row `i % 3`, and only occupied
/// cells contribute a quad.
pub open spec fn tiles_vertices(b: Seq<Tile>, n: int) -> Seq<Vertex>
    decreases n,
{
    if n <= 0 {
        Seq::empty()
    } else if b[n - 1].state is Empty {
        tiles_vertices(b, n - 1)
    } else {
        tiles_vertices(b, n - 1) + tile_quad((n - 1) / 3, (n - 1) % 3, b[n - 1])
    }
}

/// Number of occupied cells among the first `n`.
pub open spec fn occupied_count(b: Seq<Tile>, n: int) -> int
    decreases n,
{
    if n <= 0 {
        0
    } else {
        occupied_count(b, n - 1) + (if b[n - 1].state is Empty { 0int } else { 1int })
    }
}

/// How one redraw advances a tile: an occupied tile's animation frame
/// moves forward by one, saturating at `MAX_FRAME`; an empty tile is
/// untouched.
pub open spec fn advance_frame(t: Tile) -> Tile {
    if t.state is Empty {
        t
    } else if t.frame < MAX_FRAME {
        Tile { state: t.state, frame: (t.frame + 1) as u8 }
    } else {
        t
    }
}

/// The tile mesh holds exactly six vertices for each occupied cell
/// among the first `n`.
pub proof fn lemma_tiles_vertices_len(b: Seq<Tile>, n: int)
    ensures
        tiles_vertices(b, n).len() == 6 * occupied_count(b, n),
    decreases n,
{
    if n > 0 {
        lemma_tiles_vertices_len(b, n - 1);
    }
}

/// Build the vertex list for one redraw: the full-screen background
/// quad followed by one quad for every occupied cell, in board order,
/// advancing each occupied cell's animation frame for the next redraw.
pub fn gen_board_vertices(board: &mut Board) -> (vertices: Vec<Vertex>)
    requires
        old(board).wf(),
    ensures
        final(board).wf(),
        forall|i: int| 0 <= i < 9 ==> final(board)@[i] == advance_frame(old(board)@[i]),
        vertices@ == background_vertices() + tiles_vertices(old(board)@, 9),
        vertices@.len() == 6 + 6 * occupied_count(old(board)@, 9),
{
    // simple two triangle square for the background, the texture is at
    // the bottom of the sheet
    let mut vertices: Vec<Vertex> = Vec::new();
    vertices.push(Vertex { pos: (-1500, 1500), tex_coords: (0, 40) });
    vertices.push(Vertex { pos: (-1500, -1500), tex_coords: (0, 60) });
    vertices.push(Vertex { pos: (1500, -1500), tex_coords: (3, 60) });
    vertices.push(Vertex { pos: (-1500, 1500), tex_coords: (0, 40) });
    vertices.push(Vertex { pos: (1500, -1500), tex_coords: (3, 60) });
    vertices.push(Vertex { pos: (1500, 1500), tex_coords: (3, 40) });
    proof {
        assert(vertices@ =~= background_vertices() + tiles_vertices(old(board)@, 0));
    }

    // loop through the tiles to generate vertices
    let mut i: usize = 0;
    while i < 9
        invariant
            i <= 9,
            board@.len() == 9,
            forall|j: int| 0 <= j < 9 ==> board@[j].frame <= MAX_FRAME,
            forall|j: int| 0 <= j < i ==> board@[j] == advance_frame(old(board)@[j]),
            forall|j: int| i <= j < 9 ==> board@[j] == old(board)@[j],
            vertices@ == background_vertices() + tiles_vertices(old(board)@, i as int),
        decreases 9 - i,
    {
        let tile = board.tiles[i];
        // if the tile type is empty, no vertices needed
        if tile.state != CellState::Empty {
            // find the coordinates for the (top left of the) tile
            let x = i / 3;
            let y = i % 3;
            let tile_x: i32 = -1500 + TILE_STEP * (x as i32);
            let tile_y: i32 = 1500 - TILE_STEP * (y as i32);
            // get the coordinates for the texture to use
            let tex_x: u32 = TW * (tile.frame as u32);
            let tex_y: u32 = if tile.state == CellState::Knot { TH } else { 0 };

            // push the new vertices
            vertices.push(Vertex { pos: (tile_x, tile_y), tex_coords: (tex_x, tex_y) });
            vertices.push(Vertex { pos: (tile_x, tile_y - TILE_STEP), tex_coords: (tex_x, tex_y + TH) });
            vertices.push(Vertex { pos: (tile_x + TILE_STEP, tile_y - TILE_STEP), tex_coords: (tex_x + TW, tex_y + TH) });
            vertices.push(Vertex { pos: (tile_x, tile_y), tex_coords: (tex_x, tex_y) });
            vertices.push(Vertex { pos: (tile_x + TILE_STEP, tile_y - TILE_STEP), tex_coords: (tex_x + TW, tex_y + TH) });
            vertices.push(Vertex { pos: (tile_x + TILE_STEP, tile_y), tex_coords: (tex_x + TW, tex_y) });
            proof {
                assert(vertices@ =~= background_vertices() + tiles_vertices(old(board)@, i as int + 1));
            }

            // if the animation frame isn't at its last column, update it
            // for the next redraw
            if tile.frame < MAX_FRAME {
                board.tiles[i] = Tile { state: tile.state, frame: tile.frame + 1 };
            }
        } else {
            proof {
                assert(tiles_vertices(old(board)@, i as int + 1) == tiles_vertices(old(board)@, i as int));
            }
        }
        i = i + 1;
    }

    proof {
        lemma_tiles_vertices_len(old(board)@, 9);
    }
    vertices
}

} // verus!
