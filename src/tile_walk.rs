//! The tiles that one step of the swept tracer tests: on entering a new
//! column, the tiles along the shape's vertical edge; on entering a new row,
//! those along its horizontal edge, without the corner tile twice.
use vstd::prelude::*;

use crate::collision_map::TilePos;

verus! {

/// `count` tiles from `from`, `step` apart along x (`along_x`) or along y.
pub open spec fn tile_line(from: TilePos, along_x: bool, step: int, start: int, count: int) -> Seq<
    TilePos,
> {
    Seq::new(
        if count > start {
            (count - start) as nat
        } else {
            0
        },
        |k: int|
            if along_x {
                TilePos { x: (from.x + step * (start + k)) as i32, y: from.y }
            } else {
                TilePos { x: from.x, y: (from.y + step * (start + k)) as i32 }
            },
    )
}

/// The tiles that the step into `tile` tests, coming from the step that
/// ended in `last`: `col_count` tiles down the column when the column is new
/// (from `tile`, `dir_y` apart), then `row_count` tiles along the row when
/// the row is new (from `tile`, `dir_x` apart), skipping `tile` itself when
/// the column walk has tested it.
pub open spec fn step_tiles_spec(
    last: TilePos,
    tile: TilePos,
    dir_x: i32,
    dir_y: i32,
    col_count: i32,
    row_count: i32,
) -> Seq<TilePos> {
    let col = if last.x != tile.x {
        tile_line(tile, false, dir_y as int, 0, col_count as int)
    } else {
        Seq::empty()
    };
    let row = if last.y != tile.y {
        tile_line(tile, true, dir_x as int, if last.x != tile.x { 1 } else { 0 }, row_count as int)
    } else {
        Seq::empty()
    };
    col + row
}

/// Every tile of the walk has coordinates that fit in `i32`.
pub open spec fn walk_fits(
    tile: TilePos,
    dir_x: i32,
    dir_y: i32,
    col_count: i32,
    row_count: i32,
) -> bool {
    &&& dir_x == 1 || dir_x == -1
    &&& dir_y == 1 || dir_y == -1
    &&& i32::MIN <= tile.y - col_count && tile.y + col_count <= i32::MAX
    &&& i32::MIN <= tile.x - row_count && tile.x + row_count <= i32::MAX
}

fn push_line(
    out: &mut Vec<TilePos>,
    from: TilePos,
    along_x: bool,
    step: i32,
    start: i32,
    count: i32,
)
    requires
        step == 1 || step == -1,
        0 <= start <= 1,
        along_x ==> i32::MIN <= from.x - count && from.x + count <= i32::MAX,
        !along_x ==> i32::MIN <= from.y - count && from.y + count <= i32::MAX,
    ensures
        final(out)@ == old(out)@ + tile_line(
            from,
            along_x,
            step as int,
            start as int,
            count as int,
        ),
{
    let ghost base = out@;
    let mut t: i32 = start;
    while t < count
        invariant
            step == 1 || step == -1,
            0 <= start <= 1,
            along_x ==> i32::MIN <= from.x - count && from.x + count <= i32::MAX,
            !along_x ==> i32::MIN <= from.y - count && from.y + count <= i32::MAX,
            start <= t,
            t <= count || t == start,
            out@ == base + tile_line(from, along_x, step as int, start as int, t as int),
        decreases count - t,
    {
        let offset: i32 = if step == 1 {
            t
        } else {
            -t
        };
        let p = if along_x {
            TilePos { x: from.x + offset, y: from.y }
        } else {
            TilePos { x: from.x, y: from.y + offset }
        };
        out.push(p);
        proof {
            assert(out@ =~= base + tile_line(from, along_x, step as int, start as int, t + 1));
        }
        t = t + 1;
    }
    proof {
        if count <= start {
            let empty = Seq::<TilePos>::empty();
            assert(tile_line(from, along_x, step as int, start as int, count as int) =~= empty);
            assert(tile_line(from, along_x, step as int, start as int, t as int) =~= empty);
        }
    }
}

/// The tiles to test in order for one step, and the tile that the next step
/// compares with (always `tile`).
pub fn step_tiles(
    last: TilePos,
    tile: TilePos,
    dir_x: i32,
    dir_y: i32,
    col_count: i32,
    row_count: i32,
) -> (r: (Vec<TilePos>, TilePos))
    requires
        walk_fits(tile, dir_x, dir_y, col_count, row_count),
    ensures
        r.0@ == step_tiles_spec(last, tile, dir_x, dir_y, col_count, row_count),
        r.1 == tile,
{
    let mut out: Vec<TilePos> = Vec::new();
    let mut corner_checked: i32 = 0;
    if last.x != tile.x {
        push_line(&mut out, tile, false, dir_y, 0, col_count);
        corner_checked = 1;
    }
    if last.y != tile.y {
        push_line(&mut out, tile, true, dir_x, corner_checked, row_count);
    }
    proof {
        assert(out@ =~= step_tiles_spec(last, tile, dir_x, dir_y, col_count, row_count));
    }
    (out, tile)
}

} // verus!
