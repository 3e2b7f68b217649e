//! The field-of-view engine: integer step distance, the Bresenham-style
//! raycast line-of-sight test, the field-of-view computation, and its
//! projection onto the map's visibility grids.

use vstd::prelude::*;

verus! {

use crate::constants::MAX_MAP_DIMENSION;
use crate::dimension::Dimension2d;
use crate::fov::Fov;
use crate::game_map::GameMap;
use crate::position::Position2d;

/// The square of the euclidean distance between `(ax, ay)` and `(bx, by)`.
pub open spec fn dist_sq(ax: int, ay: int, bx: int, by: int) -> int {
    (ax - bx) * (ax - bx) + (ay - by) * (ay - by)
}

/// Whether `d` is the euclidean distance between two points with squared
/// distance `n`, rounded down to a whole number.
pub open spec fn is_floor_dist(d: int, n: int) -> bool {
    0 <= d && d * d <= n < (d + 1) * (d + 1)
}

/// The floored square root of `n`: the largest `r` with `r * r <= n`.
fn isqrt(n: u64) -> (r: u64)
    requires
        n < 0x1_0000_0000_0000,
    ensures
        is_floor_dist(r as int, n as int),
        r <= 0x100_0000,
{
    let mut r: u64 = 0;
    loop
        invariant_except_break
            n < 0x1_0000_0000_0000,
            r * r <= n,
            r <= 0x100_0000,
        ensures
            r * r <= n < (r + 1) * (r + 1),
            r <= 0x100_0000,
        decreases n - r,
    {
        proof {
            assert((r + 1) * (r + 1) < 0x8_0000_0000_0000) by (nonlinear_arith)
                requires
                    r <= 0x100_0000,
            {
            }
        }
        let next = (r + 1) * (r + 1);
        if next > n {
            break;
        }
        proof {
            assert(r + 1 <= 0x100_0000) by (nonlinear_arith)
                requires
                    (r + 1) * (r + 1) < 0x1_0000_0000_0000,
                    0 <= r,
            {
            }
            assert(r + 1 <= (r + 1) * (r + 1)) by (nonlinear_arith)
                requires
                    0 <= r,
            {
            }
        }
        r = r + 1;
    }
    r
}

/// Calculates the step distance between the passed `start` and `end`
/// positions: the euclidean distance rounded down to a whole number of
/// steps.
pub fn calculate_distance<P: Position2d, Q: Position2d>(start: &P, end: &Q) -> (r: i32)
    requires
        -4_000_000 <= start.pos_x() <= 4_000_000,
        -4_000_000 <= start.pos_y() <= 4_000_000,
        -4_000_000 <= end.pos_x() <= 4_000_000,
        -4_000_000 <= end.pos_y() <= 4_000_000,
    ensures
        is_floor_dist(r as int, dist_sq(start.pos_x(), start.pos_y(), end.pos_x(), end.pos_y())),
{
    let dx = (end.x_coordinate() as i64) - (start.x_coordinate() as i64);
    let dy = (end.y_coordinate() as i64) - (start.y_coordinate() as i64);
    proof {
        assert(0 <= dx * dx <= 8_000_000 * 8_000_000) by (nonlinear_arith)
            requires
                -8_000_000 <= dx <= 8_000_000,
        {
        }
        assert(0 <= dy * dy <= 8_000_000 * 8_000_000) by (nonlinear_arith)
            requires
                -8_000_000 <= dy <= 8_000_000,
        {
        }
    }
    let sq = dx * dx + dy * dy;
    proof {
        let sx = start.pos_x();
        let sy = start.pos_y();
        let ex = end.pos_x();
        let ey = end.pos_y();
        assert((ex - sx) * (ex - sx) == (sx - ex) * (sx - ex)) by (nonlinear_arith);
        assert((ey - sy) * (ey - sy) == (sy - ey) * (sy - ey)) by (nonlinear_arith);
    }
    let r = isqrt(sq as u64);
    r as i32
}

/// The step distance is below `radius` exactly when the squared distance is
/// below `radius * radius`: the integer-floored euclidean disc of a
/// non-negative radius is the open disc of the squared radius.
pub proof fn lemma_floor_dist_lt(d: int, n: int, radius: int)
    requires
        is_floor_dist(d, n),
        0 <= radius,
    ensures
        (d < radius) <==> (n < radius * radius),
{
    if d < radius {
        assert((d + 1) * (d + 1) <= radius * radius) by (nonlinear_arith)
            requires
                0 <= d < radius,
        {
        }
    }
    if n < radius * radius {
        assert(radius <= d ==> radius * radius <= d * d) by (nonlinear_arith)
            requires
                0 <= radius,
        {
        }
    }
}

/// Determines the sign multipliers of the coordinates of the passed
/// `position`: `1` for a non-negative coordinate and `-1` for a negative
/// one, the x-axis multiplier first.
pub fn get_sign_multiplier<P: Position2d>(position: &P) -> (r: [i32; 2])
    ensures
        r[0] as int == sign_of(position.pos_x()),
        r[1] as int == sign_of(position.pos_y()),
{
    [
        if position.x_coordinate() >= 0 {
            1
        } else {
            -1
        },
        if position.y_coordinate() >= 0 {
            1
        } else {
            -1
        },
    ]
}

/// The directional sign used by the raycast: `1` for a non-negative value,
/// `-1` for a negative one.
pub open spec fn sign_of(v: int) -> int {
    if v >= 0 {
        1
    } else {
        -1
    }
}

/// The absolute value of `v`.
pub open spec fn abs_of(v: int) -> int {
    if v >= 0 {
        v
    } else {
        -v
    }
}

/// One walk of the horizontal-dominant raycast from the current cell
/// `(x, y)` back toward the origin `(ox, oy)`: first the error term decides
/// whether the minor axis advances, then the major axis always advances.
/// The walk succeeds when it reaches the origin and fails when it steps on
/// a blocking tile first. `fuel` bounds the recursion; the walk reaches the
/// origin within `abs(ox - tx)` steps.
pub open spec fn los_walk_h(
    map: GameMap,
    ox: int,
    oy: int,
    sx: int,
    sy: int,
    dxa: int,
    dya: int,
    x: int,
    y: int,
    theta: int,
    fuel: nat,
) -> bool
    decreases fuel,
{
    if fuel == 0 {
        false
    } else {
        let y1 = if theta >= 0 {
            y + sy
        } else {
            y
        };
        let t1 = if theta >= 0 {
            theta - 2 * dxa
        } else {
            theta
        };
        let x1 = x + sx;
        let t2 = t1 + 2 * dya;
        if x1 == ox && y1 == oy {
            true
        } else if map.blocked(x1, y1) {
            false
        } else {
            los_walk_h(map, ox, oy, sx, sy, dxa, dya, x1, y1, t2, (fuel - 1) as nat)
        }
    }
}

/// The vertical-dominant mirror of `los_walk_h`: the error term decides
/// whether the x-axis advances, the y-axis always advances.
pub open spec fn los_walk_v(
    map: GameMap,
    ox: int,
    oy: int,
    sx: int,
    sy: int,
    dxa: int,
    dya: int,
    x: int,
    y: int,
    theta: int,
    fuel: nat,
) -> bool
    decreases fuel,
{
    if fuel == 0 {
        false
    } else {
        let x1 = if theta >= 0 {
            x + sx
        } else {
            x
        };
        let t1 = if theta >= 0 {
            theta - 2 * dya
        } else {
            theta
        };
        let y1 = y + sy;
        let t2 = t1 + 2 * dxa;
        if x1 == ox && y1 == oy {
            true
        } else if map.blocked(x1, y1) {
            false
        } else {
            los_walk_v(map, ox, oy, sx, sy, dxa, dya, x1, y1, t2, (fuel - 1) as nat)
        }
    }
}

/// Whether the origin `(ox, oy)` is reachable from the target `(tx, ty)` by
/// the integer raycast: the discrete line from the target back to the
/// origin meets no blocking tile strictly between them. The target's own
/// tile is never tested, which is how walls adjacent to the viewer remain
/// visible.
pub open spec fn line_of_sight(map: GameMap, ox: int, oy: int, tx: int, ty: int) -> bool {
    let dx = ox - tx;
    let dy = oy - ty;
    let sx = sign_of(dx);
    let sy = sign_of(dy);
    let dxa = abs_of(dx);
    let dya = abs_of(dy);
    if dxa > dya {
        los_walk_h(map, ox, oy, sx, sy, dxa, dya, tx, ty, 2 * dya - dxa, dxa as nat)
    } else {
        los_walk_v(map, ox, oy, sx, sy, dxa, dya, tx, ty, 2 * dxa - dya, dya as nat)
    }
}

/// Walks the horizontal-dominant raycast from `end` back to `start` and
/// reports whether it reaches `start` without stepping on a blocking tile.
/// `delta` carries the absolute coordinate deltas and `delta_signed` their
/// sign multipliers, as produced by `delta` and `get_sign_multiplier`.
pub fn calculate_horizontal_slope_in_line_of_sight<
    P: Position2d,
    Q: Position2d,
    R: Position2d,
    S: Position2d,
>(start: &P, end: &Q, delta: &R, delta_signed: &S, map: &GameMap) -> (r: bool)
    requires
        map.wf(),
        map.in_bounds(start.pos_x(), start.pos_y()),
        map.in_bounds(end.pos_x(), end.pos_y()),
        delta.pos_x() == abs_of(start.pos_x() - end.pos_x()),
        delta.pos_y() == abs_of(start.pos_y() - end.pos_y()),
        delta_signed.pos_x() == sign_of(start.pos_x() - end.pos_x()),
        delta_signed.pos_y() == sign_of(start.pos_y() - end.pos_y()),
        delta.pos_x() > delta.pos_y(),
    ensures
        r == los_walk_h(
            *map,
            start.pos_x(),
            start.pos_y(),
            delta_signed.pos_x(),
            delta_signed.pos_y(),
            delta.pos_x(),
            delta.pos_y(),
            end.pos_x(),
            end.pos_y(),
            2 * delta.pos_y() - delta.pos_x(),
            delta.pos_x() as nat,
        ),
{
    let ox = start.x_coordinate();
    let oy = start.y_coordinate();
    let tx = end.x_coordinate();
    let ty = end.y_coordinate();
    let dxa = delta.x_coordinate();
    let dya = delta.y_coordinate();
    let sxm = delta_signed.x_coordinate();
    let sym = delta_signed.y_coordinate();

    let mut x = tx;
    let mut y = ty;
    let mut theta = 2 * dya - dxa;
    let ghost mut k: int = 0;
    let ghost mut m: int = 0;
    let ghost target = los_walk_h(
        *map,
        ox as int,
        oy as int,
        sxm as int,
        sym as int,
        dxa as int,
        dya as int,
        tx as int,
        ty as int,
        2 * dya - dxa,
        dxa as nat,
    );

    loop
        invariant
            map.wf(),
            map.in_bounds(ox as int, oy as int),
            map.in_bounds(tx as int, ty as int),
            ox as int == start.pos_x(),
            oy as int == start.pos_y(),
            tx as int == end.pos_x(),
            ty as int == end.pos_y(),
            dxa as int == delta.pos_x(),
            dya as int == delta.pos_y(),
            sxm as int == delta_signed.pos_x(),
            sym as int == delta_signed.pos_y(),
            dxa as int == abs_of(ox - tx),
            dya as int == abs_of(oy - ty),
            sxm as int == sign_of(ox - tx),
            sym as int == sign_of(oy - ty),
            0 <= dya < dxa,
            0 <= k < dxa,
            0 <= m <= dya,
            target == los_walk_h(
                *map,
                ox as int,
                oy as int,
                sxm as int,
                sym as int,
                dxa as int,
                dya as int,
                tx as int,
                ty as int,
                2 * dya - dxa,
                dxa as nat,
            ),
            sxm == 1 ==> tx <= x < ox && x == tx + k,
            sxm == -1 ==> ox < x <= tx && x == tx - k,
            sym == 1 ==> ty <= y <= oy && y == ty + m,
            sym == -1 ==> oy <= y <= ty && y == ty - m,
            theta as int == 2 * dya - dxa + 2 * (k * dya) - 2 * (m * dxa),
            2 * dya - 2 * dxa <= theta <= 2 * dya - 1,
            target == los_walk_h(
                *map,
                ox as int,
                oy as int,
                sxm as int,
                sym as int,
                dxa as int,
                dya as int,
                x as int,
                y as int,
                theta as int,
                (dxa - k) as nat,
            ),
        decreases dxa - k,
    {
        let ghost x0 = x as int;
        let ghost y0 = y as int;
        let ghost theta0 = theta as int;
        let ghost k0 = k;
        let ghost m0 = m;

        if theta >= 0 {
            proof {
                assert(m0 < dya) by (nonlinear_arith)
                    requires
                        theta0 >= 0,
                        theta0 == 2 * dya - dxa + 2 * (k0 * dya) - 2 * (m0 * dxa),
                        0 <= k0 < dxa,
                        0 <= m0 <= dya,
                        0 <= dya < dxa,
                {
                }
            }
            y = y + sym;
            theta = theta - 2 * dxa;
            proof {
                m = m + 1;
                assert((m0 + 1) * (dxa as int) == m0 * dxa + dxa) by (nonlinear_arith);
            }
        }
        x = x + sxm;
        theta = theta + 2 * dya;
        proof {
            k = k + 1;
            assert((k0 + 1) * (dya as int) == k0 * dya + dya) by (nonlinear_arith);
        }

        if x == ox && y == oy {
            return true;
        }
        proof {
            assert(map.in_tile_range(x as int, y as int));
        }
        if map.tile_has_collision(&(x, y)) {
            return false;
        }
        proof {
            if k == dxa {
                assert(x == ox);
                assert(m == dya) by (nonlinear_arith)
                    requires
                        dxa >= 1,
                        theta as int == 2 * dya - dxa + 2 * ((dxa as int) * dya) - 2 * (m * dxa),
                        2 * dya - 2 * dxa <= theta as int <= 2 * dya - 1,
                        k == dxa,
                {
                }
                assert(y == oy);
                assert(false);
            }
        }
    }
}

/// Walks the vertical-dominant raycast from `end` back to `start`; the
/// mirror of `calculate_horizontal_slope_in_line_of_sight` for rays whose
/// vertical delta dominates.
pub fn calculate_vertical_slope_in_line_of_sight<
    P: Position2d,
    Q: Position2d,
    R: Position2d,
    S: Position2d,
>(start: &P, end: &Q, delta: &R, delta_signed: &S, map: &GameMap) -> (r: bool)
    requires
        map.wf(),
        map.in_bounds(start.pos_x(), start.pos_y()),
        map.in_bounds(end.pos_x(), end.pos_y()),
        delta.pos_x() == abs_of(start.pos_x() - end.pos_x()),
        delta.pos_y() == abs_of(start.pos_y() - end.pos_y()),
        delta_signed.pos_x() == sign_of(start.pos_x() - end.pos_x()),
        delta_signed.pos_y() == sign_of(start.pos_y() - end.pos_y()),
        delta.pos_x() <= delta.pos_y(),
        1 <= delta.pos_y(),
    ensures
        r == los_walk_v(
            *map,
            start.pos_x(),
            start.pos_y(),
            delta_signed.pos_x(),
            delta_signed.pos_y(),
            delta.pos_x(),
            delta.pos_y(),
            end.pos_x(),
            end.pos_y(),
            2 * delta.pos_x() - delta.pos_y(),
            delta.pos_y() as nat,
        ),
{
    let ox = start.x_coordinate();
    let oy = start.y_coordinate();
    let tx = end.x_coordinate();
    let ty = end.y_coordinate();
    let dxa = delta.x_coordinate();
    let dya = delta.y_coordinate();
    let sxm = delta_signed.x_coordinate();
    let sym = delta_signed.y_coordinate();

    let mut x = tx;
    let mut y = ty;
    let mut theta = 2 * dxa - dya;
    let ghost mut k: int = 0;
    let ghost mut m: int = 0;
    let ghost target = los_walk_v(
        *map,
        ox as int,
        oy as int,
        sxm as int,
        sym as int,
        dxa as int,
        dya as int,
        tx as int,
        ty as int,
        2 * dxa - dya,
        dya as nat,
    );

    loop
        invariant
            map.wf(),
            map.in_bounds(ox as int, oy as int),
            map.in_bounds(tx as int, ty as int),
            ox as int == start.pos_x(),
            oy as int == start.pos_y(),
            tx as int == end.pos_x(),
            ty as int == end.pos_y(),
            dxa as int == delta.pos_x(),
            dya as int == delta.pos_y(),
            sxm as int == delta_signed.pos_x(),
            sym as int == delta_signed.pos_y(),
            dxa as int == abs_of(ox - tx),
            dya as int == abs_of(oy - ty),
            sxm as int == sign_of(ox - tx),
            sym as int == sign_of(oy - ty),
            0 <= dxa <= dya,
            1 <= dya,
            0 <= k < dya,
            0 <= m <= dxa,
            target == los_walk_v(
                *map,
                ox as int,
                oy as int,
                sxm as int,
                sym as int,
                dxa as int,
                dya as int,
                tx as int,
                ty as int,
                2 * dxa - dya,
                dya as nat,
            ),
            sym == 1 ==> ty <= y < oy && y == ty + k,
            sym == -1 ==> oy < y <= ty && y == ty - k,
            sxm == 1 ==> tx <= x <= ox && x == tx + m,
            sxm == -1 ==> ox <= x <= tx && x == tx - m,
            theta as int == 2 * dxa - dya + 2 * (k * dxa) - 2 * (m * dya),
            2 * dxa - 2 * dya <= theta <= 2 * dxa - 1,
            target == los_walk_v(
                *map,
                ox as int,
                oy as int,
                sxm as int,
                sym as int,
                dxa as int,
                dya as int,
                x as int,
                y as int,
                theta as int,
                (dya - k) as nat,
            ),
        decreases dya - k,
    {
        let ghost x0 = x as int;
        let ghost y0 = y as int;
        let ghost theta0 = theta as int;
        let ghost k0 = k;
        let ghost m0 = m;

        if theta >= 0 {
            proof {
                assert(m0 < dxa) by (nonlinear_arith)
                    requires
                        theta0 >= 0,
                        theta0 == 2 * dxa - dya + 2 * (k0 * dxa) - 2 * (m0 * dya),
                        0 <= k0 < dya,
                        0 <= m0 <= dxa,
                        0 <= dxa <= dya,
                        1 <= dya,
                {
                }
            }
            x = x + sxm;
            theta = theta - 2 * dya;
            proof {
                m = m + 1;
                assert((m0 + 1) * (dya as int) == m0 * dya + dya) by (nonlinear_arith);
            }
        }
        y = y + sym;
        theta = theta + 2 * dxa;
        proof {
            k = k + 1;
            assert((k0 + 1) * (dxa as int) == k0 * dxa + dxa) by (nonlinear_arith);
        }

        if x == ox && y == oy {
            return true;
        }
        proof {
            assert(map.in_tile_range(x as int, y as int));
        }
        if map.tile_has_collision(&(x, y)) {
            return false;
        }
        proof {
            if k == dya {
                assert(y == oy);
                assert(m == dxa) by (nonlinear_arith)
                    requires
                        dya >= 1,
                        theta as int == 2 * dxa - dya + 2 * ((dya as int) * dxa) - 2 * (m * dya),
                        2 * dxa - 2 * dya <= theta as int <= 2 * dxa - 1,
                        k == dya,
                {
                }
                assert(x == ox);
                assert(false);
            }
        }
    }
}

/// Checks if the `end` position is in the line of sight of the `start`
/// position on the given map: the integer raycast from `end` back to
/// `start` reaches it without crossing a blocking tile.
pub fn is_in_line_of_sight<P: Position2d, Q: Position2d>(start: &P, end: &Q, map: &GameMap) -> (r:
    bool)
    requires
        map.wf(),
        map.in_bounds(start.pos_x(), start.pos_y()),
        map.in_bounds(end.pos_x(), end.pos_y()),
        !(start.pos_x() == end.pos_x() && start.pos_y() == end.pos_y()),
    ensures
        r == line_of_sight(*map, start.pos_x(), start.pos_y(), end.pos_x(), end.pos_y()),
{
    let d = crate::position::delta(start, end);
    let delta_signed = get_sign_multiplier(&d);
    let d_abs: [i32; 2] = [
        if d[0] >= 0 {
            d[0]
        } else {
            -d[0]
        },
        if d[1] >= 0 {
            d[1]
        } else {
            -d[1]
        },
    ];

    if d_abs[0] > d_abs[1] {
        calculate_horizontal_slope_in_line_of_sight(start, end, &d_abs, &delta_signed, map)
    } else {
        calculate_vertical_slope_in_line_of_sight(start, end, &d_abs, &delta_signed, map)
    }
}

/// The acceptance condition of one candidate tile of a field of view
/// computed at `(ox, oy)` with the given `radius`: the tile lies in the
/// candidate square, is not the origin itself, lies strictly inside the
/// euclidean disc of the radius, is on the map, and is in line of sight of
/// the origin.
pub open spec fn fov_accepts(
    map: GameMap,
    ox: int,
    oy: int,
    radius: int,
    x: int,
    y: int,
) -> bool {
    &&& ox - radius <= x < ox + radius
    &&& oy - radius <= y < oy + radius
    &&& !(x == ox && y == oy)
    &&& dist_sq(ox, oy, x, y) < radius * radius
    &&& map.in_bounds(x, y)
    &&& line_of_sight(map, ox, oy, x, y)
}

/// Membership in a freshly computed field of view: the origin itself is
/// always in view, every other tile exactly when it passes the acceptance
/// condition.
pub open spec fn fov_includes(
    map: GameMap,
    ox: int,
    oy: int,
    radius: int,
    x: int,
    y: int,
) -> bool {
    (x == ox && y == oy) || fov_accepts(map, ox, oy, radius, x, y)
}

/// Whether the tile `(a, b)` of the candidate square has already been
/// processed when the scan cursor, which walks the square column by column
/// and each column bottom to top, stands at `(x, y)`.
spec fn fov_visited(
    ox: int,
    oy: int,
    radius: int,
    x: int,
    y: int,
    a: int,
    b: int,
) -> bool {
    &&& ox - radius <= a < ox + radius
    &&& oy - radius <= b < oy + radius
    &&& (a < x || (a == x && b < y))
}

/// Calculates the field of view for the passed `position` on the given map
/// and updates the supplied `fov` with the result.
///
/// If the field of view is not marked dirty, nothing happens. Otherwise the
/// set of positions in view is recomputed from scratch: it then holds the
/// origin and exactly the tiles accepted by `fov_accepts`, and the dirty
/// flag is cleared, so that an immediate second computation is a no-op.
pub fn field_of_view<P: Position2d>(fov: &mut Fov, position: &P, map: &GameMap)
    requires
        map.wf(),
        map.in_bounds(position.pos_x(), position.pos_y()),
        -MAX_MAP_DIMENSION <= old(fov).radius <= MAX_MAP_DIMENSION,
    ensures
        final(fov).radius == old(fov).radius,
        !final(fov).is_dirty,
        !old(fov).is_dirty ==> *final(fov) == *old(fov),
        old(fov).is_dirty ==> forall|a: i32, b: i32|
            #[trigger] final(fov).contains_pos((a, b)) <==> fov_includes(
                *map,
                position.pos_x(),
                position.pos_y(),
                old(fov).radius as int,
                a as int,
                b as int,
            ),
        old(fov).is_dirty ==> forall|i: int, j: int|
            0 <= i < j < final(fov).coords().len() ==> #[trigger] final(fov).coords()[i]
                != #[trigger] final(fov).coords()[j],
{
    if !fov.is_dirty {
        return;
    }

    let px = position.x_coordinate();
    let py = position.y_coordinate();
    let radius = fov.radius;

    fov.clear();
    fov.push_position(position);
    proof {
        assert forall|a: i32, b: i32| #[trigger] fov.contains_pos((a, b)) <==> (a == px && b == py) by {
            crate::fov::lemma_push_contains(Seq::empty(), (px, py), (a, b));
            assert(fov.coords() =~= Seq::empty().push((px, py)));
        }
    }

    let mut x = px - radius;
    while x < px + radius
        invariant
            map.wf(),
            map.in_bounds(px as int, py as int),
            px as int == position.pos_x(),
            py as int == position.pos_y(),
            radius == old(fov).radius,
            -MAX_MAP_DIMENSION <= radius <= MAX_MAP_DIMENSION,
            px - radius <= x,
            x <= px + radius || x == px - radius,
            fov.radius == radius,
            fov.is_dirty,
            forall|a: i32, b: i32|
                #[trigger] fov.contains_pos((a, b)) <==> ((a == px && b == py) || (fov_visited(
                    px as int,
                    py as int,
                    radius as int,
                    x as int,
                    py as int - radius as int,
                    a as int,
                    b as int,
                ) && fov_accepts(*map, px as int, py as int, radius as int, a as int, b as int))),
            forall|i: int, j: int|
                0 <= i < j < fov.coords().len() ==> #[trigger] fov.coords()[i] != #[trigger] fov.coords()[j],
        decreases px + radius - x,
    {
        let mut y = py - radius;
        while y < py + radius
            invariant
                map.wf(),
                map.in_bounds(px as int, py as int),
                px as int == position.pos_x(),
                py as int == position.pos_y(),
                radius == old(fov).radius,
                1 <= radius <= MAX_MAP_DIMENSION,
                px - radius <= x < px + radius,
                py - radius <= y <= py + radius,
                fov.radius == radius,
                fov.is_dirty,
                forall|a: i32, b: i32|
                    #[trigger] fov.contains_pos((a, b)) <==> ((a == px && b == py) || (fov_visited(
                        px as int,
                        py as int,
                        radius as int,
                        x as int,
                        y as int,
                        a as int,
                        b as int,
                    ) && fov_accepts(
                        *map,
                        px as int,
                        py as int,
                        radius as int,
                        a as int,
                        b as int,
                    ))),
                forall|i: int, j: int|
                    0 <= i < j < fov.coords().len() ==> #[trigger] fov.coords()[i] != #[trigger] fov.coords()[j],
            decreases py + radius - y,
        {
            let ghost pre = *fov;
            let target = (x, y);
            let mut accepted = false;
            // The origin is already in view, and the raycast needs a
            // non-degenerate delta: its own tile is never a candidate.
            if !(x == px && y == py) {
                let d = calculate_distance(position, &target);
                proof {
                    lemma_floor_dist_lt(
                        d as int,
                        dist_sq(px as int, py as int, x as int, y as int),
                        radius as int,
                    );
                }
                if d < radius && map.is_in_bounds(&target) && is_in_line_of_sight(
                    position,
                    &target,
                    map,
                ) {
                    accepted = true;
                }
            }
            proof {
                assert(accepted == fov_accepts(
                    *map,
                    px as int,
                    py as int,
                    radius as int,
                    x as int,
                    y as int,
                ));
            }
            if accepted {
                fov.push_position(&target);
            }
            proof {
                assert forall|a: i32, b: i32|
                    #[trigger] fov.contains_pos((a, b)) <==> ((a == px && b == py) || (fov_visited(
                        px as int,
                        py as int,
                        radius as int,
                        x as int,
                        y as int + 1,
                        a as int,
                        b as int,
                    ) && fov_accepts(
                        *map,
                        px as int,
                        py as int,
                        radius as int,
                        a as int,
                        b as int,
                    ))) by {
                    assert(pre.contains_pos((a, b)) <==> ((a == px && b == py) || (fov_visited(
                        px as int,
                        py as int,
                        radius as int,
                        x as int,
                        y as int,
                        a as int,
                        b as int,
                    ) && fov_accepts(
                        *map,
                        px as int,
                        py as int,
                        radius as int,
                        a as int,
                        b as int,
                    ))));
                    if accepted {
                        crate::fov::lemma_push_contains(pre.coords(), (x, y), (a, b));
                    }
                }
                if accepted {
                    assert(!pre.contains_pos((x, y)));
                    assert(fov.coords() == pre.coords().push((x, y)));
                    assert forall|i: int, j: int|
                        0 <= i < j < fov.coords().len() implies #[trigger] fov.coords()[i]
                            != #[trigger] fov.coords()[j] by {
                        if j < pre.coords().len() {
                            assert(fov.coords()[i] == pre.coords()[i]);
                            assert(fov.coords()[j] == pre.coords()[j]);
                            assert(pre.coords()[i] != pre.coords()[j]);
                        } else {
                            assert(fov.coords()[j] == (x, y));
                            assert(fov.coords()[i] == pre.coords()[i]);
                            if pre.coords()[i] == (x, y) {
                                assert(pre.coords().contains((x, y)));
                            }
                        }
                    }
                }
            }
            y = y + 1;
        }
        x = x + 1;
    }
    let ghost done = *fov;
    fov.is_dirty = false;
    proof {
        assert forall|a: i32, b: i32|
            #[trigger] fov.contains_pos((a, b)) <==> fov_includes(
                *map,
                px as int,
                py as int,
                radius as int,
                a as int,
                b as int,
            ) by {
            assert(done.contains_pos((a, b)) <==> ((a == px && b == py) || (fov_visited(
                px as int,
                py as int,
                radius as int,
                x as int,
                py as int - radius as int,
                a as int,
                b as int,
            ) && fov_accepts(*map, px as int, py as int, radius as int, a as int, b as int))));
            assert(fov.coords() == done.coords());
        }
        assert forall|i: int, j: int|
            0 <= i < j < fov.coords().len() implies #[trigger] fov.coords()[i]
                != #[trigger] fov.coords()[j] by {
            assert(fov.coords() == done.coords());
            assert(done.coords()[i] != done.coords()[j]);
        }
    }
}

/// The edge behaviour of the field of view disc: a tile whose step
/// distance from the origin is exactly the radius is excluded from the
/// field of view, while a tile at a smaller step distance is included
/// whenever it lies on the map, is not the origin itself, and is in line of
/// sight of the origin.
pub proof fn lemma_fov_radius_edge(
    map: GameMap,
    ox: int,
    oy: int,
    radius: int,
    x: int,
    y: int,
    d: int,
)
    requires
        0 <= radius,
        is_floor_dist(d, dist_sq(ox, oy, x, y)),
    ensures
        d == radius ==> !fov_accepts(map, ox, oy, radius, x, y),
        (d < radius && map.in_bounds(x, y) && !(x == ox && y == oy) && line_of_sight(
            map,
            ox,
            oy,
            x,
            y,
        )) ==> fov_accepts(map, ox, oy, radius, x, y),
{
    lemma_floor_dist_lt(d, dist_sq(ox, oy, x, y), radius);
    if d < radius {
        let dx = x - ox;
        let dy = y - oy;
        assert(dx * dx <= dist_sq(ox, oy, x, y) && dy * dy <= dist_sq(ox, oy, x, y))
            by (nonlinear_arith)
            requires
                dx == x - ox,
                dy == y - oy,
        {
        }
        assert(dx * dx < radius * radius ==> -radius < dx < radius) by (nonlinear_arith)
            requires
                0 <= radius,
        {
        }
        assert(dy * dy < radius * radius ==> -radius < dy < radius) by (nonlinear_arith)
            requires
                0 <= radius,
        {
        }
    }
}

/// Projects a computed field of view onto the map's shared visibility
/// grids: the visible grid is reset, then every position in the field of
/// view is marked both seen and visible. Afterwards a tile is visible
/// exactly when it is in the field of view, and a tile is seen exactly when
/// it was seen before or is in the field of view now — tiles that left the
/// view stop being visible while remaining seen. Only the map-projecting
/// actor's field of view, the player's, is projected in this design.
pub fn project_fov(fov: &Fov, map: &mut GameMap)
    requires
        old(map).wf(),
        forall|i: int|
            0 <= i < fov.coords().len() ==> old(map).in_tile_range(
                (#[trigger] fov.coords()[i]).0 as int,
                fov.coords()[i].1 as int,
            ),
    ensures
        final(map).wf(),
        final(map).width == old(map).width,
        final(map).height == old(map).height,
        final(map).rooms_seq() == old(map).rooms_seq(),
        final(map).tiles@ == old(map).tiles@,
        forall|a: i32, b: i32|
            old(map).in_tile_range(a as int, b as int) ==> (#[trigger] final(map).visible_spec(
                a as int,
                b as int,
            ) <==> fov.contains_pos((a, b))),
        forall|a: i32, b: i32|
            old(map).in_tile_range(a as int, b as int) ==> (#[trigger] final(map).seen_spec(
                a as int,
                b as int,
            ) <==> (old(map).seen_spec(a as int, b as int) || fov.contains_pos((a, b)))),
{
    map.reset_visible_tiles();
    let n = fov.positions().len();
    let mut i: usize = 0;
    while i < n
        invariant
            map.wf(),
            map.width == old(map).width,
            map.height == old(map).height,
            map.rooms_seq() == old(map).rooms_seq(),
            map.tiles@ == old(map).tiles@,
            n == fov.coords().len(),
            0 <= i <= n,
            forall|j: int|
                0 <= j < fov.coords().len() ==> old(map).in_tile_range(
                    (#[trigger] fov.coords()[j]).0 as int,
                    fov.coords()[j].1 as int,
                ),
            forall|a: i32, b: i32|
                old(map).in_tile_range(a as int, b as int) ==> (#[trigger] map.visible_spec(
                    a as int,
                    b as int,
                ) <==> exists|j: int|
                    0 <= j < i && (#[trigger] fov.coords()[j]) == (a, b)),
            forall|a: i32, b: i32|
                old(map).in_tile_range(a as int, b as int) ==> (#[trigger] map.seen_spec(
                    a as int,
                    b as int,
                ) <==> (old(map).seen_spec(a as int, b as int) || exists|j: int|
                    0 <= j < i && (#[trigger] fov.coords()[j]) == (a, b))),
        decreases n - i,
    {
        let ghost pre = *map;
        let p = fov.positions()[i];
        map.mark_tile_as_seen(&p);
        let ghost mid = *map;
        map.mark_tile_as_visible(&p);
        proof {
            assert forall|a: i32, b: i32|
                old(map).in_tile_range(a as int, b as int) implies (#[trigger] map.visible_spec(
                    a as int,
                    b as int,
                ) <==> exists|j: int|
                    0 <= j < i + 1 && (#[trigger] fov.coords()[j]) == (a, b)) by {
                if (a, b) == p {
                    assert(fov.coords()[i as int] == (a, b));
                    assert(map.visible_spec(a as int, b as int));
                } else {
                    assert(mid.visible_spec(a as int, b as int) == pre.visible_spec(
                        a as int,
                        b as int,
                    ));
                    assert(map.visible_spec(a as int, b as int) == mid.visible_spec(
                        a as int,
                        b as int,
                    ));
                    if exists|j: int| 0 <= j < i + 1 && (#[trigger] fov.coords()[j]) == (a, b) {
                        let j = choose|j: int|
                            0 <= j < i + 1 && (#[trigger] fov.coords()[j]) == (a, b);
                        assert(j < i);
                    }
                }
            }
            assert forall|a: i32, b: i32|
                old(map).in_tile_range(a as int, b as int) implies (#[trigger] map.seen_spec(
                    a as int,
                    b as int,
                ) <==> (old(map).seen_spec(a as int, b as int) || exists|j: int|
                    0 <= j < i + 1 && (#[trigger] fov.coords()[j]) == (a, b))) by {
                if (a, b) == p {
                    assert(fov.coords()[i as int] == (a, b));
                    assert(mid.seen_spec(a as int, b as int));
                    assert(map.seen_spec(a as int, b as int));
                } else {
                    assert(mid.seen_spec(a as int, b as int) == pre.seen_spec(a as int, b as int));
                    assert(map.seen_spec(a as int, b as int) == mid.seen_spec(a as int, b as int));
                    if exists|j: int| 0 <= j < i + 1 && (#[trigger] fov.coords()[j]) == (a, b) {
                        let j = choose|j: int|
                            0 <= j < i + 1 && (#[trigger] fov.coords()[j]) == (a, b);
                        assert(j < i);
                    }
                }
            }
        }
        i = i + 1;
    }
    proof {
        assert forall|a: i32, b: i32|
            old(map).in_tile_range(a as int, b as int) implies (#[trigger] map.visible_spec(
                a as int,
                b as int,
            ) <==> fov.contains_pos((a, b))) by {
            if fov.contains_pos((a, b)) {
                let j = choose|j: int| 0 <= j < fov.coords().len() && fov.coords()[j] == (a, b);
                assert(0 <= j < n && fov.coords()[j] == (a, b));
            }
        }
        assert forall|a: i32, b: i32|
            old(map).in_tile_range(a as int, b as int) implies (#[trigger] map.seen_spec(
                a as int,
                b as int,
            ) <==> (old(map).seen_spec(a as int, b as int) || fov.contains_pos((a, b)))) by {
            if fov.contains_pos((a, b)) {
                let j = choose|j: int| 0 <= j < fov.coords().len() && fov.coords()[j] == (a, b);
                assert(0 <= j < n && fov.coords()[j] == (a, b));
            }
            if exists|j: int| 0 <= j < n && (#[trigger] fov.coords()[j]) == (a, b) {
                let j = choose|j: int| 0 <= j < n && (#[trigger] fov.coords()[j]) == (a, b);
                assert(fov.coords().contains((a, b)));
            }
        }
    }
}

} // verus!
