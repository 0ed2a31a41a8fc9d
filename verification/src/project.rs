use vstd::prelude::*;
use vstd::arithmetic::div_mod::{
    lemma_add_mod_noop, lemma_mod_add_multiples_vanish, lemma_mod_division_less_than_divisor,
    lemma_mod_self_0, lemma_small_mod,
};
use crate::pose::{BotPose, WorldSnapshot, HEADING_UNITS};

verus! {

/// World units per screen unit: the world is scaled down by this factor.
pub const WORLD_PER_SCREEN: i32 = 8;

/// Screen units added after scaling, centering the world in the viewport.
pub const SCREEN_CENTER_OFFSET: i32 = 500;

/// The sprite-local corner offsets of the asymmetric sprite rectangle.
pub const CORNER_X_LEFT: i32 = -480;

pub const CORNER_X_RIGHT: i32 = 480;

pub const CORNER_Y_TOP: i32 = -205;

pub const CORNER_Y_BOTTOM: i32 = 335;

/// Scale applied to the corner offsets together with the rotation, as the
/// rational SPRITE_SCALE_NUMER / SPRITE_SCALE_DENOM.
pub const SPRITE_SCALE_NUMER: u32 = 1;

pub const SPRITE_SCALE_DENOM: u32 = 10;

/// A screen coordinate held exactly, as a fixed-point number of
/// 1 / WORLD_PER_SCREEN screen units: `numer / WORLD_PER_SCREEN` is the screen
/// position `world / WORLD_PER_SCREEN + SCREEN_CENTER_OFFSET`.
#[derive(Clone, Copy, PartialEq, Eq, Structural, Debug)]
pub struct ScreenCoord {
    pub numer: i64,
}

/// Coordinate mapping, as the fixed-point numerator over WORLD_PER_SCREEN:
/// `(x + WORLD_PER_SCREEN * SCREEN_CENTER_OFFSET) / WORLD_PER_SCREEN`
/// is exactly `x / WORLD_PER_SCREEN + SCREEN_CENTER_OFFSET`.
pub open spec fn map_coord_spec(x: int) -> int {
    x + (WORLD_PER_SCREEN as int) * (SCREEN_CENTER_OFFSET as int)
}

/// Inverse of the coordinate mapping on its image.
pub open spec fn unmap_coord_spec(numer: int) -> int {
    numer - (WORLD_PER_SCREEN as int) * (SCREEN_CENTER_OFFSET as int)
}

/// Map one world coordinate to its exact screen position. A pure function of
/// the integer input: the result is fully determined by `x`, so two calls on
/// the same input agree bit for bit.
pub fn map_world_coord(x: i32) -> (c: ScreenCoord)
    ensures
        c.numer == map_coord_spec(x as int),
{
    let shift: i64 = 4000;
    proof {
        assert(shift == (WORLD_PER_SCREEN as int) * (SCREEN_CENTER_OFFSET as int));
    }
    ScreenCoord { numer: x as i64 + shift }
}

/// Recover the world coordinate a screen position came from.
pub fn unmap_world_coord(c: ScreenCoord) -> (x: i32)
    requires
        i32::MIN <= unmap_coord_spec(c.numer as int) <= i32::MAX,
    ensures
        x == unmap_coord_spec(c.numer as int),
        map_coord_spec(x as int) == c.numer,
{
    let shift: i64 = 4000;
    proof {
        assert(shift == (WORLD_PER_SCREEN as int) * (SCREEN_CENTER_OFFSET as int));
    }
    (c.numer - shift) as i32
}

/// Coordinate-mapping law: the map is a bijection between world coordinates
/// and its image, witnessed by `unmap_coord_spec`.
pub proof fn lemma_map_coord_bijective(a: int, b: int)
    ensures
        map_coord_spec(a) == map_coord_spec(b) ==> a == b,
        unmap_coord_spec(map_coord_spec(a)) == a,
        map_coord_spec(unmap_coord_spec(a)) == a,
{
}

/// Orientation mapping in heading units: world heading `h` becomes the screen
/// rotation `-h`, reduced to `[0, HEADING_UNITS)`. Unit `u` stands for the
/// screen angle `u * 2 * pi / HEADING_UNITS` radians, so this is exactly the
/// screen angle `-(h * 2 * pi / HEADING_UNITS)` up to whole turns.
pub open spec fn screen_angle_spec(h: int) -> int {
    let hu = HEADING_UNITS as int;
    (hu - (h % hu)) % hu
}

/// Screen rotation of the hull for a world heading.
pub fn screen_angle_units(heading: u32) -> (u: u32)
    ensures
        u == screen_angle_spec(heading as int),
        u < HEADING_UNITS,
{
    let m: u32 = heading % HEADING_UNITS;
    proof {
        let hu = HEADING_UNITS as int;
        lemma_mod_division_less_than_divisor(heading as int, hu);
        if m == 0 {
            lemma_mod_self_0(hu);
        } else {
            lemma_small_mod((hu - m) as nat, hu as nat);
        }
    }
    if m == 0 {
        0
    } else {
        HEADING_UNITS - m
    }
}

/// Screen rotation of the turret: the hull's heading plus the turret's own
/// offset, negated into screen convention and reduced to `[0, HEADING_UNITS)`.
pub fn turret_screen_angle_units(heading: u32, turret_offset: u32) -> (u: u32)
    ensures
        u == screen_angle_spec(heading as int + turret_offset as int),
        u < HEADING_UNITS,
{
    let hm: u32 = heading % HEADING_UNITS;
    let tm: u32 = turret_offset % HEADING_UNITS;
    let s: u32 = (hm + tm) % HEADING_UNITS;
    proof {
        let hu = HEADING_UNITS as int;
        lemma_mod_division_less_than_divisor(heading as int, hu);
        lemma_mod_division_less_than_divisor(turret_offset as int, hu);
        lemma_add_mod_noop(heading as int, turret_offset as int, hu);
        lemma_mod_division_less_than_divisor(heading as int + turret_offset as int, hu);
        assert(s == (heading as int + turret_offset as int) % hu);
        if s == 0 {
            lemma_mod_self_0(hu);
        } else {
            lemma_small_mod((hu - s) as nat, hu as nat);
        }
    }
    if s == 0 {
        0
    } else {
        HEADING_UNITS - s
    }
}

/// Orientation-wrap law at the boundary: the last heading unit and heading
/// zero map to screen angles one unit apart — exactly `2 * pi / HEADING_UNITS`
/// radians — so the mapping is continuous across the wraparound.
pub proof fn lemma_orientation_wrap()
    ensures
        screen_angle_spec(HEADING_UNITS as int - 1) == 1,
        screen_angle_spec(0) == 0,
{
    let hu = HEADING_UNITS as int;
    lemma_small_mod((hu - 1) as nat, hu as nat);
    lemma_small_mod(1nat, hu as nat);
    lemma_small_mod(0nat, hu as nat);
    lemma_mod_self_0(hu);
}

/// Orientation-step law: for every heading, one more heading unit turns the
/// screen angle by exactly one unit the other way, modulo a full turn; the
/// wraparound from the last unit back to zero is no exception.
pub proof fn lemma_orientation_step(h: int)
    requires
        0 <= h,
    ensures
        (screen_angle_spec(h) - screen_angle_spec(h + 1)) % (HEADING_UNITS as int) == 1,
{
    let hu = HEADING_UNITS as int;
    let a = h % hu;
    lemma_mod_division_less_than_divisor(h, hu);
    lemma_small_mod(1nat, hu as nat);
    lemma_add_mod_noop(h, 1, hu);
    assert((h + 1) % hu == (a + 1) % hu);
    if a == hu - 1 {
        lemma_mod_self_0(hu);
        assert((a + 1) % hu == 0);
        assert(screen_angle_spec(h) == 1int % hu);
        assert(screen_angle_spec(h + 1) == hu % hu);
    } else {
        lemma_small_mod((a + 1) as nat, hu as nat);
        assert((a + 1) % hu == a + 1);
        lemma_small_mod((hu - a - 1) as nat, hu as nat);
        assert(screen_angle_spec(h + 1) == hu - a - 1);
        if a == 0 {
            lemma_mod_self_0(hu);
            assert(screen_angle_spec(h) == 0);
            lemma_mod_add_multiples_vanish(1 - hu, hu);
            assert((1 - hu) % hu == 1int % hu);
        } else {
            lemma_small_mod((hu - a) as nat, hu as nat);
            assert(screen_angle_spec(h) == hu - a);
        }
    }
}

/// Which sprite layer a quad draws.
#[derive(Clone, Copy, PartialEq, Eq, Structural, Debug)]
pub enum SpriteLayer {
    Hull,
    Turret,
}

/// A per-vertex tint, full opacity white unless overridden.
#[derive(Clone, Copy, PartialEq, Eq, Structural, Debug)]
pub struct TintColor {
    pub red: u8,
    pub green: u8,
    pub blue: u8,
    pub alpha: u8,
}

pub open spec fn is_full_white(c: TintColor) -> bool {
    c.red == 255 && c.green == 255 && c.blue == 255 && c.alpha == 255
}

/// The untinted tint: full-opacity white.
pub fn full_white() -> (c: TintColor)
    ensures
        is_full_white(c),
{
    TintColor { red: 255, green: 255, blue: 255, alpha: 255 }
}

/// One quad vertex: a sprite-local corner offset, to be rotated by the quad's
/// angle, scaled, and translated to the quad's center, its unit-square texture
/// corner, and its tint.
#[derive(Clone, Copy, PartialEq, Eq, Structural, Debug)]
pub struct QuadVertex {
    pub local_x: i32,
    pub local_y: i32,
    pub tex_u: u8,
    pub tex_v: u8,
    pub color: TintColor,
}

/// One oriented screen quad for one sprite layer of one bot: two triangles
/// over four corner vertices, centered at an exact screen position.
pub struct RenderQuad {
    pub layer: SpriteLayer,
    pub center_x: ScreenCoord,
    pub center_y: ScreenCoord,
    pub angle_units: u32,
    pub scale_numer: u32,
    pub scale_denom: u32,
    pub vertices: Vec<QuadVertex>,
    pub triangles: Vec<(usize, usize, usize)>,
}

/// The fixed local corner set, in emission order.
pub open spec fn corner_local_spec(i: int) -> (int, int) {
    if i == 0 {
        (CORNER_X_LEFT as int, CORNER_Y_TOP as int)
    } else if i == 1 {
        (CORNER_X_RIGHT as int, CORNER_Y_TOP as int)
    } else if i == 2 {
        (CORNER_X_LEFT as int, CORNER_Y_BOTTOM as int)
    } else {
        (CORNER_X_RIGHT as int, CORNER_Y_BOTTOM as int)
    }
}

/// Each corner's texture coordinate: the matching unit-square UV corner.
pub open spec fn uv_corner_spec(i: int) -> (int, int) {
    if i == 0 {
        (0, 0)
    } else if i == 1 {
        (1, 0)
    } else if i == 2 {
        (0, 1)
    } else {
        (1, 1)
    }
}

pub open spec fn vertex_matches(v: QuadVertex, i: int) -> bool {
    &&& v.local_x == corner_local_spec(i).0
    &&& v.local_y == corner_local_spec(i).1
    &&& v.tex_u == uv_corner_spec(i).0
    &&& v.tex_v == uv_corner_spec(i).1
    &&& is_full_white(v.color)
}

/// Everything a generated quad must be: the given layer, center and rotation,
/// the fixed scale, the four fixed corners with their UV corners and white
/// tint, and the fixed triangle pairing.
pub open spec fn quad_matches(
    q: RenderQuad,
    layer: SpriteLayer,
    cx: int,
    cy: int,
    angle: int,
) -> bool {
    &&& q.layer == layer
    &&& q.center_x.numer == cx
    &&& q.center_y.numer == cy
    &&& q.angle_units == angle
    &&& q.scale_numer == SPRITE_SCALE_NUMER
    &&& q.scale_denom == SPRITE_SCALE_DENOM
    &&& q.vertices@.len() == 4
    &&& (forall|i: int| 0 <= i < 4 ==> vertex_matches(#[trigger] q.vertices@[i], i))
    &&& q.triangles@ == seq![(0usize, 1usize, 2usize), (1usize, 2usize, 3usize)]
}

/// Emit one oriented quad: the four fixed corners in order, their unit-square
/// UV corners, white tint, and the triangles (0, 1, 2) and (1, 2, 3).
pub fn build_quad(layer: SpriteLayer, center_x: ScreenCoord, center_y: ScreenCoord, angle_units: u32) -> (q: RenderQuad)
    requires
        angle_units < HEADING_UNITS,
    ensures
        quad_matches(q, layer, center_x.numer as int, center_y.numer as int, angle_units as int),
{
    let mut vertices: Vec<QuadVertex> = Vec::new();
    vertices.push(
        QuadVertex {
            local_x: CORNER_X_LEFT,
            local_y: CORNER_Y_TOP,
            tex_u: 0,
            tex_v: 0,
            color: full_white(),
        },
    );
    vertices.push(
        QuadVertex {
            local_x: CORNER_X_RIGHT,
            local_y: CORNER_Y_TOP,
            tex_u: 1,
            tex_v: 0,
            color: full_white(),
        },
    );
    vertices.push(
        QuadVertex {
            local_x: CORNER_X_LEFT,
            local_y: CORNER_Y_BOTTOM,
            tex_u: 0,
            tex_v: 1,
            color: full_white(),
        },
    );
    vertices.push(
        QuadVertex {
            local_x: CORNER_X_RIGHT,
            local_y: CORNER_Y_BOTTOM,
            tex_u: 1,
            tex_v: 1,
            color: full_white(),
        },
    );
    let mut triangles: Vec<(usize, usize, usize)> = Vec::new();
    triangles.push((0, 1, 2));
    triangles.push((1, 2, 3));
    let q = RenderQuad {
        layer,
        center_x,
        center_y,
        angle_units,
        scale_numer: SPRITE_SCALE_NUMER,
        scale_denom: SPRITE_SCALE_DENOM,
        vertices,
        triangles,
    };
    proof {
        assert(q.triangles@ =~= seq![(0usize, 1usize, 2usize), (1usize, 2usize, 3usize)]);
        assert forall|i: int| 0 <= i < 4 implies vertex_matches(#[trigger] q.vertices@[i], i) by {
            if i == 0 {
                assert(vertex_matches(q.vertices@[0], 0));
            } else if i == 1 {
                assert(vertex_matches(q.vertices@[1], 1));
            } else if i == 2 {
                assert(vertex_matches(q.vertices@[2], 2));
            } else {
                assert(vertex_matches(q.vertices@[3], 3));
            }
        }
    }
    q
}

/// The two quads of one bot: the hull rotated by the negated heading, the
/// turret rotated by the negated sum of heading and turret offset, both
/// centered at the bot's mapped screen position.
pub fn project_bot(pose: &BotPose) -> (pair: (RenderQuad, RenderQuad))
    ensures
        quad_matches(
            pair.0,
            SpriteLayer::Hull,
            map_coord_spec(pose.x as int),
            map_coord_spec(pose.y as int),
            screen_angle_spec(pose.heading as int),
        ),
        quad_matches(
            pair.1,
            SpriteLayer::Turret,
            map_coord_spec(pose.x as int),
            map_coord_spec(pose.y as int),
            screen_angle_spec(pose.heading as int + pose.turret_offset as int),
        ),
{
    let cx = map_world_coord(pose.x);
    let cy = map_world_coord(pose.y);
    let hull = build_quad(SpriteLayer::Hull, cx, cy, screen_angle_units(pose.heading));
    let turret = build_quad(
        SpriteLayer::Turret,
        cx,
        cy,
        turret_screen_angle_units(pose.heading, pose.turret_offset),
    );
    (hull, turret)
}

/// The geometry of a whole snapshot: two quads per bot in snapshot order, the
/// hull quad before the turret quad.
pub open spec fn snapshot_quads_ok(bots: Seq<BotPose>, quads: Seq<RenderQuad>) -> bool {
    &&& quads.len() == 2 * bots.len()
    &&& (forall|i: int|
        0 <= i < bots.len() ==> {
            let pose = #[trigger] bots[i];
            quad_matches(
                quads[2 * i],
                SpriteLayer::Hull,
                map_coord_spec(pose.x as int),
                map_coord_spec(pose.y as int),
                screen_angle_spec(pose.heading as int),
            ) && quad_matches(
                quads[2 * i + 1],
                SpriteLayer::Turret,
                map_coord_spec(pose.x as int),
                map_coord_spec(pose.y as int),
                screen_angle_spec(pose.heading as int + pose.turret_offset as int),
            )
        })
}

/// Project every bot of a snapshot to its two oriented quads. Pure with
/// respect to the snapshot: it reads shared state of no kind, and each bot's
/// quads depend on that bot's pose alone.
pub fn project_snapshot(snap: &WorldSnapshot) -> (quads: Vec<RenderQuad>)
    ensures
        snapshot_quads_ok(snap@, quads@),
{
    let mut quads: Vec<RenderQuad> = Vec::new();
    let n = snap.bot_count();
    let mut idx: usize = 0;
    while idx < n
        invariant
            n == snap@.len(),
            idx <= n,
            quads@.len() == 2 * idx,
            forall|i: int|
                0 <= i < idx ==> {
                    let pose = #[trigger] snap@[i];
                    quad_matches(
                        quads@[2 * i],
                        SpriteLayer::Hull,
                        map_coord_spec(pose.x as int),
                        map_coord_spec(pose.y as int),
                        screen_angle_spec(pose.heading as int),
                    ) && quad_matches(
                        quads@[2 * i + 1],
                        SpriteLayer::Turret,
                        map_coord_spec(pose.x as int),
                        map_coord_spec(pose.y as int),
                        screen_angle_spec(pose.heading as int + pose.turret_offset as int),
                    )
                },
        decreases n - idx,
    {
        let pose = snap.pose_at(idx);
        let (hull, turret) = project_bot(&pose);
        quads.push(hull);
        quads.push(turret);
        idx = idx + 1;
    }
    quads
}

} // verus!
