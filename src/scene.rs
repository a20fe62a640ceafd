use vstd::prelude::*;

verus! {

/// One whole unit (a metre, or full intensity of a colour channel) in millionths.
pub const UNIT: i64 = 1000000;

/// How many balls the arena starts with.
pub const INITIAL_BALLS: usize = 2000;

/// A point or an extent in three dimensions, in millionths.
#[derive(Clone, Copy, Debug, PartialEq, Eq)]
pub struct Vec3 {
    pub x: i64,
    pub y: i64,
    pub z: i64,
}

/// A colour, each channel in millionths of full intensity.
#[derive(Clone, Copy, Debug, PartialEq, Eq)]
pub struct Rgb {
    pub r: i64,
    pub g: i64,
    pub b: i64,
}

/// Whether the physics engine moves a body.
#[derive(Clone, Copy, Debug, PartialEq, Eq)]
pub enum BodyKind {
    Static,
    Dynamic,
}

/// The visible shape of a body.
#[derive(Clone, Copy, Debug, PartialEq, Eq)]
pub enum MeshShape {
    /// A capsule; with no depth it is a sphere.
    Capsule { radius: i64, depth: i64 },
    /// A box with the given full sizes along each axis.
    Cuboid { size: Vec3 },
    /// A square in the horizontal plane with the given side.
    Plane { side: i64 },
}

/// The shape the physics engine collides with.
#[derive(Clone, Copy, Debug, PartialEq, Eq)]
pub enum Collider {
    Sphere { radius: i64 },
    Cuboid { half_extents: Vec3 },
}

/// How a body bounces and slides, in millionths.
#[derive(Clone, Copy, Debug, PartialEq, Eq)]
pub struct SurfaceMaterial {
    pub restitution: i64,
    pub friction: i64,
    pub density: i64,
}

/// Everything needed to create one body of the scene.
#[derive(Clone, Copy, Debug, PartialEq, Eq)]
pub struct Body {
    pub mesh: MeshShape,
    pub color: Rgb,
    pub position: Vec3,
    pub kind: BodyKind,
    /// `None` leaves the physics engine's default material.
    pub material: Option<SurfaceMaterial>,
    pub collider: Collider,
}

/// A point light source.
#[derive(Clone, Copy, Debug, PartialEq, Eq)]
pub struct LightSource {
    pub position: Vec3,
    pub intensity: i64,
    pub range: i64,
    pub shadows: bool,
}

/// A camera placed at `position`, looking at `target` with `up` upwards, and
/// steered by the user when `free_fly` is set.
#[derive(Clone, Copy, Debug, PartialEq, Eq)]
pub struct Viewpoint {
    pub position: Vec3,
    pub target: Vec3,
    pub up: Vec3,
    pub free_fly: bool,
}

/// The whole scene at start-up: the bodies in order of creation, one light and
/// one camera.
#[derive(Debug, PartialEq, Eq)]
pub struct World {
    pub bodies: Vec<Body>,
    pub light: LightSource,
    pub camera: Viewpoint,
}

pub open spec fn vec3(x: int, y: int, z: int) -> Vec3 {
    Vec3 { x: x as i64, y: y as i64, z: z as i64 }
}

/// The region new balls are dropped in: [0, 5) x [0, 200) x [0, 5).
pub open spec fn in_spawn_region(p: Vec3) -> bool {
    &&& 0 <= p.x < 5 * UNIT
    &&& 0 <= p.y < 200 * UNIT
    &&& 0 <= p.z < 5 * UNIT
}

/// A ball at `p`: a sphere of radius 1 in tan, dynamic, perfectly bouncy and
/// frictionless, of density 1.
pub open spec fn ball_at(p: Vec3) -> Body {
    Body {
        mesh: MeshShape::Capsule { radius: UNIT, depth: 0 },
        color: Rgb { r: 800000, g: 700000, b: 600000 },
        position: p,
        kind: BodyKind::Dynamic,
        material: Some(SurfaceMaterial { restitution: UNIT, friction: 0, density: UNIT }),
        collider: Collider::Sphere { radius: UNIT },
    }
}

/// The collision shape matches the visible one: a box collides as a box of half
/// its size, a plane as a thin slab of half its side, a sphere as a sphere of
/// the same radius.
pub open spec fn collider_fits_mesh(b: Body) -> bool {
    match (b.mesh, b.collider) {
        (MeshShape::Cuboid { size }, Collider::Cuboid { half_extents: h }) => {
            &&& 2 * h.x == size.x
            &&& 2 * h.y == size.y
            &&& 2 * h.z == size.z
        },
        (MeshShape::Plane { side }, Collider::Cuboid { half_extents: h }) => {
            &&& 2 * h.x == side
            &&& 0 < h.y
            &&& 2 * h.z == side
        },
        (MeshShape::Capsule { radius, depth }, Collider::Sphere { radius: r }) => {
            &&& depth == 0
            &&& r == radius
        },
        _ => false,
    }
}

/// A ball as the spawner makes them: the fixed ball shape, inside the region.
pub open spec fn is_spawned_ball(b: Body) -> bool {
    b == ball_at(b.position) && in_spawn_region(b.position)
}

pub open spec fn arena_green() -> Rgb {
    Rgb { r: 300000, g: 500000, b: 300000 }
}

/// A static green box of the given full size at `at`, colliding as a box of
/// the given half extents.
pub open spec fn static_box(size: Vec3, at: Vec3, half: Vec3) -> Body {
    Body {
        mesh: MeshShape::Cuboid { size },
        color: arena_green(),
        position: at,
        kind: BodyKind::Static,
        material: None,
        collider: Collider::Cuboid { half_extents: half },
    }
}

/// The arena: walls at x = 125 and x = -125, walls at z = 125 and z = -125,
/// and a floor of side 250 at the origin.
pub open spec fn arena() -> Seq<Body> {
    let thin = 1000;
    let x_wall = vec3(thin, 25 * UNIT, 250 * UNIT);
    let x_half = vec3(thin / 2, 12500000, 125 * UNIT);
    let z_wall = vec3(250 * UNIT, 25 * UNIT, thin);
    let z_half = vec3(125 * UNIT, 12500000, thin / 2);
    seq![
        static_box(x_wall, vec3(125 * UNIT, 0, 0), x_half),
        static_box(x_wall, vec3(-125 * UNIT, 0, 0), x_half),
        static_box(z_wall, vec3(0, 0, 125 * UNIT), z_half),
        static_box(z_wall, vec3(0, 0, -125 * UNIT), z_half),
        Body {
            mesh: MeshShape::Plane { side: (250 * UNIT) as i64 },
            color: arena_green(),
            position: vec3(0, 0, 0),
            kind: BodyKind::Static,
            material: None,
            collider: Collider::Cuboid { half_extents: vec3(125 * UNIT, thin, 125 * UNIT) },
        },
    ]
}

pub open spec fn scene_light() -> LightSource {
    LightSource {
        position: vec3(4 * UNIT, 25 * UNIT, 4 * UNIT),
        intensity: (3500 * UNIT) as i64,
        range: (500 * UNIT) as i64,
        shadows: true,
    }
}

pub open spec fn scene_camera() -> Viewpoint {
    Viewpoint {
        position: vec3(-2 * UNIT, 2500000, 5 * UNIT),
        target: vec3(0, 0, 0),
        up: vec3(0, UNIT as int, 0),
        free_fly: true,
    }
}

/// The scene holds the arena first and then a ball at each of `positions`,
/// with the fixed light and camera.
pub open spec fn is_world_with(w: World, positions: Seq<Vec3>) -> bool {
    &&& w.bodies@ == arena() + positions.map_values(|p: Vec3| ball_at(p))
    &&& w.light == scene_light()
    &&& w.camera == scene_camera()
}

/// Makes the ball that stands at `p`.
pub fn spawn_a_ball(p: Vec3) -> (r: Body)
    ensures
        r == ball_at(p),
        collider_fits_mesh(r),
{
    Body {
        mesh: MeshShape::Capsule { radius: UNIT, depth: 0 },
        color: Rgb { r: 800000, g: 700000, b: 600000 },
        position: p,
        kind: BodyKind::Dynamic,
        material: Some(SurfaceMaterial { restitution: UNIT, friction: 0, density: UNIT }),
        collider: Collider::Sphere { radius: UNIT },
    }
}

/// One ball at each of the given positions, in the same order.
pub fn balls_at(positions: &Vec<Vec3>) -> (r: Vec<Body>)
    ensures
        r@ == positions@.map_values(|p: Vec3| ball_at(p)),
{
    let mut r: Vec<Body> = Vec::new();
    let mut i: usize = 0;
    while i < positions.len()
        invariant
            i <= positions@.len(),
            r@ == positions@.subrange(0, i as int).map_values(|p: Vec3| ball_at(p)),
        decreases positions@.len() - i,
    {
        r.push(spawn_a_ball(positions[i]));
        i = i + 1;
        assert(r@ =~= positions@.subrange(0, i as int).map_values(|p: Vec3| ball_at(p)));
    }
    assert(positions@.subrange(0, i as int) =~= positions@);
    r
}

fn static_box_at(size: Vec3, at: Vec3, half: Vec3) -> (r: Body)
    ensures
        r == static_box(size, at, half),
{
    Body {
        mesh: MeshShape::Cuboid { size },
        color: Rgb { r: 300000, g: 500000, b: 300000 },
        position: at,
        kind: BodyKind::Static,
        material: None,
        collider: Collider::Cuboid { half_extents: half },
    }
}

/// The five static bodies of the arena, in the order `arena` gives, each
/// colliding with the shape it shows.
pub fn arena_bodies() -> (r: Vec<Body>)
    ensures
        r@ == arena(),
        forall|i: int| 0 <= i < r@.len() ==> collider_fits_mesh(#[trigger] r@[i]),
{
    let thin: i64 = 1000;
    let x_wall = Vec3 { x: thin, y: 25 * UNIT, z: 250 * UNIT };
    let x_half = Vec3 { x: thin / 2, y: 12500000, z: 125 * UNIT };
    let z_wall = Vec3 { x: 250 * UNIT, y: 25 * UNIT, z: thin };
    let z_half = Vec3 { x: 125 * UNIT, y: 12500000, z: thin / 2 };
    let origin = Vec3 { x: 0, y: 0, z: 0 };
    let r = vec![
        static_box_at(x_wall, Vec3 { x: 125 * UNIT, y: 0, z: 0 }, x_half),
        static_box_at(x_wall, Vec3 { x: -125 * UNIT, y: 0, z: 0 }, x_half),
        static_box_at(z_wall, Vec3 { x: 0, y: 0, z: 125 * UNIT }, z_half),
        static_box_at(z_wall, Vec3 { x: 0, y: 0, z: -125 * UNIT }, z_half),
        Body {
            mesh: MeshShape::Plane { side: 250 * UNIT },
            color: Rgb { r: 300000, g: 500000, b: 300000 },
            position: origin,
            kind: BodyKind::Static,
            material: None,
            collider: Collider::Cuboid { half_extents: Vec3 { x: 125 * UNIT, y: thin, z: 125 * UNIT } },
        },
    ];
    assert(r@ =~= arena());
    r
}

/// The start-up scene with a ball at each of the given positions.
pub fn world_from(positions: &Vec<Vec3>) -> (r: World)
    ensures
        is_world_with(r, positions@),
{
    let mut bodies = arena_bodies();
    let mut balls = balls_at(positions);
    bodies.append(&mut balls);
    World {
        bodies,
        light: LightSource {
            position: Vec3 { x: 4 * UNIT, y: 25 * UNIT, z: 4 * UNIT },
            intensity: 3500 * UNIT,
            range: 500 * UNIT,
            shadows: true,
        },
        camera: Viewpoint {
            position: Vec3 { x: -2 * UNIT, y: 2500000, z: 5 * UNIT },
            target: Vec3 { x: 0, y: 0, z: 0 },
            up: Vec3 { x: 0, y: UNIT, z: 0 },
            free_fly: true,
        },
    }
}

} // verus!
