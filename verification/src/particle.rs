//! The particles, the fields derived for each of them in a frame, and the
//! layout that a run starts from.
use vstd::prelude::*;
use crate::fixed::{floor_div, integer_root, root, saturate, saturated};
use crate::parameters::SimulationParameters;
use crate::vector::{Vector3, Vector4};

verus! {

/// The gap between the discs of two particles next to each other in the
/// initial layout: three units.
pub const LAYOUT_MARGIN: i64 = 196608;

/// The green component of the initial colour, 0.71.
pub const COLOR_GREEN: i64 = 46530;

/// The blue component of the initial colour, 0.93.
pub const COLOR_BLUE: i64 = 60948;

/// One particle of the fluid.
#[derive(Clone, Copy, Debug, PartialEq, Eq, Structural)]
pub struct Particle {
    pub position: Vector3,
    pub velocity: Vector3,
    /// Red, green, blue and opacity; read by the renderer only.
    pub color: Vector4,
}

impl Particle {
    /// The particle with the given position, velocity and colour.
    pub fn new(position: Vector3, velocity: Vector3, color: Vector4) -> (p: Particle)
        ensures
            p == (Particle { position, velocity, color }),
    {
        Particle { position, velocity, color }
    }
}

/// The number of columns, and of rows, of the layout of `n` particles: the
/// square root of `n`, rounded up.
pub open spec fn layout_side(n: int) -> int {
    if root(n) * root(n) == n {
        root(n)
    } else {
        root(n) + 1
    }
}

/// The distance between the centres of two particles next to each other in
/// the layout: twice the draw radius and the margin.
pub open spec fn layout_spacing(radius: int) -> int {
    saturated(2 * radius + LAYOUT_MARGIN)
}

/// The point halfway between `low` and `high`, rounded down.
pub open spec fn midpoint(low: int, high: int) -> int {
    (low + high) / 2
}

/// The coordinate of slot `k` of `side` slots spaced `spacing` apart and
/// centred on `center`.
pub open spec fn layout_coordinate(center: int, k: int, side: int, spacing: int) -> int {
    saturated(center + ((2 * k - side + 1) * spacing) / 2)
}

/// The particle with index `i` of the initial layout: at rest, in column
/// `i % side` of row `i / side`, in the plane where the third coordinate is
/// zero.
pub open spec fn initial_particle(params: SimulationParameters, i: int) -> Particle {
    let side = layout_side(params.particles_amount as int);
    let spacing = layout_spacing(params.particle_radius as int);
    let b = params.bounding_box;
    Particle {
        position: Vector3 {
            x: layout_coordinate(
                midpoint(b.position1.x as int, b.position2.x as int),
                i % side,
                side,
                spacing,
            ) as i64,
            y: layout_coordinate(
                midpoint(b.position1.y as int, b.position2.y as int),
                i / side,
                side,
                spacing,
            ) as i64,
            z: 0,
        },
        velocity: Vector3 { x: 0, y: 0, z: 0 },
        color: Vector4 { x: 0, y: COLOR_GREEN, z: COLOR_BLUE, w: 65536 },
    }
}

/// The side of the layout of `n` particles.
pub fn side_of_layout(n: u32) -> (side: u32)
    ensures
        side == layout_side(n as int),
        side * side >= n,
        n > 0 ==> side > 0 && (side - 1) * (side - 1) < n,
{
    let r: u64 = integer_root(n as u128);
    proof {
        assert(r <= 0xffff) by (nonlinear_arith)
            requires
                0 <= r,
                r * r <= n,
                n <= 0xffff_ffff,
        ;
        assert(r * r <= 0xffff * 0xffff) by (nonlinear_arith)
            requires
                0 <= r <= 0xffff,
        ;
    }
    if r * r == n as u64 {
        proof {
            assert(n > 0 ==> r > 0 && (r - 1) * (r - 1) < n) by (nonlinear_arith)
                requires
                    0 <= r,
                    r * r == n,
            ;
        }
        r as u32
    } else {
        (r + 1) as u32
    }
}

/// The coordinate of slot `k` of `side` slots.
fn slot_coordinate(center: i64, k: u32, side: u32, spacing: i64) -> (c: i64)
    ensures
        c == layout_coordinate(center as int, k as int, side as int, spacing as int),
{
    let steps: i128 = 2 * (k as i128) - (side as i128) + 1;
    proof {
        assert(-0x2_0000_0000_0000_0000_0000_0000 <= steps * spacing
            <= 0x2_0000_0000_0000_0000_0000_0000) by (nonlinear_arith)
            requires
                -0x1_0000_0000 <= steps <= 0x2_0000_0000,
                -0x8000_0000_0000_0000 <= spacing <= 0x7fff_ffff_ffff_ffff,
        ;
    }
    let offset: i128 = floor_div(steps * (spacing as i128), 2);
    saturate(center as i128 + offset)
}

/// The particles and the fields that each frame derives for them. All six
/// vectors have one entry for each particle.
pub struct ParticlesState {
    pub particles: Vec<Particle>,
    pub density_field: Vec<i64>,
    pub near_density_field: Vec<i64>,
    pub predicted_positions: Vec<Vector3>,
    pub surface_normals: Vec<Vector3>,
    pub vorticities: Vec<Vector3>,
}

/// What a `ParticlesState` holds, as sequences.
pub struct Fluid {
    pub particles: Seq<Particle>,
    pub densities: Seq<i64>,
    pub near_densities: Seq<i64>,
    pub predicted: Seq<Vector3>,
    pub normals: Seq<Vector3>,
    pub vorticities: Seq<Vector3>,
}

impl View for ParticlesState {
    type V = Fluid;

    open spec fn view(&self) -> Fluid {
        Fluid {
            particles: self.particles@,
            densities: self.density_field@,
            near_densities: self.near_density_field@,
            predicted: self.predicted_positions@,
            normals: self.surface_normals@,
            vorticities: self.vorticities@,
        }
    }
}

impl Fluid {
    /// Whether every field has one entry for each particle, and the particles
    /// can be numbered by `u32`.
    pub open spec fn aligned(self) -> bool {
        &&& self.particles.len() <= u32::MAX
        &&& self.densities.len() == self.particles.len()
        &&& self.near_densities.len() == self.particles.len()
        &&& self.predicted.len() == self.particles.len()
        &&& self.normals.len() == self.particles.len()
        &&& self.vorticities.len() == self.particles.len()
    }
}

impl ParticlesState {
    /// Whether every field has one entry for each particle, and the particles
    /// can be numbered by `u32`.
    pub open spec fn aligned(self) -> bool {
        self@.aligned()
    }

    /// Lays `params.particles_amount` particles out on a square grid of
    /// `layout_side` columns centred in the bounding volume, row by row, all
    /// at rest and of one colour. Slots beyond the last particle stay unused.
    /// The derived fields start at zero.
    pub fn new(params: &SimulationParameters) -> (s: ParticlesState)
        requires
            params.particles_amount > 0,
        ensures
            s.aligned(),
            s.particles.len() == params.particles_amount,
            forall|i: int|
                0 <= i < params.particles_amount ==> s.particles[i] == initial_particle(*params, i),
            forall|i: int| 0 <= i < params.particles_amount ==> s.density_field[i] == 0,
            forall|i: int| 0 <= i < params.particles_amount ==> s.near_density_field[i] == 0,
            forall|i: int|
                0 <= i < params.particles_amount ==> s.predicted_positions[i] == (Vector3 {
                    x: 0,
                    y: 0,
                    z: 0,
                }),
            forall|i: int|
                0 <= i < params.particles_amount ==> s.surface_normals[i] == (Vector3 {
                    x: 0,
                    y: 0,
                    z: 0,
                }),
            forall|i: int|
                0 <= i < params.particles_amount ==> s.vorticities[i] == (Vector3 {
                    x: 0,
                    y: 0,
                    z: 0,
                }),
    {
        let n = params.particles_amount;
        let side = side_of_layout(n);
        let spacing = saturate(2 * (params.particle_radius as i128) + LAYOUT_MARGIN as i128);
        let b = params.bounding_box;
        let center_x = floor_div(b.position1.x as i128 + b.position2.x as i128, 2) as i64;
        let center_y = floor_div(b.position1.y as i128 + b.position2.y as i128, 2) as i64;
        let color = Vector4::new(0, COLOR_GREEN, COLOR_BLUE, 65536);
        let velocity = Vector3::zero();
        let mut particles: Vec<Particle> = Vec::new();
        let mut i: u32 = 0;
        while i < n
            invariant
                i <= n,
                n == params.particles_amount,
                side == layout_side(n as int),
                n > 0 ==> side > 0,
                spacing == layout_spacing(params.particle_radius as int),
                b == params.bounding_box,
                center_x == midpoint(b.position1.x as int, b.position2.x as int),
                center_y == midpoint(b.position1.y as int, b.position2.y as int),
                color == (Vector4 { x: 0, y: COLOR_GREEN, z: COLOR_BLUE, w: 65536 }),
                velocity == (Vector3 { x: 0, y: 0, z: 0 }),
                particles.len() == i,
                forall|k: int| 0 <= k < i ==> particles[k] == initial_particle(*params, k),
            decreases n - i,
        {
            let x = slot_coordinate(center_x, i % side, side, spacing);
            let y = slot_coordinate(center_y, i / side, side, spacing);
            particles.push(Particle::new(Vector3::new(x, y, 0), velocity, color));
            i = i + 1;
        }
        ParticlesState {
            particles,
            density_field: vec![0i64; n as usize],
            near_density_field: vec![0i64; n as usize],
            predicted_positions: vec![Vector3::zero(); n as usize],
            surface_normals: vec![Vector3::zero(); n as usize],
            vorticities: vec![Vector3::zero(); n as usize],
        }
    }
}

} // verus!
