//! The configuration of the simulation and the store that holds the current one.
use vstd::prelude::*;
use crate::fixed::{div_fixed, integer_root, quotient, root, ONE};
use crate::vector::Vector3;

verus! {

/// The axis-aligned volume that the particles stay in, by its two corners.
#[derive(Clone, Copy, Debug, PartialEq, Eq, Structural)]
pub struct BoundingBoxUniform {
    /// The corner with the smallest coordinates.
    pub position1: Vector3,
    /// The corner with the largest coordinates.
    pub position2: Vector3,
}

impl BoundingBoxUniform {
    /// Whether the first corner lies at or below the second on every axis.
    pub open spec fn ordered(self) -> bool {
        &&& self.position1.x <= self.position2.x
        &&& self.position1.y <= self.position2.y
        &&& self.position1.z <= self.position2.z
    }

    /// Whether the point `p` lies inside the volume, boundary included.
    pub open spec fn holds(self, p: Vector3) -> bool {
        &&& self.position1.x <= p.x <= self.position2.x
        &&& self.position1.y <= p.y <= self.position2.y
        &&& self.position1.z <= p.z <= self.position2.z
    }

    /// The volume between the corner `position` and the corner `dimensions`:
    /// for a volume that starts at the origin, the second corner is its
    /// dimensions.
    pub fn new(position: Vector3, dimensions: Vector3) -> (b: BoundingBoxUniform)
        ensures
            b.position1 == position,
            b.position2 == dimensions,
    {
        BoundingBoxUniform { position1: position, position2: dimensions }
    }

    /// Whether the first corner lies at or below the second on every axis.
    pub fn is_ordered(&self) -> (b: bool)
        ensures
            b == self.ordered(),
    {
        self.position1.x <= self.position2.x && self.position1.y <= self.position2.y
            && self.position1.z <= self.position2.z
    }
}

/// One snapshot of the configuration. Scalars are fixed-point values.
#[derive(Clone, Copy, Debug, PartialEq, Eq, Structural)]
pub struct SimulationParameters {
    pub bounding_box: BoundingBoxUniform,
    pub gravity: Vector3,
    pub particle_mass: i64,
    pub particle_radius: i64,
    pub particles_amount: u32,
    pub collision_damping: i64,
    pub poly_kernel_radius: i64,
    pub pressure_kernel_radius: i64,
    pub near_pressure_kernel_radius: i64,
    pub viscosity_kernel_radius: i64,
    pub viscosity: i64,
    pub cohesion_coef: i64,
    pub curvature_cef: i64,
    pub adhesion_cef: i64,
    pub rest_density: i64,
    pub pressure_multiplier: i64,
    pub near_pressure_multiplier: i64,
    pub grid_size: i64,
    /// The factor by which the renderer scales the scene to the window. The
    /// passes of a frame do not read it.
    pub scene_scale_factor: i64,
    pub vorticity_kernel_radius: i64,
    pub vorticity_inensity: i64,
    pub cohesion_kernel_radius: i64,
    pub adhesion_kernel_radius: i64,
    pub surface_normal_kernel_radius: i64,
    pub time_scale: i64,
    /// How far smoothing moves a velocity towards the average around it;
    /// taken between zero and one.
    pub velocity_smoothing_scale: i64,
}

/// Whether `radius` is positive and no larger than the cell size `grid`.
pub open spec fn radius_fits(radius: i64, grid: i64) -> bool {
    0 < radius <= grid
}

impl SimulationParameters {
    /// The conditions under which the passes of a frame are meaningful: every
    /// kernel radius is positive and no larger than a grid cell, there is at
    /// least one particle, the mass is not negative, the damping lies between
    /// zero and one, and the bounding volume is not inverted.
    pub open spec fn valid(self) -> bool {
        &&& radius_fits(self.poly_kernel_radius, self.grid_size)
        &&& radius_fits(self.pressure_kernel_radius, self.grid_size)
        &&& radius_fits(self.near_pressure_kernel_radius, self.grid_size)
        &&& radius_fits(self.viscosity_kernel_radius, self.grid_size)
        &&& radius_fits(self.vorticity_kernel_radius, self.grid_size)
        &&& radius_fits(self.cohesion_kernel_radius, self.grid_size)
        &&& radius_fits(self.adhesion_kernel_radius, self.grid_size)
        &&& radius_fits(self.surface_normal_kernel_radius, self.grid_size)
        &&& self.particles_amount > 0
        &&& self.particle_mass >= 0
        &&& 0 <= self.collision_damping <= ONE
        &&& self.bounding_box.ordered()
    }

    /// The largest of the kernel radii.
    pub open spec fn largest_radius(self) -> int {
        let a = if self.poly_kernel_radius >= self.pressure_kernel_radius {
            self.poly_kernel_radius
        } else {
            self.pressure_kernel_radius
        };
        let b = if self.near_pressure_kernel_radius >= self.viscosity_kernel_radius {
            self.near_pressure_kernel_radius
        } else {
            self.viscosity_kernel_radius
        };
        let c = if self.vorticity_kernel_radius >= self.cohesion_kernel_radius {
            self.vorticity_kernel_radius
        } else {
            self.cohesion_kernel_radius
        };
        let d = if self.adhesion_kernel_radius >= self.surface_normal_kernel_radius {
            self.adhesion_kernel_radius
        } else {
            self.surface_normal_kernel_radius
        };
        let ab = if a >= b { a } else { b };
        let cd = if c >= d { c } else { d };
        if ab >= cd { ab as int } else { cd as int }
    }

    /// Whether the snapshot meets `valid`.
    pub fn is_valid(&self) -> (b: bool)
        ensures
            b == self.valid(),
    {
        let g = self.grid_size;
        0 < self.poly_kernel_radius && self.poly_kernel_radius <= g
            && 0 < self.pressure_kernel_radius && self.pressure_kernel_radius <= g
            && 0 < self.near_pressure_kernel_radius && self.near_pressure_kernel_radius <= g
            && 0 < self.viscosity_kernel_radius && self.viscosity_kernel_radius <= g
            && 0 < self.vorticity_kernel_radius && self.vorticity_kernel_radius <= g
            && 0 < self.cohesion_kernel_radius && self.cohesion_kernel_radius <= g
            && 0 < self.adhesion_kernel_radius && self.adhesion_kernel_radius <= g
            && 0 < self.surface_normal_kernel_radius && self.surface_normal_kernel_radius <= g
            && self.particles_amount > 0 && self.particle_mass >= 0
            && 0 <= self.collision_damping && self.collision_damping <= ONE
            && self.bounding_box.is_ordered()
    }

    /// The largest of the kernel radii.
    pub fn max_radius(&self) -> (r: i64)
        ensures
            r == self.largest_radius(),
            r >= self.poly_kernel_radius,
            r >= self.pressure_kernel_radius,
            r >= self.near_pressure_kernel_radius,
            r >= self.viscosity_kernel_radius,
            r >= self.vorticity_kernel_radius,
            r >= self.cohesion_kernel_radius,
            r >= self.adhesion_kernel_radius,
            r >= self.surface_normal_kernel_radius,
            self.valid() ==> 0 < r <= self.grid_size,
    {
        let a = if self.poly_kernel_radius >= self.pressure_kernel_radius {
            self.poly_kernel_radius
        } else {
            self.pressure_kernel_radius
        };
        let b = if self.near_pressure_kernel_radius >= self.viscosity_kernel_radius {
            self.near_pressure_kernel_radius
        } else {
            self.viscosity_kernel_radius
        };
        let c = if self.vorticity_kernel_radius >= self.cohesion_kernel_radius {
            self.vorticity_kernel_radius
        } else {
            self.cohesion_kernel_radius
        };
        let d = if self.adhesion_kernel_radius >= self.surface_normal_kernel_radius {
            self.adhesion_kernel_radius
        } else {
            self.surface_normal_kernel_radius
        };
        let ab = if a >= b { a } else { b };
        let cd = if c >= d { c } else { d };
        if ab >= cd { ab } else { cd }
    }
}

/// The width of the default bounding volume, in raw units.
pub const DEFAULT_WIDTH: i64 = 1600 * 65536;

/// The height of the default bounding volume, in raw units.
pub const DEFAULT_HEIGHT: i64 = 900 * 65536;

/// The default vertical gravity, fifteen units downwards.
pub const DEFAULT_GRAVITY: i64 = -983040;

/// The default cell size, six tenths, which is also every default kernel radius.
pub const DEFAULT_GRID_SIZE: i64 = 39321;

/// The configuration that a run starts with.
pub open spec fn default_parameters() -> SimulationParameters {
    SimulationParameters {
        bounding_box: BoundingBoxUniform {
            position1: Vector3 { x: 0, y: 0, z: 0 },
            position2: Vector3 { x: DEFAULT_WIDTH, y: DEFAULT_HEIGHT, z: ONE },
        },
        gravity: Vector3 { x: 0, y: DEFAULT_GRAVITY, z: 0 },
        particle_mass: ONE,
        particle_radius: 98304,
        particles_amount: 16384,
        collision_damping: 58982,
        poly_kernel_radius: DEFAULT_GRID_SIZE,
        pressure_kernel_radius: DEFAULT_GRID_SIZE,
        near_pressure_kernel_radius: DEFAULT_GRID_SIZE,
        viscosity_kernel_radius: DEFAULT_GRID_SIZE,
        viscosity: 3276,
        cohesion_coef: ONE,
        curvature_cef: ONE,
        adhesion_cef: ONE,
        rest_density: 2293760,
        pressure_multiplier: 85196800,
        near_pressure_multiplier: 7208960,
        grid_size: DEFAULT_GRID_SIZE,
        scene_scale_factor: quotient(
            3276800,
            root(DEFAULT_WIDTH * DEFAULT_WIDTH + DEFAULT_HEIGHT * DEFAULT_HEIGHT),
        ) as i64,
        vorticity_kernel_radius: DEFAULT_GRID_SIZE,
        vorticity_inensity: 32768,
        cohesion_kernel_radius: DEFAULT_GRID_SIZE,
        adhesion_kernel_radius: DEFAULT_GRID_SIZE,
        surface_normal_kernel_radius: DEFAULT_GRID_SIZE,
        time_scale: 546,
        velocity_smoothing_scale: 2293,
    }
}

impl Default for SimulationParameters {
    /// The default configuration: a volume of 1600 by 900 by 1, 16384
    /// particles, and a scene scale of fifty over the volume's diagonal.
    fn default() -> (p: SimulationParameters)
        ensures
            p == default_parameters(),
            p.valid(),
    {
        let width: u128 = 1600 * 65536;
        let height: u128 = 900 * 65536;
        let diagonal: u64 = integer_root(width * width + height * height);
        proof {
            assert(diagonal < 0x1_0000_0000) by (nonlinear_arith)
                requires
                    0 <= diagonal,
                    diagonal * diagonal <= 1600 * 65536 * (1600 * 65536) + 900 * 65536 * (900
                        * 65536),
            ;
        }
        let scene_scale_factor = div_fixed(3276800, diagonal as i64);
        SimulationParameters {
            bounding_box: BoundingBoxUniform {
                position1: Vector3 { x: 0, y: 0, z: 0 },
                position2: Vector3 { x: DEFAULT_WIDTH, y: DEFAULT_HEIGHT, z: ONE },
            },
            gravity: Vector3 { x: 0, y: DEFAULT_GRAVITY, z: 0 },
            particle_mass: ONE,
            particle_radius: 98304,
            particles_amount: 16384,
            collision_damping: 58982,
            poly_kernel_radius: DEFAULT_GRID_SIZE,
            pressure_kernel_radius: DEFAULT_GRID_SIZE,
            near_pressure_kernel_radius: DEFAULT_GRID_SIZE,
            viscosity_kernel_radius: DEFAULT_GRID_SIZE,
            viscosity: 3276,
            cohesion_coef: ONE,
            curvature_cef: ONE,
            adhesion_cef: ONE,
            rest_density: 2293760,
            pressure_multiplier: 85196800,
            near_pressure_multiplier: 7208960,
            grid_size: DEFAULT_GRID_SIZE,
            scene_scale_factor,
            vorticity_kernel_radius: DEFAULT_GRID_SIZE,
            vorticity_inensity: 32768,
            cohesion_kernel_radius: DEFAULT_GRID_SIZE,
            adhesion_kernel_radius: DEFAULT_GRID_SIZE,
            surface_normal_kernel_radius: DEFAULT_GRID_SIZE,
            time_scale: 546,
            velocity_smoothing_scale: 2293,
        }
    }
}

/// What a store that holds `current` holds after `params` was written to it.
pub open spec fn written(
    current: SimulationParameters,
    params: SimulationParameters,
) -> SimulationParameters {
    if params.valid() {
        params
    } else {
        current
    }
}

/// Writing the same snapshot twice in a row leaves the store as writing it
/// once does.
pub proof fn lemma_write_idempotent(current: SimulationParameters, params: SimulationParameters)
    ensures
        written(written(current, params), params) == written(current, params),
{
}

/// Holds the current configuration. A frame reads one whole copy of it; a
/// writer replaces it whole, and only by a valid snapshot.
pub struct ParameterStore {
    current: SimulationParameters,
}

impl ParameterStore {
    /// The snapshot that the store holds.
    pub closed spec fn snapshot(self) -> SimulationParameters {
        self.current
    }

    /// The store never holds an invalid configuration.
    #[verifier::type_invariant]
    spec fn holds_valid(self) -> bool {
        self.current.valid()
    }

    /// A store that holds `initial` where it is valid, and the default
    /// configuration where it is not.
    pub fn new(initial: SimulationParameters) -> (s: ParameterStore)
        ensures
            s.snapshot().valid(),
            s.snapshot() == if initial.valid() { initial } else { default_parameters() },
    {
        if initial.is_valid() {
            ParameterStore { current: initial }
        } else {
            ParameterStore { current: SimulationParameters::default() }
        }
    }

    /// A copy of the whole current configuration.
    pub fn read_snapshot(&self) -> (p: SimulationParameters)
        ensures
            p == self.snapshot(),
            p.valid(),
    {
        proof {
            use_type_invariant(self);
        }
        self.current
    }

    /// Replaces the configuration by `params` where that is valid, and says
    /// whether it did; an invalid snapshot leaves the store as it was.
    pub fn write(&mut self, params: SimulationParameters) -> (accepted: bool)
        ensures
            accepted == params.valid(),
            final(self).snapshot() == written(old(self).snapshot(), params),
    {
        if params.is_valid() {
            self.current = params;
            true
        } else {
            false
        }
    }
}

} // verus!
