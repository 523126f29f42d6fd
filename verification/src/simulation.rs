//! One frame of the simulation: the passes in their order, and what holds of
//! the particles that a frame commits.
use vstd::prelude::*;
use crate::density::{
    density_at, density_pass, near_density_at, predict_positions, predicted_positions,
};
use crate::forces::{accelerations, force_pass};
use crate::integration::{integrate, integrated};
use crate::parameters::SimulationParameters;
use crate::particle::{Fluid, ParticlesState};
use crate::schedule::Stage;
use crate::search::NeighbourSearchSortState;
use crate::surface::{normal_at, surface_pass, vorticity_at};
use crate::vector::Vector3;

verus! {

/// The fluid with its predicted positions set for this frame.
pub open spec fn with_prediction(f: Fluid, params: SimulationParameters) -> Fluid {
    Fluid { predicted: predicted_positions(f.particles, params), ..f }
}

/// The fluid with the densities of its predicted positions.
pub open spec fn with_densities(f: Fluid, params: SimulationParameters) -> Fluid {
    Fluid {
        densities: Seq::new(
            f.particles.len(),
            |i: int| density_at(f.predicted, params, i) as i64,
        ),
        near_densities: Seq::new(
            f.particles.len(),
            |i: int| near_density_at(f.predicted, params, i) as i64,
        ),
        ..f
    }
}

/// The fluid with its surface normals and vorticities.
pub open spec fn with_surface(f: Fluid, params: SimulationParameters) -> Fluid {
    Fluid {
        normals: Seq::new(f.particles.len(), |i: int| normal_at(f, params, i)),
        vorticities: Seq::new(f.particles.len(), |i: int| vorticity_at(f, params, i)),
        ..f
    }
}

/// The fluid with its particles moved by the given accelerations.
pub open spec fn with_commit(
    f: Fluid,
    accelerated: Seq<Vector3>,
    params: SimulationParameters,
) -> Fluid {
    Fluid { particles: integrated(f, accelerated, params), ..f }
}

/// The fluid with its particles moved by the forces that act in it.
pub open spec fn with_motion(f: Fluid, params: SimulationParameters) -> Fluid {
    with_commit(f, accelerations(f, params), params)
}

/// The fluid after one frame: positions predicted, densities summed, normals
/// and vorticities derived, forces accumulated and the particles committed,
/// each pass reading what the passes before it wrote.
pub open spec fn frame(f: Fluid, params: SimulationParameters) -> Fluid {
    with_motion(
        with_surface(with_densities(with_prediction(f, params), params), params),
        params,
    )
}

/// The particles of a run, the neighbour search over them, and the
/// accelerations that the force stage hands to the integration stage.
pub struct Simulation {
    pub particles_state: ParticlesState,
    pub sort_state: NeighbourSearchSortState,
    pub accelerations: Vec<Vector3>,
}

impl Simulation {
    /// Whether `stage` can run: the configuration is valid, there is at least
    /// one particle with an entry in every field, and the stage finds what
    /// the stages before it leave behind. Sorting needs the binned tables;
    /// the passes need the neighbour structure of the predicted positions;
    /// integration needs an acceleration for each particle as well.
    pub open spec fn ready_for(self, stage: Stage, params: SimulationParameters) -> bool {
        let tables = self.sort_state.grid_state;
        let predicted = self.particles_state@.predicted;
        &&& params.valid()
        &&& self.particles_state.aligned()
        &&& self.particles_state.particles.len() > 0
        &&& match stage {
            Stage::PredictPositions | Stage::HashAndBin => true,
            Stage::SortAndResolve => tables.binned(predicted, params.grid_size),
            Stage::Density | Stage::SurfaceNormals | Stage::Forces => tables.indexes(
                predicted,
                params.grid_size,
            ),
            Stage::Integrate => tables.indexes(predicted, params.grid_size)
                && self.accelerations.len() == self.particles_state.particles.len(),
        }
    }

    /// What `stage` makes of the run `before`: each stage writes its own
    /// fields from what it reads and leaves everything else as it was.
    pub open spec fn follows(
        self,
        before: Simulation,
        stage: Stage,
        params: SimulationParameters,
    ) -> bool {
        let f = before.particles_state@;
        match stage {
            Stage::PredictPositions => {
                &&& self.particles_state@ == with_prediction(f, params)
                &&& self.sort_state == before.sort_state
                &&& self.accelerations == before.accelerations
            },
            Stage::HashAndBin => {
                &&& self.particles_state == before.particles_state
                &&& self.sort_state.grid_state.binned(f.predicted, params.grid_size)
                &&& self.accelerations == before.accelerations
            },
            Stage::SortAndResolve => {
                &&& self.particles_state == before.particles_state
                &&& self.sort_state.grid_state.indexes(f.predicted, params.grid_size)
                &&& self.accelerations == before.accelerations
            },
            Stage::Density => {
                &&& self.particles_state@ == with_densities(f, params)
                &&& self.sort_state == before.sort_state
                &&& self.accelerations == before.accelerations
            },
            Stage::SurfaceNormals => {
                &&& self.particles_state@ == with_surface(f, params)
                &&& self.sort_state == before.sort_state
                &&& self.accelerations == before.accelerations
            },
            Stage::Forces => {
                &&& self.particles_state == before.particles_state
                &&& self.sort_state == before.sort_state
                &&& self.accelerations@ == accelerations(f, params)
            },
            Stage::Integrate => {
                &&& self.particles_state@ == with_commit(f, before.accelerations@, params)
                &&& self.sort_state == before.sort_state
                &&& self.accelerations == before.accelerations
            },
        }
    }

    /// A run in its initial layout.
    pub fn new(params: &SimulationParameters) -> (s: Simulation)
        requires
            params.particles_amount > 0,
        ensures
            s.particles_state.aligned(),
            s.particles_state.particles.len() == params.particles_amount,
            forall|i: int|
                0 <= i < params.particles_amount ==> s.particles_state.particles[i]
                    == crate::particle::initial_particle(*params, i),
            forall|i: int|
                0 <= i < params.particles_amount ==> s.particles_state.density_field[i] == 0
                    && s.particles_state.near_density_field[i] == 0
                    && s.particles_state.predicted_positions[i] == crate::laws::zero_vector()
                    && s.particles_state.surface_normals[i] == crate::laws::zero_vector()
                    && s.particles_state.vorticities[i] == crate::laws::zero_vector(),
            s.sort_state.grid_state.sized(params.particles_amount as nat),
            forall|i: int|
                0 <= i < params.particles_amount ==> s.sort_state.grid_state.cell_start[i]
                    == crate::grid::EMPTY_CELL,
            s.accelerations.len() == 0,
            params.valid() ==> s.ready_for(Stage::PredictPositions, *params),
    {
        Simulation {
            particles_state: ParticlesState::new(params),
            sort_state: NeighbourSearchSortState::new(params.particles_amount),
            accelerations: Vec::new(),
        }
    }

    /// Runs one stage of a frame. Afterwards the stage that follows it can
    /// run. The density stage leaves no density negative, and the integration
    /// stage leaves every particle inside the bounding volume.
    pub fn run_stage(&mut self, stage: Stage, params: &SimulationParameters)
        requires
            old(self).ready_for(stage, *params),
        ensures
            final(self).follows(*old(self), stage, *params),
            final(self).particles_state.aligned(),
            final(self).particles_state.particles.len() == old(
                self,
            ).particles_state.particles.len(),
            final(self).ready_for(stage.successor(), *params),
            stage == Stage::Density ==> forall|i: int|
                0 <= i < final(self).particles_state.particles.len()
                    ==> final(self).particles_state.density_field[i] >= 0
                    && final(self).particles_state.near_density_field[i] >= 0,
            stage == Stage::Integrate ==> forall|i: int|
                0 <= i < final(self).particles_state.particles.len()
                    ==> params.bounding_box.holds(
                    (#[trigger] final(self).particles_state.particles[i]).position,
                ),
    {
        let ghost f = self.particles_state@;
        match stage {
            Stage::PredictPositions => {
                self.particles_state.predicted_positions = predict_positions(
                    &self.particles_state.particles,
                    params,
                );
            },
            Stage::HashAndBin => {
                self.sort_state.grid_state.calc_hash(
                    &self.particles_state.predicted_positions,
                    params.grid_size,
                );
            },
            Stage::SortAndResolve => {
                self.sort_state.resolve(
                    &self.particles_state.predicted_positions,
                    params.grid_size,
                );
            },
            Stage::Density => {
                let (densities, near_densities) = density_pass(
                    &self.sort_state.grid_state,
                    &self.particles_state.predicted_positions,
                    params,
                );
                self.particles_state.density_field = densities;
                self.particles_state.near_density_field = near_densities;
                assert(self.particles_state@.densities =~= with_densities(f, *params).densities);
                assert(self.particles_state@.near_densities =~= with_densities(
                    f,
                    *params,
                ).near_densities);
            },
            Stage::SurfaceNormals => {
                let (normals, vorticities) = surface_pass(
                    &self.sort_state.grid_state,
                    &self.particles_state,
                    params,
                );
                self.particles_state.surface_normals = normals;
                self.particles_state.vorticities = vorticities;
                assert(self.particles_state@.normals =~= with_surface(f, *params).normals);
                assert(self.particles_state@.vorticities =~= with_surface(f, *params).vorticities);
            },
            Stage::Forces => {
                self.accelerations = force_pass(
                    &self.sort_state.grid_state,
                    &self.particles_state,
                    params,
                );
            },
            Stage::Integrate => {
                let particles = integrate(
                    &self.sort_state.grid_state,
                    &self.particles_state,
                    &self.accelerations,
                    params,
                );
                self.particles_state.particles = particles;
            },
        }
    }

    /// Runs one frame: the seven stages in their order. The fluid afterwards
    /// is `frame` of the fluid before; the tables are the neighbour structure
    /// of the predicted positions; no density is negative; and every particle
    /// lies inside the bounding volume.
    pub fn step(&mut self, params: &SimulationParameters)
        requires
            params.valid(),
            old(self).particles_state.aligned(),
            old(self).particles_state.particles.len() > 0,
        ensures
            final(self).particles_state@ == frame(old(self).particles_state@, *params),
            final(self).particles_state.aligned(),
            final(self).sort_state.grid_state.indexes(
                final(self).particles_state@.predicted,
                params.grid_size,
            ),
            final(self).ready_for(Stage::PredictPositions, *params),
            forall|i: int|
                0 <= i < final(self).particles_state.particles.len() ==> params.bounding_box.holds(
                    (#[trigger] final(self).particles_state.particles[i]).position,
                ),
            forall|i: int|
                0 <= i < final(self).particles_state.particles.len()
                    ==> final(self).particles_state.density_field[i] >= 0
                    && final(self).particles_state.near_density_field[i] >= 0,
    {
        self.run_stage(Stage::PredictPositions, params);
        self.run_stage(Stage::HashAndBin, params);
        self.run_stage(Stage::SortAndResolve, params);
        self.run_stage(Stage::Density, params);
        self.run_stage(Stage::SurfaceNormals, params);
        self.run_stage(Stage::Forces, params);
        self.run_stage(Stage::Integrate, params);
    }
}

/// Only the last stage of a frame touches the particles: a frame that is
/// given up before it leaves every position and velocity as it was.
pub proof fn lemma_only_integration_commits(
    after: Simulation,
    before: Simulation,
    stage: Stage,
    params: SimulationParameters,
)
    requires
        after.follows(before, stage, params),
        stage != Stage::Integrate,
    ensures
        after.particles_state@.particles == before.particles_state@.particles,
{
}

} // verus!
