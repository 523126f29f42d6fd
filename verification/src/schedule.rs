//! What the host of a run decides around the frames: the order of the
//! stages, the format of the surface, and how to go on after a frame could
//! not be shown.
use vstd::prelude::*;

verus! {

/// A stage of a frame. Each stage works on all particles at once and reads
/// what the stages before it wrote.
#[derive(Clone, Copy, Debug, PartialEq, Eq, Structural)]
pub enum Stage {
    /// Writes the predicted positions from positions and velocities.
    PredictPositions,
    /// Writes one pair of cell key and particle from each predicted position.
    HashAndBin,
    /// Sorts the pairs by key and writes the cell-start table.
    SortAndResolve,
    /// Writes density and near-density from the predicted positions.
    Density,
    /// Writes surface normals and vorticities from densities and velocities.
    SurfaceNormals,
    /// Writes the accelerations from all fields.
    Forces,
    /// Writes the particles' velocities and positions from the accelerations.
    Integrate,
}

/// What the host does after trying to show a frame.
#[derive(Clone, Copy, Debug, PartialEq, Eq, Structural)]
pub enum FrameAction {
    /// Go on with the next frame.
    Continue,
    /// Configure the surface again with its current size, then go on.
    Reconfigure,
    /// End the run.
    Exit,
    /// Report the fault, then go on.
    Report,
}

/// How showing a frame ended.
#[derive(Clone, Copy, Debug, PartialEq, Eq, Structural)]
pub enum RenderOutcome {
    Shown,
    /// The surface was lost.
    Lost,
    /// The device ran out of memory.
    OutOfMemory,
    /// Any other fault.
    OtherFault,
}

impl Stage {
    /// The place of the stage in a frame, from 0.
    pub open spec fn place(self) -> int {
        match self {
            Stage::PredictPositions => 0,
            Stage::HashAndBin => 1,
            Stage::SortAndResolve => 2,
            Stage::Density => 3,
            Stage::SurfaceNormals => 4,
            Stage::Forces => 5,
            Stage::Integrate => 6,
        }
    }

    /// The stage that runs after this one; after the last, the first of the
    /// next frame.
    pub open spec fn successor(self) -> Stage {
        match self {
            Stage::PredictPositions => Stage::HashAndBin,
            Stage::HashAndBin => Stage::SortAndResolve,
            Stage::SortAndResolve => Stage::Density,
            Stage::Density => Stage::SurfaceNormals,
            Stage::SurfaceNormals => Stage::Forces,
            Stage::Forces => Stage::Integrate,
            Stage::Integrate => Stage::PredictPositions,
        }
    }

    /// The stage that a frame starts with.
    pub fn first() -> (s: Stage)
        ensures
            s == Stage::PredictPositions,
            s.place() == 0,
    {
        Stage::PredictPositions
    }

    /// The stage that follows this one, or `None` after the last.
    pub fn next(self) -> (s: Option<Stage>)
        ensures
            self.place() == 6 <==> s is None,
            s is Some ==> s.unwrap() == self.successor() && s.unwrap().place() == self.place() + 1,
    {
        match self {
            Stage::PredictPositions => Some(Stage::HashAndBin),
            Stage::HashAndBin => Some(Stage::SortAndResolve),
            Stage::SortAndResolve => Some(Stage::Density),
            Stage::Density => Some(Stage::SurfaceNormals),
            Stage::SurfaceNormals => Some(Stage::Forces),
            Stage::Forces => Some(Stage::Integrate),
            Stage::Integrate => None,
        }
    }
}

/// Picks the format of the surface from those the surface offers, given for
/// each whether it is an sRGB format: the first that is, or the first of all
/// where none is.
pub fn choose_surface_format(srgb: &Vec<bool>) -> (index: usize)
    requires
        srgb.len() > 0,
    ensures
        index < srgb.len(),
        forall|i: int| 0 <= i < index ==> !srgb[i],
        srgb[index as int] || (index == 0 && forall|i: int| 0 <= i < srgb.len() ==> !srgb[i]),
{
    let mut i: usize = 0;
    while i < srgb.len()
        invariant
            i <= srgb.len(),
            forall|k: int| 0 <= k < i ==> !srgb[k],
        decreases srgb.len() - i,
    {
        if srgb[i] {
            return i;
        }
        i = i + 1;
    }
    0
}

/// Whether a new size of the window is taken over: both sides must be
/// positive.
pub fn accepts_resize(width: u32, height: u32) -> (b: bool)
    ensures
        b == (width > 0 && height > 0),
{
    width > 0 && height > 0
}

/// What to do after trying to show a frame: a lost surface is configured
/// again, a device out of memory ends the run, any other fault is reported.
pub fn after_render(outcome: RenderOutcome) -> (action: FrameAction)
    ensures
        action == match outcome {
            RenderOutcome::Shown => FrameAction::Continue,
            RenderOutcome::Lost => FrameAction::Reconfigure,
            RenderOutcome::OutOfMemory => FrameAction::Exit,
            RenderOutcome::OtherFault => FrameAction::Report,
        },
{
    match outcome {
        RenderOutcome::Shown => FrameAction::Continue,
        RenderOutcome::Lost => FrameAction::Reconfigure,
        RenderOutcome::OutOfMemory => FrameAction::Exit,
        RenderOutcome::OtherFault => FrameAction::Report,
    }
}

} // verus!
