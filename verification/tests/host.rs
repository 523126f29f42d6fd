use fluid_simulation::schedule::{
    accepts_resize, after_render, choose_surface_format, FrameAction, RenderOutcome, Stage,
};

#[test]
fn the_stages_follow_each_other_in_order() {
    let mut order = vec![Stage::first()];
    while let Some(next) = order[order.len() - 1].next() {
        order.push(next);
    }
    assert_eq!(
        order,
        vec![
            Stage::PredictPositions,
            Stage::HashAndBin,
            Stage::SortAndResolve,
            Stage::Density,
            Stage::SurfaceNormals,
            Stage::Forces,
            Stage::Integrate,
        ]
    );
    assert_eq!(Stage::Integrate.next(), None);
}

#[test]
fn the_first_srgb_format_is_chosen() {
    assert_eq!(choose_surface_format(&vec![false, false, true, true]), 2);
    assert_eq!(choose_surface_format(&vec![true]), 0);
    assert_eq!(choose_surface_format(&vec![true, true]), 0);
}

#[test]
fn without_an_srgb_format_the_first_format_is_chosen() {
    assert_eq!(choose_surface_format(&vec![false, false, false]), 0);
    assert_eq!(choose_surface_format(&vec![false]), 0);
}

#[test]
fn a_resize_needs_two_positive_sides() {
    assert!(accepts_resize(1, 1));
    assert!(accepts_resize(1600, 900));
    assert!(!accepts_resize(0, 900));
    assert!(!accepts_resize(1600, 0));
    assert!(!accepts_resize(0, 0));
}

#[test]
fn what_follows_a_frame() {
    assert_eq!(after_render(RenderOutcome::Shown), FrameAction::Continue);
    assert_eq!(after_render(RenderOutcome::Lost), FrameAction::Reconfigure);
    assert_eq!(after_render(RenderOutcome::OutOfMemory), FrameAction::Exit);
    assert_eq!(after_render(RenderOutcome::OtherFault), FrameAction::Report);
}
