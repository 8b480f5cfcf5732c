use editor_camera::{
    alignment_update, first_selected, frame_action, plugin_enabled, recenter_targets,
    refresh_upside_down, repositions, AlignmentUpdate, CameraData, FrameAction, FrameInput,
    GizmoParts, GizmoSpace, MotionRoute, PickingSwitches, TransformOrScale, selected_indices,
};

fn input(orbit: bool, pan: bool, modifier: bool, changed: bool) -> FrameInput {
    FrameInput::new(orbit, pan, modifier, false, changed, false)
}

#[test]
fn either_modifier_key_counts() {
    assert!(FrameInput::new(true, true, false, true, false, false).modifier_held);
    assert!(FrameInput::new(true, true, true, false, false, false).modifier_held);
    assert!(!FrameInput::new(true, true, false, false, false, false).modifier_held);
}

#[test]
fn orbit_button_change_is_press_or_release() {
    assert!(FrameInput::new(false, false, false, false, true, false).orbit_changed);
    assert!(FrameInput::new(false, false, false, false, false, true).orbit_changed);
    assert!(!FrameInput::new(true, true, false, false, false, false).orbit_changed);
}

#[test]
fn motion_routes_by_buttons_and_modifier() {
    assert_eq!(input(true, true, false, false).motion_route(), MotionRoute::Orbit);
    assert_eq!(input(true, true, true, false).motion_route(), MotionRoute::Pan);
    assert_eq!(input(false, true, true, false).motion_route(), MotionRoute::Pan);
    assert_eq!(input(false, false, true, false).motion_route(), MotionRoute::Discard);
    assert_eq!(input(false, true, false, false).motion_route(), MotionRoute::Discard);
}

#[test]
fn still_mouse_never_orbits() {
    for scroll in [false, true] {
        let a = frame_action(MotionRoute::Orbit, false, scroll);
        assert_ne!(a, FrameAction::Orbit);
    }
    assert_eq!(frame_action(MotionRoute::Orbit, false, false), FrameAction::Idle);
    assert!(!repositions(frame_action(MotionRoute::Orbit, false, false)));
}

#[test]
fn one_action_per_frame_by_priority() {
    // orbit and pan buttons are the same physical button: the modifier decides
    let orbit = input(true, true, false, false).motion_route();
    let pan = input(true, true, true, false).motion_route();
    assert_eq!(frame_action(orbit, true, true), FrameAction::Orbit);
    assert_eq!(frame_action(pan, true, true), FrameAction::Pan);
    assert_eq!(frame_action(MotionRoute::Discard, true, true), FrameAction::Zoom);
    assert_eq!(frame_action(pan, false, true), FrameAction::Zoom);
    assert_eq!(frame_action(MotionRoute::Discard, true, false), FrameAction::Idle);
}

#[test]
fn every_action_but_idle_repositions() {
    assert!(repositions(FrameAction::Orbit));
    assert!(repositions(FrameAction::Pan));
    assert!(repositions(FrameAction::Zoom));
    assert!(!repositions(FrameAction::Idle));
}

#[test]
fn upside_down_recomputed_only_on_button_edges() {
    // held, then released, with the orientation turned over in between
    let frames = [
        (input(true, true, false, true), false),
        (input(true, true, false, false), true),
        (input(true, true, false, false), false),
        (input(false, false, false, true), true),
        (input(false, false, false, false), false),
    ];
    let mut flag = false;
    let mut flips = 0;
    let mut seen = Vec::new();
    for (i, (f, up_non_positive)) in frames.iter().enumerate() {
        let next = refresh_upside_down(flag, f, *up_non_positive);
        if next != flag {
            flips += 1;
        }
        flag = next;
        seen.push(flag);
        if i == 2 {
            assert!(!flag);
        }
    }
    assert_eq!(flips, 1);
    assert_eq!(seen, vec![false, false, false, true, true]);
}

#[test]
fn recenter_picks_the_selection() {
    // A at (0,0,0) and B at (2,0,0) are selected: both take part in the mean
    let sel = vec![true, true];
    assert_eq!(recenter_targets(&sel, true), Some(vec![0, 1]));
    let sel = vec![false, true, false, true];
    assert_eq!(recenter_targets(&sel, true), Some(vec![1, 3]));
}

#[test]
fn recenter_centroid_and_radius() {
    let positions = [[0.0f32, 0.0, 0.0], [2.0, 0.0, 0.0]];
    let camera = [1.0f32, 0.0, 5.0];
    let targets = recenter_targets(&vec![true, true], true).unwrap();
    let n = targets.len() as f32;
    let mut focus = [0.0f32; 3];
    for &i in &targets {
        for c in 0..3 {
            focus[c] += positions[i][c] / n;
        }
    }
    let radius = ((camera[0] - focus[0]).powi(2)
        + (camera[1] - focus[1]).powi(2)
        + (camera[2] - focus[2]).powi(2))
    .sqrt();
    assert_eq!(focus, [1.0, 0.0, 0.0]);
    assert_eq!(radius, 5.0);
}

#[test]
fn recenter_is_a_no_op_without_selection_or_trigger() {
    assert_eq!(recenter_targets(&vec![false, false], true), None);
    assert_eq!(recenter_targets(&vec![], true), None);
    assert_eq!(recenter_targets(&vec![true], false), None);
}

#[test]
fn first_and_all_selected() {
    assert_eq!(first_selected(&vec![false, false, true, true]), Some(2));
    assert_eq!(first_selected(&vec![false]), None);
    assert_eq!(selected_indices(&vec![true, false, true]), vec![0, 2]);
    assert_eq!(selected_indices(&vec![false, false]), Vec::<usize>::new());
}

#[test]
fn global_alignment_is_identity() {
    for sel in [vec![true], vec![false, true], vec![true, true, false]] {
        for cam in [false, true] {
            assert_eq!(alignment_update(GizmoSpace::Global, &sel, cam), AlignmentUpdate::Identity);
        }
    }
    assert_eq!(alignment_update(GizmoSpace::Global, &vec![false], true), AlignmentUpdate::Keep);
}

#[test]
fn screen_alignment_without_camera_keeps_prior() {
    let prior = [0.0f32, 0.38268343, 0.0, 0.9238795];
    let mut rotation = prior;
    if let AlignmentUpdate::CameraFacing | AlignmentUpdate::Identity =
        alignment_update(GizmoSpace::Screen, &vec![true, false], false)
    {
        rotation = [0.0, 0.0, 0.0, 1.0];
    }
    assert_eq!(rotation, prior);
    assert_eq!(alignment_update(GizmoSpace::Screen, &vec![true], false), AlignmentUpdate::Keep);
    assert_eq!(alignment_update(GizmoSpace::Screen, &vec![true], true), AlignmentUpdate::CameraFacing);
}

#[test]
fn local_alignment_follows_first_selected() {
    assert_eq!(
        alignment_update(GizmoSpace::Local, &vec![false, true, true], false),
        AlignmentUpdate::ObjectOrientation(1)
    );
    assert_eq!(alignment_update(GizmoSpace::Local, &vec![false, false], true), AlignmentUpdate::Keep);
}

#[test]
fn handle_mode_table() {
    let base = GizmoParts { translate_arrows: true, scale: true, rotate: true, translate_planes: false };
    let mut p = base;
    p.apply_handle_mode(TransformOrScale::Scale);
    assert_eq!(p, GizmoParts { translate_arrows: false, scale: true, rotate: true, translate_planes: false });
    p.apply_handle_mode(TransformOrScale::Transform);
    assert_eq!(p, GizmoParts { translate_arrows: true, scale: false, rotate: true, translate_planes: false });
    p.apply_handle_mode(TransformOrScale::Neither);
    assert_eq!(p, GizmoParts { translate_arrows: false, scale: false, rotate: true, translate_planes: false });
}

#[test]
fn panel_commit_writes_modes_and_keeps_toggles() {
    let mut data = CameraData::new();
    assert_eq!(data.transform_orientation, GizmoSpace::Global);
    assert_eq!(data.ui_show_transform_or_scale, TransformOrScale::Transform);
    let mut parts = GizmoParts { translate_arrows: true, scale: false, rotate: false, translate_planes: false };
    data.commit_panel(&mut parts, GizmoSpace::Screen, TransformOrScale::Scale, true, true);
    assert_eq!(data.transform_orientation, GizmoSpace::Screen);
    assert_eq!(data.ui_show_transform_or_scale, TransformOrScale::Scale);
    assert_eq!(parts, GizmoParts { translate_arrows: false, scale: true, rotate: true, translate_planes: true });
    // an unrelated handle-mode change keeps the user's toggles
    parts.apply_handle_mode(TransformOrScale::Neither);
    assert!(parts.rotate && parts.translate_planes);
}

#[test]
fn pointer_over_ui_disables_camera_and_picking() {
    let mut s = PickingSwitches { enable_picking: true, enable_interacting: true };
    assert!(!plugin_enabled(false, true, false, &mut s));
    assert_eq!(s, PickingSwitches { enable_picking: false, enable_interacting: false });
    assert!(!plugin_enabled(true, false, false, &mut s));
    assert!(!plugin_enabled(false, false, true, &mut s));
    assert!(plugin_enabled(false, false, false, &mut s));
    assert_eq!(s, PickingSwitches { enable_picking: true, enable_interacting: true });
}
