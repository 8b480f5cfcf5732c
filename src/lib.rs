//! Decision logic of an orbit/pan/zoom editor camera and of the alignment of a
//! transform gizmo. The numeric work (quaternions, vectors, the viewport) is done
//! by the host; this crate decides what that work is, frame by frame.

pub mod controls;
pub mod gizmo;
pub mod selection;

pub use controls::{
    frame_action, plugin_enabled, refresh_upside_down, repositions, CameraSystem, FrameAction,
    FrameInput, MotionRoute, PickingSwitches,
};
pub use gizmo::{
    alignment_update, AlignmentUpdate, CameraData, GizmoParts, GizmoSpace, TransformOrScale,
};
pub use selection::{first_selected, recenter_targets, selected_indices};
