use vstd::prelude::*;

use crate::selection::{first_selected, first_true};

verus! {

/// The basis that the manipulation gizmo is aligned to.
#[derive(Debug, Clone, Copy, PartialEq, Eq, Structural)]
pub enum GizmoSpace {
    /// World axes.
    Global,
    /// The selected object's own orientation.
    Local,
    /// Facing the viewer, from the picking camera's axes.
    Screen,
}

/// Which of the two exclusive handle sets the gizmo shows.
#[derive(Debug, Clone, Copy, PartialEq, Eq, Structural)]
pub enum TransformOrScale {
    Transform,
    Scale,
    Neither,
}

/// The gizmo's handle-visibility flags.
#[derive(Debug, Clone, Copy, PartialEq, Eq, Structural)]
pub struct GizmoParts {
    pub translate_arrows: bool,
    pub scale: bool,
    pub rotate: bool,
    pub translate_planes: bool,
}

/// The session-wide mode state that the settings panel edits and the gizmo
/// alignment reads.
#[derive(Debug, Clone, Copy, PartialEq, Eq, Structural)]
pub struct CameraData {
    pub transform_orientation: GizmoSpace,
    pub ui_show_transform_or_scale: TransformOrScale,
}

/// The flags after deriving the two exclusive ones from a handle mode; the
/// rotate and plane toggles are the user's own and pass through.
pub open spec fn with_handle_mode(parts: GizmoParts, mode: TransformOrScale) -> GizmoParts {
    GizmoParts {
        translate_arrows: mode == TransformOrScale::Transform,
        scale: mode == TransformOrScale::Scale,
        ..parts
    }
}

impl GizmoParts {
    /// Sets the arrow and scale flags from the handle mode: Transform shows the
    /// arrows only, Scale the scale handles only, Neither shows neither.
    pub fn apply_handle_mode(&mut self, mode: TransformOrScale)
        ensures
            *final(self) == with_handle_mode(*old(self), mode),
    {
        match mode {
            TransformOrScale::Transform => {
                self.translate_arrows = true;
                self.scale = false;
            },
            TransformOrScale::Scale => {
                self.translate_arrows = false;
                self.scale = true;
            },
            TransformOrScale::Neither => {
                self.translate_arrows = false;
                self.scale = false;
            },
        }
    }
}

impl CameraData {
    /// The state a session starts in: world alignment, translate arrows shown.
    pub fn new() -> (r: CameraData)
        ensures
            r.transform_orientation == GizmoSpace::Global,
            r.ui_show_transform_or_scale == TransformOrScale::Transform,
    {
        CameraData {
            transform_orientation: GizmoSpace::Global,
            ui_show_transform_or_scale: TransformOrScale::Transform,
        }
    }

    /// One pass of the settings panel: the selector values the user left are
    /// written back, and the handle flags are derived anew from the handle mode.
    /// `rotate` and `translate_planes` are the panel's two independent toggles.
    pub fn commit_panel(
        &mut self,
        parts: &mut GizmoParts,
        orientation: GizmoSpace,
        showing: TransformOrScale,
        rotate: bool,
        translate_planes: bool,
    )
        ensures
            final(self).transform_orientation == orientation,
            final(self).ui_show_transform_or_scale == showing,
            *final(parts) == with_handle_mode(
                GizmoParts { rotate, translate_planes, ..*old(parts) },
                showing,
            ),
    {
        parts.apply_handle_mode(showing);
        parts.rotate = rotate;
        parts.translate_planes = translate_planes;
        self.ui_show_transform_or_scale = showing;
        self.transform_orientation = orientation;
    }
}

/// Changing the handle mode, any number of times, never touches the rotate and
/// plane toggles, and the last mode alone fixes the arrow and scale flags.
pub proof fn lemma_handle_modes_keep_toggles(parts: GizmoParts, first: TransformOrScale, second: TransformOrScale)
    ensures
        with_handle_mode(with_handle_mode(parts, first), second).rotate == parts.rotate,
        with_handle_mode(with_handle_mode(parts, first), second).translate_planes == parts.translate_planes,
        with_handle_mode(with_handle_mode(parts, first), second) == with_handle_mode(parts, second),
        with_handle_mode(parts, TransformOrScale::Scale).translate_arrows == false,
        with_handle_mode(parts, TransformOrScale::Scale).scale == true,
{
}

/// What the gizmo's alignment rotation becomes this frame.
#[derive(Debug, Clone, Copy, PartialEq, Eq, Structural)]
pub enum AlignmentUpdate {
    /// Left as it was.
    Keep,
    /// The identity rotation.
    Identity,
    /// The world orientation of the selected object at this index.
    ObjectOrientation(usize),
    /// The rotation built from the picking camera's axes.
    CameraFacing,
}

/// The alignment update for a mode, a selection and whether a picking camera exists.
pub open spec fn alignment_of(mode: GizmoSpace, selected: Seq<bool>, camera_present: bool) -> AlignmentUpdate {
    match first_true(selected) {
        None => AlignmentUpdate::Keep,
        Some(k) => match mode {
            GizmoSpace::Global => AlignmentUpdate::Identity,
            GizmoSpace::Local => AlignmentUpdate::ObjectOrientation(k as usize),
            GizmoSpace::Screen => if camera_present {
                AlignmentUpdate::CameraFacing
            } else {
                AlignmentUpdate::Keep
            },
        },
    }
}

/// Decides the gizmo alignment from the orientation mode and the first selected
/// object. With nothing selected, or in screen mode without a picking camera,
/// the prior alignment stays.
pub fn alignment_update(mode: GizmoSpace, selected: &Vec<bool>, camera_present: bool) -> (r: AlignmentUpdate)
    ensures
        r == alignment_of(mode, selected@, camera_present),
{
    proof {
        crate::selection::lemma_first_true(selected@);
    }
    match first_selected(selected) {
        None => AlignmentUpdate::Keep,
        Some(k) => match mode {
            GizmoSpace::Global => AlignmentUpdate::Identity,
            GizmoSpace::Local => AlignmentUpdate::ObjectOrientation(k),
            GizmoSpace::Screen => if camera_present {
                AlignmentUpdate::CameraFacing
            } else {
                AlignmentUpdate::Keep
            },
        },
    }
}

/// In world mode the alignment is the identity whatever is selected, or stays
/// when nothing is; in screen mode without a picking camera it always stays.
pub proof fn lemma_alignment_modes(selected: Seq<bool>, camera_present: bool)
    ensures
        alignment_of(GizmoSpace::Global, selected, camera_present) == AlignmentUpdate::Identity
            || alignment_of(GizmoSpace::Global, selected, camera_present) == AlignmentUpdate::Keep,
        (exists|i: int| 0 <= i < selected.len() && selected[i])
            ==> alignment_of(GizmoSpace::Global, selected, camera_present) == AlignmentUpdate::Identity,
        alignment_of(GizmoSpace::Screen, selected, false) == AlignmentUpdate::Keep,
{
}

} // verus!
