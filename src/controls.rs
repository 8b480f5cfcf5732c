use vstd::prelude::*;

verus! {

/// The stages of a frame, in the order the host runs them: orbit/pan/zoom, then
/// recentering, then the settings panel, then gizmo alignment.
#[derive(Debug, Clone, Copy, PartialEq, Eq, Hash, Structural)]
pub enum CameraSystem {
    PanOrbit,
    Adjust,
    UpdateSpace,
    UISytem,
}

/// Whether picking and interaction are switched on.
#[derive(Debug, Clone, Copy, PartialEq, Eq, Structural)]
pub struct PickingSwitches {
    pub enable_picking: bool,
    pub enable_interacting: bool,
}

/// The camera and picking react to the pointer only while no UI panel claims
/// it: not wanted by the UI, not over a panel, not in use by one.
pub open spec fn pointer_free(wants_pointer: bool, pointer_over_area: bool, using_pointer: bool) -> bool {
    !wants_pointer && !pointer_over_area && !using_pointer
}

/// Turns picking and interaction off while the UI holds the pointer and on
/// otherwise, and says whether camera input is enabled this frame.
pub fn plugin_enabled(
    wants_pointer: bool,
    pointer_over_area: bool,
    using_pointer: bool,
    state: &mut PickingSwitches,
) -> (r: bool)
    ensures
        r == pointer_free(wants_pointer, pointer_over_area, using_pointer),
        final(state).enable_picking == r,
        final(state).enable_interacting == r,
{
    if wants_pointer || pointer_over_area || using_pointer {
        state.enable_picking = false;
        state.enable_interacting = false;
        false
    } else {
        state.enable_picking = true;
        state.enable_interacting = true;
        true
    }
}

/// Where the mouse motion of one frame is summed.
#[derive(Debug, Clone, Copy, PartialEq, Eq, Structural)]
pub enum MotionRoute {
    /// Into the orbit delta.
    Orbit,
    /// Into the pan delta.
    Pan,
    /// Nowhere: neither gesture is held.
    Discard,
}

/// The button and key state of one frame, as the host's input source reports it.
#[derive(Debug, Clone, Copy, PartialEq, Eq, Structural)]
pub struct FrameInput {
    /// The orbit button is held.
    pub orbit_held: bool,
    /// The pan button is held (it may be the same physical button as orbit).
    pub pan_held: bool,
    /// At least one of the pan-modifier keys is held.
    pub modifier_held: bool,
    /// The orbit button was pressed or released in this very frame.
    pub orbit_changed: bool,
}

impl FrameInput {
    pub open spec fn routes_to_orbit(self) -> bool {
        self.orbit_held && !self.modifier_held
    }

    pub open spec fn routes_to_pan(self) -> bool {
        self.pan_held && self.modifier_held
    }

    pub open spec fn route(self) -> MotionRoute {
        if self.routes_to_orbit() {
            MotionRoute::Orbit
        } else if self.routes_to_pan() {
            MotionRoute::Pan
        } else {
            MotionRoute::Discard
        }
    }

    /// Gathers one frame's input; either modifier key counts, and the orbit
    /// button counts as changed when it was pressed or released this frame.
    pub fn new(
        orbit_held: bool,
        pan_held: bool,
        modifier_left: bool,
        modifier_right: bool,
        orbit_just_pressed: bool,
        orbit_just_released: bool,
    ) -> (r: FrameInput)
        ensures
            r.orbit_held == orbit_held,
            r.pan_held == pan_held,
            r.modifier_held == (modifier_left || modifier_right),
            r.orbit_changed == (orbit_just_pressed || orbit_just_released),
    {
        FrameInput {
            orbit_held,
            pan_held,
            modifier_held: modifier_right || modifier_left,
            orbit_changed: orbit_just_released || orbit_just_pressed,
        }
    }

    /// Orbit takes the motion when its button is held without a modifier; pan
    /// takes it otherwise when its button is held with a modifier.
    pub fn motion_route(&self) -> (r: MotionRoute)
        ensures
            r == self.route(),
            r == MotionRoute::Orbit <==> self.routes_to_orbit(),
            r == MotionRoute::Pan <==> !self.routes_to_orbit() && self.routes_to_pan(),
            r == MotionRoute::Discard <==> !self.routes_to_orbit() && !self.routes_to_pan(),
    {
        if self.orbit_held && !self.modifier_held {
            MotionRoute::Orbit
        } else if self.pan_held && self.modifier_held {
            MotionRoute::Pan
        } else {
            MotionRoute::Discard
        }
    }
}

/// What a camera rig does in one frame: at most one gesture applies.
#[derive(Debug, Clone, Copy, PartialEq, Eq, Structural)]
pub enum FrameAction {
    Orbit,
    Pan,
    Zoom,
    Idle,
}

/// Orbit fires when the motion went to orbit and did not cancel out.
pub open spec fn orbit_fires(route: MotionRoute, motion_nonzero: bool) -> bool {
    route == MotionRoute::Orbit && motion_nonzero
}

/// Pan fires when the motion went to pan and did not cancel out.
pub open spec fn pan_fires(route: MotionRoute, motion_nonzero: bool) -> bool {
    route == MotionRoute::Pan && motion_nonzero
}

/// The action of a frame by priority: orbit, then pan, then zoom.
pub open spec fn action_of(route: MotionRoute, motion_nonzero: bool, scroll_nonzero: bool) -> FrameAction {
    if orbit_fires(route, motion_nonzero) {
        FrameAction::Orbit
    } else if pan_fires(route, motion_nonzero) {
        FrameAction::Pan
    } else if scroll_nonzero {
        FrameAction::Zoom
    } else {
        FrameAction::Idle
    }
}

/// Chooses the single action of a frame, first match wins: orbit, pan, zoom.
/// `motion_nonzero` says whether the summed motion routed by `route` is non-zero,
/// `scroll_nonzero` whether the summed scroll is.
pub fn frame_action(route: MotionRoute, motion_nonzero: bool, scroll_nonzero: bool) -> (r: FrameAction)
    ensures
        r == action_of(route, motion_nonzero, scroll_nonzero),
        r == FrameAction::Orbit <==> orbit_fires(route, motion_nonzero),
        r == FrameAction::Pan <==> (!orbit_fires(route, motion_nonzero) && pan_fires(route, motion_nonzero)),
        r == FrameAction::Zoom <==> (!orbit_fires(route, motion_nonzero) && !pan_fires(route, motion_nonzero) && scroll_nonzero),
        r == FrameAction::Idle <==> (!orbit_fires(route, motion_nonzero) && !pan_fires(route, motion_nonzero) && !scroll_nonzero),
{
    if route == MotionRoute::Orbit && motion_nonzero {
        FrameAction::Orbit
    } else if route == MotionRoute::Pan && motion_nonzero {
        FrameAction::Pan
    } else if scroll_nonzero {
        FrameAction::Zoom
    } else {
        FrameAction::Idle
    }
}

/// Whether the camera position is rederived from focus, orientation and radius
/// after this action: after every action but idling.
pub fn repositions(action: FrameAction) -> (r: bool)
    ensures
        r == (action != FrameAction::Idle),
{
    !matches!(action, FrameAction::Idle)
}

/// Without net motion the frame never orbits, so the orientation is left as it was.
pub proof fn lemma_still_mouse_never_orbits(route: MotionRoute, scroll_nonzero: bool)
    ensures
        action_of(route, false, scroll_nonzero) != FrameAction::Orbit,
{
}

/// Orbit and pan never fire in the same frame, for any input, and exactly one
/// action is chosen: the first of orbit, pan, zoom whose condition holds, or none.
pub proof fn lemma_one_action_per_frame(input: FrameInput, motion_nonzero: bool, scroll_nonzero: bool)
    ensures
        !(input.routes_to_orbit() && input.routes_to_pan()),
        ({
            let a = action_of(input.route(), motion_nonzero, scroll_nonzero);
            &&& !(orbit_fires(input.route(), motion_nonzero) && pan_fires(input.route(), motion_nonzero))
            &&& (a == FrameAction::Orbit <==> input.routes_to_orbit() && motion_nonzero)
            &&& (a == FrameAction::Pan <==> input.routes_to_pan() && motion_nonzero)
            &&& (a == FrameAction::Zoom <==> scroll_nonzero && !(input.routes_to_orbit() && motion_nonzero)
                && !(input.routes_to_pan() && motion_nonzero))
            &&& (a == FrameAction::Idle <==> !scroll_nonzero && !(input.routes_to_orbit() && motion_nonzero)
                && !(input.routes_to_pan() && motion_nonzero))
        }),
{
}

/// The upside-down flag after a frame: recomputed from the camera's current
/// vertical up component only when the orbit button changed state, kept otherwise.
pub open spec fn next_upside_down(prev: bool, orbit_changed: bool, up_non_positive: bool) -> bool {
    if orbit_changed {
        up_non_positive
    } else {
        prev
    }
}

/// Refreshes a rig's upside-down flag. `up_non_positive` says whether world-up
/// turned by the camera's current orientation has a non-positive vertical part.
pub fn refresh_upside_down(prev: bool, input: &FrameInput, up_non_positive: bool) -> (r: bool)
    ensures
        r == next_upside_down(prev, input.orbit_changed, up_non_positive),
{
    if input.orbit_changed {
        up_non_positive
    } else {
        prev
    }
}

/// The flag after a run of frames, each given as (orbit button changed, up
/// component non-positive at that frame).
pub open spec fn upside_down_after(init: bool, frames: Seq<(bool, bool)>) -> bool
    decreases frames.len(),
{
    if frames.len() == 0 {
        init
    } else {
        let prev = upside_down_after(init, frames.drop_last());
        let f = frames.last();
        next_upside_down(prev, f.0, f.1)
    }
}

/// Frames in which the orbit button did not change leave the flag alone, however
/// the orientation moved meanwhile.
pub proof fn lemma_upside_down_steady(init: bool, frames: Seq<(bool, bool)>)
    requires
        forall|i: int| 0 <= i < frames.len() ==> !(#[trigger] frames[i]).0,
    ensures
        upside_down_after(init, frames) == init,
    decreases frames.len(),
{
    if frames.len() > 0 {
        let rest = frames.drop_last();
        assert forall|i: int| 0 <= i < rest.len() implies !(#[trigger] rest[i]).0 by {
            assert(rest[i] == frames[i]);
        }
        lemma_upside_down_steady(init, rest);
    }
}

/// Over a run of frames in which the orbit button changes state exactly once, at
/// frame `k`, the flag ends as the orientation made it at frame `k`: it is
/// recomputed once, whatever the orientation did before or after.
pub proof fn lemma_upside_down_set_once(init: bool, frames: Seq<(bool, bool)>, k: int)
    requires
        0 <= k < frames.len(),
        frames[k].0,
        forall|i: int| 0 <= i < frames.len() && i != k ==> !(#[trigger] frames[i]).0,
    ensures
        upside_down_after(init, frames) == frames[k].1,
    decreases frames.len(),
{
    let rest = frames.drop_last();
    if k == frames.len() - 1 {
        assert forall|i: int| 0 <= i < rest.len() implies !(#[trigger] rest[i]).0 by {
            assert(rest[i] == frames[i]);
        }
        lemma_upside_down_steady(init, rest);
    } else {
        assert forall|i: int| 0 <= i < rest.len() && i != k implies !(#[trigger] rest[i]).0 by {
            assert(rest[i] == frames[i]);
        }
        assert(rest[k] == frames[k]);
        lemma_upside_down_set_once(init, rest, k);
        assert(!frames[frames.len() - 1].0);
    }
}

} // verus!
