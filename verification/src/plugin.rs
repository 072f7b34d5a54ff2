//! What the camera does at each point of the host's life: at startup, when a
//! level is loaded, and on every frame.

use vstd::prelude::*;
use crate::camera::{
    handle_camera_movement,
    reset_camera,
    set_camera_target,
    setup_camera,
    spec_follow_target,
    update_camera_scale_to_window,
    Camera,
    Window,
};

verus! {

/// The camera's part in the game: the host calls each method at the point of
/// its life that the method is named after.
#[derive(Clone, Copy, Debug)]
pub struct CameraPlugin;

impl CameraPlugin {
    /// A camera after one frame: fitted to its window, steered toward the
    /// target that was found, then moved, so that it moves toward the target of
    /// this frame and not of the one before.
    pub open spec fn spec_frame(
        camera: Camera,
        windows: Seq<Window>,
        targets: Seq<i64>,
        dt: u64,
    ) -> Camera {
        camera.spec_zoomed(windows).spec_aimed(spec_follow_target(targets)).spec_moved(dt)
    }

    /// At startup: spawns the camera.
    pub fn startup(&self, cameras: &mut Vec<Camera>)
        ensures
            final(cameras)@ == old(cameras)@.push(Camera::spec_new()),
    {
        setup_camera(cameras);
    }

    /// When a level is loaded: every camera goes back over the origin.
    pub fn enter_load_level(&self, cameras: &mut Vec<Camera>)
        ensures
            final(cameras)@.len() == old(cameras)@.len(),
            forall|i: int|
                0 <= i < old(cameras)@.len() ==> #[trigger] final(cameras)@[i] == old(
                    cameras,
                )@[i].spec_reset(),
    {
        reset_camera(cameras);
    }

    /// On every frame, `dt` after the one before: every camera is fitted to its
    /// window among `windows`, steered toward the last of `targets`, and moved.
    pub fn update(
        &self,
        cameras: &mut Vec<Camera>,
        windows: &Vec<Window>,
        targets: &Vec<i64>,
        dt: u64,
    )
        ensures
            final(cameras)@.len() == old(cameras)@.len(),
            forall|i: int|
                0 <= i < old(cameras)@.len() ==> #[trigger] final(cameras)@[i]
                    == CameraPlugin::spec_frame(old(cameras)@[i], windows@, targets@, dt),
    {
        let ghost before = cameras@;
        update_camera_scale_to_window(cameras, windows);
        let ghost zoomed = cameras@;
        set_camera_target(cameras, targets);
        let ghost aimed = cameras@;
        handle_camera_movement(cameras, dt);
        assert forall|i: int| 0 <= i < before.len() implies #[trigger] cameras@[i]
            == CameraPlugin::spec_frame(before[i], windows@, targets@, dt) by {
            assert(zoomed[i] == before[i].spec_zoomed(windows@));
            assert(aimed[i] == zoomed[i].spec_aimed(spec_follow_target(targets@)));
        }
    }
}

/// Zooming stands apart from steering and moving: whether a camera is fitted
/// to its window before them, between them or after them, the frame ends the
/// same.
pub proof fn lemma_zoom_independent(
    camera: Camera,
    windows: Seq<Window>,
    target: Option<i64>,
    dt: u64,
)
    ensures
        camera.spec_zoomed(windows).spec_aimed(target).spec_moved(dt) == camera.spec_aimed(
            target,
        ).spec_zoomed(windows).spec_moved(dt),
        camera.spec_zoomed(windows).spec_aimed(target).spec_moved(dt) == camera.spec_aimed(
            target,
        ).spec_moved(dt).spec_zoomed(windows),
{
}

} // verus!
