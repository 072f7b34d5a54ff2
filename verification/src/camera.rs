//! Cameras and windows as plain records, and the passes that run over all
//! cameras: spawning, following the target, moving, zooming, resetting.

use vstd::prelude::*;
use crate::fixed::{saturate, UNIT};
use crate::motion::{next_position, next_velocity, CameraBehavior};
use crate::zoom::{spec_window_scale, window_scale};

verus! {

/// The window that a new camera renders to.
pub const PRIMARY_WINDOW: u64 = 0;

/// How high above the ground a new camera stands: 2.
pub const SPAWN_HEIGHT: i64 = 2_000_000;

/// How far in front of the scene a new camera stands: 10.
pub const SPAWN_DEPTH: i64 = 10_000_000;

/// A window of the host, as far as a camera needs to know it.
#[derive(Clone, Copy, Debug, PartialEq, Eq, Structural)]
pub struct Window {
    /// What cameras name the window by.
    pub id: u64,
    /// How wide it is.
    pub width: u64,
}

/// A camera: where it stands, how it projects, and what it remembers of its
/// motion.
#[derive(Clone, Copy, Debug, PartialEq, Eq, Structural)]
pub struct Camera {
    /// Target and velocity of the horizontal motion.
    pub behavior: CameraBehavior,
    /// Horizontal position, the one that follows the target.
    pub x: i64,
    /// Vertical position.
    pub y: i64,
    /// Distance from the scene.
    pub z: i64,
    /// Scale of the projection.
    pub scale: i64,
    /// The window it renders to.
    pub window: u64,
}

/// The width of the first window from index `from` on that goes by `id`, if
/// there is one.
pub open spec fn spec_width_from(windows: Seq<Window>, id: u64, from: int) -> Option<u64>
    decreases windows.len() - from,
{
    if from < 0 || from >= windows.len() {
        None
    } else if windows[from].id == id {
        Some(windows[from].width)
    } else {
        spec_width_from(windows, id, from + 1)
    }
}

/// The width of the window that goes by `id`: of the first such, if there is one.
pub open spec fn spec_window_width(windows: Seq<Window>, id: u64) -> Option<u64> {
    spec_width_from(windows, id, 0)
}

/// The position to follow among `targets`: the last of them, if there is any.
pub open spec fn spec_follow_target(targets: Seq<i64>) -> Option<i64> {
    if targets.len() == 0 {
        None
    } else {
        Some(targets.last())
    }
}

/// A lookup finds nothing exactly when no window from `from` on goes by `id`,
/// and what it finds is the width of such a window that none before it goes
/// by `id`.
pub proof fn lemma_width_from(windows: Seq<Window>, id: u64, from: int)
    requires
        0 <= from,
    ensures
        spec_width_from(windows, id, from) is None <==> forall|i: int|
            from <= i < windows.len() ==> (#[trigger] windows[i]).id != id,
        spec_width_from(windows, id, from) is Some ==> exists|i: int|
            from <= i < windows.len() && (#[trigger] windows[i]).id == id && Some(windows[i].width)
                == spec_width_from(windows, id, from) && forall|j: int|
                from <= j < i ==> (#[trigger] windows[j]).id != id,
    decreases windows.len() - from,
{
    if from < windows.len() {
        if windows[from].id == id {
            assert(from <= from < windows.len() && windows[from].id == id);
        } else {
            lemma_width_from(windows, id, from + 1);
            if spec_width_from(windows, id, from) is Some {
                let i = choose|i: int|
                    from + 1 <= i < windows.len() && (#[trigger] windows[i]).id == id && Some(
                        windows[i].width,
                    ) == spec_width_from(windows, id, from + 1) && forall|j: int|
                        from + 1 <= j < i ==> (#[trigger] windows[j]).id != id;
                assert(forall|j: int| from <= j < i ==> (#[trigger] windows[j]).id != id);
                assert(from <= i < windows.len() && windows[i].id == id);
            }
        }
    }
}

impl Camera {
    /// The camera as it is spawned: at rest over the origin, steering toward it,
    /// unscaled, on the primary window.
    pub open spec fn spec_new() -> Camera {
        Camera {
            behavior: CameraBehavior { target: 0, velocity: 0 },
            x: 0,
            y: SPAWN_HEIGHT,
            z: SPAWN_DEPTH,
            scale: UNIT,
            window: PRIMARY_WINDOW,
        }
    }

    /// The camera after it was told what to follow: it steers toward `target`
    /// where there is one, and is unchanged where there is none.
    pub open spec fn spec_aimed(self, target: Option<i64>) -> Camera {
        match target {
            Some(x) => Camera {
                behavior: CameraBehavior { target: x, velocity: self.behavior.velocity },
                ..self
            },
            None => self,
        }
    }

    /// The camera after one tick of `dt`: velocity and horizontal position are
    /// the controller's, the position kept within `i64`; the rest is unchanged.
    pub open spec fn spec_moved(self, dt: u64) -> Camera {
        Camera {
            behavior: CameraBehavior {
                target: self.behavior.target,
                velocity: next_velocity(
                    self.behavior.target as int,
                    self.x as int,
                    self.behavior.velocity as int,
                    dt as int,
                ) as i64,
            },
            x: saturate(
                next_position(
                    self.behavior.target as int,
                    self.x as int,
                    self.behavior.velocity as int,
                    dt as int,
                ),
            ) as i64,
            ..self
        }
    }

    /// The camera after its scale was fitted to a window `width` wide: unchanged
    /// where there is no window or the window has no width.
    pub open spec fn spec_fitted(self, width: Option<u64>) -> Camera {
        match width {
            Some(w) => if w == 0 {
                self
            } else {
                Camera { scale: spec_window_scale(w as int) as i64, ..self }
            },
            None => self,
        }
    }

    /// The camera after its scale was fitted to its window among `windows`.
    pub open spec fn spec_zoomed(self, windows: Seq<Window>) -> Camera {
        self.spec_fitted(spec_window_width(windows, self.window))
    }

    /// The camera after a level was loaded: at rest over the origin and
    /// steering toward it; height, depth, scale and window are unchanged.
    pub open spec fn spec_reset(self) -> Camera {
        Camera { behavior: CameraBehavior { target: 0, velocity: 0 }, x: 0, ..self }
    }

    /// A camera as it is spawned.
    pub fn new() -> (camera: Camera)
        ensures
            camera == Camera::spec_new(),
    {
        Camera {
            behavior: CameraBehavior::new(),
            x: 0,
            y: SPAWN_HEIGHT,
            z: SPAWN_DEPTH,
            scale: UNIT,
            window: PRIMARY_WINDOW,
        }
    }

    /// Steers the camera toward `target`, if there is one.
    pub fn aim(&mut self, target: Option<i64>)
        ensures
            *final(self) == old(self).spec_aimed(target),
    {
        if let Some(x) = target {
            self.behavior.target = x;
        }
    }

    /// Moves the camera by one tick of `dt`.
    pub fn advance(&mut self, dt: u64)
        ensures
            *final(self) == old(self).spec_moved(dt),
    {
        let x: i64 = self.x;
        let moved: i64 = self.behavior.advance(x, dt);
        self.x = moved;
    }

    /// Fits the camera's scale to its window among `windows`.
    pub fn zoom(&mut self, windows: &Vec<Window>)
        ensures
            *final(self) == old(self).spec_zoomed(windows@),
    {
        if let Some(width) = window_width(windows, self.window) {
            if let Some(scale) = window_scale(width) {
                self.scale = scale;
            }
        }
    }

    /// Puts the camera back over the origin, at rest.
    pub fn reset(&mut self)
        ensures
            *final(self) == old(self).spec_reset(),
    {
        self.behavior = CameraBehavior::new();
        self.x = 0;
    }
}

/// The width of the window that goes by `id`.
pub fn window_width(windows: &Vec<Window>, id: u64) -> (width: Option<u64>)
    ensures
        width == spec_window_width(windows@, id),
        width is None <==> forall|i: int|
            0 <= i < windows@.len() ==> (#[trigger] windows@[i]).id != id,
{
    proof {
        lemma_width_from(windows@, id, 0);
    }
    let mut i: usize = 0;
    while i < windows.len()
        invariant
            i <= windows.len(),
            spec_width_from(windows@, id, i as int) == spec_window_width(windows@, id),
        decreases windows.len() - i,
    {
        if windows[i].id == id {
            return Some(windows[i].width);
        }
        i += 1;
    }
    None
}

/// The position that the cameras are to follow.
pub fn follow_target(targets: &Vec<i64>) -> (target: Option<i64>)
    ensures
        target == spec_follow_target(targets@),
{
    if targets.len() == 0 {
        None
    } else {
        Some(targets[targets.len() - 1])
    }
}

/// Spawns a camera beside those that exist.
pub fn setup_camera(cameras: &mut Vec<Camera>)
    ensures
        final(cameras)@ == old(cameras)@.push(Camera::spec_new()),
{
    cameras.push(Camera::new());
}

/// Steers every camera toward the last of `targets`; with no target every
/// camera keeps the one it had.
pub fn set_camera_target(cameras: &mut Vec<Camera>, targets: &Vec<i64>)
    ensures
        final(cameras)@.len() == old(cameras)@.len(),
        forall|i: int|
            0 <= i < old(cameras)@.len() ==> #[trigger] final(cameras)@[i] == old(
                cameras,
            )@[i].spec_aimed(spec_follow_target(targets@)),
{
    let target: Option<i64> = follow_target(targets);
    let ghost before = cameras@;
    let mut i: usize = 0;
    while i < cameras.len()
        invariant
            i <= cameras@.len(),
            cameras@.len() == before.len(),
            forall|j: int| 0 <= j < i ==> #[trigger] cameras@[j] == before[j].spec_aimed(target),
            forall|j: int| i <= j < before.len() ==> #[trigger] cameras@[j] == before[j],
        decreases cameras@.len() - i,
    {
        let mut camera: Camera = cameras[i];
        camera.aim(target);
        cameras.set(i, camera);
        i += 1;
    }
}

/// Moves every camera by one tick of `dt`.
pub fn handle_camera_movement(cameras: &mut Vec<Camera>, dt: u64)
    ensures
        final(cameras)@.len() == old(cameras)@.len(),
        forall|i: int|
            0 <= i < old(cameras)@.len() ==> #[trigger] final(cameras)@[i] == old(
                cameras,
            )@[i].spec_moved(dt),
{
    let ghost before = cameras@;
    let mut i: usize = 0;
    while i < cameras.len()
        invariant
            i <= cameras@.len(),
            cameras@.len() == before.len(),
            forall|j: int| 0 <= j < i ==> #[trigger] cameras@[j] == before[j].spec_moved(dt),
            forall|j: int| i <= j < before.len() ==> #[trigger] cameras@[j] == before[j],
        decreases cameras@.len() - i,
    {
        let mut camera: Camera = cameras[i];
        camera.advance(dt);
        cameras.set(i, camera);
        i += 1;
    }
}

/// Fits the scale of every camera to its window among `windows`; a camera
/// whose window is not among them, or has no width, keeps its scale.
pub fn update_camera_scale_to_window(cameras: &mut Vec<Camera>, windows: &Vec<Window>)
    ensures
        final(cameras)@.len() == old(cameras)@.len(),
        forall|i: int|
            0 <= i < old(cameras)@.len() ==> #[trigger] final(cameras)@[i] == old(
                cameras,
            )@[i].spec_zoomed(windows@),
{
    let ghost before = cameras@;
    let mut i: usize = 0;
    while i < cameras.len()
        invariant
            i <= cameras@.len(),
            cameras@.len() == before.len(),
            forall|j: int|
                0 <= j < i ==> #[trigger] cameras@[j] == before[j].spec_zoomed(windows@),
            forall|j: int| i <= j < before.len() ==> #[trigger] cameras@[j] == before[j],
        decreases cameras@.len() - i,
    {
        let mut camera: Camera = cameras[i];
        camera.zoom(windows);
        cameras.set(i, camera);
        i += 1;
    }
}

/// Puts every camera back over the origin, at rest and steering toward it.
pub fn reset_camera(cameras: &mut Vec<Camera>)
    ensures
        final(cameras)@.len() == old(cameras)@.len(),
        forall|i: int|
            0 <= i < old(cameras)@.len() ==> #[trigger] final(cameras)@[i] == old(
                cameras,
            )@[i].spec_reset(),
{
    let ghost before = cameras@;
    let mut i: usize = 0;
    while i < cameras.len()
        invariant
            i <= cameras@.len(),
            cameras@.len() == before.len(),
            forall|j: int| 0 <= j < i ==> #[trigger] cameras@[j] == before[j].spec_reset(),
            forall|j: int| i <= j < before.len() ==> #[trigger] cameras@[j] == before[j],
        decreases cameras@.len() - i,
    {
        let mut camera: Camera = cameras[i];
        camera.reset();
        cameras.set(i, camera);
        i += 1;
    }
}

/// Nothing is lost where a moved camera's velocity and position are narrowed
/// to `i64`: both lie within its range.
pub proof fn lemma_moved_exact(camera: Camera, dt: u64)
    ensures
        camera.spec_moved(dt).behavior.velocity == next_velocity(
            camera.behavior.target as int,
            camera.x as int,
            camera.behavior.velocity as int,
            dt as int,
        ),
        camera.spec_moved(dt).x == saturate(
            next_position(
                camera.behavior.target as int,
                camera.x as int,
                camera.behavior.velocity as int,
                dt as int,
            ),
        ),
{
}

/// A second reset changes nothing: a camera that was reset is over the origin,
/// at rest and steering toward it, and reset again it is the same camera.
pub proof fn lemma_reset_idempotent(camera: Camera)
    ensures
        camera.spec_reset().x == 0,
        camera.spec_reset().behavior == (CameraBehavior { target: 0, velocity: 0 }),
        camera.spec_reset().spec_reset() == camera.spec_reset(),
{
}

} // verus!
