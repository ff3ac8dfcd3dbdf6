//! A free camera steered straight from the keyboard and the mouse, without
//! a world: keys set how far to go along each axis, the mouse how far to
//! swing, and every frame the camera takes what has gathered.

use vstd::prelude::*;
use crate::events::Key;
use crate::fixed;
use crate::movement::Direction;
use crate::vector::Vec3;

pub use crate::movement::Facing;

verus! {

/// The camera that the controller steers: where it stands, its heading
/// and pitch in radians, and its vertical field of view.
#[derive(Clone, Copy, Debug, PartialEq, Eq, Structural)]
pub struct FreeCamera {
    pub position: Vec3,
    pub yaw: i64,
    pub pitch: i64,
    pub fovy: i64,
}

/// The sine and the cosine of a heading, as scalars.
#[derive(Clone, Copy, Debug, PartialEq, Eq, Structural)]
pub struct Heading {
    pub sin: i64,
    pub cos: i64,
}

/// What has gathered since the camera was last updated.
#[derive(Clone, Copy, Debug, PartialEq, Eq, Structural)]
pub struct CameraController {
    pub amount_left: i64,
    pub amount_right: i64,
    pub amount_forward: i64,
    pub amount_backward: i64,
    pub amount_up: i64,
    pub amount_down: i64,
    pub fov_up: i64,
    pub fov_down: i64,
    pub rotate_horizontal: i64,
    pub rotate_vertical: i64,
    pub scroll: i64,
    pub sensitivity: i64,
    pub debug: bool,
    pub mouse_pressed: bool,
    pub facing: Facing,
}

impl Heading {
    /// The unit vector along the heading, in the ground plane.
    pub open spec fn forward(self) -> Vec3 {
        Vec3 { x: self.cos, y: 0, z: self.sin }
    }

    /// The unit vector to the right of the heading, in the ground plane.
    pub open spec fn right(self) -> Vec3 {
        Vec3 { x: fixed::clamp(-self.sin) as i64, y: 0, z: self.cos }
    }
}

impl CameraController {
    /// The controller on which nothing has gathered.
    pub open spec fn idle(facing: Facing, sensitivity: i64) -> CameraController {
        CameraController {
            amount_left: 0,
            amount_right: 0,
            amount_forward: 0,
            amount_backward: 0,
            amount_up: 0,
            amount_down: 0,
            fov_up: 0,
            fov_down: 0,
            rotate_horizontal: 0,
            rotate_vertical: 0,
            scroll: 0,
            sensitivity,
            debug: false,
            mouse_pressed: false,
            facing,
        }
    }

    /// The controller after `key` went down, if `pressed`, or up.
    ///
    /// `A` and `E` turn the facing a quarter to the left and to the right
    /// when they go down. The keys of the six ways to go, and the two that
    /// widen and narrow the view, set their amount to one whole when down and
    /// to zero when up. `L` asks for a report. Other keys do nothing.
    pub open spec fn keyed(self, key: Key, pressed: bool) -> CameraController {
        let amount = if pressed {
            fixed::UNIT
        } else {
            0
        };
        match key {
            Key::A => if pressed {
                CameraController { facing: self.facing.turn_spec(Direction::Left), ..self }
            } else {
                self
            },
            Key::E => if pressed {
                CameraController { facing: self.facing.turn_spec(Direction::Right), ..self }
            } else {
                self
            },
            Key::Z | Key::Up => CameraController { amount_forward: amount, ..self },
            Key::S | Key::Down => CameraController { amount_backward: amount, ..self },
            Key::Q | Key::Left => CameraController { amount_left: amount, ..self },
            Key::D | Key::Right => CameraController { amount_right: amount, ..self },
            Key::Space => CameraController { amount_up: amount, ..self },
            Key::LShift => CameraController { amount_down: amount, ..self },
            Key::L => CameraController { debug: true, ..self },
            Key::PageUp => CameraController { fov_up: amount, ..self },
            Key::PageDown => CameraController { fov_down: amount, ..self },
            Key::Other => self,
        }
    }

    /// The controller after one update: what had gathered to go, to swing
    /// and to report is spent; the view keys, the scroll, the button of the
    /// mouse and the facing stay.
    pub open spec fn spent(self) -> CameraController {
        CameraController {
            amount_left: 0,
            amount_right: 0,
            amount_forward: 0,
            amount_backward: 0,
            amount_up: 0,
            amount_down: 0,
            rotate_horizontal: 0,
            rotate_vertical: 0,
            debug: false,
            ..self
        }
    }

    /// Where `camera` stands after it has gone what has gathered: forward
    /// and to the right as `heading` gives them, and straight up.
    pub open spec fn gone(self, camera: FreeCamera, heading: Heading) -> Vec3 {
        camera.position.plus_spec(
            heading.forward().times_spec(
                fixed::clamp(self.amount_forward - self.amount_backward) as i64,
            ),
        ).plus_spec(
            heading.right().times_spec(fixed::clamp(self.amount_right - self.amount_left) as i64),
        ).plus_spec(
            (Vec3 { x: 0, y: fixed::UNIT, z: 0 }).times_spec(
                fixed::clamp(self.amount_up - self.amount_down) as i64,
            ),
        )
    }

    /// How far `gathered` swings the camera in a frame of `dt`, at this
    /// sensitivity.
    pub open spec fn swing(self, gathered: i64, dt: i64) -> int {
        fixed::scale_spec(fixed::scale_spec(gathered as int, self.sensitivity as int), dt as int)
    }

    /// `camera` after one update of `dt`, with `heading` that of its yaw.
    ///
    /// It goes what has gathered. Unless the button of the mouse is down,
    /// it then looks level along the facing. The field of view grows by the
    /// balance of its two keys over `dt`, and yaw and pitch swing by what the
    /// mouse has dragged.
    pub open spec fn steered(self, camera: FreeCamera, heading: Heading, dt: i64) -> FreeCamera {
        let yaw = if self.mouse_pressed {
            camera.yaw as int
        } else {
            self.facing.yaw_spec()
        };
        let pitch = if self.mouse_pressed {
            camera.pitch
        } else {
            0
        };
        FreeCamera {
            position: self.gone(camera, heading),
            yaw: fixed::clamp(yaw + self.swing(self.rotate_horizontal, dt)) as i64,
            pitch: fixed::clamp(pitch + self.swing(self.rotate_vertical, dt)) as i64,
            fovy: fixed::clamp(
                camera.fovy + fixed::scale_spec(
                    fixed::clamp(self.fov_up - self.fov_down),
                    dt as int,
                ),
            ) as i64,
        }
    }

    /// The controller on which nothing has gathered.
    pub fn new(facing: Facing, sensitivity: i64) -> (out: Self)
        ensures
            out == CameraController::idle(facing, sensitivity),
    {
        Self {
            amount_left: 0,
            amount_right: 0,
            amount_forward: 0,
            amount_backward: 0,
            amount_up: 0,
            amount_down: 0,
            fov_up: 0,
            fov_down: 0,
            rotate_horizontal: 0,
            rotate_vertical: 0,
            scroll: 0,
            sensitivity,
            debug: false,
            mouse_pressed: false,
            facing,
        }
    }

    /// Notes that the button of the mouse went down.
    pub fn mouse_pressed(&mut self)
        ensures
            *final(self) == (CameraController { mouse_pressed: true, ..*old(self) }),
    {
        self.mouse_pressed = true;
    }

    /// Notes that the button of the mouse went up.
    pub fn mouse_released(&mut self)
        ensures
            *final(self) == (CameraController { mouse_pressed: false, ..*old(self) }),
    {
        self.mouse_pressed = false;
    }

    /// Takes a key that went down.
    pub fn key_pressed(&mut self, key: Key)
        ensures
            *final(self) == old(self).keyed(key, true),
    {
        self.key_event(key, true);
    }

    /// Takes a key that went up.
    pub fn key_released(&mut self, key: Key)
        ensures
            *final(self) == old(self).keyed(key, false),
    {
        self.key_event(key, false);
    }

    fn key_event(&mut self, key: Key, pressed: bool)
        ensures
            *final(self) == old(self).keyed(key, pressed),
    {
        let amount: i64 = if pressed {
            fixed::UNIT
        } else {
            0
        };

        match key {
            Key::A => {
                if pressed {
                    self.facing = self.facing.turn_left();
                }
            },
            Key::E => {
                if pressed {
                    self.facing = self.facing.turn_right();
                }
            },
            Key::Z | Key::Up => {
                self.amount_forward = amount;
            },
            Key::S | Key::Down => {
                self.amount_backward = amount;
            },
            Key::Q | Key::Left => {
                self.amount_left = amount;
            },
            Key::D | Key::Right => {
                self.amount_right = amount;
            },
            Key::Space => {
                self.amount_up = amount;
            },
            Key::LShift => {
                self.amount_down = amount;
            },
            Key::L => {
                self.debug = true;
            },
            Key::PageUp => {
                self.fov_up = amount;
            },
            Key::PageDown => {
                self.fov_down = amount;
            },
            Key::Other => (),
        }
    }

    /// Takes a motion of the mouse: while its button is down, the swing to
    /// come is the motion, the vertical one turned round.
    pub fn mouse_drag(&mut self, mouse_dx: i64, mouse_dy: i64)
        ensures
            *final(self) == if old(self).mouse_pressed {
                CameraController {
                    rotate_horizontal: mouse_dx,
                    rotate_vertical: fixed::clamp(-mouse_dy) as i64,
                    ..*old(self)
                }
            } else {
                *old(self)
            },
    {
        if self.mouse_pressed {
            self.rotate_horizontal = mouse_dx;
            self.rotate_vertical = fixed::minus(0, mouse_dy);
        }
    }

    /// Takes a turn of the wheel.
    pub fn mouse_scroll(&mut self, delta: i64)
        ensures
            *final(self) == (CameraController { scroll: delta, ..*old(self) }),
    {
        self.scroll = delta;
    }

    /// Updates `camera` for a frame of `dt` with what has gathered, and
    /// spends it. `heading` is the sine and cosine of the camera's yaw as
    /// it comes in. Says whether a report of the camera was asked for.
    pub fn update_camera(&mut self, camera: &mut FreeCamera, heading: Heading, dt: i64) -> (report:
        bool)
        ensures
            *final(camera) == old(self).steered(*old(camera), heading, dt),
            *final(self) == old(self).spent(),
            report == old(self).debug,
    {
        let forward = Vec3::new(heading.cos, 0, heading.sin);
        let right = Vec3::new(fixed::minus(0, heading.sin), 0, heading.cos);
        let up = Vec3::new(0, fixed::UNIT, 0);

        let mut position = camera.position;

        position = position.plus(
            forward.times(fixed::minus(self.amount_forward, self.amount_backward)),
        );
        position = position.plus(right.times(fixed::minus(self.amount_right, self.amount_left)));
        position = position.plus(up.times(fixed::minus(self.amount_up, self.amount_down)));

        camera.position = position;

        if !self.mouse_pressed {
            camera.yaw = self.facing.yaw();
            camera.pitch = 0;
        }

        self.amount_forward = 0;
        self.amount_backward = 0;
        self.amount_right = 0;
        self.amount_left = 0;
        self.amount_up = 0;
        self.amount_down = 0;

        camera.fovy = fixed::plus(
            camera.fovy,
            fixed::scale(fixed::minus(self.fov_up, self.fov_down), dt),
        );

        camera.yaw = fixed::plus(
            camera.yaw,
            fixed::scale(fixed::scale(self.rotate_horizontal, self.sensitivity), dt),
        );
        camera.pitch = fixed::plus(
            camera.pitch,
            fixed::scale(fixed::scale(self.rotate_vertical, self.sensitivity), dt),
        );

        self.rotate_horizontal = 0;
        self.rotate_vertical = 0;

        let report = self.debug;
        self.debug = false;
        report
    }
}

} // verus!
