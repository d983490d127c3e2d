//! The frame orchestrator: the per-frame state machine, input
//! handling, and the configuration record.
//!
//! A [`Game`] starts running and advances one frame per
//! [`Game::render`] call. The caller acquires the frame target and
//! reports the [`AcquireOutcome`]; the game decides the tick's
//! [`RenderPlan`]: a transient surface failure reconfigures and skips
//! the frame, any other failure stops the machine for good, and a
//! successful acquisition advances the camera by the elapsed time and
//! yields the draw call. The owner of the device performs exactly the
//! plan, so no draw, submit or present happens on a skipped tick.

use vstd::prelude::*;
use crate::fixed::{mul_scale, mul_scale_fx, STEP_LIMIT, TURN, UNIT};
use crate::input::{Axis, InputBindings, Key, MouseButton};
use crate::pipelines::fur::Fur;
use crate::resources::camera::{
    levitated_up, rotated_right, rotated_up, walked_forward, walked_right, Camera, Vec3Fx,
};
use crate::resources::model::Model;

verus! {

/// Speed a held navigation key contributes, in [`UNIT`]s per second:
/// one half unit.
pub const HALF_SPEED: i64 = 524288;

/// Default mouse sensitivity: one tenth.
pub const DEFAULT_SENSITIVITY: i64 = 104857;

/// Default near-plane distance: one tenth of a unit.
pub const DEFAULT_NEAR: i64 = 104857;

/// Default far-plane distance: one hundred units.
pub const DEFAULT_FAR: i64 = 100 * UNIT;

/// Shell layers the fur technique is configured with.
pub const FUR_LAYERS: u32 = 32;

/// The persisted configuration record, loaded at startup and written
/// back at shutdown.
#[derive(Debug, Clone)]
pub struct GameConfig {
    pub fullscreen: bool,
    pub monitor: Option<String>,
    pub mouse_sensitivity: i64,
    pub width: u32,
    pub height: u32,
}

impl Default for GameConfig {
    /// Windowed at 1920 by 1080, no monitor preference, sensitivity
    /// one tenth.
    fn default() -> (r: Self)
        ensures
            r.fullscreen == false,
            r.monitor is None,
            r.mouse_sensitivity == DEFAULT_SENSITIVITY,
            r.width == 1920,
            r.height == 1080,
    {
        GameConfig {
            fullscreen: false,
            monitor: None,
            mouse_sensitivity: DEFAULT_SENSITIVITY,
            width: 1920,
            height: 1080,
        }
    }
}

/// What acquiring the next frame target reported.
#[derive(Debug, Clone, Copy, PartialEq, Eq, Structural)]
pub enum AcquireOutcome {
    /// A target is available for this frame.
    Ready,
    /// The surface no longer matches the window: transient.
    Outdated,
    /// The surface was lost and can be rebuilt: transient.
    Lost,
    /// Acquisition timed out: fatal for the loop.
    Timeout,
    /// The device is out of memory: fatal for the loop.
    OutOfMemory,
}

/// What the caller must do for this tick.
#[derive(Debug, Clone, Copy, PartialEq, Eq, Structural)]
pub enum RenderPlan {
    /// The machine has stopped: do nothing.
    Skipped,
    /// Reconfigure the surface at the current size and skip the
    /// frame; no draw, submit or present.
    Reconfigure,
    /// The machine just stopped on a fatal failure; nothing is drawn.
    Stop,
    /// Upload the camera binding, open the pass, issue this draw,
    /// submit, and present.
    Draw { command: crate::pipelines::DrawCommand },
}

/// The frame orchestrator's state: the running flag, the camera and
/// mesh it draws, the navigation inputs, and the window parameters it
/// mirrors.
pub struct Game {
    pub running: bool,
    pub fullscreen: bool,
    pub mouse_sensitivity: i64,
    pub width: u32,
    pub height: u32,
    pub camera: Camera,
    pub fur: Fur,
    pub model: Model,
    pub bindings: InputBindings,
    pub has_last_time: bool,
    pub lmb_pressed: bool,
    pub forward: i64,
    pub backward: i64,
    pub left: i64,
    pub right: i64,
    pub up: i64,
    pub down: i64,
}

/// The camera after one successful tick: each axis advances by the
/// net held speed scaled by the elapsed time, which counts as zero on
/// the first frame.
pub open spec fn advanced_camera(g: Game, dt: int) -> Camera {
    let eff = if g.has_last_time {
        dt
    } else {
        0
    };
    let vf = mul_scale(eff, g.forward - g.backward);
    let vr = mul_scale(eff, g.right - g.left);
    let vu = mul_scale(eff, g.up - g.down);
    levitated_up(walked_right(walked_forward(g.camera, vf), vr), vu)
}

/// Law: opposing key holds cancel and released keys yield zero
/// motion. When each axis's positive and negative held speeds are
/// equal — both released, or both held — a successful tick moves the
/// camera by exactly nothing, whatever the elapsed time.
pub proof fn lemma_opposing_inputs_cancel(g: Game, dt: int)
    requires
        g.wf(),
        g.forward == g.backward,
        g.left == g.right,
        g.up == g.down,
    ensures
        advanced_camera(g, dt) == g.camera,
{
    let eff = if g.has_last_time {
        dt
    } else {
        0
    };
    assert(mul_scale(eff, 0) == 0);
    assert(advanced_camera(g, dt).position =~= g.camera.position);
}

/// The game after one key event: a pressed escape stops the machine,
/// a pressed F11 toggles fullscreen, and a key bound to an axis sets
/// that direction's held speed to half a unit on press and to zero on
/// release.
pub open spec fn game_after_key(g: Game, key: Key, pressed: bool) -> Game {
    let v: i64 = if pressed {
        HALF_SPEED
    } else {
        0
    };
    let g1 = if key == Key::Escape && pressed {
        Game { running: false, ..g }
    } else {
        g
    };
    let g2 = if key == Key::F11 && pressed {
        Game { fullscreen: !g1.fullscreen, ..g1 }
    } else {
        g1
    };
    let g3 = match g2.bindings.forward {
        Axis::Keys(pos, neg) => if key == pos {
            Game { forward: v, ..g2 }
        } else if key == neg {
            Game { backward: v, ..g2 }
        } else {
            g2
        },
        Axis::Native() => g2,
    };
    let g4 = match g3.bindings.right {
        Axis::Keys(pos, neg) => if key == pos {
            Game { right: v, ..g3 }
        } else if key == neg {
            Game { left: v, ..g3 }
        } else {
            g3
        },
        Axis::Native() => g3,
    };
    match g4.bindings.up {
        Axis::Keys(pos, neg) => if key == pos {
            Game { up: v, ..g4 }
        } else if key == neg {
            Game { down: v, ..g4 }
        } else {
            g4
        },
        Axis::Native() => g4,
    }
}

impl Game {
    /// The camera and mesh are sound, held speeds stay within one
    /// unit per second, and the sensitivity within one.
    pub open spec fn wf(self) -> bool {
        &&& self.camera.wf()
        &&& self.model.wf()
        &&& 0 <= self.forward <= UNIT
        &&& 0 <= self.backward <= UNIT
        &&& 0 <= self.left <= UNIT
        &&& 0 <= self.right <= UNIT
        &&& 0 <= self.up <= UNIT
        &&& 0 <= self.down <= UNIT
        &&& 0 <= self.mouse_sensitivity <= UNIT
    }

    /// Builds the startup state: running, no frame seen yet, no keys
    /// held, the camera four units back looking at the origin, and
    /// the fur technique at its layer count. The mesh arrives already
    /// validated.
    pub fn new(config: GameConfig, model: Model) -> (r: Game)
        requires
            model.wf(),
            0 <= config.mouse_sensitivity <= UNIT,
        ensures
            r.wf(),
            r.running == true,
            r.fullscreen == config.fullscreen,
            r.mouse_sensitivity == config.mouse_sensitivity,
            r.width == config.width,
            r.height == config.height,
            r.has_last_time == false,
            r.lmb_pressed == false,
            r.forward == 0 && r.backward == 0 && r.left == 0 && r.right == 0 && r.up == 0
                && r.down == 0,
            r.camera.position == (Vec3Fx { x: 0, y: 0, z: (4 * UNIT) as i64 }),
            r.camera.yaw == 0,
            r.camera.pitch == 0,
            r.camera.width == config.width,
            r.camera.height == config.height,
            r.camera.fov_scale == UNIT,
            r.camera.near == DEFAULT_NEAR,
            r.camera.far == DEFAULT_FAR,
            r.fur.layers() == FUR_LAYERS as nat,
            r.model == model,
            r.bindings == (InputBindings {
                forward: Axis::Keys(Key::KeyW, Key::KeyS),
                right: Axis::Keys(Key::KeyD, Key::KeyA),
                up: Axis::Keys(Key::Space, Key::ShiftLeft),
            }),
    {
        let camera = Camera::look_at(
            Vec3Fx { x: 0, y: 0, z: 4 * UNIT },
            Vec3Fx { x: 0, y: 0, z: 0 },
            config.width,
            config.height,
            UNIT,
            DEFAULT_NEAR,
            DEFAULT_FAR,
        );
        let fur = Fur::new(FUR_LAYERS);
        Game {
            running: true,
            fullscreen: config.fullscreen,
            mouse_sensitivity: config.mouse_sensitivity,
            width: config.width,
            height: config.height,
            camera,
            fur,
            model,
            bindings: InputBindings::default(),
            has_last_time: false,
            lmb_pressed: false,
            forward: 0,
            backward: 0,
            left: 0,
            right: 0,
            up: 0,
            down: 0,
        }
    }

    /// Applies a new surface size: the mirrored dimensions and the
    /// camera aspect change, nothing else; safe between any two
    /// frames. The caller reconfigures the surface and rebuilds the
    /// depth target at the same size.
    pub fn resize(&mut self, width: u32, height: u32)
        ensures
            *final(self) == (Game {
                width,
                height,
                camera: (Camera { width, height, ..old(self).camera }),
                ..*old(self)
            }),
            old(self).wf() ==> final(self).wf(),
    {
        self.width = width;
        self.height = height;
        self.camera.resize(width, height);
    }

    /// One tick of the frame state machine, fed the acquisition
    /// outcome and the elapsed time since the previous successful
    /// frame. Transient failures reconfigure and skip; any other
    /// failure stops the machine; success advances the camera and
    /// yields the frame's one draw call.
    pub fn render(&mut self, acquired: AcquireOutcome, dt: i64) -> (plan: RenderPlan)
        requires
            old(self).wf(),
            0 <= dt <= STEP_LIMIT,
        ensures
            final(self).wf(),
            !old(self).running ==> *final(self) == *old(self) && plan == RenderPlan::Skipped,
            old(self).running && (acquired is Outdated || acquired is Lost) ==> *final(self)
                == *old(self) && plan == RenderPlan::Reconfigure,
            old(self).running && (acquired is Timeout || acquired is OutOfMemory) ==> *final(self)
                == (Game { running: false, ..*old(self) }) && plan == RenderPlan::Stop,
            old(self).running && acquired is Ready ==> *final(self) == (Game {
                camera: advanced_camera(*old(self), dt as int),
                has_last_time: true,
                ..*old(self)
            }),
            old(self).running && acquired is Ready ==> (plan matches RenderPlan::Draw { command }
                && command.index_count == old(self).model.indices_view().len()
                && command.instance_count as nat == old(self).fur.layers()),
    {
        if !self.running {
            return RenderPlan::Skipped;
        }
        match acquired {
            AcquireOutcome::Outdated | AcquireOutcome::Lost => {
                return RenderPlan::Reconfigure;
            },
            AcquireOutcome::Timeout | AcquireOutcome::OutOfMemory => {
                self.running = false;
                return RenderPlan::Stop;
            },
            AcquireOutcome::Ready => {},
        }
        let eff: i64 = if self.has_last_time {
            dt
        } else {
            0
        };
        self.has_last_time = true;
        let vf = mul_scale_fx(eff, self.forward - self.backward);
        let vr = mul_scale_fx(eff, self.right - self.left);
        let vu = mul_scale_fx(eff, self.up - self.down);
        self.camera.walk_forward(vf);
        self.camera.walk_right(vr);
        self.camera.levitate_up(vu);
        let n = self.model.num_indices();
        let command = self.fur.draw(n);
        RenderPlan::Draw { command }
    }

    /// Flips between fullscreen and windowed; the window side applies
    /// the new mode.
    pub fn toggle_fullscreen(&mut self)
        ensures
            *final(self) == (Game { fullscreen: !old(self).fullscreen, ..*old(self) }),
    {
        self.fullscreen = !self.fullscreen;
    }

    /// Whether the window is currently fullscreen, as mirrored here.
    pub fn is_fullscreen(&self) -> (r: bool)
        ensures
            r == self.fullscreen,
    {
        self.fullscreen
    }

    /// The configuration to persist at shutdown: the live window
    /// state plus the monitor the window currently occupies, which
    /// the windowing side reports.
    pub fn export_config(&self, monitor: Option<String>) -> (r: GameConfig)
        ensures
            r.fullscreen == self.fullscreen,
            r.monitor == monitor,
            r.mouse_sensitivity == self.mouse_sensitivity,
            r.width == self.width,
            r.height == self.height,
    {
        GameConfig {
            fullscreen: self.fullscreen,
            monitor,
            mouse_sensitivity: self.mouse_sensitivity,
            width: self.width,
            height: self.height,
        }
    }

    /// Applies raw pointer motion: while look mode is held, axis 0
    /// turns the view right and axis 1 lifts it, inverted, both
    /// scaled by the sensitivity; other axes and released look mode
    /// change nothing.
    pub fn handle_axis(&mut self, axis: u32, value: i64)
        requires
            old(self).wf(),
            -TURN <= value <= TURN,
        ensures
            final(self).wf(),
            !old(self).lmb_pressed ==> *final(self) == *old(self),
            old(self).lmb_pressed && axis == 0 ==> *final(self) == (Game {
                camera: rotated_right(
                    old(self).camera,
                    mul_scale(value as int, old(self).mouse_sensitivity as int),
                ),
                ..*old(self)
            }),
            old(self).lmb_pressed && axis == 1 ==> *final(self) == (Game {
                camera: rotated_up(
                    old(self).camera,
                    -mul_scale(value as int, old(self).mouse_sensitivity as int),
                ),
                ..*old(self)
            }),
            old(self).lmb_pressed && axis >= 2 ==> *final(self) == *old(self),
    {
        if self.lmb_pressed {
            let d = mul_scale_fx(value, self.mouse_sensitivity);
            if axis == 0 {
                self.camera.rotate_right(d);
            } else if axis == 1 {
                self.camera.rotate_up(-d);
            }
        }
    }

    /// Applies a mouse button event: the left button holds look mode,
    /// and the cursor hides exactly while it is held. The returned
    /// visibility, when present, is for the window side to apply.
    pub fn handle_mouse_button(&mut self, button: MouseButton, pressed: bool) -> (cursor_visible:
        Option<bool>)
        ensures
            button is Left ==> *final(self) == (Game { lmb_pressed: pressed, ..*old(self) })
                && cursor_visible == Some(!pressed),
            !(button is Left) ==> *final(self) == *old(self) && cursor_visible is None,
    {
        match button {
            MouseButton::Left => {
                self.lmb_pressed = pressed;
                Some(!pressed)
            },
            _ => None,
        }
    }

    /// Applies a key event as [`game_after_key`] describes: escape
    /// stops, F11 toggles fullscreen, and the bound axis keys hold
    /// and release the navigation speeds.
    #[verifier::rlimit(60)]
    pub fn handle_keyboard(&mut self, key: Key, pressed: bool)
        requires
            old(self).wf(),
        ensures
            final(self).wf(),
            *final(self) == game_after_key(*old(self), key, pressed),
    {
        let v: i64 = if pressed {
            HALF_SPEED
        } else {
            0
        };
        if key == Key::Escape && pressed {
            self.running = false;
        }
        if key == Key::F11 && pressed {
            self.fullscreen = !self.fullscreen;
        }
        match self.bindings.forward {
            Axis::Keys(pos, neg) => {
                if key == pos {
                    self.forward = v;
                } else if key == neg {
                    self.backward = v;
                }
            },
            Axis::Native() => {},
        }
        match self.bindings.right {
            Axis::Keys(pos, neg) => {
                if key == pos {
                    self.right = v;
                } else if key == neg {
                    self.left = v;
                }
            },
            Axis::Native() => {},
        }
        match self.bindings.up {
            Axis::Keys(pos, neg) => {
                if key == pos {
                    self.up = v;
                } else if key == neg {
                    self.down = v;
                }
            },
            Axis::Native() => {},
        }
    }

    /// Whether the machine still produces frames.
    pub fn is_running(&self) -> (r: bool)
        ensures
            r == self.running,
    {
        self.running
    }
}

/// Returns the first element of `items` for which `pred` returned
/// true, skipping the element at index 0; if none matches, falls back
/// to the first element. Returns `None` only on an empty input.
///
/// The element at index 0 is never tested: it can only be chosen as
/// the fallback. This mirrors how a preferred monitor is selected,
/// with the platform's first monitor as the default.
pub fn find_or_first<T, F: Fn(&T) -> bool>(items: Vec<T>, pred: F) -> (r: Option<T>)
    requires
        forall|t: &T| #[trigger] pred.requires((t,)),
    ensures
        items@.len() == 0 <==> r is None,
        items@.len() > 0 ==> (exists|i: int|
            #![auto]
            0 <= i < items@.len() && r == Some(items@[i]) && (i == 0 ==> (forall|j: int|
                1 <= j < items@.len() ==> pred.ensures((&items@[j],), false))) && (i >= 1
                ==> pred.ensures((&items@[i],), true) && (forall|j: int|
                1 <= j < i ==> pred.ensures((&items@[j],), false)))),
{
    if items.len() == 0 {
        return None;
    }
    let mut j: usize = 1;
    while j < items.len()
        invariant
            1 <= j <= items@.len(),
            forall|k: int| 1 <= k < j ==> pred.ensures((&items@[k],), false),
            forall|t: &T| #[trigger] pred.requires((t,)),
        decreases items@.len() - j,
    {
        if pred(&items[j]) {
            let mut items = items;
            return Some(items.swap_remove(j));
        }
        j = j + 1;
    }
    let mut items = items;
    Some(items.swap_remove(0))
}

} // verus!
