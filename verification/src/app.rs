use vstd::prelude::*;
use crate::geometry::{
    COORD_LIMIT, Vec2I, Vec2View, clamp_i, in_range, vec2_ok, tdiv, clamp_coord, trunc_div,
};
use crate::input::{
    MouseButton, MouseMotion, MouseWheel, MotionView, WheelView, motion_ok, wheel_ok,
    clamp_motion, clamp_wheel,
};

verus! {

/// Projection scale that means a zoom of one; scales are held in thousandths.
pub const SCALE_ONE: i64 = 1000;

/// Width of the player sprite, in device units.
pub const PLAYER_WIDTH: i64 = 64;

/// Height of the player sprite, in device units.
pub const PLAYER_HEIGHT: i64 = 32;

/// Position, rotation and scale of an entity in the 2D scene. Rotation is
/// counted in tenth steps about the z axis.
#[derive(Clone, Copy, PartialEq, Eq, Structural, Debug)]
pub struct Transform {
    pub translation: Vec2I,
    pub rotation: i64,
    pub scale: Vec2I,
}

/// The camera entity: a transform and an orthographic projection scale in
/// thousandths.
#[derive(Clone, Copy, PartialEq, Eq, Structural, Debug)]
pub struct Camera {
    pub transform: Transform,
    pub projection: i64,
}

/// The player entity: a sprite with a transform.
#[derive(Clone, Copy, PartialEq, Eq, Structural, Debug)]
pub struct Player {
    pub transform: Transform,
}

/// Mathematical view of `Transform`.
pub ghost struct TransformView {
    pub translation: Vec2View,
    pub rotation: int,
    pub scale: Vec2View,
}

/// Mathematical view of `Camera`.
pub ghost struct CameraView {
    pub transform: TransformView,
    pub projection: int,
}

/// Mathematical view of `Player`.
pub ghost struct PlayerView {
    pub transform: TransformView,
}

impl View for Transform {
    type V = TransformView;

    open spec fn view(&self) -> TransformView {
        TransformView {
            translation: self.translation@,
            rotation: self.rotation as int,
            scale: self.scale@,
        }
    }
}

impl View for Camera {
    type V = CameraView;

    open spec fn view(&self) -> CameraView {
        CameraView { transform: self.transform@, projection: self.projection as int }
    }
}

impl View for Player {
    type V = PlayerView;

    open spec fn view(&self) -> PlayerView {
        PlayerView { transform: self.transform@ }
    }
}

/// Mathematical view of the whole scene.
#[verifier::ext_equal]
pub ghost struct AppView {
    pub configured: bool,
    pub started: bool,
    pub input_plugin: bool,
    pub camera: Option<CameraView>,
    pub player: Option<PlayerView>,
    pub left_pressed: bool,
    pub right_pressed: bool,
    pub motions: Seq<MotionView>,
    pub wheels: Seq<WheelView>,
}

/// Whether every part of a transform lies inside the representable range.
pub open spec fn transform_ok(t: TransformView) -> bool {
    vec2_ok(t.translation) && in_range(t.rotation) && vec2_ok(t.scale)
}

/// Whether a camera's transform and projection lie inside the range.
pub open spec fn camera_ok(c: CameraView) -> bool {
    transform_ok(c.transform) && in_range(c.projection)
}

/// Whether a player's transform lies inside the range.
pub open spec fn player_ok(p: PlayerView) -> bool {
    transform_ok(p.transform)
}

/// Well-formedness of the scene: every stored entity and every queued event
/// lies inside the representable range.
pub open spec fn wf(v: AppView) -> bool {
    &&& (v.camera matches Some(c) ==> camera_ok(c))
    &&& (v.player matches Some(p) ==> player_ok(p))
    &&& (forall|i: int| 0 <= i < v.motions.len() ==> motion_ok(#[trigger] v.motions[i]))
    &&& (forall|i: int| 0 <= i < v.wheels.len() ==> wheel_ok(#[trigger] v.wheels[i]))
}

/// The transform every entity starts with: the origin, no rotation, unit
/// scale.
pub open spec fn initial_transform() -> TransformView {
    TransformView {
        translation: Vec2View { x: 0, y: 0 },
        rotation: 0,
        scale: Vec2View { x: 1, y: 1 },
    }
}

/// The camera the startup pass spawns: initial transform, zoom of one.
pub open spec fn initial_camera() -> CameraView {
    CameraView { transform: initial_transform(), projection: SCALE_ONE as int }
}

/// The player the startup pass spawns: at the origin, with its sprite scaled
/// to its custom size.
pub open spec fn initial_player() -> PlayerView {
    PlayerView {
        transform: TransformView {
            translation: Vec2View { x: 0, y: 0 },
            rotation: 0,
            scale: Vec2View { x: PLAYER_WIDTH as int, y: PLAYER_HEIGHT as int },
        },
    }
}

/// A scene with no entities, no queued events and no pressed buttons.
pub open spec fn empty_app(configured: bool, input_plugin: bool) -> AppView {
    AppView {
        configured,
        started: false,
        input_plugin,
        camera: None,
        player: None,
        left_pressed: false,
        right_pressed: false,
        motions: Seq::empty(),
        wheels: Seq::empty(),
    }
}

/// Rotation after one frame: one tenth step left while the left button is
/// held, then one tenth step right while the right button is held, each
/// clamped into the range.
pub open spec fn rot_after(r: int, left: bool, right: bool) -> int {
    let r1 = if left { clamp_i(r + 1) } else { r };
    if right { clamp_i(r1 - 1) } else { r1 }
}

/// Translation after one motion event: a twentieth of the delta, the y axis
/// inverted, clamped into the range.
pub open spec fn pan_one(t: Vec2View, m: MotionView) -> Vec2View {
    Vec2View { x: clamp_i(t.x + tdiv(m.dx, 20)), y: clamp_i(t.y - tdiv(m.dy, 20)) }
}

/// Translation after a queue of motion events, applied in order.
pub open spec fn pan_all(t: Vec2View, ms: Seq<MotionView>) -> Vec2View
    decreases ms.len(),
{
    if ms.len() == 0 {
        t
    } else {
        pan_all(pan_one(t, ms[0]), ms.drop_first())
    }
}

/// Projection scale after one wheel event: the scale grows by a tenth of the
/// turned amount, clamped into the range.
pub open spec fn zoom_one(s: int, w: WheelView) -> int {
    clamp_i(tdiv(s * (10 + w.x + w.y), 10))
}

/// Projection scale after a queue of wheel events, applied in order.
pub open spec fn zoom_all(s: int, ws: Seq<WheelView>) -> int
    decreases ws.len(),
{
    if ws.len() == 0 {
        s
    } else {
        zoom_all(zoom_one(s, ws[0]), ws.drop_first())
    }
}

/// The startup pass of one frame: on the first frame of a configured scene it
/// spawns the camera and the player; it always marks the scene started.
pub open spec fn startup_phase(v: AppView) -> AppView {
    if v.configured && !v.started {
        AppView {
            started: true,
            camera: Some(initial_camera()),
            player: Some(initial_player()),
            ..v
        }
    } else {
        AppView { started: true, ..v }
    }
}

/// The button pass of one frame: held buttons rotate the camera.
pub open spec fn buttons_phase(v: AppView) -> AppView {
    match v.camera {
        Some(c) => AppView {
            camera: Some(
                CameraView {
                    transform: TransformView {
                        rotation: rot_after(c.transform.rotation, v.left_pressed, v.right_pressed),
                        ..c.transform
                    },
                    ..c
                },
            ),
            ..v
        },
        None => v,
    }
}

/// The motion pass of one frame: queued motions pan the camera and the queue
/// is drained.
pub open spec fn motion_phase(v: AppView) -> AppView {
    let cam = match v.camera {
        Some(c) => Some(
            CameraView {
                transform: TransformView {
                    translation: pan_all(c.transform.translation, v.motions),
                    ..c.transform
                },
                ..c
            },
        ),
        None => None,
    };
    AppView { camera: cam, motions: Seq::empty(), ..v }
}

/// The wheel pass of one frame: queued wheel turns zoom the camera and the
/// queue is drained.
pub open spec fn wheel_phase(v: AppView) -> AppView {
    let cam = match v.camera {
        Some(c) => Some(CameraView { projection: zoom_all(c.projection, v.wheels), ..c }),
        None => None,
    };
    AppView { camera: cam, wheels: Seq::empty(), ..v }
}

/// One whole frame: the startup pass, then, in a configured scene, the
/// button, motion and wheel passes.
pub open spec fn step(v: AppView) -> AppView {
    let s = startup_phase(v);
    if v.configured {
        wheel_phase(motion_phase(buttons_phase(s)))
    } else {
        s
    }
}

/// The scene: entities, button state and queued pointer events. A configured
/// scene spawns its entities on the first frame and responds to input on
/// every frame.
pub struct App {
    configured: bool,
    started: bool,
    input_plugin: bool,
    camera: Option<Camera>,
    player: Option<Player>,
    left_pressed: bool,
    right_pressed: bool,
    motion_events: Vec<MouseMotion>,
    wheel_events: Vec<MouseWheel>,
}

impl View for App {
    type V = AppView;

    closed spec fn view(&self) -> AppView {
        AppView {
            configured: self.configured,
            started: self.started,
            input_plugin: self.input_plugin,
            camera: match self.camera {
                Some(c) => Some(c@),
                None => None,
            },
            player: match self.player {
                Some(p) => Some(p@),
                None => None,
            },
            left_pressed: self.left_pressed,
            right_pressed: self.right_pressed,
            motions: self.motion_events@.map_values(|e: MouseMotion| e@),
            wheels: self.wheel_events@.map_values(|e: MouseWheel| e@),
        }
    }
}

impl App {
    /// A bare scene: nothing spawns and nothing responds to input.
    pub fn new() -> (app: App)
        ensures
            app@ == empty_app(false, false),
            wf(app@),
    {
        let app = App {
            configured: false,
            started: false,
            input_plugin: false,
            camera: None,
            player: None,
            left_pressed: false,
            right_pressed: false,
            motion_events: Vec::new(),
            wheel_events: Vec::new(),
        };
        proof {
            assert(app@ =~= empty_app(false, false));
        }
        app
    }

    /// Spawn the camera at the origin with a zoom of one.
    fn add_camera(&mut self)
        ensures
            final(self)@ == (AppView { camera: Some(initial_camera()), ..old(self)@ }),
    {
        self.camera = Some(
            Camera {
                transform: Transform {
                    translation: Vec2I { x: 0, y: 0 },
                    rotation: 0,
                    scale: Vec2I { x: 1, y: 1 },
                },
                projection: SCALE_ONE,
            },
        );
        proof {
            assert(self@ =~= (AppView { camera: Some(initial_camera()), ..old(self)@ }));
        }
    }

    /// Spawn the player sprite at the origin with its custom size.
    fn add_player(&mut self)
        ensures
            final(self)@ == (AppView { player: Some(initial_player()), ..old(self)@ }),
    {
        self.player = Some(
            Player {
                transform: Transform {
                    translation: Vec2I { x: 0, y: 0 },
                    rotation: 0,
                    scale: Vec2I { x: PLAYER_WIDTH, y: PLAYER_HEIGHT },
                },
            },
        );
        proof {
            assert(self@ =~= (AppView { player: Some(initial_player()), ..old(self)@ }));
        }
    }

    /// Record a button as held.
    pub fn press(&mut self, button: MouseButton)
        ensures
            final(self)@ == (AppView {
                left_pressed: old(self)@.left_pressed || button == MouseButton::Left,
                right_pressed: old(self)@.right_pressed || button == MouseButton::Right,
                ..old(self)@
            }),
    {
        match button {
            MouseButton::Left => {
                self.left_pressed = true;
            }
            MouseButton::Right => {
                self.right_pressed = true;
            }
        }
        proof {
            assert(self@ =~= (AppView {
                left_pressed: old(self)@.left_pressed || button == MouseButton::Left,
                right_pressed: old(self)@.right_pressed || button == MouseButton::Right,
                ..old(self)@
            }));
        }
    }

    /// Record a button as no longer held.
    pub fn release(&mut self, button: MouseButton)
        ensures
            final(self)@ == (AppView {
                left_pressed: old(self)@.left_pressed && button != MouseButton::Left,
                right_pressed: old(self)@.right_pressed && button != MouseButton::Right,
                ..old(self)@
            }),
    {
        match button {
            MouseButton::Left => {
                self.left_pressed = false;
            }
            MouseButton::Right => {
                self.right_pressed = false;
            }
        }
        proof {
            assert(self@ =~= (AppView {
                left_pressed: old(self)@.left_pressed && button != MouseButton::Left,
                right_pressed: old(self)@.right_pressed && button != MouseButton::Right,
                ..old(self)@
            }));
        }
    }

    /// Queue a pointer motion. Components beyond the representable range are
    /// clamped to it.
    pub fn send_mouse_motion(&mut self, event: MouseMotion)
        ensures
            final(self)@ == (AppView {
                motions: old(self)@.motions.push(clamp_motion(event@)),
                ..old(self)@
            }),
            wf(old(self)@) ==> wf(final(self)@),
    {
        let clamped = MouseMotion {
            delta: Vec2I { x: clamp_coord(event.delta.x), y: clamp_coord(event.delta.y) },
        };
        self.motion_events.push(clamped);
        proof {
            assert(self@ =~= (AppView {
                motions: old(self)@.motions.push(clamp_motion(event@)),
                ..old(self)@
            }));
        }
    }

    /// Queue a wheel turn. Amounts beyond the representable range are clamped
    /// to it.
    pub fn send_mouse_wheel(&mut self, event: MouseWheel)
        ensures
            final(self)@ == (AppView {
                wheels: old(self)@.wheels.push(clamp_wheel(event@)),
                ..old(self)@
            }),
            wf(old(self)@) ==> wf(final(self)@),
    {
        let clamped = MouseWheel { x: clamp_coord(event.x), y: clamp_coord(event.y) };
        self.wheel_events.push(clamped);
        proof {
            assert(self@ =~= (AppView {
                wheels: old(self)@.wheels.push(clamp_wheel(event@)),
                ..old(self)@
            }));
        }
    }

    /// Rotate the camera while a button is held: a tenth step left for the
    /// left button, a tenth step right for the right one.
    fn respond_to_mouse_button_press(&mut self)
        requires
            wf(old(self)@),
        ensures
            wf(final(self)@),
            final(self)@ == buttons_phase(old(self)@),
    {
        match self.camera {
            Some(cam0) => {
                let mut cam = cam0;
                if self.left_pressed {
                    cam.transform.rotation = clamp_coord(cam.transform.rotation + 1);
                }
                if self.right_pressed {
                    cam.transform.rotation = clamp_coord(cam.transform.rotation - 1);
                }
                self.camera = Some(cam);
                proof {
                    assert(self@ =~= buttons_phase(old(self)@));
                }
            }
            None => {
                proof {
                    assert(self@ =~= buttons_phase(old(self)@));
                }
            }
        }
    }

    /// Pan the camera by a twentieth of each queued motion, the y axis
    /// inverted, and drain the queue.
    fn respond_to_mouse_move(&mut self)
        requires
            wf(old(self)@),
        ensures
            wf(final(self)@),
            final(self)@ == motion_phase(old(self)@),
    {
        let ghost v0 = self@;
        match self.camera {
            Some(cam0) => {
                let mut t = cam0.transform.translation;
                let ghost t0 = t@;
                let n = self.motion_events.len();
                let mut i: usize = 0;
                proof {
                    assert(v0.motions.skip(0) =~= v0.motions);
                }
                while i < n
                    invariant
                        i <= n,
                        n == self.motion_events.len(),
                        self@ == v0,
                        wf(v0),
                        vec2_ok(t@),
                        pan_all(t0, v0.motions) == pan_all(t@, v0.motions.skip(i as int)),
                    decreases n - i,
                {
                    let m = self.motion_events[i];
                    proof {
                        assert(v0.motions[i as int] == m@);
                        assert(motion_ok(m@));
                    }
                    let ghost t_before = t@;
                    let dx = trunc_div(m.delta.x, 20);
                    let dy = trunc_div(m.delta.y, 20);
                    t = Vec2I { x: clamp_coord(t.x + dx), y: clamp_coord(t.y - dy) };
                    proof {
                        assert(t@ == pan_one(t_before, v0.motions[i as int]));
                        assert(v0.motions.skip(i as int)[0] == v0.motions[i as int]);
                        assert(v0.motions.skip(i as int).drop_first() =~= v0.motions.skip(
                            i as int + 1,
                        ));
                    }
                    i = i + 1;
                }
                proof {
                    assert(v0.motions.skip(n as int) =~= Seq::empty());
                    assert(t@ == pan_all(t0, v0.motions));
                }
                let mut cam = cam0;
                cam.transform.translation = t;
                self.camera = Some(cam);
                self.motion_events = Vec::new();
                proof {
                    assert(self@ =~= motion_phase(v0));
                }
            }
            None => {
                self.motion_events = Vec::new();
                proof {
                    assert(self@ =~= motion_phase(v0));
                }
            }
        }
    }

    /// Zoom the camera by a tenth of each queued wheel turn and drain the
    /// queue.
    fn respond_to_mouse_wheel_turn(&mut self)
        requires
            wf(old(self)@),
        ensures
            wf(final(self)@),
            final(self)@ == wheel_phase(old(self)@),
    {
        let ghost v0 = self@;
        match self.camera {
            Some(cam0) => {
                let mut s = cam0.projection;
                let ghost s0 = s as int;
                let n = self.wheel_events.len();
                let mut i: usize = 0;
                proof {
                    assert(v0.wheels.skip(0) =~= v0.wheels);
                }
                while i < n
                    invariant
                        i <= n,
                        n == self.wheel_events.len(),
                        self@ == v0,
                        wf(v0),
                        in_range(s as int),
                        zoom_all(s0, v0.wheels) == zoom_all(s as int, v0.wheels.skip(i as int)),
                    decreases n - i,
                {
                    let w = self.wheel_events[i];
                    proof {
                        assert(v0.wheels[i as int] == w@);
                        assert(wheel_ok(w@));
                    }
                    let ghost s_before = s as int;
                    let f = 10 + w.x + w.y;
                    proof {
                        assert(s as int * (f as int) <= COORD_LIMIT as int * (2 * COORD_LIMIT
                            + 10) && s as int * (f as int) >= -(COORD_LIMIT as int) * (2
                            * COORD_LIMIT + 10)) by (nonlinear_arith)
                            requires
                                in_range(s as int),
                                -(2 * COORD_LIMIT as int) - 10 <= f as int <= 2 * COORD_LIMIT
                                    + 10,
                        ;
                    }
                    let p = s * f;
                    let q = trunc_div(p, 10);
                    s = clamp_coord(q);
                    proof {
                        assert(s as int == zoom_one(s_before, v0.wheels[i as int]));
                        assert(v0.wheels.skip(i as int)[0] == v0.wheels[i as int]);
                        assert(v0.wheels.skip(i as int).drop_first() =~= v0.wheels.skip(
                            i as int + 1,
                        ));
                    }
                    i = i + 1;
                }
                proof {
                    assert(v0.wheels.skip(n as int) =~= Seq::empty());
                    assert(s as int == zoom_all(s0, v0.wheels));
                }
                let mut cam = cam0;
                cam.projection = s;
                self.camera = Some(cam);
                self.wheel_events = Vec::new();
                proof {
                    assert(self@ =~= wheel_phase(v0));
                }
            }
            None => {
                self.wheel_events = Vec::new();
                proof {
                    assert(self@ =~= wheel_phase(v0));
                }
            }
        }
    }

    /// Run one frame: on the first frame of a configured scene, spawn the
    /// camera and the player; then, in a configured scene, respond to held
    /// buttons and queued pointer events.
    pub fn update(&mut self)
        requires
            wf(old(self)@),
        ensures
            wf(final(self)@),
            final(self)@ == step(old(self)@),
    {
        let ghost v0 = self@;
        if !self.started {
            if self.configured {
                self.add_camera();
                self.add_player();
            }
            self.started = true;
        }
        proof {
            assert(self@ =~= startup_phase(v0));
            assert(wf(self@));
        }
        if self.configured {
            self.respond_to_mouse_button_press();
            self.respond_to_mouse_move();
            self.respond_to_mouse_wheel_turn();
            proof {
                assert(self@ == wheel_phase(motion_phase(buttons_phase(startup_phase(
                    v0,
                )))));
            }
        }
        proof {
            assert(self@ =~= step(v0));
        }
    }

    /// Whether the input plugin is part of this scene.
    pub fn has_input_plugin(&self) -> (r: bool)
        ensures
            r == self@.input_plugin,
    {
        self.input_plugin
    }
}

/// A configured scene: on its first frame it spawns the camera and the
/// player, and on every frame it responds to pointer input.
pub fn create_app() -> (app: App)
    ensures
        app@ == empty_app(true, true),
        wf(app@),
{
    let app = App {
        configured: true,
        started: false,
        input_plugin: true,
        camera: None,
        player: None,
        left_pressed: false,
        right_pressed: false,
        motion_events: Vec::new(),
        wheel_events: Vec::new(),
    };
    proof {
        assert(app@ =~= empty_app(true, true));
    }
    app
}

/// How many cameras the scene holds.
pub fn count_n_cameras(app: &App) -> (n: usize)
    ensures
        n == (if app@.camera is Some { 1int } else { 0int }),
{
    if app.camera.is_some() { 1 } else { 0 }
}

/// How many players the scene holds.
pub fn count_n_players(app: &App) -> (n: usize)
    ensures
        n == (if app@.player is Some { 1int } else { 0int }),
{
    if app.player.is_some() { 1 } else { 0 }
}

/// The camera's position.
pub fn get_camera_position(app: &App) -> (p: Vec2I)
    requires
        app@.camera is Some,
    ensures
        p@ == app@.camera.unwrap().transform.translation,
{
    let c = app.camera.unwrap();
    c.transform.translation
}

/// The player's position.
pub fn get_player_position(app: &App) -> (p: Vec2I)
    requires
        app@.player is Some,
    ensures
        p@ == app@.player.unwrap().transform.translation,
{
    let p = app.player.unwrap();
    p.transform.translation
}

/// The camera's projection scale, in thousandths.
pub fn get_camera_scale(app: &App) -> (s: i64)
    requires
        app@.camera is Some,
    ensures
        s as int == app@.camera.unwrap().projection,
{
    let c = app.camera.unwrap();
    c.projection
}

/// The player sprite's size: its transform scale.
pub fn get_player_size(app: &App) -> (s: Vec2I)
    requires
        app@.player is Some,
    ensures
        s@ == app@.player.unwrap().transform.scale,
{
    let p = app.player.unwrap();
    p.transform.scale
}

/// The camera's rotation, in tenth steps about the z axis.
pub fn get_camera_rotation(app: &App) -> (r: i64)
    requires
        app@.camera is Some,
    ensures
        r as int == app@.camera.unwrap().transform.rotation,
{
    let c = app.camera.unwrap();
    c.transform.rotation
}

} // verus!
