//! Per-frame decisions: folding input events into the session's input state,
//! the direction of rotation, and the ordered draw calls of the two passes.
use vstd::prelude::*;

verus! {

/// Rotation speed of the planet while a direction key is held.
pub const ROTATION_DEGREES_PER_SECOND: u32 = 45;

/// Distance at which the sun is placed, far enough to act as a directional light.
pub const SUN_DISTANCE: u32 = 10000;

/// The two keys that turn the planet.
#[derive(Clone, Copy, Debug, PartialEq, Eq, Structural)]
pub enum RotateKey {
    Left,
    Right,
}

#[derive(Clone, Copy, Debug, PartialEq, Eq, Structural)]
pub enum MouseButton {
    Left,
    Right,
    Middle,
}

/// The input events that the session itself reacts to.
#[derive(Clone, Copy, Debug, PartialEq, Eq, Structural)]
pub enum InputEvent {
    CloseRequested,
    Key { key: RotateKey, pressed: bool },
    CursorMoved { x: i32, y: i32 },
    Button { button: MouseButton, pressed: bool },
}

/// Cursor position and the left, right and middle button states.
#[derive(Clone, Copy, Debug, PartialEq, Eq)]
pub struct MouseState {
    pub pos: (i32, i32),
    pub pressed: (bool, bool, bool),
}

impl MouseState {
    pub fn new() -> (r: MouseState)
        ensures
            r.pos == (0i32, 0i32),
            r.pressed == (false, false, false),
    {
        MouseState { pos: (0, 0), pressed: (false, false, false) }
    }
}

/// The input-derived part of the session state.
#[derive(Clone, Copy, Debug, PartialEq, Eq)]
pub struct InputState {
    /// False once the window was asked to close.
    pub run: bool,
    pub left_pressed: bool,
    pub right_pressed: bool,
    pub mouse: MouseState,
}

/// The input state after one event. A cursor position with a zero
/// coordinate is not taken.
pub open spec fn apply_event(s: InputState, e: InputEvent) -> InputState {
    match e {
        InputEvent::CloseRequested => InputState { run: false, ..s },
        InputEvent::Key { key: RotateKey::Left, pressed } => InputState {
            left_pressed: pressed,
            ..s
        },
        InputEvent::Key { key: RotateKey::Right, pressed } => InputState {
            right_pressed: pressed,
            ..s
        },
        InputEvent::CursorMoved { x, y } => if x != 0 && y != 0 {
            InputState { mouse: MouseState { pos: (x, y), ..s.mouse }, ..s }
        } else {
            s
        },
        InputEvent::Button { button, pressed } => {
            let p = s.mouse.pressed;
            let np = match button {
                MouseButton::Left => (pressed, p.1, p.2),
                MouseButton::Right => (p.0, pressed, p.2),
                MouseButton::Middle => (p.0, p.1, pressed),
            };
            InputState { mouse: MouseState { pressed: np, ..s.mouse }, ..s }
        },
    }
}

impl InputState {
    /// Running, no key or button held, cursor at the origin.
    pub fn new() -> (r: InputState)
        ensures
            r.run,
            !r.left_pressed,
            !r.right_pressed,
            r.mouse.pos == (0i32, 0i32),
            r.mouse.pressed == (false, false, false),
    {
        InputState {
            run: true,
            left_pressed: false,
            right_pressed: false,
            mouse: MouseState::new(),
        }
    }

    /// Folds one event into the state.
    pub fn fold_event(&mut self, e: InputEvent)
        ensures
            *final(self) == apply_event(*old(self), e),
    {
        match e {
            InputEvent::CloseRequested => {
                self.run = false;
            },
            InputEvent::Key { key, pressed } => match key {
                RotateKey::Left => {
                    self.left_pressed = pressed;
                },
                RotateKey::Right => {
                    self.right_pressed = pressed;
                },
            },
            InputEvent::CursorMoved { x, y } => {
                if x != 0 && y != 0 {
                    self.mouse.pos = (x, y);
                }
            },
            InputEvent::Button { button, pressed } => match button {
                MouseButton::Left => {
                    self.mouse.pressed.0 = pressed;
                },
                MouseButton::Right => {
                    self.mouse.pressed.1 = pressed;
                },
                MouseButton::Middle => {
                    self.mouse.pressed.2 = pressed;
                },
            },
        }
    }

    /// Folds a frame's events in order.
    pub fn fold_events(&mut self, events: &Vec<InputEvent>)
        ensures
            *final(self) == fold_all(*old(self), events@),
    {
        let mut i: usize = 0;
        while i < events.len()
            invariant
                0 <= i <= events@.len(),
                *self == fold_all(*old(self), events@.take(i as int)),
            decreases events@.len() - i,
        {
            assert(events@.take(i + 1).drop_last() == events@.take(i as int));
            self.fold_event(events[i]);
            i = i + 1;
        }
        assert(events@.take(events@.len() as int) == events@);
    }

    /// Direction in which the planet turns this frame: +1 while only the
    /// right key is held, -1 while only the left one is, 0 otherwise.
    pub fn rotation_sign(&self) -> (r: i8)
        ensures
            r == (if self.right_pressed {
                1int
            } else {
                0
            }) - (if self.left_pressed {
                1int
            } else {
                0
            }),
    {
        let mut r: i8 = 0;
        if self.right_pressed {
            r = r + 1;
        }
        if self.left_pressed {
            r = r - 1;
        }
        r
    }
}

/// The state after a sequence of events, taken in order.
pub open spec fn fold_all(s: InputState, events: Seq<InputEvent>) -> InputState
    decreases events.len(),
{
    if events.len() == 0 {
        s
    } else {
        apply_event(fold_all(s, events.drop_last()), events.last())
    }
}

/// The five shader units of the session.
#[derive(Clone, Copy, Debug, PartialEq, Eq, Structural)]
pub enum ShaderKind {
    Planet,
    PlanetShadowmap,
    Cloud,
    CloudShadowmap,
    Stars,
}

/// What is drawn: the sphere mesh through its index buffer, or the star points.
#[derive(Clone, Copy, Debug, PartialEq, Eq, Structural)]
pub enum Geometry {
    Sphere,
    StarPoints,
}

/// Which uniform set a draw takes: the planet's transform, the cloud shell's
/// (scaled up around the planet), or the stars' combined matrix.
#[derive(Clone, Copy, Debug, PartialEq, Eq, Structural)]
pub enum Uniforms {
    Planet,
    Cloud,
    Stars,
}

#[derive(Clone, Copy, Debug, PartialEq, Eq, Structural)]
pub enum Cull {
    Clockwise,
    CounterClockwise,
    Nothing,
}

/// One draw: every draw tests depth (less) and writes it.
#[derive(Clone, Copy, Debug, PartialEq, Eq, Structural)]
pub struct DrawCall {
    pub geometry: Geometry,
    pub shader: ShaderKind,
    pub uniforms: Uniforms,
    pub cull: Cull,
    pub alpha_blend: bool,
}

pub open spec fn draw(
    geometry: Geometry,
    shader: ShaderKind,
    uniforms: Uniforms,
    cull: Cull,
    alpha_blend: bool,
) -> DrawCall {
    DrawCall { geometry, shader, uniforms, cull, alpha_blend }
}

/// The shadow pass: the planet, then the cloud shell's back faces, then its
/// front faces, into the off-screen light map.
pub open spec fn shadow_draws() -> Seq<DrawCall> {
    seq![
        draw(Geometry::Sphere, ShaderKind::PlanetShadowmap, Uniforms::Planet, Cull::Clockwise, false),
        draw(Geometry::Sphere, ShaderKind::CloudShadowmap, Uniforms::Cloud, Cull::CounterClockwise, false),
        draw(Geometry::Sphere, ShaderKind::CloudShadowmap, Uniforms::Cloud, Cull::Clockwise, false),
    ]
}

/// The composite pass: the stars as points with no culling, the planet, then
/// the cloud shell blended, inside surface first and outside surface last.
pub open spec fn composite_draws() -> Seq<DrawCall> {
    seq![
        draw(Geometry::StarPoints, ShaderKind::Stars, Uniforms::Stars, Cull::Nothing, false),
        draw(Geometry::Sphere, ShaderKind::Planet, Uniforms::Planet, Cull::Clockwise, false),
        draw(Geometry::Sphere, ShaderKind::Cloud, Uniforms::Cloud, Cull::CounterClockwise, true),
        draw(Geometry::Sphere, ShaderKind::Cloud, Uniforms::Cloud, Cull::Clockwise, true),
    ]
}

/// The draws of the shadow pass, in order.
pub fn shadow_pass() -> (r: Vec<DrawCall>)
    ensures
        r@ == shadow_draws(),
{
    let r = vec![
        DrawCall {
            geometry: Geometry::Sphere,
            shader: ShaderKind::PlanetShadowmap,
            uniforms: Uniforms::Planet,
            cull: Cull::Clockwise,
            alpha_blend: false,
        },
        DrawCall {
            geometry: Geometry::Sphere,
            shader: ShaderKind::CloudShadowmap,
            uniforms: Uniforms::Cloud,
            cull: Cull::CounterClockwise,
            alpha_blend: false,
        },
        DrawCall {
            geometry: Geometry::Sphere,
            shader: ShaderKind::CloudShadowmap,
            uniforms: Uniforms::Cloud,
            cull: Cull::Clockwise,
            alpha_blend: false,
        },
    ];
    assert(r@ =~= shadow_draws());
    r
}

/// The draws of the composite pass, in order.
pub fn composite_pass() -> (r: Vec<DrawCall>)
    ensures
        r@ == composite_draws(),
{
    let r = vec![
        DrawCall {
            geometry: Geometry::StarPoints,
            shader: ShaderKind::Stars,
            uniforms: Uniforms::Stars,
            cull: Cull::Nothing,
            alpha_blend: false,
        },
        DrawCall {
            geometry: Geometry::Sphere,
            shader: ShaderKind::Planet,
            uniforms: Uniforms::Planet,
            cull: Cull::Clockwise,
            alpha_blend: false,
        },
        DrawCall {
            geometry: Geometry::Sphere,
            shader: ShaderKind::Cloud,
            uniforms: Uniforms::Cloud,
            cull: Cull::CounterClockwise,
            alpha_blend: true,
        },
        DrawCall {
            geometry: Geometry::Sphere,
            shader: ShaderKind::Cloud,
            uniforms: Uniforms::Cloud,
            cull: Cull::Clockwise,
            alpha_blend: true,
        },
    ];
    assert(r@ =~= composite_draws());
    r
}

/// The unit name whose sources a shader kind is built from, and whether it
/// is the shadow-pass variant.
pub open spec fn shader_source(kind: ShaderKind) -> (Seq<char>, bool) {
    match kind {
        ShaderKind::Planet => ("planet"@, false),
        ShaderKind::PlanetShadowmap => ("planet"@, true),
        ShaderKind::Cloud => ("cloud"@, false),
        ShaderKind::CloudShadowmap => ("cloud"@, true),
        ShaderKind::Stars => ("stars"@, false),
    }
}

impl ShaderKind {
    /// The unit name and shadow-variant flag of this kind (see `shader_source`).
    pub fn source(&self) -> (r: (&'static str, bool))
        ensures
            r.0@ == shader_source(*self).0,
            r.1 == shader_source(*self).1,
    {
        match self {
            ShaderKind::Planet => ("planet", false),
            ShaderKind::PlanetShadowmap => ("planet", true),
            ShaderKind::Cloud => ("cloud", false),
            ShaderKind::CloudShadowmap => ("cloud", true),
            ShaderKind::Stars => ("stars", false),
        }
    }
}

/// All five units, in the order they are loaded and checked each frame.
pub fn all_shader_kinds() -> (r: Vec<ShaderKind>)
    ensures
        r@ == seq![
            ShaderKind::Planet,
            ShaderKind::PlanetShadowmap,
            ShaderKind::Cloud,
            ShaderKind::CloudShadowmap,
            ShaderKind::Stars,
        ],
{
    let r = vec![
        ShaderKind::Planet,
        ShaderKind::PlanetShadowmap,
        ShaderKind::Cloud,
        ShaderKind::CloudShadowmap,
        ShaderKind::Stars,
    ];
    assert(r@ =~= seq![
        ShaderKind::Planet,
        ShaderKind::PlanetShadowmap,
        ShaderKind::Cloud,
        ShaderKind::CloudShadowmap,
        ShaderKind::Stars,
    ]);
    r
}

} // verus!
