use planet::frame::{
    all_shader_kinds, composite_pass, shadow_pass, Cull, DrawCall, Geometry, InputEvent,
    InputState, MouseButton, MouseState, RotateKey, ShaderKind, Uniforms,
};

fn call(geometry: Geometry, shader: ShaderKind, uniforms: Uniforms, cull: Cull, alpha_blend: bool) -> DrawCall {
    DrawCall { geometry, shader, uniforms, cull, alpha_blend }
}

#[test]
fn new_state_is_idle() {
    let s = InputState::new();
    assert!(s.run);
    assert!(!s.left_pressed && !s.right_pressed);
    assert_eq!(s.mouse, MouseState::new());
    assert_eq!(s.mouse.pos, (0, 0));
    assert_eq!(s.mouse.pressed, (false, false, false));
    assert_eq!(s.rotation_sign(), 0);
}

#[test]
fn keys_set_rotation_direction() {
    let mut s = InputState::new();
    s.fold_event(InputEvent::Key { key: RotateKey::Right, pressed: true });
    assert_eq!(s.rotation_sign(), 1);
    s.fold_event(InputEvent::Key { key: RotateKey::Left, pressed: true });
    assert_eq!(s.rotation_sign(), 0);
    s.fold_event(InputEvent::Key { key: RotateKey::Right, pressed: false });
    assert_eq!(s.rotation_sign(), -1);
    assert!(s.left_pressed && !s.right_pressed);
}

#[test]
fn pointer_events_update_mouse_state() {
    let mut s = InputState::new();
    s.fold_events(&vec![
        InputEvent::CursorMoved { x: 40, y: 30 },
        InputEvent::Button { button: MouseButton::Left, pressed: true },
        InputEvent::Button { button: MouseButton::Middle, pressed: true },
        InputEvent::CursorMoved { x: 0, y: 12 },
        InputEvent::Button { button: MouseButton::Left, pressed: false },
    ]);
    assert_eq!(s.mouse.pos, (40, 30));
    assert_eq!(s.mouse.pressed, (false, false, true));
    assert!(s.run);
}

#[test]
fn close_request_stops_the_loop() {
    let mut s = InputState::new();
    s.fold_events(&vec![InputEvent::CloseRequested]);
    assert!(!s.run);
}

#[test]
fn shadow_pass_order() {
    assert_eq!(
        shadow_pass(),
        vec![
            call(Geometry::Sphere, ShaderKind::PlanetShadowmap, Uniforms::Planet, Cull::Clockwise, false),
            call(Geometry::Sphere, ShaderKind::CloudShadowmap, Uniforms::Cloud, Cull::CounterClockwise, false),
            call(Geometry::Sphere, ShaderKind::CloudShadowmap, Uniforms::Cloud, Cull::Clockwise, false),
        ]
    );
}

#[test]
fn composite_pass_order() {
    assert_eq!(
        composite_pass(),
        vec![
            call(Geometry::StarPoints, ShaderKind::Stars, Uniforms::Stars, Cull::Nothing, false),
            call(Geometry::Sphere, ShaderKind::Planet, Uniforms::Planet, Cull::Clockwise, false),
            call(Geometry::Sphere, ShaderKind::Cloud, Uniforms::Cloud, Cull::CounterClockwise, true),
            call(Geometry::Sphere, ShaderKind::Cloud, Uniforms::Cloud, Cull::Clockwise, true),
        ]
    );
}

#[test]
fn five_shader_units() {
    let kinds = all_shader_kinds();
    assert_eq!(kinds.len(), 5);
    let sources: Vec<(&str, bool)> = kinds.iter().map(|k| k.source()).collect();
    assert_eq!(
        sources,
        vec![("planet", false), ("planet", true), ("cloud", false), ("cloud", true), ("stars", false)]
    );
}
