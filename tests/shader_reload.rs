use planet::shader::{get_shader_change_time, shader_paths, Shader};

fn unit(time: u128) -> Shader<String> {
    let (frag, vert) = shader_paths("planet", false);
    Shader::new("first build".to_string(), time, frag, vert)
}

#[test]
fn paths_follow_the_naming_convention() {
    let (frag, vert) = shader_paths("planet", false);
    assert_eq!(frag, "shaders/planet.frag");
    assert_eq!(vert, "shaders/planet.vert");
    let (frag, vert) = shader_paths("cloud", true);
    assert_eq!(frag, "shaders/cloud_shadowmap.frag");
    assert_eq!(vert, "shaders/cloud.vert");
}

#[test]
fn change_time_is_the_newer_of_the_two() {
    assert_eq!(get_shader_change_time(Some(5), Some(9)), Some(9));
    assert_eq!(get_shader_change_time(Some(12), Some(9)), Some(12));
    assert_eq!(get_shader_change_time(Some(7), Some(7)), Some(7));
    assert_eq!(get_shader_change_time(None, Some(9)), None);
    assert_eq!(get_shader_change_time(Some(5), None), None);
}

#[test]
fn no_change_means_no_reload() {
    let u = unit(100);
    assert_eq!(u.reload_target(Some(100)), None);
    assert_eq!(u.reload_target(Some(99)), None);
    assert_eq!(u.reload_target(None), None);
}

#[test]
fn second_check_after_reload_does_nothing() {
    let mut u = unit(100);
    let observed = get_shader_change_time(Some(150), Some(120));
    let target = u.reload_target(observed);
    assert_eq!(target, Some(150));
    let err = u.finish_reload::<String>(150, Ok("second build".to_string()));
    assert_eq!(err, None);
    assert_eq!(u.program, "second build");
    assert_eq!(u.program_time, 150);
    assert_eq!(u.frag_path, "shaders/planet.frag");
    assert_eq!(u.reload_target(observed), None);
}

#[test]
fn touching_a_file_reloads_once() {
    let mut u = unit(100);
    let touched = get_shader_change_time(Some(100), Some(101));
    let mut compiles = 0;
    for _ in 0..3 {
        if let Some(t) = u.reload_target(touched) {
            compiles += 1;
            assert!(u.finish_reload::<String>(t, Ok("rebuilt".to_string())).is_none());
        }
    }
    assert_eq!(compiles, 1);
    assert_eq!(u.program_time, 101);
}

#[test]
fn failed_reload_keeps_the_old_program() {
    let mut u = unit(100);
    let target = u.reload_target(Some(200)).unwrap();
    let err = u.finish_reload(target, Err("syntax error".to_string()));
    assert_eq!(err, Some("syntax error".to_string()));
    assert_eq!(u.program, "first build");
    assert_eq!(u.program_time, 100);
    assert_eq!(u.vert_path, "shaders/planet.vert");
    // the next check tries again
    assert_eq!(u.reload_target(Some(200)), Some(200));
}
