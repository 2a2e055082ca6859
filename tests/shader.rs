use emgl::{Shader, Uniform};

#[test]
fn new_shader_caches_nothing() {
    let s = Shader::from_program(7);
    assert_eq!(s.program(), 7);
    assert_eq!(s.cached_uniform_location("mvp"), None);
    assert_eq!(s.cached_attrib_location("position"), None);
}

#[test]
fn found_uniform_is_cached() {
    let mut s = Shader::from_program(1);
    assert_eq!(s.get("mvp", 3), Some(Uniform { loc: 3 }));
    assert_eq!(s.cached_uniform_location("mvp"), Some(3));
    // a later query result is not consulted once the name is cached
    assert_eq!(s.get("mvp", 9), Some(Uniform { loc: 3 }));
    assert_eq!(s.get("mvp", -1), Some(Uniform { loc: 3 }));
}

#[test]
fn missing_uniform_is_not_cached() {
    let mut s = Shader::from_program(1);
    assert_eq!(s.get("tint", -1), None);
    assert_eq!(s.cached_uniform_location("tint"), None);
    assert_eq!(s.get("tint", 0), Some(Uniform { loc: 0 }));
    assert_eq!(s.cached_uniform_location("tint"), Some(0));
}

#[test]
fn uniform_location_resolution() {
    let mut s = Shader::from_program(2);
    assert_eq!(s.get_uniform_location("a", -1), -1);
    assert_eq!(s.get_uniform_location("a", 5), 5);
    assert_eq!(s.get_uniform_location("a", 6), 5);
    assert_eq!(s.get_uniform_location("b", 6), 6);
    assert_eq!(s.cached_uniform_location("b"), Some(6));
    assert_eq!(s.cached_attrib_location("a"), None);
}

#[test]
fn attrib_and_uniform_caches_are_separate() {
    let mut s = Shader::from_program(2);
    assert_eq!(s.get_attrib_location("position", 0), 0);
    assert_eq!(s.get_attrib_location("position", 4), 0);
    assert_eq!(s.get_attrib_location("normal", -1), -1);
    assert_eq!(s.cached_attrib_location("position"), Some(0));
    assert_eq!(s.cached_attrib_location("normal"), None);
    assert_eq!(s.cached_uniform_location("position"), None);
    assert_eq!(s.get("position", 2), Some(Uniform { loc: 2 }));
    assert_eq!(s.cached_attrib_location("position"), Some(0));
}
