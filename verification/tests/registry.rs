//! The enumerants the core names, held against the bindings of the driver.

use gpu_harness::util::{
    DEBUG_SEVERITY_HIGH, DEBUG_SEVERITY_LOW, DEBUG_SEVERITY_MEDIUM, DEBUG_SEVERITY_NOTIFICATION,
    DEBUG_SOURCE_API, DEBUG_SOURCE_APPLICATION, DEBUG_SOURCE_SHADER_COMPILER,
    DEBUG_SOURCE_THIRD_PARTY, DEBUG_SOURCE_WINDOW_SYSTEM, DEBUG_TYPE_DEPRECATED_BEHAVIOR,
    DEBUG_TYPE_ERROR, DEBUG_TYPE_MARKER, DEBUG_TYPE_OTHER, DEBUG_TYPE_PERFORMANCE,
    DEBUG_TYPE_PORTABILITY, DEBUG_TYPE_UNDEFINED_BEHAVIOR,
};

#[test]
fn the_sources_are_those_of_the_bindings() {
    assert_eq!(DEBUG_SOURCE_API, gl::DEBUG_SOURCE_API);
    assert_eq!(DEBUG_SOURCE_WINDOW_SYSTEM, gl::DEBUG_SOURCE_WINDOW_SYSTEM);
    assert_eq!(DEBUG_SOURCE_SHADER_COMPILER, gl::DEBUG_SOURCE_SHADER_COMPILER);
    assert_eq!(DEBUG_SOURCE_THIRD_PARTY, gl::DEBUG_SOURCE_THIRD_PARTY);
    assert_eq!(DEBUG_SOURCE_APPLICATION, gl::DEBUG_SOURCE_APPLICATION);
}

#[test]
fn the_categories_are_those_of_the_bindings() {
    assert_eq!(DEBUG_TYPE_ERROR, gl::DEBUG_TYPE_ERROR);
    assert_eq!(DEBUG_TYPE_DEPRECATED_BEHAVIOR, gl::DEBUG_TYPE_DEPRECATED_BEHAVIOR);
    assert_eq!(DEBUG_TYPE_UNDEFINED_BEHAVIOR, gl::DEBUG_TYPE_UNDEFINED_BEHAVIOR);
    assert_eq!(DEBUG_TYPE_PORTABILITY, gl::DEBUG_TYPE_PORTABILITY);
    assert_eq!(DEBUG_TYPE_PERFORMANCE, gl::DEBUG_TYPE_PERFORMANCE);
    assert_eq!(DEBUG_TYPE_OTHER, gl::DEBUG_TYPE_OTHER);
    assert_eq!(DEBUG_TYPE_MARKER, gl::DEBUG_TYPE_MARKER);
}

#[test]
fn the_severities_are_those_of_the_bindings() {
    assert_eq!(DEBUG_SEVERITY_HIGH, gl::DEBUG_SEVERITY_HIGH);
    assert_eq!(DEBUG_SEVERITY_MEDIUM, gl::DEBUG_SEVERITY_MEDIUM);
    assert_eq!(DEBUG_SEVERITY_LOW, gl::DEBUG_SEVERITY_LOW);
    assert_eq!(DEBUG_SEVERITY_NOTIFICATION, gl::DEBUG_SEVERITY_NOTIFICATION);
}
