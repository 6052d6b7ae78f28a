use ezgl::debug;
use ezgl::debug::{debug_message_line, severity_label, source_label, type_label, u32_decimal};

#[test]
fn severity_codes_decode_to_their_names() {
    assert_eq!(severity_label(debug::DEBUG_SEVERITY_HIGH), "HIGH");
    assert_eq!(severity_label(debug::DEBUG_SEVERITY_MEDIUM), "MEDIUM");
    assert_eq!(severity_label(debug::DEBUG_SEVERITY_LOW), "LOW");
    assert_eq!(severity_label(debug::DEBUG_SEVERITY_NOTIFICATION), "NOTIFICATION");
}

#[test]
fn source_codes_decode_to_their_names() {
    assert_eq!(source_label(debug::DEBUG_SOURCE_API), "API");
    assert_eq!(source_label(debug::DEBUG_SOURCE_WINDOW_SYSTEM), "WINDOW_SYSTEM");
    assert_eq!(source_label(debug::DEBUG_SOURCE_SHADER_COMPILER), "SHADER_COMPILER");
    assert_eq!(source_label(debug::DEBUG_SOURCE_THIRD_PARTY), "THIRD_PARTY");
    assert_eq!(source_label(debug::DEBUG_SOURCE_APPLICATION), "APPLICATION");
    assert_eq!(source_label(debug::DEBUG_SOURCE_OTHER), "OTHER");
}

#[test]
fn type_codes_decode_to_their_names() {
    assert_eq!(type_label(debug::DEBUG_TYPE_ERROR), "ERROR");
    assert_eq!(type_label(debug::DEBUG_TYPE_DEPRECATED_BEHAVIOR), "DEPRECATED_BEHAVIOR");
    assert_eq!(type_label(debug::DEBUG_TYPE_UNDEFINED_BEHAVIOR), "UNDEFINED_BEHAVIOR");
    assert_eq!(type_label(debug::DEBUG_TYPE_PORTABILITY), "PORTABILITY");
    assert_eq!(type_label(debug::DEBUG_TYPE_PERFORMANCE), "PERFORMANCE");
    assert_eq!(type_label(debug::DEBUG_TYPE_MARKER), "MARKER");
    assert_eq!(type_label(debug::DEBUG_TYPE_PUSH_GROUP), "PUSH_GROUP");
    assert_eq!(type_label(debug::DEBUG_TYPE_POP_GROUP), "POP_GROUP");
    assert_eq!(type_label(debug::DEBUG_TYPE_OTHER), "OTHER");
}

#[test]
fn unrecognized_codes_render_unknown() {
    assert_eq!(severity_label(0), "unknown");
    assert_eq!(source_label(1), "unknown");
    assert_eq!(type_label(0xFFFF_FFFF), "unknown");
    let line = debug_message_line(1, 2, 3, 4, "odd");
    assert_eq!(line, "DEBUG: odd: severity=unknown source=unknown type=unknown id=3");
}

#[test]
fn known_codes_render_their_names_in_the_line() {
    let line = debug_message_line(
        debug::DEBUG_SOURCE_API,
        debug::DEBUG_TYPE_ERROR,
        42,
        debug::DEBUG_SEVERITY_HIGH,
        "boom",
    );
    assert_eq!(line, "DEBUG: boom: severity=HIGH source=API type=ERROR id=42");
}

#[test]
fn decimal_rendering_is_exact() {
    assert_eq!(u32_decimal(0), "0");
    assert_eq!(u32_decimal(7), "7");
    assert_eq!(u32_decimal(10), "10");
    assert_eq!(u32_decimal(40123), "40123");
    assert_eq!(u32_decimal(u32::MAX), "4294967295");
}

#[test]
fn debug_constants_match_the_loader() {
    assert_eq!(debug::DEBUG_SEVERITY_HIGH, glow::DEBUG_SEVERITY_HIGH);
    assert_eq!(debug::DEBUG_SEVERITY_MEDIUM, glow::DEBUG_SEVERITY_MEDIUM);
    assert_eq!(debug::DEBUG_SEVERITY_LOW, glow::DEBUG_SEVERITY_LOW);
    assert_eq!(debug::DEBUG_SEVERITY_NOTIFICATION, glow::DEBUG_SEVERITY_NOTIFICATION);
    assert_eq!(debug::DEBUG_SOURCE_API, glow::DEBUG_SOURCE_API);
    assert_eq!(debug::DEBUG_SOURCE_WINDOW_SYSTEM, glow::DEBUG_SOURCE_WINDOW_SYSTEM);
    assert_eq!(debug::DEBUG_SOURCE_SHADER_COMPILER, glow::DEBUG_SOURCE_SHADER_COMPILER);
    assert_eq!(debug::DEBUG_SOURCE_THIRD_PARTY, glow::DEBUG_SOURCE_THIRD_PARTY);
    assert_eq!(debug::DEBUG_SOURCE_APPLICATION, glow::DEBUG_SOURCE_APPLICATION);
    assert_eq!(debug::DEBUG_SOURCE_OTHER, glow::DEBUG_SOURCE_OTHER);
    assert_eq!(debug::DEBUG_TYPE_ERROR, glow::DEBUG_TYPE_ERROR);
    assert_eq!(debug::DEBUG_TYPE_DEPRECATED_BEHAVIOR, glow::DEBUG_TYPE_DEPRECATED_BEHAVIOR);
    assert_eq!(debug::DEBUG_TYPE_UNDEFINED_BEHAVIOR, glow::DEBUG_TYPE_UNDEFINED_BEHAVIOR);
    assert_eq!(debug::DEBUG_TYPE_PORTABILITY, glow::DEBUG_TYPE_PORTABILITY);
    assert_eq!(debug::DEBUG_TYPE_PERFORMANCE, glow::DEBUG_TYPE_PERFORMANCE);
    assert_eq!(debug::DEBUG_TYPE_MARKER, glow::DEBUG_TYPE_MARKER);
    assert_eq!(debug::DEBUG_TYPE_PUSH_GROUP, glow::DEBUG_TYPE_PUSH_GROUP);
    assert_eq!(debug::DEBUG_TYPE_POP_GROUP, glow::DEBUG_TYPE_POP_GROUP);
    assert_eq!(debug::DEBUG_TYPE_OTHER, glow::DEBUG_TYPE_OTHER);
}
