//! Decoding of driver debug reports into one printable line.
//!
//! A debug report carries four numeric codes (source, type, id, severity)
//! and a message. The three enumerated codes are decoded to their symbolic
//! names, any unrecognized code to `unknown`, and the whole report is
//! rendered as one line of text. Printing the line is left to the caller.

use vstd::prelude::*;
use vstd::string::StringExecFns;

verus! {

/// Debug-report severity: high.
pub const DEBUG_SEVERITY_HIGH: u32 = 0x9146;

/// Debug-report severity: medium.
pub const DEBUG_SEVERITY_MEDIUM: u32 = 0x9147;

/// Debug-report severity: low.
pub const DEBUG_SEVERITY_LOW: u32 = 0x9148;

/// Debug-report severity: notification.
pub const DEBUG_SEVERITY_NOTIFICATION: u32 = 0x826B;

/// Debug-report source: the API itself.
pub const DEBUG_SOURCE_API: u32 = 0x8246;

/// Debug-report source: the window system.
pub const DEBUG_SOURCE_WINDOW_SYSTEM: u32 = 0x8247;

/// Debug-report source: the shader compiler.
pub const DEBUG_SOURCE_SHADER_COMPILER: u32 = 0x8248;

/// Debug-report source: a third party.
pub const DEBUG_SOURCE_THIRD_PARTY: u32 = 0x8249;

/// Debug-report source: the application.
pub const DEBUG_SOURCE_APPLICATION: u32 = 0x824A;

/// Debug-report source: other.
pub const DEBUG_SOURCE_OTHER: u32 = 0x824B;

/// Debug-report type: an error.
pub const DEBUG_TYPE_ERROR: u32 = 0x824C;

/// Debug-report type: deprecated behavior.
pub const DEBUG_TYPE_DEPRECATED_BEHAVIOR: u32 = 0x824D;

/// Debug-report type: undefined behavior.
pub const DEBUG_TYPE_UNDEFINED_BEHAVIOR: u32 = 0x824E;

/// Debug-report type: a portability concern.
pub const DEBUG_TYPE_PORTABILITY: u32 = 0x824F;

/// Debug-report type: a performance concern.
pub const DEBUG_TYPE_PERFORMANCE: u32 = 0x8250;

/// Debug-report type: a marker annotation.
pub const DEBUG_TYPE_MARKER: u32 = 0x8268;

/// Debug-report type: a group was pushed.
pub const DEBUG_TYPE_PUSH_GROUP: u32 = 0x8269;

/// Debug-report type: a group was popped.
pub const DEBUG_TYPE_POP_GROUP: u32 = 0x826A;

/// Debug-report type: other.
pub const DEBUG_TYPE_OTHER: u32 = 0x8251;

/// `code` is one of the documented severity codes.
pub open spec fn is_documented_severity(code: u32) -> bool {
    ||| code == DEBUG_SEVERITY_HIGH
    ||| code == DEBUG_SEVERITY_MEDIUM
    ||| code == DEBUG_SEVERITY_LOW
    ||| code == DEBUG_SEVERITY_NOTIFICATION
}

/// `code` is one of the documented source codes.
pub open spec fn is_documented_source(code: u32) -> bool {
    ||| code == DEBUG_SOURCE_API
    ||| code == DEBUG_SOURCE_WINDOW_SYSTEM
    ||| code == DEBUG_SOURCE_SHADER_COMPILER
    ||| code == DEBUG_SOURCE_THIRD_PARTY
    ||| code == DEBUG_SOURCE_APPLICATION
    ||| code == DEBUG_SOURCE_OTHER
}

/// `code` is one of the documented type codes.
pub open spec fn is_documented_type(code: u32) -> bool {
    ||| code == DEBUG_TYPE_ERROR
    ||| code == DEBUG_TYPE_DEPRECATED_BEHAVIOR
    ||| code == DEBUG_TYPE_UNDEFINED_BEHAVIOR
    ||| code == DEBUG_TYPE_PORTABILITY
    ||| code == DEBUG_TYPE_PERFORMANCE
    ||| code == DEBUG_TYPE_MARKER
    ||| code == DEBUG_TYPE_PUSH_GROUP
    ||| code == DEBUG_TYPE_POP_GROUP
    ||| code == DEBUG_TYPE_OTHER
}

/// The symbolic name of a severity code; `unknown` for any other code.
pub open spec fn spec_severity_label(code: u32) -> Seq<char> {
    if code == DEBUG_SEVERITY_HIGH {
        "HIGH"@
    } else if code == DEBUG_SEVERITY_MEDIUM {
        "MEDIUM"@
    } else if code == DEBUG_SEVERITY_LOW {
        "LOW"@
    } else if code == DEBUG_SEVERITY_NOTIFICATION {
        "NOTIFICATION"@
    } else {
        "unknown"@
    }
}

/// The symbolic name of a source code; `unknown` for any other code.
pub open spec fn spec_source_label(code: u32) -> Seq<char> {
    if code == DEBUG_SOURCE_API {
        "API"@
    } else if code == DEBUG_SOURCE_WINDOW_SYSTEM {
        "WINDOW_SYSTEM"@
    } else if code == DEBUG_SOURCE_SHADER_COMPILER {
        "SHADER_COMPILER"@
    } else if code == DEBUG_SOURCE_THIRD_PARTY {
        "THIRD_PARTY"@
    } else if code == DEBUG_SOURCE_APPLICATION {
        "APPLICATION"@
    } else if code == DEBUG_SOURCE_OTHER {
        "OTHER"@
    } else {
        "unknown"@
    }
}

/// The symbolic name of a type code; `unknown` for any other code.
pub open spec fn spec_type_label(code: u32) -> Seq<char> {
    if code == DEBUG_TYPE_ERROR {
        "ERROR"@
    } else if code == DEBUG_TYPE_DEPRECATED_BEHAVIOR {
        "DEPRECATED_BEHAVIOR"@
    } else if code == DEBUG_TYPE_UNDEFINED_BEHAVIOR {
        "UNDEFINED_BEHAVIOR"@
    } else if code == DEBUG_TYPE_PORTABILITY {
        "PORTABILITY"@
    } else if code == DEBUG_TYPE_PERFORMANCE {
        "PERFORMANCE"@
    } else if code == DEBUG_TYPE_MARKER {
        "MARKER"@
    } else if code == DEBUG_TYPE_PUSH_GROUP {
        "PUSH_GROUP"@
    } else if code == DEBUG_TYPE_POP_GROUP {
        "POP_GROUP"@
    } else {
        if code == DEBUG_TYPE_OTHER {
            "OTHER"@
        } else {
            "unknown"@
        }
    }
}

/// Decode a severity code to its symbolic name.
pub fn severity_label(code: u32) -> (r: &'static str)
    ensures
        r@ == spec_severity_label(code),
{
    if code == DEBUG_SEVERITY_HIGH {
        "HIGH"
    } else if code == DEBUG_SEVERITY_MEDIUM {
        "MEDIUM"
    } else if code == DEBUG_SEVERITY_LOW {
        "LOW"
    } else if code == DEBUG_SEVERITY_NOTIFICATION {
        "NOTIFICATION"
    } else {
        "unknown"
    }
}

/// Decode a source code to its symbolic name.
pub fn source_label(code: u32) -> (r: &'static str)
    ensures
        r@ == spec_source_label(code),
{
    if code == DEBUG_SOURCE_API {
        "API"
    } else if code == DEBUG_SOURCE_WINDOW_SYSTEM {
        "WINDOW_SYSTEM"
    } else if code == DEBUG_SOURCE_SHADER_COMPILER {
        "SHADER_COMPILER"
    } else if code == DEBUG_SOURCE_THIRD_PARTY {
        "THIRD_PARTY"
    } else if code == DEBUG_SOURCE_APPLICATION {
        "APPLICATION"
    } else if code == DEBUG_SOURCE_OTHER {
        "OTHER"
    } else {
        "unknown"
    }
}

/// Decode a type code to its symbolic name.
pub fn type_label(code: u32) -> (r: &'static str)
    ensures
        r@ == spec_type_label(code),
{
    if code == DEBUG_TYPE_ERROR {
        "ERROR"
    } else if code == DEBUG_TYPE_DEPRECATED_BEHAVIOR {
        "DEPRECATED_BEHAVIOR"
    } else if code == DEBUG_TYPE_UNDEFINED_BEHAVIOR {
        "UNDEFINED_BEHAVIOR"
    } else if code == DEBUG_TYPE_PORTABILITY {
        "PORTABILITY"
    } else if code == DEBUG_TYPE_PERFORMANCE {
        "PERFORMANCE"
    } else if code == DEBUG_TYPE_MARKER {
        "MARKER"
    } else if code == DEBUG_TYPE_PUSH_GROUP {
        "PUSH_GROUP"
    } else if code == DEBUG_TYPE_POP_GROUP {
        "POP_GROUP"
    } else if code == DEBUG_TYPE_OTHER {
        "OTHER"
    } else {
        "unknown"
    }
}

/// A code outside the documented enumerations is always rendered as
/// `unknown`, for each of the three decoded positions.
pub proof fn lemma_unknown_codes_render_unknown(severity: u32, source: u32, type_: u32)
    requires
        !is_documented_severity(severity),
        !is_documented_source(source),
        !is_documented_type(type_),
    ensures
        spec_severity_label(severity) == "unknown"@,
        spec_source_label(source) == "unknown"@,
        spec_type_label(type_) == "unknown"@,
{
}

/// The decimal digit character for `d`.
pub open spec fn spec_digit_char(d: nat) -> char
    recommends
        d < 10,
{
    if d == 0 {
        '0'
    } else if d == 1 {
        '1'
    } else if d == 2 {
        '2'
    } else if d == 3 {
        '3'
    } else if d == 4 {
        '4'
    } else if d == 5 {
        '5'
    } else if d == 6 {
        '6'
    } else if d == 7 {
        '7'
    } else if d == 8 {
        '8'
    } else {
        '9'
    }
}

/// The decimal rendering of `n`, most significant digit first, with no
/// leading zero except for `n == 0` itself.
pub open spec fn spec_decimal(n: nat) -> Seq<char>
    decreases n,
{
    if n < 10 {
        seq![spec_digit_char(n)]
    } else {
        spec_decimal(n / 10) + seq![spec_digit_char(n % 10)]
    }
}

/// The one-character string for the decimal digit `d`.
fn digit_str(d: u32) -> (r: &'static str)
    requires
        d < 10,
    ensures
        r@ == seq![spec_digit_char(d as nat)],
{
    let r: &'static str = if d == 0 {
        "0"
    } else if d == 1 {
        "1"
    } else if d == 2 {
        "2"
    } else if d == 3 {
        "3"
    } else if d == 4 {
        "4"
    } else if d == 5 {
        "5"
    } else if d == 6 {
        "6"
    } else if d == 7 {
        "7"
    } else if d == 8 {
        "8"
    } else {
        "9"
    };
    proof {
        reveal_strlit("0");
        reveal_strlit("1");
        reveal_strlit("2");
        reveal_strlit("3");
        reveal_strlit("4");
        reveal_strlit("5");
        reveal_strlit("6");
        reveal_strlit("7");
        reveal_strlit("8");
        reveal_strlit("9");
        assert(r@ =~= seq![spec_digit_char(d as nat)]);
    }
    r
}

/// Render `n` in decimal.
pub fn u32_decimal(n: u32) -> (r: String)
    ensures
        r@ == spec_decimal(n as nat),
    decreases n,
{
    if n < 10 {
        String::from_str(digit_str(n))
    } else {
        let mut s = u32_decimal(n / 10);
        s.append(digit_str(n % 10));
        proof {
            assert(s@ =~= spec_decimal(n as nat));
        }
        s
    }
}

/// The rendered line for one debug report.
pub open spec fn spec_debug_line(
    source: u32,
    type_: u32,
    id: u32,
    severity: u32,
    message: Seq<char>,
) -> Seq<char> {
    "DEBUG: "@ + message + ": severity="@ + spec_severity_label(severity) + " source="@
        + spec_source_label(source) + " type="@ + spec_type_label(type_) + " id="@ + spec_decimal(
        id as nat,
    )
}

/// Render one debug report as the line the default callback prints:
/// the message, then the decoded severity, source and type names, then
/// the numeric id.
pub fn debug_message_line(source: u32, type_: u32, id: u32, severity: u32, message: &str) -> (r:
    String)
    ensures
        r@ == spec_debug_line(source, type_, id, severity, message@),
{
    let mut s = String::from_str("DEBUG: ");
    s.append(message);
    s.append(": severity=");
    s.append(severity_label(severity));
    s.append(" source=");
    s.append(source_label(source));
    s.append(" type=");
    s.append(type_label(type_));
    s.append(" id=");
    let digits = u32_decimal(id);
    s.append(digits.as_str());
    proof {
        assert(s@ =~= spec_debug_line(source, type_, id, severity, message@));
    }
    s
}

} // verus!
