use vstd::prelude::*;

verus! {

/// Values of the OpenGL debug-output enums that name a message's source.
pub const DEBUG_SOURCE_API: u32 = 0x8246;
pub const DEBUG_SOURCE_WINDOW_SYSTEM: u32 = 0x8247;
pub const DEBUG_SOURCE_SHADER_COMPILER: u32 = 0x8248;
pub const DEBUG_SOURCE_THIRD_PARTY: u32 = 0x8249;
pub const DEBUG_SOURCE_APPLICATION: u32 = 0x824A;
pub const DEBUG_SOURCE_OTHER: u32 = 0x824B;

/// Values of the OpenGL debug-output enums that name a message's type.
pub const DEBUG_TYPE_ERROR: u32 = 0x824C;
pub const DEBUG_TYPE_DEPRECATED_BEHAVIOR: u32 = 0x824D;
pub const DEBUG_TYPE_UNDEFINED_BEHAVIOR: u32 = 0x824E;
pub const DEBUG_TYPE_PORTABILITY: u32 = 0x824F;
pub const DEBUG_TYPE_PERFORMANCE: u32 = 0x8250;
pub const DEBUG_TYPE_OTHER: u32 = 0x8251;
pub const DEBUG_TYPE_MARKER: u32 = 0x8268;

/// Values of the OpenGL debug-output enums that name a message's severity.
pub const DEBUG_SEVERITY_HIGH: u32 = 0x9146;
pub const DEBUG_SEVERITY_MEDIUM: u32 = 0x9147;
pub const DEBUG_SEVERITY_LOW: u32 = 0x9148;
pub const DEBUG_SEVERITY_NOTIFICATION: u32 = 0x826B;

pub open spec fn source_label(source: u32) -> Seq<char> {
    if source == DEBUG_SOURCE_API {
        "API"@
    } else if source == DEBUG_SOURCE_WINDOW_SYSTEM {
        "WINDOW SYSTEM"@
    } else if source == DEBUG_SOURCE_SHADER_COMPILER {
        "SHADER COMPILER"@
    } else if source == DEBUG_SOURCE_THIRD_PARTY {
        "THIRD PARTY"@
    } else if source == DEBUG_SOURCE_APPLICATION {
        "APPLICATION"@
    } else {
        "UNKNOWN"@
    }
}

pub open spec fn type_label(kind: u32) -> Seq<char> {
    if kind == DEBUG_TYPE_ERROR {
        "ERROR"@
    } else if kind == DEBUG_TYPE_DEPRECATED_BEHAVIOR {
        "DEPRECATED BEHAVIOR"@
    } else if kind == DEBUG_TYPE_UNDEFINED_BEHAVIOR {
        "UNDEFINED BEHAVIOR"@
    } else if kind == DEBUG_TYPE_PORTABILITY {
        "PORTABILITY"@
    } else if kind == DEBUG_TYPE_PERFORMANCE {
        "PERFORMANCE"@
    } else if kind == DEBUG_TYPE_OTHER {
        "OTHER"@
    } else if kind == DEBUG_TYPE_MARKER {
        "MARKER"@
    } else {
        "UNKNOWN"@
    }
}

pub open spec fn severity_label(severity: u32) -> Seq<char> {
    if severity == DEBUG_SEVERITY_HIGH {
        "HIGH"@
    } else if severity == DEBUG_SEVERITY_MEDIUM {
        "MEDIUM"@
    } else if severity == DEBUG_SEVERITY_LOW {
        "LOW"@
    } else if severity == DEBUG_SEVERITY_NOTIFICATION {
        "NOTIFICATION"@
    } else {
        "UNKNOWN"@
    }
}

/// The printed name of a debug message's source. An unlisted value, and the
/// "other" source itself, read as unknown.
pub fn source_name(source: u32) -> (r: &'static str)
    ensures
        r@ == source_label(source),
{
    if source == DEBUG_SOURCE_API {
        "API"
    } else if source == DEBUG_SOURCE_WINDOW_SYSTEM {
        "WINDOW SYSTEM"
    } else if source == DEBUG_SOURCE_SHADER_COMPILER {
        "SHADER COMPILER"
    } else if source == DEBUG_SOURCE_THIRD_PARTY {
        "THIRD PARTY"
    } else if source == DEBUG_SOURCE_APPLICATION {
        "APPLICATION"
    } else {
        "UNKNOWN"
    }
}

/// The printed name of a debug message's type; unknown for unlisted values.
pub fn kind_name(kind: u32) -> (r: &'static str)
    ensures
        r@ == type_label(kind),
{
    if kind == DEBUG_TYPE_ERROR {
        "ERROR"
    } else if kind == DEBUG_TYPE_DEPRECATED_BEHAVIOR {
        "DEPRECATED BEHAVIOR"
    } else if kind == DEBUG_TYPE_UNDEFINED_BEHAVIOR {
        "UNDEFINED BEHAVIOR"
    } else if kind == DEBUG_TYPE_PORTABILITY {
        "PORTABILITY"
    } else if kind == DEBUG_TYPE_PERFORMANCE {
        "PERFORMANCE"
    } else if kind == DEBUG_TYPE_OTHER {
        "OTHER"
    } else if kind == DEBUG_TYPE_MARKER {
        "MARKER"
    } else {
        "UNKNOWN"
    }
}

/// The printed name of a debug message's severity; unknown for unlisted values.
pub fn severity_name(severity: u32) -> (r: &'static str)
    ensures
        r@ == severity_label(severity),
{
    if severity == DEBUG_SEVERITY_HIGH {
        "HIGH"
    } else if severity == DEBUG_SEVERITY_MEDIUM {
        "MEDIUM"
    } else if severity == DEBUG_SEVERITY_LOW {
        "LOW"
    } else if severity == DEBUG_SEVERITY_NOTIFICATION {
        "NOTIFICATION"
    } else {
        "UNKNOWN"
    }
}

} // verus!
