//! Routing of diagnostic messages. The driver hands the registered callback
//! a severity, a category and a message record whose optional fields may be
//! absent. The callback's whole job is to format that as one structured log
//! line at a level matching the severity, and to tell the driver that the
//! message was handled so that nothing is ever propagated back to it. The
//! formatting and both decisions are verified here; the unverified shell only
//! unpacks the native record and emits the line.

use vstd::prelude::*;

verus! {

/// Message severity as reported by the driver.
#[derive(Debug, Clone, Copy, PartialEq, Eq, Structural)]
pub enum DebugSeverity {
    Verbose,
    Info,
    Warning,
    Error,
}

/// Message category as reported by the driver.
#[derive(Debug, Clone, Copy, PartialEq, Eq, Structural)]
pub enum DebugMessageType {
    General,
    Validation,
    Performance,
}

/// The level at which the formatted line is logged.
#[derive(Debug, Clone, Copy, PartialEq, Eq, Structural)]
pub enum LogLevel {
    Trace,
    Info,
    Warn,
    Error,
}

/// The log level that matches each severity.
pub open spec fn spec_log_level(severity: DebugSeverity) -> LogLevel {
    match severity {
        DebugSeverity::Verbose => LogLevel::Trace,
        DebugSeverity::Info => LogLevel::Info,
        DebugSeverity::Warning => LogLevel::Warn,
        DebugSeverity::Error => LogLevel::Error,
    }
}

/// Picks the log level for a message of the given severity.
pub fn log_level_for_severity(severity: &DebugSeverity) -> (r: LogLevel)
    ensures
        r == spec_log_level(*severity),
{
    match severity {
        DebugSeverity::Verbose => LogLevel::Trace,
        DebugSeverity::Info => LogLevel::Info,
        DebugSeverity::Warning => LogLevel::Warn,
        DebugSeverity::Error => LogLevel::Error,
    }
}

pub open spec fn spec_severity_label(severity: DebugSeverity) -> Seq<char> {
    match severity {
        DebugSeverity::Verbose => "VERBOSE"@,
        DebugSeverity::Info => "INFO"@,
        DebugSeverity::Warning => "WARNING"@,
        DebugSeverity::Error => "ERROR"@,
    }
}

pub fn severity_label(severity: &DebugSeverity) -> (r: &'static str)
    ensures
        r@ == spec_severity_label(*severity),
{
    match severity {
        DebugSeverity::Verbose => "VERBOSE",
        DebugSeverity::Info => "INFO",
        DebugSeverity::Warning => "WARNING",
        DebugSeverity::Error => "ERROR",
    }
}

pub open spec fn spec_type_label(message_type: DebugMessageType) -> Seq<char> {
    match message_type {
        DebugMessageType::General => "GENERAL"@,
        DebugMessageType::Validation => "VALIDATION"@,
        DebugMessageType::Performance => "PERFORMANCE"@,
    }
}

pub fn type_label(message_type: &DebugMessageType) -> (r: &'static str)
    ensures
        r@ == spec_type_label(*message_type),
{
    match message_type {
        DebugMessageType::General => "GENERAL",
        DebugMessageType::Validation => "VALIDATION",
        DebugMessageType::Performance => "PERFORMANCE",
    }
}

/// The character for one decimal digit.
pub open spec fn spec_digit_char(d: int) -> char
    recommends
        0 <= d < 10,
{
    ((d + 48) as u8) as char
}

/// The decimal digits of a non-negative number, most significant first.
pub open spec fn spec_decimal_digits(n: nat) -> Seq<char>
    decreases n,
{
    if n < 10 {
        seq![spec_digit_char(n as int)]
    } else {
        spec_decimal_digits(n / 10).push(spec_digit_char((n % 10) as int))
    }
}

/// The decimal rendering of an integer, with a leading minus sign when it is
/// negative.
pub open spec fn spec_decimal(n: int) -> Seq<char> {
    if n < 0 {
        seq!['-'] + spec_decimal_digits((-n) as nat)
    } else {
        spec_decimal_digits(n as nat)
    }
}

fn digit_str(d: u32) -> (r: &'static str)
    requires
        d < 10,
    ensures
        r@ == seq![spec_digit_char(d as int)],
{
    let r: &'static str = match d {
        0 => "0",
        1 => "1",
        2 => "2",
        3 => "3",
        4 => "4",
        5 => "5",
        6 => "6",
        7 => "7",
        8 => "8",
        _ => "9",
    };
    proof {
        reveal_strlit("0");
        reveal_strlit("1");
        reveal_strlit("2");
        reveal_strlit("3");
        reveal_strlit("4");
        reveal_strlit("5");
        reveal_strlit("6");
        reveal_strlit("7");
        reveal_strlit("8");
        reveal_strlit("9");
        assert(r@ =~= seq![spec_digit_char(d as int)]);
    }
    r
}

fn append_decimal_digits(n: u32, out: &mut String)
    ensures
        final(out)@ == old(out)@ + spec_decimal_digits(n as nat),
    decreases n,
{
    if n < 10 {
        out.append(digit_str(n));
        proof {
            assert(out@ =~= old(out)@ + spec_decimal_digits(n as nat));
        }
    } else {
        append_decimal_digits(n / 10, out);
        out.append(digit_str(n % 10));
        proof {
            assert(out@ =~= old(out)@ + spec_decimal_digits(n as nat));
        }
    }
}

/// Renders a message id number in decimal.
pub fn format_message_id_number(n: i32) -> (r: String)
    ensures
        r@ == spec_decimal(n as int),
{
    let mut out = String::new();
    if n < 0 {
        out.append("-");
        let magnitude: u32 = (-(n as i64)) as u32;
        proof {
            assert(magnitude as int == -(n as int));
            reveal_strlit("-");
            assert(out@ =~= seq!['-']);
        }
        append_decimal_digits(magnitude, &mut out);
        proof {
            assert(out@ =~= spec_decimal(n as int));
        }
    } else {
        append_decimal_digits(n as u32, &mut out);
        proof {
            assert(out@ =~= spec_decimal(n as int));
        }
    }
    out
}

/// An optional text field of the native message record; an absent field is
/// treated as the empty string.
pub open spec fn spec_opt_text(o: Option<&String>) -> Seq<char> {
    match o {
        Some(s) => s@,
        None => Seq::empty(),
    }
}

/// The one structured log line built for a diagnostic message: severity,
/// category, message id name, message id number and free text.
pub open spec fn spec_formatted_debug_message(
    severity: DebugSeverity,
    message_type: DebugMessageType,
    message_id_name: Seq<char>,
    message_id_number: int,
    message: Seq<char>,
) -> Seq<char> {
    spec_severity_label(severity) + ":\n"@ + spec_type_label(message_type) + " ["@
        + message_id_name + " ("@ + spec_decimal(message_id_number) + ")] : "@ + message + "\n"@
}

/// Formats a diagnostic message. Absent optional fields are rendered as
/// empty text; no input makes this fail.
pub fn format_debug_message(
    severity: &DebugSeverity,
    message_type: &DebugMessageType,
    message_id_name: Option<&String>,
    message_id_number: i32,
    message: Option<&String>,
) -> (r: String)
    ensures
        r@ == spec_formatted_debug_message(
            *severity,
            *message_type,
            spec_opt_text(message_id_name),
            message_id_number as int,
            spec_opt_text(message),
        ),
{
    let mut out = String::new();
    out.append(severity_label(severity));
    out.append(":\n");
    out.append(type_label(message_type));
    out.append(" [");
    if let Some(name) = message_id_name {
        out.append(name.as_str());
    }
    out.append(" (");
    let id = format_message_id_number(message_id_number);
    out.append(id.as_str());
    out.append(")] : ");
    if let Some(text) = message {
        out.append(text.as_str());
    }
    out.append("\n");
    proof {
        assert(out@ =~= spec_formatted_debug_message(
            *severity,
            *message_type,
            spec_opt_text(message_id_name),
            message_id_number as int,
            spec_opt_text(message),
        ));
    }
    out
}

/// What the callback hands back to the driver: "handled, do not abort".
/// The driver reads zero as "do not abort the call that triggered the
/// message"; the callback never reports anything else, so no error ever
/// crosses the callback boundary.
pub fn debug_callback_response() -> (r: u32)
    ensures
        r == 0u32,
{
    0
}

} // verus!
