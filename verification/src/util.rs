//! The debug reporter: what is written to the console for a message of the
//! driver, and the driver's version.

use vstd::prelude::*;
use vstd::string::*;
use crate::command::{views, Command, CommandView, Reply};
use crate::context::{Batch, GraphicsContext};
use crate::text::{decimal, decimal_string, wrap_string, wrapped};

verus! {

// The enumerants of the driver's debug output, with the values the driver's
// registry gives them.

/// A message from the use of the driver interface.
pub const DEBUG_SOURCE_API: u32 = 0x8246;

/// A message from the window system.
pub const DEBUG_SOURCE_WINDOW_SYSTEM: u32 = 0x8247;

/// A message from the shader compiler.
pub const DEBUG_SOURCE_SHADER_COMPILER: u32 = 0x8248;

/// A message from a tool attached to the driver.
pub const DEBUG_SOURCE_THIRD_PARTY: u32 = 0x8249;

/// A message that the application inserted.
pub const DEBUG_SOURCE_APPLICATION: u32 = 0x824A;

/// An error.
pub const DEBUG_TYPE_ERROR: u32 = 0x824C;

/// The use of something deprecated.
pub const DEBUG_TYPE_DEPRECATED_BEHAVIOR: u32 = 0x824D;

/// The use of something whose behaviour is undefined.
pub const DEBUG_TYPE_UNDEFINED_BEHAVIOR: u32 = 0x824E;

/// The use of something that does not work everywhere.
pub const DEBUG_TYPE_PORTABILITY: u32 = 0x824F;

/// The use of something slow.
pub const DEBUG_TYPE_PERFORMANCE: u32 = 0x8250;

/// A message of no other category.
pub const DEBUG_TYPE_OTHER: u32 = 0x8251;

/// An annotation of the command stream.
pub const DEBUG_TYPE_MARKER: u32 = 0x8268;

/// A mere notification: the threshold of what is reported.
pub const DEBUG_SEVERITY_NOTIFICATION: u32 = 0x826B;

/// An error or a highly dangerous use.
pub const DEBUG_SEVERITY_HIGH: u32 = 0x9146;

/// A major performance warning or the use of something deprecated.
pub const DEBUG_SEVERITY_MEDIUM: u32 = 0x9147;

/// A redundant state change or something as harmless.
pub const DEBUG_SEVERITY_LOW: u32 = 0x9148;

/// The label of the source of a message.
pub open spec fn source_label(source: u32) -> Seq<char> {
    if source == DEBUG_SOURCE_API {
        "API"@
    } else if source == DEBUG_SOURCE_WINDOW_SYSTEM {
        "WINDOW SYSTEM"@
    } else if source == DEBUG_SOURCE_SHADER_COMPILER {
        "SHADER COMPILER"@
    } else if source == DEBUG_SOURCE_THIRD_PARTY {
        "THIRD PARTY"@
    } else if source == DEBUG_SOURCE_APPLICATION {
        "APPLICATION"@
    } else {
        "UNKNOWN SOURCE"@
    }
}

/// The label of the category of a message.
pub open spec fn type_label(ty: u32) -> Seq<char> {
    if ty == DEBUG_TYPE_ERROR {
        "ERROR"@
    } else if ty == DEBUG_TYPE_DEPRECATED_BEHAVIOR {
        "DEPRECATED BEHAVIOR"@
    } else if ty == DEBUG_TYPE_UNDEFINED_BEHAVIOR {
        "UNDEFINED BEHAVIOR"@
    } else if ty == DEBUG_TYPE_PORTABILITY {
        "PORTABILITY"@
    } else if ty == DEBUG_TYPE_PERFORMANCE {
        "PERFORMANCE"@
    } else if ty == DEBUG_TYPE_OTHER {
        "OTHER"@
    } else if ty == DEBUG_TYPE_MARKER {
        "MARKER"@
    } else {
        "UNKNOWN TYPE"@
    }
}

/// The label of the severity of a message.
pub open spec fn severity_label(severity: u32) -> Seq<char> {
    if severity == DEBUG_SEVERITY_HIGH {
        "HIGH"@
    } else if severity == DEBUG_SEVERITY_MEDIUM {
        "MEDIUM"@
    } else if severity == DEBUG_SEVERITY_LOW {
        "LOW"@
    } else if severity == DEBUG_SEVERITY_NOTIFICATION {
        "NOTIFICATION"@
    } else {
        "UNKNOWN SEVERITY"@
    }
}

/// Whether a message of the given severity is reported: those above mere
/// notifications are.
pub open spec fn reported(severity: u32) -> bool {
    severity > DEBUG_SEVERITY_NOTIFICATION
}

/// The text of a message that the driver left in a zero-terminated buffer.
pub open spec fn message_text(message: Seq<u8>) -> Seq<char> {
    match wrapped(message) {
        Some(text) => text,
        None => "<message is not UTF-8>"@,
    }
}

/// The line written for a message: `id: [TYPE: category, SEVERITY: severity
/// IN source], text`.
pub open spec fn report_line(source: u32, ty: u32, id: u32, severity: u32, text: Seq<char>) -> Seq<
    char,
> {
    decimal(id as nat) + ": [TYPE: "@ + type_label(ty) + ", SEVERITY: "@ + severity_label(severity)
        + " IN "@ + source_label(source) + "], "@ + text
}

/// The commands that switch the reporting of driver messages on.
pub open spec fn debug_commands() -> Seq<CommandView> {
    seq![CommandView::EnableDebugOutput, CommandView::InstallDebugCallback]
}

/// Names the source of a message; a source that is not known gets a label
/// of its own.
pub fn explain_debug_source(source: u32) -> (label: &'static str)
    ensures
        label@ == source_label(source),
{
    if source == DEBUG_SOURCE_API {
        "API"
    } else if source == DEBUG_SOURCE_WINDOW_SYSTEM {
        "WINDOW SYSTEM"
    } else if source == DEBUG_SOURCE_SHADER_COMPILER {
        "SHADER COMPILER"
    } else if source == DEBUG_SOURCE_THIRD_PARTY {
        "THIRD PARTY"
    } else if source == DEBUG_SOURCE_APPLICATION {
        "APPLICATION"
    } else {
        "UNKNOWN SOURCE"
    }
}

/// Names the category of a message; a category that is not known gets a
/// label of its own.
pub fn explain_debug_type(ty: u32) -> (label: &'static str)
    ensures
        label@ == type_label(ty),
{
    if ty == DEBUG_TYPE_ERROR {
        "ERROR"
    } else if ty == DEBUG_TYPE_DEPRECATED_BEHAVIOR {
        "DEPRECATED BEHAVIOR"
    } else if ty == DEBUG_TYPE_UNDEFINED_BEHAVIOR {
        "UNDEFINED BEHAVIOR"
    } else if ty == DEBUG_TYPE_PORTABILITY {
        "PORTABILITY"
    } else if ty == DEBUG_TYPE_PERFORMANCE {
        "PERFORMANCE"
    } else if ty == DEBUG_TYPE_OTHER {
        "OTHER"
    } else if ty == DEBUG_TYPE_MARKER {
        "MARKER"
    } else {
        "UNKNOWN TYPE"
    }
}

/// Names the severity of a message; a severity that is not known gets a
/// label of its own.
pub fn explain_debug_severity(severity: u32) -> (label: &'static str)
    ensures
        label@ == severity_label(severity),
{
    if severity == DEBUG_SEVERITY_HIGH {
        "HIGH"
    } else if severity == DEBUG_SEVERITY_MEDIUM {
        "MEDIUM"
    } else if severity == DEBUG_SEVERITY_LOW {
        "LOW"
    } else if severity == DEBUG_SEVERITY_NOTIFICATION {
        "NOTIFICATION"
    } else {
        "UNKNOWN SEVERITY"
    }
}

/// What is written to the console for a message of the driver: a line for a
/// message above the severity of a notification, nothing for any other.
/// `message` is the buffer that holds the zero-terminated text.
pub fn print_error(source: u32, ty: u32, id: u32, severity: u32, message: &[u8]) -> (line: Option<
    String,
>)
    ensures
        line is Some <==> reported(severity),
        line matches Some(text) ==> text@ == report_line(
            source,
            ty,
            id,
            severity,
            message_text(message@),
        ),
{
    if severity > DEBUG_SEVERITY_NOTIFICATION {
        let mut line = decimal_string(id);
        line.append(": [TYPE: ");
        line.append(explain_debug_type(ty));
        line.append(", SEVERITY: ");
        line.append(explain_debug_severity(severity));
        line.append(" IN ");
        line.append(explain_debug_source(source));
        line.append("], ");
        match wrap_string(message) {
            Some(text) => {
                line.append(text.as_str());
            },
            None => {
                line.append("<message is not UTF-8>");
            },
        }
        Some(line)
    } else {
        None
    }
}

/// Switches the reporting of driver messages on: the shell is to hand
/// every message to [`print_error`] and write what comes back.
pub fn enable_debug_callback(context: &mut GraphicsContext) -> (commands: Vec<Command>)
    requires
        old(context)@.loaded,
    ensures
        views(commands@) == debug_commands(),
        final(context)@ == old(context)@,
{
    let mut batch = Batch::begin(context);
    batch.issue(context, Command::EnableDebugOutput);
    batch.issue(context, Command::InstallDebugCallback);
    proof {
        assert(batch.issued() =~= debug_commands());
    }
    batch.commands
}

/// The command that asks the driver for its version.
pub fn version_query() -> (command: Command)
    ensures
        command@ == CommandView::GetVersion,
{
    Command::GetVersion
}

/// The driver's version, from the reply to [`version_query`]: the text
/// before the first zero byte. `None` if that text is not UTF-8.
pub fn version_string(reply: &Reply) -> (version: Option<String>)
    ensures
        version is Some <==> wrapped(reply.spec_bytes()) is Some,
        version matches Some(text) ==> Some(text@) == wrapped(reply.spec_bytes()),
{
    wrap_string(reply.bytes())
}

} // verus!
