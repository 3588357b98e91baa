//! The error model: a closed set of failure kinds and a message.

use crate::text::{occurs_at, occurs_in};
use vstd::prelude::*;
use vstd::string::*;

verus! {

/// What went wrong, as far as a caller can act on it.
#[derive(Debug, Copy, Clone, PartialEq, Eq, Structural, PartialOrd, Ord, Hash)]
pub enum BackendErrorKind {
    /// A plugin or a device could not be resolved.
    BackendNotFound,
    /// A kernel failed while it ran, or after it was dispatched.
    KernelExecution,
    /// A kernel was malformed or is not supported by the backend.
    KernelCompilation,
    /// The transport to a remote backend failed.
    Network,
    /// Anything else.
    Other,
}

/// The name of a kind as it appears in diagnostics.
pub open spec fn kind_name(kind: BackendErrorKind) -> Seq<char> {
    match kind {
        BackendErrorKind::BackendNotFound => "BackendNotFound"@,
        BackendErrorKind::KernelExecution => "KernelExecution"@,
        BackendErrorKind::KernelCompilation => "KernelCompilation"@,
        BackendErrorKind::Network => "Network"@,
        BackendErrorKind::Other => "Other"@,
    }
}

impl BackendErrorKind {
    /// The name of this kind as it appears in diagnostics.
    pub fn name(&self) -> (name: &'static str)
        ensures
            name@ == kind_name(*self),
    {
        match self {
            BackendErrorKind::BackendNotFound => "BackendNotFound",
            BackendErrorKind::KernelExecution => "KernelExecution",
            BackendErrorKind::KernelCompilation => "KernelCompilation",
            BackendErrorKind::Network => "Network",
            BackendErrorKind::Other => "Other",
        }
    }
}

/// A failure reported by a backend or by plugin resolution.
#[derive(Clone)]
pub struct BackendError {
    pub kind: BackendErrorKind,
    pub message: String,
}

/// The diagnostic sentence of a device whose plugin could not be loaded.
pub open spec fn not_found_message(device: Seq<char>, library: Seq<char>, detail: Seq<char>) -> Seq<
    char,
> {
    "device "@ + device + " not found. "@ + device + " device may not be enabled or "@ + library
        + " is not found. detailed error: "@ + detail
}

/// The text that presents an error of the given kind and message to a user.
pub open spec fn report_text(kind: BackendErrorKind, message: Seq<char>) -> Seq<char> {
    "BackendError: "@ + kind_name(kind) + ", message:\n "@ + message
        + "\nnote: run with `LUISA_BACKTRACE=1` environment variable to display a backtrace for DSL code\n"@
}

impl BackendError {
    /// The error of a device whose plugin could not be loaded. The message
    /// names the device, the library file that was expected, and the reason
    /// the load failed.
    pub fn backend_not_found(device: &str, library: &str, detail: &str) -> (err: BackendError)
        ensures
            err.kind == BackendErrorKind::BackendNotFound,
            err.message@ == not_found_message(device@, library@, detail@),
    {
        let mut message = String::from_str("device ");
        message.append(device);
        message.append(" not found. ");
        message.append(device);
        message.append(" device may not be enabled or ");
        message.append(library);
        message.append(" is not found. detailed error: ");
        message.append(detail);
        BackendError { kind: BackendErrorKind::BackendNotFound, message }
    }

    /// The text that presents this error to a user: the kind, the message,
    /// and a note on how to obtain a backtrace.
    pub fn to_debug_string(&self) -> (text: String)
        ensures
            text@ == report_text(self.kind, self.message@),
    {
        let mut text = String::from_str("BackendError: ");
        text.append(self.kind.name());
        text.append(", message:\n ");
        text.append(self.message.as_str());
        text.append(
            "\nnote: run with `LUISA_BACKTRACE=1` environment variable to display a backtrace for DSL code\n",
        );
        text
    }
}

/// The sentence reported for a device whose plugin could not be loaded
/// carries, each word for word, the device's name, the name of the library
/// file that was expected, and the reason the load failed.
pub proof fn lemma_not_found_message_carries_its_parts(
    device: Seq<char>,
    library: Seq<char>,
    detail: Seq<char>,
)
    ensures
        occurs_in(device, not_found_message(device, library, detail)),
        occurs_in(library, not_found_message(device, library, detail)),
        occurs_in(detail, not_found_message(device, library, detail)),
{
    let message = not_found_message(device, library, detail);
    let before_device = "device "@;
    let before_library = "device "@ + device + " not found. "@ + device
        + " device may not be enabled or "@;
    let before_detail = before_library + library + " is not found. detailed error: "@;
    assert(message.subrange(before_device.len() as int, before_device.len() as int + device.len())
        =~= device);
    assert(occurs_at(device, message, before_device.len() as int));
    assert(message.subrange(before_library.len() as int, before_library.len() as int + library.len())
        =~= library);
    assert(occurs_at(library, message, before_library.len() as int));
    assert(message.subrange(before_detail.len() as int, before_detail.len() as int + detail.len())
        =~= detail);
    assert(occurs_at(detail, message, before_detail.len() as int));
}

/// The text that presents an error carries its message word for word, and
/// the name of its kind.
pub proof fn lemma_report_text_carries_the_error(kind: BackendErrorKind, message: Seq<char>)
    ensures
        occurs_in(kind_name(kind), report_text(kind, message)),
        occurs_in(message, report_text(kind, message)),
{
    let text = report_text(kind, message);
    let before_kind = "BackendError: "@;
    let before_message = before_kind + kind_name(kind) + ", message:\n "@;
    assert(text.subrange(before_kind.len() as int, before_kind.len() as int + kind_name(kind).len())
        =~= kind_name(kind));
    assert(occurs_at(kind_name(kind), text, before_kind.len() as int));
    assert(text.subrange(before_message.len() as int, before_message.len() as int + message.len())
        =~= message);
    assert(occurs_at(message, text, before_message.len() as int));
}

} // verus!
