//! The entry point of the CPU and remote plugin: which of the backends that
//! the plugin was built with serves a device.

use crate::error::{BackendError, BackendErrorKind};
use crate::text::str_eq;
use vstd::prelude::*;
use vstd::string::*;

verus! {

/// A backend that the plugin provides. Which one serves a device is decided
/// here; constructing it is left to the plugin.
#[derive(Debug, Copy, Clone, PartialEq, Eq, Structural, Hash)]
pub enum BuiltinBackend {
    Cpu,
    Remote,
}

/// The message for a backend that the plugin knows but was built without.
pub open spec fn not_enabled_message(device: Seq<char>) -> Seq<char> {
    device + " backend is not enabled. Try to recompile with "@ + device + " backend enabled"@
}

/// The message for a device that the plugin does not know.
pub open spec fn not_defined_message(device: Seq<char>) -> Seq<char> {
    "backend "@ + device + " is not defined in this shared library"@
}

/// `err` is a `BackendNotFound` with the given message.
pub open spec fn is_not_found(err: BackendError, message: Seq<char>) -> bool {
    err.kind == BackendErrorKind::BackendNotFound && err.message@ == message
}

/// The backend that the plugin provides for `device`, given which of its
/// backends it was built with.
///
/// `cpu` and `remote` each yield their backend where it is enabled. A known
/// backend that is not enabled, and a device that the plugin does not know,
/// are both `BackendNotFound`, each with its own message.
pub fn luisa_compute_create_device_rust_interface(
    device: &str,
    cpu_enabled: bool,
    remote_enabled: bool,
) -> (created: Result<BuiltinBackend, BackendError>)
    ensures
        device@ == "cpu"@ && cpu_enabled ==> created == Ok::<BuiltinBackend, BackendError>(
            BuiltinBackend::Cpu,
        ),
        device@ == "cpu"@ && !cpu_enabled ==> created is Err && is_not_found(
            created->Err_0,
            not_enabled_message("cpu"@),
        ),
        device@ == "remote"@ && remote_enabled ==> created == Ok::<BuiltinBackend, BackendError>(
            BuiltinBackend::Remote,
        ),
        device@ == "remote"@ && !remote_enabled ==> created is Err && is_not_found(
            created->Err_0,
            not_enabled_message("remote"@),
        ),
        device@ != "cpu"@ && device@ != "remote"@ ==> created is Err && is_not_found(
            created->Err_0,
            not_defined_message(device@),
        ),
{
    proof {
        reveal_strlit("cpu");
        reveal_strlit("remote");
        assert("cpu"@.len() == 3 && "remote"@.len() == 6);
    }
    if str_eq(device, "cpu") {
        if cpu_enabled {
            Ok(BuiltinBackend::Cpu)
        } else {
            Err(not_enabled(device))
        }
    } else if str_eq(device, "remote") {
        if remote_enabled {
            Ok(BuiltinBackend::Remote)
        } else {
            Err(not_enabled(device))
        }
    } else {
        let mut message = String::from_str("backend ");
        message.append(device);
        message.append(" is not defined in this shared library");
        Err(BackendError { kind: BackendErrorKind::BackendNotFound, message })
    }
}

/// The error for a backend that the plugin knows but was built without.
fn not_enabled(device: &str) -> (err: BackendError)
    ensures
        is_not_found(err, not_enabled_message(device@)),
{
    let mut message = String::from_str(device);
    message.append(" backend is not enabled. Try to recompile with ");
    message.append(device);
    message.append(" backend enabled");
    BackendError { kind: BackendErrorKind::BackendNotFound, message }
}

} // verus!
