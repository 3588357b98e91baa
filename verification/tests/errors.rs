use luisa_compute_backend::builtin::{luisa_compute_create_device_rust_interface, BuiltinBackend};
use luisa_compute_backend::error::{BackendError, BackendErrorKind};
use luisa_compute_backend::text::str_eq;

#[test]
fn kinds_have_their_names() {
    assert_eq!(BackendErrorKind::BackendNotFound.name(), "BackendNotFound");
    assert_eq!(BackendErrorKind::KernelExecution.name(), "KernelExecution");
    assert_eq!(BackendErrorKind::KernelCompilation.name(), "KernelCompilation");
    assert_eq!(BackendErrorKind::Network.name(), "Network");
    assert_eq!(BackendErrorKind::Other.name(), "Other");
}

#[test]
fn kind_names_agree_with_debug() {
    for kind in [
        BackendErrorKind::BackendNotFound,
        BackendErrorKind::KernelExecution,
        BackendErrorKind::KernelCompilation,
        BackendErrorKind::Network,
        BackendErrorKind::Other,
    ] {
        assert_eq!(kind.name(), format!("{:?}", kind));
    }
}

#[test]
fn compilation_and_execution_failures_are_told_apart() {
    assert_ne!(BackendErrorKind::KernelCompilation, BackendErrorKind::KernelExecution);
    assert_ne!(
        BackendErrorKind::KernelCompilation.name(),
        BackendErrorKind::KernelExecution.name()
    );
}

#[test]
fn backend_not_found_for_cuda() {
    let err = BackendError::backend_not_found("cuda", "liblc-api.so", "file not found");
    assert_eq!(err.kind, BackendErrorKind::BackendNotFound);
    assert!(err.message.contains("cuda"));
    assert!(err.message.contains("liblc-api.so"));
    assert!(err.message.contains("file not found"));
    assert_eq!(
        err.message,
        "device cuda not found. cuda device may not be enabled or liblc-api.so is not found. \
         detailed error: file not found"
    );
}

#[test]
fn backend_not_found_with_empty_parts() {
    let err = BackendError::backend_not_found("", "", "");
    assert_eq!(
        err.message,
        "device  not found.  device may not be enabled or  is not found. detailed error: "
    );
}

#[test]
fn debug_text_of_an_error() {
    let err = BackendError {
        kind: BackendErrorKind::KernelCompilation,
        message: String::from("unsupported instruction"),
    };
    assert_eq!(
        err.to_debug_string(),
        "BackendError: KernelCompilation, message:\n unsupported instruction\n\
         note: run with `LUISA_BACKTRACE=1` environment variable to display a backtrace for DSL code\n"
    );
}

#[test]
fn debug_text_keeps_a_message_of_several_lines() {
    let err = BackendError { kind: BackendErrorKind::Other, message: String::from("a\nb") };
    let text = err.to_debug_string();
    assert!(text.starts_with("BackendError: Other, message:\n a\nb\n"));
    assert!(text.ends_with("for DSL code\n"));
}

#[test]
fn an_error_can_be_cloned() {
    let err = BackendError { kind: BackendErrorKind::Network, message: String::from("reset") };
    let copy = err.clone();
    assert_eq!(copy.kind, err.kind);
    assert_eq!(copy.message, err.message);
}

#[test]
fn the_plugin_constructs_the_cpu_backend_where_enabled() {
    let created = luisa_compute_create_device_rust_interface("cpu", true, false);
    assert_eq!(created.ok(), Some(BuiltinBackend::Cpu));
}

#[test]
fn the_plugin_provides_the_remote_backend_where_enabled() {
    let created = luisa_compute_create_device_rust_interface("remote", false, true);
    assert_eq!(created.ok(), Some(BuiltinBackend::Remote));
    let created = luisa_compute_create_device_rust_interface("remote", true, true);
    assert_eq!(created.ok(), Some(BuiltinBackend::Remote));
}

#[test]
fn enabling_one_backend_does_not_enable_the_other() {
    assert!(luisa_compute_create_device_rust_interface("cpu", false, true).is_err());
    assert!(luisa_compute_create_device_rust_interface("remote", true, false).is_err());
}

#[test]
fn a_backend_that_is_not_enabled_is_not_found() {
    let err = luisa_compute_create_device_rust_interface("cpu", false, false).err();
    let err = err.expect("cpu is not enabled");
    assert_eq!(err.kind, BackendErrorKind::BackendNotFound);
    assert_eq!(
        err.message,
        "cpu backend is not enabled. Try to recompile with cpu backend enabled"
    );
    let err = luisa_compute_create_device_rust_interface("remote", true, false).err();
    let err = err.expect("remote is not enabled");
    assert_eq!(err.kind, BackendErrorKind::BackendNotFound);
    assert_eq!(
        err.message,
        "remote backend is not enabled. Try to recompile with remote backend enabled"
    );
}

#[test]
fn a_device_that_the_plugin_does_not_know_is_not_found() {
    for device in ["cuda", "", "Cpu"] {
        let err = luisa_compute_create_device_rust_interface(device, true, true).err();
        let err = err.expect("the plugin does not define this device");
        assert_eq!(err.kind, BackendErrorKind::BackendNotFound);
        assert_eq!(
            err.message,
            format!("backend {} is not defined in this shared library", device)
        );
    }
}

#[test]
fn texts_are_compared_character_by_character() {
    assert!(str_eq("", ""));
    assert!(str_eq("metal", "metal"));
    assert!(!str_eq("metal", "meta"));
    assert!(!str_eq("metal", "metaL"));
    assert!(!str_eq("a", ""));
    assert!(str_eq("\u{e9}t\u{e9}", "\u{e9}t\u{e9}"));
    assert!(!str_eq("\u{e9}", "e"));
}
