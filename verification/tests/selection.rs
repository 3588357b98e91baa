use luisa_compute_backend::context::Context;
use luisa_compute_backend::error::BackendErrorKind;
use luisa_compute_backend::plugin::{Platform, PluginRoot, RustcInfo};

fn loaded(platform: Platform) -> Context<&'static str> {
    Context::new(platform, Ok("gpu plugin"), Ok("cpu plugin"))
}

#[test]
fn cpu_and_remote_are_served_by_the_cpu_plugin() {
    assert_eq!(PluginRoot::of_device("cpu"), Some(PluginRoot::CpuRemote));
    assert_eq!(PluginRoot::of_device("remote"), Some(PluginRoot::CpuRemote));
}

#[test]
fn gpu_devices_are_served_by_the_gpu_plugin() {
    assert_eq!(PluginRoot::of_device("cuda"), Some(PluginRoot::NativeGpu));
    assert_eq!(PluginRoot::of_device("dx"), Some(PluginRoot::NativeGpu));
    assert_eq!(PluginRoot::of_device("metal"), Some(PluginRoot::NativeGpu));
}

#[test]
fn other_names_are_served_by_no_plugin() {
    assert_eq!(PluginRoot::of_device("vulkan"), None);
    assert_eq!(PluginRoot::of_device(""), None);
    assert_eq!(PluginRoot::of_device("CPU"), None);
    assert_eq!(PluginRoot::of_device("cpu "), None);
    assert_eq!(PluginRoot::of_device("cud"), None);
    assert_eq!(PluginRoot::of_device("metal\u{e9}"), None);
}

#[test]
fn library_file_names_per_platform() {
    assert_eq!(PluginRoot::NativeGpu.library_file_name(Platform::Windows), "lc-api.dll");
    assert_eq!(
        PluginRoot::CpuRemote.library_file_name(Platform::Windows),
        "luisa_compute_backend_impl.dll"
    );
    assert_eq!(PluginRoot::NativeGpu.library_file_name(Platform::Linux), "liblc-api.so");
    assert_eq!(
        PluginRoot::CpuRemote.library_file_name(Platform::Linux),
        "libluisa_compute_backend_impl.so"
    );
}

#[test]
fn platforms_by_operating_system_name() {
    assert_eq!(Platform::from_os_name("windows"), Some(Platform::Windows));
    assert_eq!(Platform::from_os_name("linux"), Some(Platform::Linux));
    assert_eq!(Platform::from_os_name("macos"), None);
    assert_eq!(Platform::from_os_name("Linux"), None);
    assert_eq!(Platform::from_os_name(""), None);
}

#[test]
fn context_keeps_both_outcomes() {
    let context: Context<u32> =
        Context::new(Platform::Linux, Err(libloading::Error::DlOpen { desc: c"no gpu".into() }), Ok(7));
    assert_eq!(context.platform, Platform::Linux);
    assert!(context.cpp.is_err());
    assert_eq!(context.rust.ok(), Some(7));
}

#[test]
fn a_loaded_plugin_serves_its_devices() {
    let context = loaded(Platform::Linux);
    for (device, plugin) in [
        ("cpu", "cpu plugin"),
        ("remote", "cpu plugin"),
        ("cuda", "gpu plugin"),
        ("dx", "gpu plugin"),
        ("metal", "gpu plugin"),
    ] {
        let config = serde_json::Value::String(String::from(device));
        let request = match context.create_device(device, config.clone()) {
            Ok(request) => request,
            Err(_) => panic!("{} was not created", device),
        };
        assert_eq!(*request.provider, plugin);
        assert_eq!(request.device, device);
        assert_eq!(request.config, config);
    }
}

#[test]
fn the_configuration_is_handed_on_unchanged() {
    let context = loaded(Platform::Windows);
    let mut fields = serde_json::Map::new();
    fields.insert(String::from("device_index"), serde_json::Value::from(2));
    fields.insert(String::from("validation"), serde_json::Value::Bool(true));
    let config = serde_json::Value::Object(fields);
    let request = match context.create_device("cuda", config.clone()) {
        Ok(request) => request,
        Err(_) => panic!("cuda was not created"),
    };
    assert_eq!(request.config, config);
    assert_eq!(request.config["device_index"], serde_json::Value::from(2));
}

#[test]
fn backend_not_found_names_device_file_and_reason() {
    let context: Context<u32> =
        Context::new(Platform::Linux, Err(libloading::Error::DlOpen { desc: c"file not found".into() }), Ok(1));
    let err = match context.create_device("cuda", serde_json::Value::Null) {
        Ok(_) => panic!("cuda was created from a plugin that failed to load"),
        Err(err) => err,
    };
    assert_eq!(err.kind, BackendErrorKind::BackendNotFound);
    assert!(err.message.contains("cuda"));
    assert!(err.message.contains("liblc-api.so"));
    assert!(err.message.contains("file not found"));
    assert_eq!(
        err.message,
        "device cuda not found. cuda device may not be enabled or liblc-api.so is not found. \
         detailed error: file not found"
    );
}

#[test]
fn every_device_of_a_failed_gpu_plugin_is_not_found() {
    for (platform, file) in [(Platform::Linux, "liblc-api.so"), (Platform::Windows, "lc-api.dll")] {
        let context: Context<u32> =
            Context::new(platform, Err(libloading::Error::DlOpen { desc: c"cannot open shared object".into() }), Ok(1));
        for device in ["cuda", "dx", "metal"] {
            let err = match context.create_device(device, serde_json::Value::Null) {
                Ok(_) => panic!("{} was created", device),
                Err(err) => err,
            };
            assert_eq!(err.kind, BackendErrorKind::BackendNotFound);
            assert_eq!(
                err.message,
                format!(
                    "device {0} not found. {0} device may not be enabled or {1} is not found. \
                     detailed error: cannot open shared object",
                    device, file
                )
            );
        }
        for device in ["cpu", "remote"] {
            assert!(context.create_device(device, serde_json::Value::Null).is_ok());
        }
    }
}

#[test]
fn every_device_of_a_failed_cpu_plugin_is_not_found() {
    for (platform, file) in [
        (Platform::Linux, "libluisa_compute_backend_impl.so"),
        (Platform::Windows, "luisa_compute_backend_impl.dll"),
    ] {
        let context: Context<u32> =
            Context::new(platform, Ok(1), Err(libloading::Error::DlOpenUnknown));
        for device in ["cpu", "remote"] {
            let err = match context.create_device(device, serde_json::Value::Null) {
                Ok(_) => panic!("{} was created", device),
                Err(err) => err,
            };
            assert_eq!(err.kind, BackendErrorKind::BackendNotFound);
            assert_eq!(
                err.message,
                format!(
                    "device {0} not found. {0} device may not be enabled or {1} is not found. \
                     detailed error: dlopen failed, but system did not report the error",
                    device, file
                )
            );
        }
        for device in ["cuda", "dx", "metal"] {
            assert!(context.create_device(device, serde_json::Value::Null).is_ok());
        }
    }
}

#[test]
fn both_plugins_can_fail_independently() {
    let context: Context<u32> = Context::new(
        Platform::Linux,
        Err(libloading::Error::DlOpen { desc: c"gpu plugin missing".into() }),
        Err(libloading::Error::DlOpen { desc: c"cpu plugin missing".into() }),
    );
    let gpu = context.create_device("dx", serde_json::Value::Null).err().map(|e| e.message);
    let cpu = context.create_device("cpu", serde_json::Value::Null).err().map(|e| e.message);
    assert!(gpu.as_deref().is_some_and(|m| m.ends_with("gpu plugin missing")));
    assert!(cpu.as_deref().is_some_and(|m| m.ends_with("cpu plugin missing")));
}

#[test]
fn rustc_info_holds_three_texts() {
    let info = RustcInfo { channel: "stable", version: "1.70.0", date: "2023-06-01" };
    assert_eq!(info.channel, "stable");
    assert_eq!(info.version, "1.70.0");
    assert_eq!(info.date, "2023-06-01");
}

#[test]
fn a_name_that_is_no_device_reaches_no_plugin() {
    let context = loaded(Platform::Linux);
    for device in ["opencl", "CUDA", "", "cpu ", "vulkan", "remote\0"] {
        assert!(context.try_create_device(device, serde_json::Value::Null).is_none());
    }
    let failed: Context<u32> = Context::new(
        Platform::Linux,
        Err(libloading::Error::DlOpenUnknown),
        Err(libloading::Error::DlOpenUnknown),
    );
    for device in ["opencl", "CUDA", ""] {
        assert!(failed.try_create_device(device, serde_json::Value::Null).is_none());
    }
}

#[test]
fn a_device_name_is_selected_as_create_device_does() {
    let context: Context<u32> =
        Context::new(Platform::Windows, Err(libloading::Error::DlOpenUnknown), Ok(5));
    let created = context.try_create_device("remote", serde_json::Value::Bool(true));
    let request = match created {
        Some(Ok(request)) => request,
        _ => panic!("remote was not created"),
    };
    assert_eq!(*request.provider, 5);
    assert_eq!(request.device, "remote");
    assert_eq!(request.config, serde_json::Value::Bool(true));
    let err = match context.try_create_device("metal", serde_json::Value::Null) {
        Some(Err(err)) => err,
        _ => panic!("metal was created from a plugin that failed to load"),
    };
    assert_eq!(err.kind, BackendErrorKind::BackendNotFound);
    assert_eq!(
        err.message,
        "device metal not found. metal device may not be enabled or lc-api.dll is not found. \
         detailed error: dlopen failed, but system did not report the error"
    );
}
