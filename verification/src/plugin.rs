//! The two plugin roots, the platforms they are built for, and the file each
//! is expected in.

use crate::text::str_eq;
use vstd::prelude::*;

verus! {

/// A platform on which the plugins are available.
#[derive(Debug, Copy, Clone, PartialEq, Eq, Structural, Hash)]
pub enum Platform {
    Windows,
    Linux,
}

/// One of the two native libraries that together serve every device.
#[derive(Debug, Copy, Clone, PartialEq, Eq, Structural, Hash)]
pub enum PluginRoot {
    /// The plugin of the GPU vendors' backends.
    NativeGpu,
    /// The plugin of the CPU and remote backends.
    CpuRemote,
}

/// The compiler that a plugin was built with.
pub struct RustcInfo {
    pub channel: &'static str,
    pub version: &'static str,
    pub date: &'static str,
}

/// The platform that an operating system's name stands for, if it is one on
/// which the plugins are available.
pub open spec fn platform_of(os: Seq<char>) -> Option<Platform> {
    if os == "windows"@ {
        Some(Platform::Windows)
    } else if os == "linux"@ {
        Some(Platform::Linux)
    } else {
        None
    }
}

/// The plugin root that serves a device name, if the name is a device's.
pub open spec fn device_root(device: Seq<char>) -> Option<PluginRoot> {
    if device == "cpu"@ || device == "remote"@ {
        Some(PluginRoot::CpuRemote)
    } else if device == "cuda"@ || device == "dx"@ || device == "metal"@ {
        Some(PluginRoot::NativeGpu)
    } else {
        None
    }
}

/// `device` is one of the five names that a device can be asked for by.
pub open spec fn is_device_name(device: Seq<char>) -> bool {
    device == "cpu"@ || device == "remote"@ || device == "cuda"@ || device == "dx"@ || device
        == "metal"@
}

/// The file that holds a plugin root on a platform.
pub open spec fn library_file_name(platform: Platform, root: PluginRoot) -> Seq<char> {
    match (platform, root) {
        (Platform::Windows, PluginRoot::NativeGpu) => "lc-api.dll"@,
        (Platform::Windows, PluginRoot::CpuRemote) => "luisa_compute_backend_impl.dll"@,
        (Platform::Linux, PluginRoot::NativeGpu) => "liblc-api.so"@,
        (Platform::Linux, PluginRoot::CpuRemote) => "libluisa_compute_backend_impl.so"@,
    }
}

impl Platform {
    /// The platform named by `os`, the operating system's name in lower
    /// case; `None` where the plugins are not available for it.
    pub fn from_os_name(os: &str) -> (platform: Option<Platform>)
        ensures
            platform == platform_of(os@),
    {
        if str_eq(os, "windows") {
            Some(Platform::Windows)
        } else if str_eq(os, "linux") {
            Some(Platform::Linux)
        } else {
            None
        }
    }
}

impl PluginRoot {
    /// The plugin root that serves `device`; `None` where `device` is not a
    /// device's name, in which case no plugin is to be consulted.
    pub fn of_device(device: &str) -> (root: Option<PluginRoot>)
        ensures
            root == device_root(device@),
    {
        if str_eq(device, "cpu") || str_eq(device, "remote") {
            Some(PluginRoot::CpuRemote)
        } else if str_eq(device, "cuda") || str_eq(device, "dx") || str_eq(device, "metal") {
            Some(PluginRoot::NativeGpu)
        } else {
            None
        }
    }

    /// The name of the file that holds this plugin root on `platform`.
    pub fn library_file_name(&self, platform: Platform) -> (name: &'static str)
        ensures
            name@ == library_file_name(platform, *self),
    {
        match (platform, self) {
            (Platform::Windows, PluginRoot::NativeGpu) => "lc-api.dll",
            (Platform::Windows, PluginRoot::CpuRemote) => "luisa_compute_backend_impl.dll",
            (Platform::Linux, PluginRoot::NativeGpu) => "liblc-api.so",
            (Platform::Linux, PluginRoot::CpuRemote) => "libluisa_compute_backend_impl.so",
        }
    }
}

/// Every device name is served by exactly one plugin root: `cpu` and `remote`
/// by the CPU and remote plugin, `cuda`, `dx` and `metal` by the GPU plugin.
/// Any other name is served by none.
pub proof fn lemma_device_names_partition(device: Seq<char>)
    ensures
        device_root(device) == Some(PluginRoot::CpuRemote) <==> (device == "cpu"@ || device
            == "remote"@),
        device_root(device) == Some(PluginRoot::NativeGpu) <==> (device == "cuda"@ || device
            == "dx"@ || device == "metal"@),
        device_root(device) is None <==> !is_device_name(device),
{
    reveal_strlit("cpu");
    reveal_strlit("remote");
    reveal_strlit("cuda");
    reveal_strlit("dx");
    reveal_strlit("metal");
    assert("cpu"@.len() == 3 && "remote"@.len() == 6);
    assert("cuda"@.len() == 4 && "dx"@.len() == 2 && "metal"@.len() == 5);
}

/// The four plugin files have four different names: a file name tells both
/// the platform and the plugin root it was built for.
pub proof fn lemma_library_file_names_differ(
    platform: Platform,
    root: PluginRoot,
    other_platform: Platform,
    other_root: PluginRoot,
)
    requires
        library_file_name(platform, root) == library_file_name(other_platform, other_root),
    ensures
        platform == other_platform,
        root == other_root,
{
    reveal_strlit("lc-api.dll");
    reveal_strlit("luisa_compute_backend_impl.dll");
    reveal_strlit("liblc-api.so");
    reveal_strlit("libluisa_compute_backend_impl.so");
    assert("lc-api.dll"@.len() == 10);
    assert("luisa_compute_backend_impl.dll"@.len() == 30);
    assert("liblc-api.so"@.len() == 12);
    assert("libluisa_compute_backend_impl.so"@.len() == 32);
}

} // verus!
