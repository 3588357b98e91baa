//! The registry of loaded plugins and the selection of a device.

use crate::error::{
    lemma_not_found_message_carries_its_parts, not_found_message, BackendError, BackendErrorKind,
};
use crate::text::occurs_in;
use crate::plugin::{
    device_root, is_device_name, lemma_device_names_partition, library_file_name, Platform,
    PluginRoot,
};
use vstd::prelude::*;
use vstd::string::*;

verus! {

/// `libloading::Error`, the reason a plugin could not be loaded. Its content
/// is not read here; only its `Display` text is taken.
#[verifier::external_type_specification]
#[verifier::external_body]
pub struct ExLoadError(libloading::Error);

/// `serde_json::Value`, the configuration document that a caller supplies
/// for a device. It is handed on as it came.
#[verifier::external_type_specification]
#[verifier::external_body]
pub struct ExConfigValue(serde_json::Value);

/// The outcome of loading both plugin roots. `P` is what a loaded plugin
/// provides: its library and the runtime context made from it.
///
/// The two outcomes are independent. A failed load is kept, and is reported
/// only when a device of that plugin is asked for.
pub struct Context<P> {
    pub platform: Platform,
    pub cpp: Result<P, libloading::Error>,
    pub rust: Result<P, libloading::Error>,
}

/// What is needed to construct a device: the plugin that serves it, its name
/// and the caller's configuration.
pub struct DeviceRequest<'a, P> {
    pub provider: &'a P,
    pub device: String,
    pub config: serde_json::Value,
}

impl<P> Context<P> {
    /// The outcome of loading `root`.
    pub open spec fn outcome(&self, root: PluginRoot) -> Result<P, libloading::Error> {
        match root {
            PluginRoot::NativeGpu => self.cpp,
            PluginRoot::CpuRemote => self.rust,
        }
    }

    /// Records the outcome of loading the GPU plugin (`cpp`) and the CPU and
    /// remote plugin (`rust`) on `platform`.
    pub fn new(
        platform: Platform,
        cpp: Result<P, libloading::Error>,
        rust: Result<P, libloading::Error>,
    ) -> (context: Self)
        ensures
            context.platform == platform,
            context.cpp == cpp,
            context.rust == rust,
    {
        Context { platform, cpp, rust }
    }

    /// `created` is what asking this context for `device` with `config`
    /// yields.
    ///
    /// Only the plugin root of `device` is consulted. If it was loaded, the
    /// request names it, the device and the configuration. If its load
    /// failed, the error is `BackendNotFound`, and its message is the
    /// sentence of [`not_found_message`] for the device, the file expected on
    /// this platform and the `Display` text of the load error.
    pub open spec fn creates(
        &self,
        device: Seq<char>,
        config: serde_json::Value,
        created: Result<DeviceRequest<'_, P>, BackendError>,
    ) -> bool {
        device_root(device) matches Some(root) && match self.outcome(root) {
            Ok(provider) => created matches Ok(request) && *request.provider == provider
                && request.device@ == device && request.config == config,
            Err(reason) => created matches Err(err) && err.kind
                == BackendErrorKind::BackendNotFound && exists|detail: String|
                #[trigger] to_string_from_display_ensures::<libloading::Error>(&reason, detail)
                    && err.message@ == not_found_message(
                    device,
                    library_file_name(self.platform, root),
                    detail@,
                ),
        }
    }

    /// Selects the plugin that serves `device` and binds it to the caller's
    /// configuration; see [`Context::creates`]. `device` is one of the five
    /// device names: any other is the caller's error, to be caught before a
    /// plugin is consulted (see [`PluginRoot::of_device`]).
    pub fn create_device(&self, device: &str, config: serde_json::Value) -> (created: Result<
        DeviceRequest<'_, P>,
        BackendError,
    >)
        requires
            is_device_name(device@),
        ensures
            self.creates(device@, config, created),
    {
        proof {
            lemma_device_names_partition(device@);
        }
        let root = match PluginRoot::of_device(device) {
            Some(root) => root,
            None => PluginRoot::CpuRemote,
        };
        let outcome = match root {
            PluginRoot::NativeGpu => &self.cpp,
            PluginRoot::CpuRemote => &self.rust,
        };
        match outcome {
            Ok(provider) => Ok(DeviceRequest { provider, device: String::from_str(device), config }),
            Err(reason) => {
                let detail = reason.to_string();
                Err(
                    BackendError::backend_not_found(
                        device,
                        root.library_file_name(self.platform),
                        detail.as_str(),
                    ),
                )
            },
        }
    }

    /// As [`Context::create_device`], for any name: `None` where `device` is
    /// not a device's name. No plugin is consulted then, and nothing is
    /// created.
    pub fn try_create_device(&self, device: &str, config: serde_json::Value) -> (selected: Option<
        Result<DeviceRequest<'_, P>, BackendError>,
    >)
        ensures
            if is_device_name(device@) {
                selected matches Some(created) && self.creates(device@, config, created)
            } else {
                selected is None
            },
    {
        proof {
            lemma_device_names_partition(device@);
        }
        match PluginRoot::of_device(device) {
            Some(_) => Some(self.create_device(device, config)),
            None => None,
        }
    }
}

/// A device whose plugin failed to load is reported as not found, and the
/// message carries, each word for word, the device's name, the name of the
/// file expected on the context's platform, and the text of the load error.
pub proof fn lemma_failed_plugin_is_reported<P>(
    context: Context<P>,
    device: Seq<char>,
    config: serde_json::Value,
    created: Result<DeviceRequest<'_, P>, BackendError>,
)
    requires
        device_root(device) matches Some(root) && context.outcome(root) is Err,
        context.creates(device, config, created),
    ensures
        created matches Err(err) && err.kind == BackendErrorKind::BackendNotFound && occurs_in(
            device,
            err.message@,
        ) && occurs_in(
            library_file_name(context.platform, device_root(device)->0),
            err.message@,
        ) && exists|detail: String|
            #[trigger] to_string_from_display_ensures::<libloading::Error>(
                &context.outcome(device_root(device)->0)->Err_0,
                detail,
            ) && occurs_in(detail@, err.message@),
{
    let root = device_root(device)->0;
    let reason = context.outcome(root)->Err_0;
    let err = created->Err_0;
    let detail = choose|detail: String|
        #[trigger] to_string_from_display_ensures::<libloading::Error>(&reason, detail)
            && err.message@ == not_found_message(
            device,
            library_file_name(context.platform, root),
            detail@,
        );
    lemma_not_found_message_carries_its_parts(
        device,
        library_file_name(context.platform, root),
        detail@,
    );
}

/// Only the plugin root of a device is consulted: two contexts on one
/// platform that agree on the outcome of that root yield the same for the
/// device, whatever became of the other root.
pub proof fn lemma_only_the_devices_plugin_is_consulted<P>(
    context: Context<P>,
    other: Context<P>,
    device: Seq<char>,
    config: serde_json::Value,
    created: Result<DeviceRequest<'_, P>, BackendError>,
)
    requires
        context.platform == other.platform,
        device_root(device) matches Some(root) && context.outcome(root) == other.outcome(root),
    ensures
        context.creates(device, config, created) == other.creates(device, config, created),
{
}

/// A name that is none of the five device names reaches no plugin: no
/// plugin root serves it, and no context, whatever it has loaded, yields
/// anything for it, neither a device nor an error of a plugin.
pub proof fn lemma_unknown_device_reaches_no_plugin<P>(
    context: Context<P>,
    device: Seq<char>,
    config: serde_json::Value,
    created: Result<DeviceRequest<'_, P>, BackendError>,
)
    requires
        !is_device_name(device),
    ensures
        device_root(device) is None,
        !context.creates(device, config, created),
{
    lemma_device_names_partition(device);
}

/// A device name reaches exactly one plugin: what a context yields for it is
/// decided by the outcome of that plugin root, a device where it was loaded
/// and `BackendNotFound` where it was not.
pub proof fn lemma_device_reaches_its_plugin<P>(
    context: Context<P>,
    device: Seq<char>,
    config: serde_json::Value,
    created: Result<DeviceRequest<'_, P>, BackendError>,
)
    requires
        is_device_name(device),
        context.creates(device, config, created),
    ensures
        device_root(device) is Some,
        created is Ok <==> context.outcome(device_root(device)->0) is Ok,
        created matches Err(err) ==> err.kind == BackendErrorKind::BackendNotFound,
{
    lemma_device_names_partition(device);
}

} // verus!
