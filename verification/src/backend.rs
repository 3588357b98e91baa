//! The capability contract: what every compute backend offers.
//!
//! Resources are named by opaque handles, one namespace per kind. A handle
//! comes from exactly one creation and goes to exactly one destruction of
//! the same kind; nothing here checks that, and nothing here keeps a record
//! of the handles that are live.

use crate::error::BackendError;
use vstd::prelude::*;

verus! {

/// `std::path::PathBuf`, the location of a shader cache. It is handed on as
/// it came.
#[verifier::external_type_specification]
#[verifier::external_body]
pub struct ExPathBuf(std::path::PathBuf);

/// A buffer of device memory.
#[derive(Debug, Copy, Clone, PartialEq, Eq, Structural, Hash)]
pub struct Buffer(pub u64);

/// A texture of up to three dimensions.
#[derive(Debug, Copy, Clone, PartialEq, Eq, Structural, Hash)]
pub struct Texture(pub u64);

/// An array of resources that shaders reach by index.
#[derive(Debug, Copy, Clone, PartialEq, Eq, Structural, Hash)]
pub struct BindlessArray(pub u64);

/// A queue on which commands run in the order they were submitted.
#[derive(Debug, Copy, Clone, PartialEq, Eq, Structural, Hash)]
pub struct Stream(pub u64);

/// A compiled kernel.
#[derive(Debug, Copy, Clone, PartialEq, Eq, Structural, Hash)]
pub struct Shader(pub u64);

/// A point that one stream signals and another waits for.
#[derive(Debug, Copy, Clone, PartialEq, Eq, Structural, Hash)]
pub struct Event(pub u64);

/// A triangle mesh for ray tracing.
#[derive(Debug, Copy, Clone, PartialEq, Eq, Structural, Hash)]
pub struct Mesh(pub u64);

/// A set of procedural primitives for ray tracing.
#[derive(Debug, Copy, Clone, PartialEq, Eq, Structural, Hash)]
pub struct ProceduralPrimitive(pub u64);

/// A top-level acceleration structure.
#[derive(Debug, Copy, Clone, PartialEq, Eq, Structural, Hash)]
pub struct Accel(pub u64);

/// A chain of images presented to a window.
#[derive(Debug, Copy, Clone, PartialEq, Eq, Structural, Hash)]
pub struct Swapchain(pub u64);

/// What a creation yields: the handle, and the address of the backend's own
/// object behind it.
#[derive(Debug, Copy, Clone, PartialEq, Eq, Structural, Hash)]
pub struct CreatedResourceInfo {
    pub handle: u64,
    pub native_handle: usize,
}

/// What the creation of a buffer yields.
#[derive(Debug, Copy, Clone, PartialEq, Eq, Structural, Hash)]
pub struct CreatedBufferInfo {
    pub resource: CreatedResourceInfo,
    pub element_stride: usize,
    pub total_size_bytes: usize,
}

/// What the creation of a shader yields.
#[derive(Debug, Copy, Clone, PartialEq, Eq, Hash)]
pub struct CreatedShaderInfo {
    pub resource: CreatedResourceInfo,
    pub block_size: [u32; 3],
}

/// What the creation of a swapchain yields. `S` is the storage format of
/// its images.
#[derive(Debug, Copy, Clone, PartialEq, Eq, Hash)]
pub struct CreatedSwapchainInfo<S> {
    pub resource: CreatedResourceInfo,
    pub storage: S,
}

/// A compute backend.
///
/// Each operation stands alone. Creations and synchronizations can fail;
/// destructions cannot. The formats that a backend consumes (type
/// descriptors, kernel modules, commands, pixel formats, options) are its
/// own: this layer hands them on and never looks inside.
pub trait Backend: Sync + Send {
    /// The descriptor of a buffer's element type.
    type Type;

    /// A kernel in the form the backend compiles.
    type KernelModule;

    /// One command of a command list.
    type Command;

    /// The format of a texture's pixels.
    type PixelFormat;

    /// The storage format of a swapchain's images.
    type PixelStorage;

    /// The kind of work a stream is made for.
    type StreamTag;

    /// The options of a shader compilation.
    type ShaderOption;

    /// The options of an acceleration structure.
    type AccelOption;

    /// What is called back, once, when dispatched work has completed.
    type Callback;

    fn create_buffer(&self, ty: &Self::Type, count: usize) -> Result<
        CreatedBufferInfo,
        BackendError,
    >;

    fn destroy_buffer(&self, buffer: Buffer);

    fn create_texture(
        &self,
        format: Self::PixelFormat,
        dimension: u32,
        width: u32,
        height: u32,
        depth: u32,
        mipmap_levels: u32,
    ) -> Result<CreatedResourceInfo, BackendError>;

    fn destroy_texture(&self, texture: Texture);

    fn create_bindless_array(&self, size: usize) -> Result<CreatedResourceInfo, BackendError>;

    fn destroy_bindless_array(&self, array: BindlessArray);

    fn create_stream(&self, tag: Self::StreamTag) -> Result<CreatedResourceInfo, BackendError>;

    fn destroy_stream(&self, stream: Stream);

    /// Blocks until all work dispatched to `stream` so far has completed.
    fn synchronize_stream(&self, stream: Stream) -> Result<(), BackendError>;

    /// Submits `command_list` to `stream` and returns. The commands run in
    /// the order of the list; `callback` is called once when they have
    /// completed.
    fn dispatch(
        &self,
        stream: Stream,
        command_list: &[Self::Command],
        callback: Self::Callback,
    ) -> Result<(), BackendError>;

    fn create_swapchain(
        &self,
        window_handle: u64,
        stream_handle: Stream,
        width: u32,
        height: u32,
        allow_hdr: bool,
        vsync: bool,
        back_buffer_size: u32,
    ) -> Result<CreatedSwapchainInfo<Self::PixelStorage>, BackendError>;

    fn destroy_swapchain(&self, swap_chain: Swapchain);

    fn present_display_in_stream(
        &self,
        stream_handle: Stream,
        swapchain_handle: Swapchain,
        image_handle: Texture,
    );

    /// Compiles `kernel`, or loads it from a cache. A kernel that cannot be
    /// compiled fails here; one that fails when it runs fails at dispatch.
    fn create_shader(&self, kernel: &Self::KernelModule, options: &Self::ShaderOption) -> Result<
        CreatedShaderInfo,
        BackendError,
    >;

    /// Where the backend keeps the compiled form of `shader`, if it keeps
    /// one.
    fn shader_cache_dir(&self, shader: Shader) -> Option<std::path::PathBuf>;

    fn destroy_shader(&self, shader: Shader);

    fn create_event(&self) -> Result<CreatedResourceInfo, BackendError>;

    fn destroy_event(&self, event: Event);

    fn signal_event(&self, event: Event, stream: Stream);

    /// Makes the work dispatched to `stream` after this call wait for
    /// `event` to be signalled.
    fn wait_event(&self, event: Event, stream: Stream) -> Result<(), BackendError>;

    /// Blocks until `event` has been signalled.
    fn synchronize_event(&self, event: Event) -> Result<(), BackendError>;

    fn create_mesh(&self, option: Self::AccelOption) -> Result<CreatedResourceInfo, BackendError>;

    fn create_procedural_primitive(&self, option: Self::AccelOption) -> Result<
        CreatedResourceInfo,
        BackendError,
    >;

    fn destroy_mesh(&self, mesh: Mesh);

    fn destroy_procedural_primitive(&self, primitive: ProceduralPrimitive);

    fn create_accel(&self, option: Self::AccelOption) -> Result<CreatedResourceInfo, BackendError>;

    fn destroy_accel(&self, accel: Accel);

    /// The value of a property that the backend defines; `None` for a
    /// property it does not know.
    fn query(&self, property: &str) -> Option<String>;
}

} // verus!
