//! The operations of a backend as they are offered across the boundary.
//!
//! There is one function per operation of [`Backend`]. Each makes the call
//! on the backend it is given, with the arguments as they came, and carries
//! what came back across the boundary (see [`crate::marshal`]): a payload
//! as it is, an error with its kind and with its message as a C string.

use crate::backend::{
    Accel, Backend, BindlessArray, Buffer, CreatedBufferInfo, CreatedResourceInfo,
    CreatedShaderInfo, CreatedSwapchainInfo, Event, Mesh, ProceduralPrimitive, Shader, Stream,
    Swapchain, Texture,
};
use crate::error::BackendError;
use crate::marshal::{
    c_string, c_string_bytes, carried_text, is_c_string, marshalled, unit_as_byte, unit_byte,
    BoundaryResult,
};
use vstd::prelude::*;
use vstd::string::*;

verus! {

/// A backend behind the boundary. It owns the backend: the far side holds
/// the interface and nothing else, and gives it back to
/// [`destroy_device`], once, when it is done.
pub struct DeviceInterface<B: Backend> {
    pub device: B,
}

/// Puts `backend` behind the boundary.
pub fn create_device_interface<B: Backend>(backend: B) -> (interface: DeviceInterface<B>)
    ensures
        interface.device == backend,
{
    DeviceInterface { device: backend }
}

/// Takes the backend back from behind the boundary. The interface is used
/// up: no operation can be asked of it afterwards.
pub fn destroy_device<B: Backend>(interface: DeviceInterface<B>) -> (backend: B)
    ensures
        backend == interface.device,
{
    interface.device
}

/// The value that crosses for a property: the backend's answer, or the empty
/// text where the backend has none.
pub open spec fn answer_text(value: Option<String>) -> Seq<char> {
    match value {
        Some(text) => text@,
        None => Seq::<char>::empty(),
    }
}

/// Creates a buffer of `count` elements of type `ty`.
pub fn create_buffer<B: Backend>(backend: &B, ty: &B::Type, count: usize) -> (out: BoundaryResult<CreatedBufferInfo>)
    ensures
        exists|result: Result<CreatedBufferInfo, BackendError>|
            #[trigger] call_ensures(B::create_buffer, (backend, ty, count), result) && marshalled(
                result,
                out,
            ),
        out.wf(),
{
    crate::marshal::map(backend.create_buffer(ty, count))
}

/// Destroys a buffer that `create_buffer` made.
pub fn destroy_buffer<B: Backend>(backend: &B, buffer: Buffer)
    ensures
        call_ensures(B::destroy_buffer, (backend, buffer), ()),
{
    backend.destroy_buffer(buffer)
}

/// Creates a texture of the given format, dimension, extent and number of
/// mipmap levels.
pub fn create_texture<B: Backend>(
    backend: &B,
    format: B::PixelFormat,
    dimension: u32,
    width: u32,
    height: u32,
    depth: u32,
    mipmap_levels: u32,
) -> (out: BoundaryResult<CreatedResourceInfo>)
    ensures
        exists|result: Result<CreatedResourceInfo, BackendError>|
            #[trigger] call_ensures(
                B::create_texture,
                (backend, format, dimension, width, height, depth, mipmap_levels),
                result,
            ) && marshalled(result, out),
        out.wf(),
{
    crate::marshal::map(backend.create_texture(format, dimension, width, height, depth, mipmap_levels))
}

/// Destroys a texture that `create_texture` made.
pub fn destroy_texture<B: Backend>(backend: &B, texture: Texture)
    ensures
        call_ensures(B::destroy_texture, (backend, texture), ()),
{
    backend.destroy_texture(texture)
}

/// Creates a bindless array of `size` slots.
pub fn create_bindless_array<B: Backend>(backend: &B, size: usize) -> (out: BoundaryResult<CreatedResourceInfo>)
    ensures
        exists|result: Result<CreatedResourceInfo, BackendError>|
            #[trigger] call_ensures(B::create_bindless_array, (backend, size), result)
                && marshalled(result, out),
        out.wf(),
{
    crate::marshal::map(backend.create_bindless_array(size))
}

/// Destroys a bindless array that `create_bindless_array` made.
pub fn destroy_bindless_array<B: Backend>(backend: &B, array: BindlessArray)
    ensures
        call_ensures(B::destroy_bindless_array, (backend, array), ()),
{
    backend.destroy_bindless_array(array)
}

/// Creates a stream for the kind of work that `tag` names.
pub fn create_stream<B: Backend>(backend: &B, tag: B::StreamTag) -> (out: BoundaryResult<CreatedResourceInfo>)
    ensures
        exists|result: Result<CreatedResourceInfo, BackendError>|
            #[trigger] call_ensures(B::create_stream, (backend, tag), result) && marshalled(
                result,
                out,
            ),
        out.wf(),
{
    crate::marshal::map(backend.create_stream(tag))
}

/// Destroys a stream that `create_stream` made.
pub fn destroy_stream<B: Backend>(backend: &B, stream: Stream)
    ensures
        call_ensures(B::destroy_stream, (backend, stream), ()),
{
    backend.destroy_stream(stream)
}

/// Blocks until the work on `stream` has completed. Success crosses as a
/// zero byte.
pub fn synchronize_stream<B: Backend>(backend: &B, stream: Stream) -> (out: BoundaryResult<u8>)
    ensures
        exists|result: Result<(), BackendError>|
            #[trigger] call_ensures(B::synchronize_stream, (backend, stream), result)
                && marshalled(unit_byte(result), out),
        out.wf(),
{
    crate::marshal::map(unit_as_byte(backend.synchronize_stream(stream)))
}

/// Submits `command_list` to `stream`: the backend is handed the commands
/// that were submitted, all of them and in their order, and the callback
/// with them. Success crosses as a zero byte.
pub fn dispatch<B: Backend>(
    backend: &B,
    stream: Stream,
    command_list: &[B::Command],
    callback: B::Callback,
) -> (out: BoundaryResult<u8>)
    ensures
        exists|result: Result<(), BackendError>|
            #[trigger] call_ensures(B::dispatch, (backend, stream, command_list, callback), result)
                && marshalled(unit_byte(result), out),
        out.wf(),
{
    crate::marshal::map(unit_as_byte(backend.dispatch(stream, command_list, callback)))
}

/// Compiles `kernel` with the given options.
pub fn create_shader<B: Backend>(
    backend: &B,
    kernel: &B::KernelModule,
    option: &B::ShaderOption,
) -> (out: BoundaryResult<CreatedShaderInfo>)
    ensures
        exists|result: Result<CreatedShaderInfo, BackendError>|
            #[trigger] call_ensures(B::create_shader, (backend, kernel, option), result)
                && marshalled(result, out),
        out.wf(),
{
    crate::marshal::map(backend.create_shader(kernel, option))
}

/// Destroys a shader that `create_shader` made.
pub fn destroy_shader<B: Backend>(backend: &B, shader: Shader)
    ensures
        call_ensures(B::destroy_shader, (backend, shader), ()),
{
    backend.destroy_shader(shader)
}

/// Creates an event.
pub fn create_event<B: Backend>(backend: &B) -> (out: BoundaryResult<CreatedResourceInfo>)
    ensures
        exists|result: Result<CreatedResourceInfo, BackendError>|
            #[trigger] call_ensures(B::create_event, (backend,), result) && marshalled(result, out),
        out.wf(),
{
    crate::marshal::map(backend.create_event())
}

/// Destroys an event that `create_event` made.
pub fn destroy_event<B: Backend>(backend: &B, event: Event)
    ensures
        call_ensures(B::destroy_event, (backend, event), ()),
{
    backend.destroy_event(event)
}

/// Makes `stream` signal `event` when the work dispatched to it so far has
/// completed.
pub fn signal_event<B: Backend>(backend: &B, event: Event, stream: Stream)
    ensures
        call_ensures(B::signal_event, (backend, event, stream), ()),
{
    backend.signal_event(event, stream)
}

/// Makes `stream` wait for `event`. Success crosses as a zero byte.
pub fn wait_event<B: Backend>(backend: &B, event: Event, stream: Stream) -> (out: BoundaryResult<u8>)
    ensures
        exists|result: Result<(), BackendError>|
            #[trigger] call_ensures(B::wait_event, (backend, event, stream), result) && marshalled(
                unit_byte(result),
                out,
            ),
        out.wf(),
{
    crate::marshal::map(unit_as_byte(backend.wait_event(event, stream)))
}

/// Blocks until `event` has been signalled. Success crosses as a zero byte.
pub fn synchronize_event<B: Backend>(backend: &B, event: Event) -> (out: BoundaryResult<u8>)
    ensures
        exists|result: Result<(), BackendError>|
            #[trigger] call_ensures(B::synchronize_event, (backend, event), result) && marshalled(
                unit_byte(result),
                out,
            ),
        out.wf(),
{
    crate::marshal::map(unit_as_byte(backend.synchronize_event(event)))
}

/// Creates a top-level acceleration structure.
pub fn create_accel<B: Backend>(backend: &B, option: B::AccelOption) -> (out: BoundaryResult<CreatedResourceInfo>)
    ensures
        exists|result: Result<CreatedResourceInfo, BackendError>|
            #[trigger] call_ensures(B::create_accel, (backend, option), result) && marshalled(
                result,
                out,
            ),
        out.wf(),
{
    crate::marshal::map(backend.create_accel(option))
}

/// Destroys an acceleration structure that `create_accel` made.
pub fn destroy_accel<B: Backend>(backend: &B, accel: Accel)
    ensures
        call_ensures(B::destroy_accel, (backend, accel), ()),
{
    backend.destroy_accel(accel)
}

/// Creates a mesh.
pub fn create_mesh<B: Backend>(backend: &B, option: B::AccelOption) -> (out: BoundaryResult<CreatedResourceInfo>)
    ensures
        exists|result: Result<CreatedResourceInfo, BackendError>|
            #[trigger] call_ensures(B::create_mesh, (backend, option), result) && marshalled(
                result,
                out,
            ),
        out.wf(),
{
    crate::marshal::map(backend.create_mesh(option))
}

/// Destroys a mesh that `create_mesh` made.
pub fn destroy_mesh<B: Backend>(backend: &B, mesh: Mesh)
    ensures
        call_ensures(B::destroy_mesh, (backend, mesh), ()),
{
    backend.destroy_mesh(mesh)
}

/// Creates a set of procedural primitives.
pub fn create_procedural_primitive<B: Backend>(backend: &B, option: B::AccelOption) -> (out: BoundaryResult<CreatedResourceInfo>)
    ensures
        exists|result: Result<CreatedResourceInfo, BackendError>|
            #[trigger] call_ensures(B::create_procedural_primitive, (backend, option), result)
                && marshalled(result, out),
        out.wf(),
{
    crate::marshal::map(backend.create_procedural_primitive(option))
}

/// Destroys a set of procedural primitives that
/// `create_procedural_primitive` made.
pub fn destroy_procedural_primitive<B: Backend>(backend: &B, primitive: ProceduralPrimitive)
    ensures
        call_ensures(B::destroy_procedural_primitive, (backend, primitive), ()),
{
    backend.destroy_procedural_primitive(primitive)
}

/// Asks the backend for a property. What crosses is a C string: the
/// backend's answer, or the empty text where it has none.
pub fn query<B: Backend>(backend: &B, property: &str) -> (out: Vec<u8>)
    ensures
        exists|value: Option<String>|
            #[trigger] call_ensures(B::query, (backend, property), value) && out@
                == c_string_bytes(carried_text(answer_text(value))),
        is_c_string(out@),
{
    let value = backend.query(property);
    proof {
        reveal_strlit("");
        assert(""@ =~= Seq::<char>::empty());
    }
    match &value {
        Some(text) => c_string(text.as_str()),
        None => c_string(""),
    }
}

/// Asks the backend where it keeps the compiled form of `shader`. The
/// answer is handed on as it came: a location, or nothing where the backend
/// keeps no such cache.
pub fn shader_cache_dir<B: Backend>(backend: &B, shader: Shader) -> (out: Option<
    std::path::PathBuf,
>)
    ensures
        call_ensures(B::shader_cache_dir, (backend, shader), out),
{
    backend.shader_cache_dir(shader)
}

/// Creates a swapchain for a window, presented from `stream_handle`.
pub fn create_swapchain<B: Backend>(
    backend: &B,
    window_handle: u64,
    stream_handle: Stream,
    width: u32,
    height: u32,
    allow_hdr: bool,
    vsync: bool,
    back_buffer_size: u32,
) -> (out: BoundaryResult<CreatedSwapchainInfo<B::PixelStorage>>)
    ensures
        exists|result: Result<CreatedSwapchainInfo<B::PixelStorage>, BackendError>|
            #[trigger] call_ensures(
                B::create_swapchain,
                (
                    backend,
                    window_handle,
                    stream_handle,
                    width,
                    height,
                    allow_hdr,
                    vsync,
                    back_buffer_size,
                ),
                result,
            ) && marshalled(result, out),
        out.wf(),
{
    crate::marshal::map(
        backend.create_swapchain(
            window_handle,
            stream_handle,
            width,
            height,
            allow_hdr,
            vsync,
            back_buffer_size,
        ),
    )
}

/// Presents `image` on `swapchain`, in the order of `stream_handle`.
pub fn present_display_in_stream<B: Backend>(
    backend: &B,
    stream_handle: Stream,
    swapchain: Swapchain,
    image: Texture,
)
    ensures
        call_ensures(B::present_display_in_stream, (backend, stream_handle, swapchain, image), ()),
{
    backend.present_display_in_stream(stream_handle, swapchain, image)
}

/// Destroys a swapchain that `create_swapchain` made.
pub fn destroy_swapchain<B: Backend>(backend: &B, swapchain: Swapchain)
    ensures
        call_ensures(B::destroy_swapchain, (backend, swapchain), ()),
{
    backend.destroy_swapchain(swapchain)
}

} // verus!
