use vstd::prelude::*;

use crate::frame::FrameError;
use crate::geometry::Extent;

verus! {

#[verifier::external_type_specification]
#[verifier::external_body]
pub struct ExSurface(wgpu::Surface);

#[verifier::external_type_specification]
#[verifier::external_body]
pub struct ExDevice(wgpu::Device);

#[verifier::external_type_specification]
#[verifier::external_body]
pub struct ExQueue(wgpu::Queue);

#[verifier::external_type_specification]
#[verifier::external_body]
pub struct ExSurfaceConfiguration(wgpu::SurfaceConfiguration);

#[verifier::external_type_specification]
#[verifier::external_body]
pub struct ExSurfaceTexture(wgpu::SurfaceTexture);

#[verifier::external_type_specification]
#[verifier::external_body]
pub struct ExTextureView(wgpu::TextureView);

#[verifier::external_type_specification]
#[verifier::external_body]
pub struct ExCommandEncoder(wgpu::CommandEncoder);

#[verifier::external_type_specification]
#[verifier::external_body]
pub struct ExCommandBuffer(wgpu::CommandBuffer);

#[verifier::external_type_specification]
#[verifier::external_body]
pub struct ExColor(wgpu::Color);

/// Relies on wgpu::Surface::configure and on the public `width` and
/// `height` fields of wgpu::SurfaceConfiguration: sets the dimensions in
/// the configuration and (re)configures the surface against the given
/// device; the effect is on the GPU side and carries no value back. wgpu
/// rejects a zero-area configuration by panicking the process, so a
/// positive size is required.
#[verifier::external_body]
pub(crate) fn configure_surface_sized(
    surface: &wgpu::Surface,
    device: &wgpu::Device,
    config: &mut wgpu::SurfaceConfiguration,
    size: Extent,
)
    requires
        size.is_positive(),
{
    config.width = size.width;
    config.height = size.height;
    surface.configure(device, config);
}

/// Relies on wgpu::Surface::get_current_texture: hands out the next
/// presentable texture of the surface, or the backend's reason for
/// failing. Which outcome comes back depends on the GPU and window state,
/// so nothing is promised of it; the error is only moved into the
/// library's own kind, arm by arm.
#[verifier::external_body]
pub(crate) fn acquire_frame(surface: &wgpu::Surface) -> Result<wgpu::SurfaceTexture, FrameError> {
    match surface.get_current_texture() {
        Ok(frame) => Ok(frame),
        Err(wgpu::SurfaceError::Timeout) => Err(FrameError::Timeout),
        Err(wgpu::SurfaceError::Outdated) => Err(FrameError::Outdated),
        Err(wgpu::SurfaceError::Lost) => Err(FrameError::Lost),
        Err(wgpu::SurfaceError::OutOfMemory) => Err(FrameError::OutOfMemory),
    }
}

/// Relies on wgpu::Texture::create_view with the default descriptor,
/// applied to the texture of the acquired frame.
#[verifier::external_body]
pub(crate) fn create_frame_view(frame: &wgpu::SurfaceTexture) -> wgpu::TextureView {
    frame.texture.create_view(&wgpu::TextureViewDescriptor::default())
}

/// Relies on wgpu::Device::create_command_encoder.
#[verifier::external_body]
pub(crate) fn create_encoder(device: &wgpu::Device) -> wgpu::CommandEncoder {
    device.create_command_encoder(&wgpu::CommandEncoderDescriptor {
        label: Some("Render Encoder"),
    })
}

/// Relies on wgpu::CommandEncoder::begin_render_pass: records one render
/// pass that clears the whole attachment to the given color; the pass is
/// dropped at once, so nothing else is drawn.
#[verifier::external_body]
pub(crate) fn record_clear_pass(
    encoder: &mut wgpu::CommandEncoder,
    view: &wgpu::TextureView,
    color: &wgpu::Color,
) {
    let pass = encoder.begin_render_pass(&wgpu::RenderPassDescriptor {
        label: Some("Render Pass"),
        color_attachments: &[wgpu::RenderPassColorAttachment {
            view,
            resolve_target: None,
            ops: wgpu::Operations { load: wgpu::LoadOp::Clear(*color), store: true },
        }],
        depth_stencil_attachment: None,
    });
    drop(pass);
}

/// Relies on wgpu::CommandEncoder::finish.
#[verifier::external_body]
pub(crate) fn finish_encoder(encoder: wgpu::CommandEncoder) -> wgpu::CommandBuffer {
    encoder.finish()
}

/// Relies on wgpu::Queue::submit, handing it exactly one command buffer.
#[verifier::external_body]
pub(crate) fn submit_commands(queue: &wgpu::Queue, commands: wgpu::CommandBuffer) {
    queue.submit(std::iter::once(commands));
}

/// Relies on wgpu::SurfaceTexture::present: schedules the acquired
/// texture for presentation on the surface.
#[verifier::external_body]
pub(crate) fn present_frame(frame: wgpu::SurfaceTexture) {
    frame.present();
}

} // verus!
