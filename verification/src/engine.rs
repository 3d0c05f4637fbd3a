use vstd::prelude::*;

use crate::events::EventAction;
use crate::events::WindowInput;
use crate::events::on_window_event;
use crate::events::window_event_action;
use crate::frame::FrameAction;
use crate::frame::FrameError;
use crate::frame::on_frame_outcome;
use crate::geometry::Extent;
use crate::geometry::resized;
use crate::gpu::acquire_frame;
use crate::gpu::configure_surface_sized;
use crate::gpu::create_encoder;
use crate::gpu::create_frame_view;
use crate::gpu::finish_encoder;
use crate::gpu::present_frame;
use crate::gpu::record_clear_pass;
use crate::gpu::submit_commands;

verus! {

/// What the caller of the loop must do after one dispatch.
#[derive(Clone, Copy, Debug, PartialEq, Eq)]
pub enum LoopSignal {
    /// Keep running.
    Continue,
    /// Print the pressed key (diagnostic only), then keep running.
    LogKeyPress,
    /// Report the frame error, then keep running; the frame was skipped.
    Report(FrameError),
    /// Terminate the event loop.
    Exit,
}

/// Bridge between a platform window and the GPU backend: owns the
/// presentation surface, the device, the command queue and the surface
/// configuration, and produces one cleared frame per request.
pub struct RenderContext {
    surface: wgpu::Surface,
    device: wgpu::Device,
    queue: wgpu::Queue,
    config: wgpu::SurfaceConfiguration,
    clear_color: wgpu::Color,
    config_size: Ghost<Extent>,
    /// The last-known physical window size.
    pub size: Extent,
}

impl RenderContext {
    /// The stored last-known size.
    pub closed spec fn spec_size(self) -> Extent {
        self.size
    }

    /// The dimensions the surface configuration currently carries.
    pub closed spec fn config_extent(self) -> Extent {
        self.config_size@
    }

    /// The stored size and the surface configuration agree, and the
    /// surface was configured with positive dimensions.
    pub closed spec fn wf(self) -> bool {
        self.config_extent() == self.spec_size() && self.spec_size().is_positive()
    }

    /// Build a render context from an already negotiated surface, device
    /// and queue: set the configuration to the given size and configure
    /// the surface once before first use.
    pub fn new(
        surface: wgpu::Surface,
        device: wgpu::Device,
        queue: wgpu::Queue,
        config: wgpu::SurfaceConfiguration,
        clear_color: wgpu::Color,
        size: Extent,
    ) -> (r: RenderContext)
        requires
            size.is_positive(),
        ensures
            r.spec_size() == size,
            r.config_extent() == size,
            r.wf(),
    {
        let mut config = config;
        configure_surface_sized(&surface, &device, &mut config, size);
        RenderContext { surface, device, queue, config, clear_color, config_size: Ghost(size), size }
    }

    /// Apply a resize request: a request with a zero dimension is ignored
    /// (this happens while the window is minimized), any other request
    /// updates the stored size and the surface configuration and
    /// reconfigures the surface against the device.
    pub fn resize(&mut self, new_size: Extent)
        requires
            old(self).wf(),
        ensures
            final(self).wf(),
            final(self).spec_size() == resized(old(self).spec_size(), new_size),
            final(self).config_extent() == resized(old(self).spec_size(), new_size),
            !new_size.is_positive() ==> final(self).spec_size() == old(self).spec_size()
                && final(self).config_extent() == old(self).config_extent(),
            new_size.is_positive() ==> final(self).spec_size() == new_size
                && final(self).config_extent() == new_size,
    {
        if new_size.width > 0 && new_size.height > 0 {
            self.size = new_size;
            self.config_size = Ghost(new_size);
            configure_surface_sized(&self.surface, &self.device, &mut self.config, new_size);
        }
    }

    /// Render one frame: acquire the next presentable texture from the
    /// surface, record a single pass that clears the whole attachment to
    /// the fixed color, submit the recorded commands and present the
    /// texture. A failure to acquire is returned as is, without touching
    /// any state; whether acquisition succeeds depends on the GPU and
    /// window state, so no outcome is promised.
    pub fn render(&self) -> Result<(), FrameError> {
        let frame = match acquire_frame(&self.surface) {
            Ok(f) => f,
            Err(e) => {
                return Err(e);
            },
        };
        let view = create_frame_view(&frame);
        let mut encoder = create_encoder(&self.device);
        record_clear_pass(&mut encoder, &view, &self.clear_color);
        let commands = finish_encoder(encoder);
        submit_commands(&self.queue, commands);
        present_frame(frame);
        Ok(())
    }

    /// Dispatch one window event: a close request or an escape-key
    /// release asks the caller to terminate the loop, a key press asks it
    /// to log the key, a resize request is applied to the context, and
    /// everything else is ignored.
    pub fn handle_window_event(&mut self, input: &WindowInput) -> (signal: LoopSignal)
        requires
            old(self).wf(),
        ensures
            final(self).wf(),
            signal == LoopSignal::Exit <==> window_event_action(*input) == EventAction::Exit,
            signal == LoopSignal::LogKeyPress <==> window_event_action(*input)
                == EventAction::LogKeyPress,
            signal !is Report,
            window_event_action(*input) matches EventAction::Resize(s) ==> final(self).spec_size()
                == resized(old(self).spec_size(), s),
            window_event_action(*input) !is Resize ==> final(self).spec_size() == old(self).spec_size()
                && final(self).config_extent() == old(self).config_extent(),
    {
        match on_window_event(input) {
            EventAction::Exit => LoopSignal::Exit,
            EventAction::Resize(s) => {
                self.resize(s);
                LoopSignal::Continue
            },
            EventAction::LogKeyPress => LoopSignal::LogKeyPress,
            EventAction::Ignore => LoopSignal::Continue,
        }
    }

    /// One idle tick of the loop: render a frame and react to the
    /// outcome. A lost surface is recovered at once by resizing to the
    /// current size, so the stored size never changes here; running out
    /// of memory asks the caller to terminate the loop; any other failure
    /// is handed back for reporting, and the frame is skipped rather than
    /// retried.
    pub fn idle_tick(&mut self) -> (signal: LoopSignal)
        requires
            old(self).wf(),
        ensures
            final(self).wf(),
            final(self).spec_size() == old(self).spec_size(),
            final(self).config_extent() == old(self).config_extent(),
            signal !is LogKeyPress,
            signal matches LoopSignal::Report(e) ==> e == FrameError::Timeout || e
                == FrameError::Outdated,
    {
        let outcome = self.render();
        match on_frame_outcome(&outcome, self.size) {
            FrameAction::Continue => LoopSignal::Continue,
            FrameAction::Recover(s) => {
                self.resize(s);
                LoopSignal::Continue
            },
            FrameAction::Report(e) => LoopSignal::Report(e),
            FrameAction::Exit => LoopSignal::Exit,
        }
    }
}

/// Owner of the rendering state for an application loop.
pub struct Engine {
    #[allow(dead_code)]
    gfx: RenderContext,
}

} // verus!
