use vstd::prelude::*;
use crate::frame::{pass_plan, planned_pass, FrameTarget, PassPlan, RenderConfig, Size, SurfaceConfig};
use crate::gui::{GUI, SCALE_DEFAULT};
use crate::scheduler::{
    elapsed, frame_step, next_due, tick_step, FpsCounter, FrameScheduler, Tick, TARGET_FRAME_NANOS,
};

verus! {

/// A mouse button, as far as the core tells them apart.
#[derive(Clone, Copy, Debug, PartialEq, Eq, Structural)]
pub enum MouseButton {
    Primary,
    Other,
}

/// A key, as far as the core tells them apart.
#[derive(Clone, Copy, Debug, PartialEq, Eq, Structural)]
pub enum Key {
    Escape,
    Other,
}

/// An event the window delivers.
#[derive(Clone, Copy, Debug, PartialEq, Eq, Structural)]
pub enum WindowInput {
    MouseButton { button: MouseButton, pressed: bool },
    Keyboard { key: Key, pressed: bool },
    Resized(Size),
    ScaleFactorChanged(Size),
    CloseRequested,
    /// Anything else; it goes to the overlay.
    Other,
}

/// What the window's owner is to do after an event.
#[derive(Clone, Copy, Debug, PartialEq, Eq, Structural)]
pub enum Response {
    /// Set the cursor's visibility and grab.
    SetCursor { visible: bool, grabbed: bool },
    /// Leave the event loop.
    Exit,
    /// Configure the surface with `State::config` and create the attachments
    /// that `State::target` describes; both are present.
    Reconfigure,
    /// Nothing changes.
    Ignore,
    /// Hand the event to the overlay's input handling.
    ForwardToOverlay,
}

/// Why the next presentable image could not be had.
#[derive(Clone, Copy, Debug, PartialEq, Eq, Structural)]
pub enum SurfaceError {
    Timeout,
    Outdated,
    Lost,
    OutOfMemory,
}

/// What the frame driver does once it has asked for a presentable image.
#[derive(Clone, Copy, Debug, PartialEq, Eq, Structural)]
pub enum FrameStep {
    /// Record the pass this plan describes, submit it and present the image.
    /// The frame is counted; `fps` is the throughput it reports, if any.
    Record { plan: PassPlan, fps: Option<u64> },
    /// Present nothing; configure the surface with `State::config` and
    /// create the attachments that `State::target` describes.
    Reconfigure,
    /// Present nothing; the next scheduled frame tries again.
    Drop,
    /// Present nothing and leave the event loop.
    Exit,
}

/// The frame loop's state: window size, surface configuration, frame target,
/// pacing, throughput, pointer capture and the overlay's retained values.
#[derive(Clone, Copy, Debug, PartialEq, Eq, Structural)]
pub struct State {
    /// Last known window size.
    pub size: Size,
    /// The surface's colour format, as an index among those the adapter
    /// supports for it.
    pub format: u32,
    /// What the surface is configured with; none while the window has never
    /// had an area.
    pub config: Option<SurfaceConfig>,
    /// The attachments the render pass draws into; present exactly when the
    /// surface is configured.
    pub target: Option<FrameTarget>,
    pub render_config: RenderConfig,
    pub scheduler: FrameScheduler,
    pub fps: FpsCounter,
    /// The pointer is captured: cursor hidden and grabbed.
    pub mouse_pressed: bool,
    pub gui: GUI,
}

impl State {
    /// A configured surface has the last known window size, which has an
    /// area, and the frame target matches it.
    pub open spec fn wf(self) -> bool {
        &&& self.config.is_some() == self.target.is_some()
        &&& self.config.is_some() ==> {
            &&& self.size.has_area()
            &&& self.config == Some(self.config_for(self.size))
            &&& self.target == Some(self.target_for(self.size))
        }
        &&& self.fps.wf()
        &&& self.gui.wf()
    }

    /// The surface configuration for a window of size `s`.
    pub open spec fn config_for(self, s: Size) -> SurfaceConfig {
        SurfaceConfig { width: s.width, height: s.height, format: self.format }
    }

    /// The frame target for a window of size `s`.
    pub open spec fn target_for(self, s: Size) -> FrameTarget {
        FrameTarget {
            width: s.width,
            height: s.height,
            format: self.format,
            sample_count: self.render_config.sample_count,
        }
    }

    /// The state once the surface is configured, and the frame target built,
    /// for a window of size `s`.
    pub open spec fn resized_to(self, s: Size) -> State {
        State { size: s, config: Some(self.config_for(s)), target: Some(self.target_for(s)), ..self }
    }

    /// The state for a window of the given size and a surface of the given
    /// colour format. The surface is configured, and the frame target built,
    /// only where the size has an area. All timers start at `now`.
    pub fn new(size: Size, format: u32, render_config: RenderConfig, now: u64) -> (r: State)
        ensures
            r.wf(),
            r.size == size,
            r.format == format,
            r.render_config == render_config,
            r.config.is_some() == size.has_area(),
            size.has_area() ==> r.config == Some(r.config_for(size)) && r.target == Some(
                r.target_for(size),
            ),
            r.scheduler.last_request == now,
            r.fps == (FpsCounter { frame_count: 0, accum_nanos: 0, last_frame: now }),
            !r.mouse_pressed,
            r.gui == (GUI { scale: SCALE_DEFAULT, window_open: false }),
    {
        let (config, target) = if size.is_drawable() {
            let config = SurfaceConfig::from_size(size, format);
            (Some(config), Some(FrameTarget::rebuild(&config, &render_config)))
        } else {
            (None, None)
        };
        State {
            size,
            format,
            config,
            target,
            render_config,
            scheduler: FrameScheduler::new(now),
            fps: FpsCounter::new(now),
            mouse_pressed: false,
            gui: GUI::new(),
        }
    }

    /// Takes a new window size. A size with area updates the surface
    /// configuration and the frame target and returns true; a size without
    /// area changes nothing and returns false.
    pub fn resize(&mut self, new_size: Size) -> (r: bool)
        requires
            old(self).wf(),
        ensures
            final(self).wf(),
            r == new_size.has_area(),
            r ==> *final(self) == old(self).resized_to(new_size),
            !r ==> *final(self) == *old(self),
    {
        if new_size.is_drawable() {
            let config = SurfaceConfig::from_size(new_size, self.format);
            self.size = new_size;
            self.config = Some(config);
            self.target = Some(FrameTarget::rebuild(&config, &self.render_config));
            true
        } else {
            false
        }
    }

    /// Handles the events that capture the pointer: a press of the primary
    /// button captures it, and returns true. Any other event is left alone.
    pub fn input(&mut self, event: &WindowInput) -> (r: bool)
        ensures
            r == (*event == WindowInput::MouseButton { button: MouseButton::Primary, pressed: true }),
            r ==> *final(self) == (State { mouse_pressed: true, ..*old(self) }),
            !r ==> *final(self) == *old(self),
    {
        match event {
            WindowInput::MouseButton { button: MouseButton::Primary, pressed: true } => {
                self.mouse_pressed = true;
                true
            },
            _ => false,
        }
    }

    /// Decides what a window event does.
    pub fn handle_window_event(&mut self, event: &WindowInput) -> (r: Response)
        requires
            old(self).wf(),
        ensures
            final(self).wf(),
            match *event {
                WindowInput::MouseButton { button: MouseButton::Primary, pressed: true } => {
                    &&& r == Response::SetCursor { visible: false, grabbed: true }
                    &&& *final(self) == (State { mouse_pressed: true, ..*old(self) })
                },
                WindowInput::Keyboard { key: Key::Escape, pressed: true } => {
                    if old(self).mouse_pressed {
                        &&& r == Response::SetCursor { visible: true, grabbed: false }
                        &&& *final(self) == (State { mouse_pressed: false, ..*old(self) })
                    } else {
                        &&& r == Response::Exit
                        &&& *final(self) == *old(self)
                    }
                },
                WindowInput::CloseRequested => r == Response::Exit && *final(self) == *old(self),
                WindowInput::Resized(s) | WindowInput::ScaleFactorChanged(s) => {
                    &&& r == (if s.has_area() {
                        Response::Reconfigure
                    } else {
                        Response::Ignore
                    })
                    &&& s.has_area() ==> *final(self) == old(self).resized_to(s)
                    &&& !s.has_area() ==> *final(self) == *old(self)
                },
                _ => r == Response::ForwardToOverlay && *final(self) == *old(self),
            },
    {
        if self.input(event) {
            return Response::SetCursor { visible: false, grabbed: true };
        }
        match event {
            WindowInput::CloseRequested => Response::Exit,
            WindowInput::Keyboard { key: Key::Escape, pressed: true } => {
                if self.mouse_pressed {
                    self.mouse_pressed = false;
                    Response::SetCursor { visible: true, grabbed: false }
                } else {
                    Response::Exit
                }
            },
            WindowInput::Resized(s) | WindowInput::ScaleFactorChanged(s) => {
                if self.resize(*s) {
                    Response::Reconfigure
                } else {
                    Response::Ignore
                }
            },
            _ => Response::ForwardToOverlay,
        }
    }

    /// An idle tick of the loop at `now`: request a frame or wait.
    pub fn tick(&mut self, now: u64) -> (r: Tick)
        requires
            old(self).wf(),
        ensures
            final(self).wf(),
            (final(self).scheduler.last_request, r == Tick::RequestRedraw) == tick_step(
                old(self).scheduler.last_request,
                now,
            ),
            elapsed(old(self).scheduler.last_request, now) < TARGET_FRAME_NANOS ==> r
                == Tick::WaitUntil(next_due(old(self).scheduler.last_request)),
            *final(self) == (State { scheduler: final(self).scheduler, ..*old(self) }),
    {
        self.scheduler.tick(now)
    }

    /// A frame is about to be rendered at `now`: the pacing timer restarts.
    pub fn update(&mut self, now: u64)
        requires
            old(self).wf(),
        ensures
            final(self).wf(),
            *final(self) == (State {
                scheduler: FrameScheduler { last_request: now },
                ..*old(self)
            }),
    {
        self.scheduler.reset(now);
    }

    /// A presentable image can be asked for: the surface is configured.
    pub fn can_acquire(&self) -> (r: bool)
        ensures
            r == self.config.is_some(),
    {
        self.config.is_some()
    }

    /// Decides the rest of the frame from the outcome, at `now`, of asking
    /// for a presentable image. An image on a configured surface is drawn
    /// and counted as a rendered frame. A lost surface is configured anew
    /// with the last known size; running out of memory ends the loop; any
    /// other failure drops the frame. Only a drawn frame is counted.
    pub fn after_acquire(&mut self, acquired: Result<(), SurfaceError>, now: u64) -> (r: FrameStep)
        requires
            old(self).wf(),
        ensures
            final(self).wf(),
            match acquired {
                Ok(()) => if old(self).config.is_some() {
                    let (fps, report) = frame_step(old(self).fps, now);
                    &&& r == FrameStep::Record {
                        plan: planned_pass(old(self).render_config.sample_count),
                        fps: report,
                    }
                    &&& *final(self) == (State { fps, ..*old(self) })
                } else {
                    r == FrameStep::Drop && *final(self) == *old(self)
                },
                Err(SurfaceError::Lost) => {
                    &&& r == (if old(self).config.is_some() {
                        FrameStep::Reconfigure
                    } else {
                        FrameStep::Drop
                    })
                    &&& *final(self) == *old(self)
                },
                Err(SurfaceError::OutOfMemory) => r == FrameStep::Exit && *final(self) == *old(self),
                Err(_) => r == FrameStep::Drop && *final(self) == *old(self),
            },
    {
        match acquired {
            Ok(()) => {
                if self.config.is_some() {
                    let fps = self.fps.record_frame(now);
                    FrameStep::Record { plan: pass_plan(self.render_config.sample_count), fps }
                } else {
                    FrameStep::Drop
                }
            },
            Err(SurfaceError::Lost) => {
                if self.config.is_some() {
                    FrameStep::Reconfigure
                } else {
                    FrameStep::Drop
                }
            },
            Err(SurfaceError::OutOfMemory) => FrameStep::Exit,
            Err(_) => FrameStep::Drop,
        }
    }

    /// The console window is shown.
    pub fn menu_mode(&self) -> (r: bool)
        ensures
            r == self.gui.window_open,
    {
        self.gui.window_open
    }

    /// Shows the console window.
    pub fn open_menu(&mut self)
        requires
            old(self).wf(),
        ensures
            final(self).wf(),
            *final(self) == (State { gui: GUI { window_open: true, ..old(self).gui }, ..*old(self) }),
    {
        self.gui.set_window_open(true);
    }
}

} // verus!
