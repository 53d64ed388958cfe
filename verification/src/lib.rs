//! Immediate-mode 2D drawing with batched draw submission, together with a
//! windowing shell that turns backend callbacks into canonical events.
//!
//! The library is generic over the scalar type `T` of coordinates and colour
//! channels: it moves such values around but never computes with them.
//!
//! Neither the graphics device nor the backend's event loop is driven from
//! here. The renderer records what it issues as a list of commands, the
//! control handle records what it asks of the window as a list of requests,
//! and the loop's stage turns each report of the backend into the canonical
//! event to hand to a handler.

use vstd::prelude::*;

pub mod channel;
pub mod color;
pub mod dimen;
pub mod error;
pub mod font;
pub mod frame;
pub mod graphics;
pub mod handler;
pub mod image;
pub mod renderer;
pub mod shape;
pub mod tick;
pub mod window;
pub mod window_internal_quad;

pub use crate::error::GLRendererCreationError;
pub use crate::graphics::{GLRenderer, Graphics2D};

use crate::dimen::{ScaleFactor, UVec2};
use crate::error::BacktraceError;
use crate::window::{
    UserEventSender, WindowCreationError, WindowCreationMode, WindowCreationOptions,
    WindowPosition, WindowSize, WindowStartupInfo,
};
use crate::window_internal_quad::{LoopPhase, Stage, StageModel, WindowQuad};

verus! {

/// A window that is not yet open.
#[verifier::reject_recursive_types(UserEventType)]
pub struct Window<UserEventType = ()> where UserEventType: 'static {
    window_impl: WindowQuad<UserEventType>,
}

impl Window<()> {
    /// A window of the given physical size, centered on the primary monitor,
    /// with otherwise default options.
    pub fn new_centered(title: &str, size: UVec2) -> (r: Result<
        Window<()>,
        BacktraceError<WindowCreationError>,
    >)
        ensures
            r matches Ok(w) && w.spec_title() == title@ && w.spec_options()
                == WindowCreationOptions::spec_with_mode(
                WindowCreationMode::Windowed {
                    size: WindowSize::PhysicalPixels(size),
                    position: Some(WindowPosition::Center),
                },
            ),
    {
        Self::new_with_options(
            title,
            WindowCreationOptions::new_windowed(
                WindowSize::PhysicalPixels(size),
                Some(WindowPosition::Center),
            ),
        )
    }

    /// A window that covers the primary monitor, without a border.
    pub fn new_fullscreen_borderless(title: &str) -> (r: Result<
        Window<()>,
        BacktraceError<WindowCreationError>,
    >)
        ensures
            r matches Ok(w) && w.spec_title() == title@ && w.spec_options()
                == WindowCreationOptions::spec_with_mode(WindowCreationMode::FullscreenBorderless),
    {
        Self::new_with_options(title, WindowCreationOptions::new_fullscreen_borderless())
    }

    /// A window with the given options.
    pub fn new_with_options(title: &str, options: WindowCreationOptions) -> (r: Result<
        Window<()>,
        BacktraceError<WindowCreationError>,
    >)
        ensures
            r matches Ok(w) && w.spec_title() == title@ && w.spec_options() == options,
    {
        Self::new_with_user_events(title, options)
    }
}

impl<UserEventType: 'static> Window<UserEventType> {
    pub closed spec fn spec_title(&self) -> Seq<char> {
        self.window_impl.spec_title()
    }

    pub closed spec fn spec_options(&self) -> WindowCreationOptions {
        self.window_impl.spec_options()
    }

    /// A window with the given options, whose loop takes user events of
    /// type `UserEventType`.
    pub fn new_with_user_events(title: &str, options: WindowCreationOptions) -> (r: Result<
        Self,
        BacktraceError<WindowCreationError>,
    >)
        ensures
            r matches Ok(w) && w.spec_title() == title@ && w.spec_options() == options,
    {
        match WindowQuad::<UserEventType>::new(title, options) {
            Ok(window_impl) => Ok(Window { window_impl }),
            Err(e) => Err(e),
        }
    }

    /// A handle that posts user events to this window's loop, also from
    /// another thread.
    pub fn create_user_event_sender(&self) -> (sender: UserEventSender<UserEventType>) {
        self.window_impl.create_user_event_sender()
    }

    /// Where the loop stands: a window whose loop has not started is
    /// created, no more.
    pub fn phase(&self) -> (phase: LoopPhase)
        ensures
            phase == LoopPhase::Created,
    {
        LoopPhase::Created
    }

    /// The window behind this one, to ask it what the backend needs.
    pub fn window_impl(&self) -> (w: &WindowQuad<UserEventType>)
        ensures
            w.spec_title() == self.spec_title(),
            w.spec_options() == self.spec_options(),
    {
        &self.window_impl
    }

    /// Starts the loop for a window that the backend has opened with the
    /// given physical size and scale factor. The result is the running
    /// stage and what the handler is to be told at the start.
    pub fn run_loop(self, initial_physical_size: UVec2, scale_factor: ScaleFactor) -> (started: (
        Stage<UserEventType>,
        WindowStartupInfo,
    ))
        ensures
            started.0@ == StageModel::started(initial_physical_size, scale_factor),
            started.1 == (WindowStartupInfo {
                viewport_size_pixels: initial_physical_size,
                scale_factor,
            }),
    {
        self.window_impl.run_loop(initial_physical_size, scale_factor)
    }
}

} // verus!
