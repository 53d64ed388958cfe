//! The handler of a window's events, and the one place where its callbacks
//! are called.

use vstd::prelude::*;
use crate::dimen::{LogicalPosition, ScaleFactor, UVec2};
use crate::graphics::{GLRenderer, Graphics2D};
use crate::renderer::{command_views, GpuCommand};
use crate::window::{
    CanonicalEvent, ModifiersState, MouseButton, VirtualKeyCode, WindowStartupInfo,
};
use crate::window_internal_quad::{Stage, StageModel, WindowHelperQuad};

verus! {

/// What an application implements to take part in a window's loop. Every
/// callback is given the control handle. A callback that is not written
/// does nothing, and the loop goes on.
pub trait WindowHandler<UserEventType, T> {
    /// The loop has started.
    fn on_start(&mut self, helper: &mut WindowHelperQuad<UserEventType>, info: WindowStartupInfo) {
    }

    /// An event that the application posted has arrived.
    fn on_user_event(
        &mut self,
        helper: &mut WindowHelperQuad<UserEventType>,
        user_event: UserEventType,
    ) {
    }

    /// The window has a new size, given in logical pixels.
    fn on_resize(&mut self, helper: &mut WindowHelperQuad<UserEventType>, size_pixels: UVec2) {
    }

    /// The display has a new scale factor.
    fn on_scale_factor_changed(
        &mut self,
        helper: &mut WindowHelperQuad<UserEventType>,
        scale_factor: ScaleFactor,
    ) {
    }

    /// A frame is to be drawn on `graphics`, whose frame is open.
    fn on_draw(
        &mut self,
        helper: &mut WindowHelperQuad<UserEventType>,
        graphics: &mut Graphics2D<T>,
    ) {
    }

    /// The mouse has moved to a position given in logical pixels.
    fn on_mouse_move(
        &mut self,
        helper: &mut WindowHelperQuad<UserEventType>,
        position: LogicalPosition,
    ) {
    }

    fn on_mouse_button_down(
        &mut self,
        helper: &mut WindowHelperQuad<UserEventType>,
        button: MouseButton,
    ) {
    }

    fn on_mouse_button_up(
        &mut self,
        helper: &mut WindowHelperQuad<UserEventType>,
        button: MouseButton,
    ) {
    }

    fn on_key_down(
        &mut self,
        helper: &mut WindowHelperQuad<UserEventType>,
        virtual_key_code: Option<VirtualKeyCode>,
        scancode: u32,
    ) {
    }

    fn on_key_up(
        &mut self,
        helper: &mut WindowHelperQuad<UserEventType>,
        virtual_key_code: Option<VirtualKeyCode>,
        scancode: u32,
    ) {
    }

    fn on_keyboard_char(
        &mut self,
        helper: &mut WindowHelperQuad<UserEventType>,
        unicode_codepoint: char,
    ) {
    }

    fn on_keyboard_modifiers_changed(
        &mut self,
        helper: &mut WindowHelperQuad<UserEventType>,
        state: ModifiersState,
    ) {
    }
}

/// Hands a canonical event to the handler: calls the callback that the event
/// is for, with the stage's control handle and the event's payload, and
/// hands over what was issued to the device.
///
/// For a draw, a frame is opened, the handler draws on the surface, and
/// [`GLRenderer::close_frame`] closes the frame and gives the result. For
/// every other event the surface is out of the callback's reach, so the
/// result is exactly what was issued before the call.
///
/// What a callback does is the application's business. But a callback
/// reaches the loop through the control handle alone: whatever it does, the
/// loop is stopped afterwards exactly if it was before, and the modifiers
/// last seen are the same. The renderer is left with no frame open, nothing
/// left to hand over, and the viewport it had.
pub fn dispatch<UserEventType, T: Copy, H: WindowHandler<UserEventType, T>>(
    handler: &mut H,
    stage: &mut Stage<UserEventType>,
    renderer: &mut GLRenderer<T>,
    event: CanonicalEvent<UserEventType>,
) -> (commands: Vec<GpuCommand<T>>)
    requires
        !old(renderer).spec_graphics().renderer.frame_open,
    ensures
        final(stage)@.stopped == old(stage)@.stopped,
        final(stage)@.modifiers == old(stage)@.modifiers,
        !final(renderer).spec_graphics().renderer.frame_open,
        final(renderer).spec_viewport() == old(renderer).spec_viewport(),
        final(renderer).spec_graphics().renderer.issued.len() == 0,
        !(event is Draw) ==> command_views(commands@) == old(
            renderer,
        ).spec_graphics().renderer.issued,
        !(event is Draw) ==> final(renderer).spec_graphics() == old(
            renderer,
        ).spec_graphics().renderer_taken(),
{
    match event {
        CanonicalEvent::Start(info) => {
            handler.on_start(stage.helper_mut(), info);
        },
        CanonicalEvent::Resize(size) => {
            handler.on_resize(stage.helper_mut(), size);
        },
        CanonicalEvent::ScaleFactorChanged(scale) => {
            handler.on_scale_factor_changed(stage.helper_mut(), scale);
        },
        CanonicalEvent::Draw => {
            let graphics = renderer.begin_frame();
            handler.on_draw(stage.helper_mut(), graphics);
        },
        CanonicalEvent::UserEvent(payload) => {
            handler.on_user_event(stage.helper_mut(), payload);
        },
        CanonicalEvent::MouseMove(position) => {
            handler.on_mouse_move(stage.helper_mut(), position);
        },
        CanonicalEvent::MouseButtonDown(button) => {
            handler.on_mouse_button_down(stage.helper_mut(), button);
        },
        CanonicalEvent::MouseButtonUp(button) => {
            handler.on_mouse_button_up(stage.helper_mut(), button);
        },
        CanonicalEvent::KeyDown(key, scancode) => {
            handler.on_key_down(stage.helper_mut(), key, scancode);
        },
        CanonicalEvent::KeyUp(key, scancode) => {
            handler.on_key_up(stage.helper_mut(), key, scancode);
        },
        CanonicalEvent::KeyboardChar(c) => {
            handler.on_keyboard_char(stage.helper_mut(), c);
        },
        CanonicalEvent::ModifiersChanged(state) => {
            handler.on_keyboard_modifiers_changed(stage.helper_mut(), state);
        },
    }
    renderer.close_frame()
}

} // verus!
