use miniquad::{KeyCode, KeyMods};
use speedy2d::dimen::{LogicalPosition, ScaleFactor, Vector2};
use speedy2d::window::{
    CanonicalEvent, EventLoopSendError, ModifiersState, MouseButton, VirtualKeyCode,
    WindowAction, WindowActionError, WindowCreationMode, WindowCreationOptions,
    WindowEventLoopAction, WindowFullscreenMode, WindowPosition, WindowSize, WindowStartupInfo,
};
use speedy2d::window_internal_quad::{
    report_sent, user_events_of, LoopPhase, Stage, UserEventSenderQuad, WindowQuad,
    DEFAULT_WINDOW_SIDE,
};
use speedy2d::Window;

fn started(width: u32, height: u32, scale: (u32, u32)) -> Stage<u32> {
    let window = Window::<u32>::new_with_user_events(
        "t",
        WindowCreationOptions::new_windowed(
            WindowSize::PhysicalPixels(Vector2::new(width, height)),
            None,
        ),
    )
    .ok()
    .unwrap();
    window.run_loop(Vector2::new(width, height), ScaleFactor::new(scale.0, scale.1).unwrap()).0
}

#[test]
fn key_table_named_keys() {
    assert_eq!(VirtualKeyCode::from(KeyCode::A), VirtualKeyCode::A);
    assert_eq!(VirtualKeyCode::from(KeyCode::Z), VirtualKeyCode::Z);
    assert_eq!(VirtualKeyCode::from(KeyCode::Key0), VirtualKeyCode::Key0);
    assert_eq!(VirtualKeyCode::from(KeyCode::Key9), VirtualKeyCode::Key9);
    assert_eq!(VirtualKeyCode::from(KeyCode::F1), VirtualKeyCode::F1);
    assert_eq!(VirtualKeyCode::from(KeyCode::F24), VirtualKeyCode::F24);
    assert_eq!(VirtualKeyCode::from(KeyCode::Enter), VirtualKeyCode::Return);
    assert_eq!(VirtualKeyCode::from(KeyCode::Pause), VirtualKeyCode::PauseBreak);
    assert_eq!(VirtualKeyCode::from(KeyCode::Kp5), VirtualKeyCode::Numpad5);
    assert_eq!(VirtualKeyCode::from(KeyCode::KpEqual), VirtualKeyCode::NumpadEquals);
    assert_eq!(VirtualKeyCode::from(KeyCode::KpEnter), VirtualKeyCode::NumpadEnter);
    assert_eq!(VirtualKeyCode::from(KeyCode::Equal), VirtualKeyCode::Equals);
    assert_eq!(VirtualKeyCode::from(KeyCode::GraveAccent), VirtualKeyCode::Grave);
    assert_eq!(VirtualKeyCode::from(KeyCode::LeftAlt), VirtualKeyCode::LAlt);
    assert_eq!(VirtualKeyCode::from(KeyCode::RightShift), VirtualKeyCode::RShift);
    assert_eq!(VirtualKeyCode::from(KeyCode::LeftBracket), VirtualKeyCode::LBracket);
    assert_eq!(VirtualKeyCode::from(KeyCode::Escape), VirtualKeyCode::Escape);
    assert_eq!(VirtualKeyCode::from(KeyCode::Space), VirtualKeyCode::Space);
    assert_eq!(VirtualKeyCode::from(KeyCode::Tab), VirtualKeyCode::Tab);
    assert_eq!(VirtualKeyCode::from(KeyCode::PageDown), VirtualKeyCode::PageDown);
}

#[test]
fn key_table_falls_back_for_unnamed_keys() {
    for key in [
        KeyCode::CapsLock,
        KeyCode::World1,
        KeyCode::World2,
        KeyCode::ScrollLock,
        KeyCode::NumLock,
        KeyCode::PrintScreen,
        KeyCode::F25,
        KeyCode::LeftSuper,
        KeyCode::RightSuper,
        KeyCode::Menu,
        KeyCode::Back,
        KeyCode::Unknown,
    ] {
        assert_eq!(VirtualKeyCode::from(key), VirtualKeyCode::Wake);
    }
}

#[test]
fn key_table_tells_named_keys_apart() {
    let named = [
        KeyCode::A,
        KeyCode::B,
        KeyCode::Key1,
        KeyCode::Kp1,
        KeyCode::F1,
        KeyCode::Enter,
        KeyCode::KpEnter,
        KeyCode::Left,
        KeyCode::LeftAlt,
        KeyCode::LeftShift,
        KeyCode::RightShift,
        KeyCode::Minus,
        KeyCode::KpSubtract,
    ];
    for (i, a) in named.iter().enumerate() {
        assert_ne!(VirtualKeyCode::from(*a), VirtualKeyCode::Wake);
        for b in &named[i + 1..] {
            assert_ne!(VirtualKeyCode::from(*a), VirtualKeyCode::from(*b));
        }
    }
}

#[test]
fn mouse_button_table() {
    assert_eq!(MouseButton::from(miniquad::MouseButton::Left), MouseButton::Left);
    assert_eq!(MouseButton::from(miniquad::MouseButton::Right), MouseButton::Right);
    assert_eq!(MouseButton::from(miniquad::MouseButton::Middle), MouseButton::Middle);
    assert_eq!(MouseButton::from(miniquad::MouseButton::Unknown), MouseButton::Other(0));
}

#[test]
fn modifier_flags_are_copied() {
    let m = ModifiersState::from(KeyMods { shift: true, ctrl: false, alt: true, logo: false });
    assert_eq!(m, ModifiersState { ctrl: false, alt: true, shift: true, logo: false });
    let m = ModifiersState::from(KeyMods { shift: false, ctrl: true, alt: false, logo: true });
    assert_eq!(m, ModifiersState { ctrl: true, alt: false, shift: false, logo: true });
    assert_eq!(
        ModifiersState::none(),
        ModifiersState { ctrl: false, alt: false, shift: false, logo: false }
    );
}

#[test]
fn window_options_defaults_and_builders() {
    let o = WindowCreationOptions::new_windowed(
        WindowSize::PhysicalPixels(Vector2::new(640, 480)),
        Some(WindowPosition::Center),
    );
    assert_eq!(
        o.mode,
        WindowCreationMode::Windowed {
            size: WindowSize::PhysicalPixels(Vector2::new(640, 480)),
            position: Some(WindowPosition::Center)
        }
    );
    assert_eq!(o.multisampling, 16);
    assert!(o.vsync && o.resizable && o.decorations);
    assert!(!o.always_on_top && !o.maximized);
    let f = WindowCreationOptions::new_fullscreen_borderless();
    assert_eq!(f.mode, WindowCreationMode::FullscreenBorderless);
    let changed = o
        .with_multisampling(4)
        .with_vsync(false)
        .with_resizable(false)
        .with_always_on_top(true)
        .with_maximized(true)
        .with_decorations(false);
    assert_eq!(changed.mode, o.mode);
    assert_eq!(changed.multisampling, 4);
    assert!(!changed.vsync && !changed.resizable && !changed.decorations);
    assert!(changed.always_on_top && changed.maximized);
}

#[test]
fn window_constructors() {
    let w = Window::new_centered("Title", Vector2::new(640, 480)).ok().unwrap();
    assert_eq!(w.window_impl().title(), "Title");
    assert_eq!(
        w.window_impl().options(),
        WindowCreationOptions::new_windowed(
            WindowSize::PhysicalPixels(Vector2::new(640, 480)),
            Some(WindowPosition::Center)
        )
    );
    let w = Window::new_fullscreen_borderless("Full").ok().unwrap();
    assert_eq!(w.window_impl().title(), "Full");
    assert_eq!(w.window_impl().options(), WindowCreationOptions::new_fullscreen_borderless());
    let options = WindowCreationOptions::new_fullscreen_borderless().with_vsync(false);
    let w = Window::new_with_options("x", options).ok().unwrap();
    assert_eq!(w.window_impl().options(), options);
    let w = Window::<String>::new_with_user_events("y", options).ok().unwrap();
    assert_eq!(w.window_impl().title(), "y");
    let w = WindowQuad::<u8>::new("z", options).ok().unwrap();
    assert_eq!(w.title(), "z");
    assert_eq!(w.options(), options);
}

#[test]
fn backend_config_follows_the_options() {
    let w = Window::new_centered("Title", Vector2::new(640, 480)).ok().unwrap();
    let c = w.window_impl().backend_config();
    assert_eq!(c.window_title, "Title");
    assert_eq!((c.window_width, c.window_height), (640, 480));
    assert!(c.high_dpi && !c.fullscreen && c.window_resizable);
    assert_eq!(c.sample_count, 16);
    let w = Window::new_fullscreen_borderless("Full").ok().unwrap();
    let c = w.window_impl().backend_config();
    assert!(c.fullscreen);
    assert_eq!((c.window_width, c.window_height), (DEFAULT_WINDOW_SIDE, DEFAULT_WINDOW_SIDE));
    assert_eq!(DEFAULT_WINDOW_SIDE, 1200);
    let w = Window::new_with_options(
        "m",
        WindowCreationOptions::new_windowed(WindowSize::MarginPhysicalPixels(10), None)
            .with_resizable(false)
            .with_multisampling(0),
    )
    .ok()
    .unwrap();
    let c = w.window_impl().backend_config();
    assert_eq!((c.window_width, c.window_height), (1200, 1200));
    assert!(!c.window_resizable && !c.fullscreen);
    assert_eq!(c.sample_count, 0);
    let w = Window::new_with_options(
        "big",
        WindowCreationOptions::new_windowed(
            WindowSize::ScaledPixels(Vector2::new(u32::MAX, 7)),
            None,
        ),
    )
    .ok()
    .unwrap();
    let c = w.window_impl().backend_config();
    assert_eq!((c.window_width, c.window_height), (i32::MAX, 7));
}

#[test]
fn loop_starts_running() {
    let window = Window::<u32>::new_with_user_events(
        "t",
        WindowCreationOptions::new_fullscreen_borderless(),
    )
    .ok()
    .unwrap();
    let scale = ScaleFactor::new(2, 1).unwrap();
    assert_eq!(window.phase(), LoopPhase::Created);
    let (stage, info) = window.run_loop(Vector2::new(800, 600), scale);
    assert_eq!(info, WindowStartupInfo::new(Vector2::new(800, 600), scale));
    assert_eq!(stage.phase(), LoopPhase::Running);
    assert!(!stage.helper().is_redraw_requested());
    assert!(!stage.helper().is_mouse_grabbed());
    assert_eq!(stage.helper().get_event_loop_action(), WindowEventLoopAction::Continue);
    assert_eq!(stage.helper().get_physical_size_pixels(), Vector2::new(800, 600));
    assert_eq!(stage.helper().get_size_pixels(), Vector2::new(400, 300));
    assert_eq!(stage.helper().get_scale_factor(), scale);
}

#[test]
fn resize_reports_logical_size_and_asks_for_a_redraw() {
    let mut stage = started(800, 600, (2, 1));
    assert!(!stage.helper().is_redraw_requested());
    let event = stage.resize_event(Vector2::new(2000, 1001));
    assert_eq!(event, Some(CanonicalEvent::Resize(Vector2::new(1000, 500))));
    assert!(stage.helper().is_redraw_requested());
    assert_eq!(stage.helper().get_physical_size_pixels(), Vector2::new(2000, 1001));
    assert_eq!(stage.helper().get_size_pixels(), Vector2::new(1000, 500));
    let mut stage = started(800, 600, (5, 4));
    assert_eq!(
        stage.resize_event(Vector2::new(1000, 10)),
        Some(CanonicalEvent::Resize(Vector2::new(800, 8)))
    );
}

#[test]
fn scale_factor_changes_apart_from_the_size() {
    let mut stage = started(800, 600, (1, 1));
    let two = ScaleFactor::new(2, 1).unwrap();
    assert_eq!(
        stage.scale_factor_changed_event(two),
        Some(CanonicalEvent::ScaleFactorChanged(two))
    );
    assert_eq!(stage.helper().get_scale_factor(), two);
    assert_eq!(stage.helper().get_physical_size_pixels(), Vector2::new(800, 600));
    assert_eq!(stage.helper().get_size_pixels(), Vector2::new(400, 300));
    assert!(!stage.helper().is_redraw_requested());
}

#[test]
fn input_events_become_canonical() {
    let mut stage = started(800, 600, (2, 1));
    // 101 / 2 is 50 and a half; -7 / 2 is -4 and a half.
    assert_eq!(
        stage.mouse_motion_event(Vector2::new(101, -7)),
        Some(CanonicalEvent::MouseMove(LogicalPosition {
            pixel: Vector2::new(50, -4),
            part: Vector2::new(1, 1),
            per: 2
        }))
    );
    assert_eq!(
        stage.mouse_motion_event(Vector2::new(-8, 0)),
        Some(CanonicalEvent::MouseMove(LogicalPosition {
            pixel: Vector2::new(-4, 0),
            part: Vector2::new(0, 0),
            per: 2
        }))
    );
    assert_eq!(
        stage.mouse_button_down_event(miniquad::MouseButton::Left),
        Some(CanonicalEvent::MouseButtonDown(MouseButton::Left))
    );
    assert_eq!(
        stage.mouse_button_up_event(miniquad::MouseButton::Unknown),
        Some(CanonicalEvent::MouseButtonUp(MouseButton::Other(0)))
    );
    assert_eq!(stage.char_event('q'), Some(CanonicalEvent::KeyboardChar('q')));
    assert_eq!(
        stage.key_down_event(KeyCode::Enter),
        Some(CanonicalEvent::KeyDown(Some(VirtualKeyCode::Return), 0))
    );
    assert_eq!(
        stage.key_down_event(KeyCode::Menu),
        Some(CanonicalEvent::KeyDown(Some(VirtualKeyCode::Wake), 0))
    );
    assert_eq!(
        stage.key_up_event(KeyCode::Q),
        Some(CanonicalEvent::KeyUp(Some(VirtualKeyCode::Q), 0))
    );
    assert_eq!(stage.phase(), LoopPhase::Running);
    assert!(!stage.helper().is_redraw_requested());
}

#[test]
fn modifiers_are_reported_when_they_change() {
    let mut stage = started(800, 600, (1, 1));
    let none = KeyMods { shift: false, ctrl: false, alt: false, logo: false };
    let shift = KeyMods { shift: true, ctrl: false, alt: false, logo: false };
    assert_eq!(stage.modifiers_event(none), None);
    assert_eq!(
        stage.modifiers_event(shift),
        Some(CanonicalEvent::ModifiersChanged(ModifiersState {
            ctrl: false,
            alt: false,
            shift: true,
            logo: false
        }))
    );
    assert_eq!(stage.modifiers_event(shift), None);
    assert_eq!(
        stage.modifiers_event(none),
        Some(CanonicalEvent::ModifiersChanged(ModifiersState::none()))
    );
}

#[test]
fn frame_is_drawn_only_when_a_redraw_is_pending() {
    let mut stage = started(800, 600, (1, 1));
    assert_eq!(stage.draw(), None);
    stage.helper_mut().request_redraw();
    stage.helper_mut().request_redraw();
    assert!(stage.helper().is_redraw_requested());
    assert_eq!(stage.draw(), Some(CanonicalEvent::Draw));
    assert!(!stage.helper().is_redraw_requested());
    assert_eq!(stage.draw(), None);
    stage.resize_event(Vector2::new(10, 10));
    assert_eq!(stage.draw(), Some(CanonicalEvent::Draw));
    stage.helper_mut().set_redraw_requested(true);
    stage.helper_mut().set_redraw_requested(false);
    assert_eq!(stage.draw(), None);
}

#[test]
fn termination_takes_effect_at_the_end_of_the_tick() {
    let mut stage = started(800, 600, (1, 1));
    assert_eq!(stage.end_tick(), WindowEventLoopAction::Continue);
    assert_eq!(stage.phase(), LoopPhase::Running);
    // Tick K: a callback asks for termination in the middle of the tick.
    assert!(stage.char_event('a').is_some());
    stage.helper_mut().terminate_loop();
    assert_eq!(stage.phase(), LoopPhase::TerminationRequested);
    assert_eq!(stage.helper().get_event_loop_action(), WindowEventLoopAction::Exit);
    // The rest of the tick still runs.
    assert_eq!(stage.char_event('b'), Some(CanonicalEvent::KeyboardChar('b')));
    assert!(stage.resize_event(Vector2::new(10, 10)).is_some());
    assert_eq!(stage.draw(), Some(CanonicalEvent::Draw));
    assert_eq!(stage.phase(), LoopPhase::TerminationRequested);
    // The tick ends, and with it the loop.
    assert_eq!(stage.end_tick(), WindowEventLoopAction::Exit);
    assert_eq!(stage.phase(), LoopPhase::Stopped);
    assert_eq!(stage.end_tick(), WindowEventLoopAction::Exit);
}

#[test]
fn stopped_loop_hands_out_nothing() {
    let window = Window::<u32>::new_with_user_events(
        "t",
        WindowCreationOptions::new_fullscreen_borderless(),
    )
    .ok()
    .unwrap();
    let sender = window.create_user_event_sender();
    let (mut stage, _) = window.run_loop(Vector2::new(800, 600), ScaleFactor::identity());
    stage.helper_mut().terminate_loop();
    stage.helper_mut().request_redraw();
    stage.end_tick();
    assert_eq!(sender.send_event(1), Ok(()));
    assert_eq!(stage.resize_event(Vector2::new(1, 1)), None);
    assert_eq!(stage.helper().get_physical_size_pixels(), Vector2::new(800, 600));
    assert_eq!(stage.scale_factor_changed_event(ScaleFactor::new(2, 1).unwrap()), None);
    assert_eq!(stage.helper().get_scale_factor(), ScaleFactor::identity());
    assert_eq!(stage.mouse_motion_event(Vector2::new(1, 1)), None);
    assert_eq!(stage.mouse_button_down_event(miniquad::MouseButton::Left), None);
    assert_eq!(stage.mouse_button_up_event(miniquad::MouseButton::Left), None);
    assert_eq!(stage.char_event('a'), None);
    assert_eq!(stage.key_down_event(KeyCode::A), None);
    assert_eq!(stage.key_up_event(KeyCode::A), None);
    assert_eq!(
        stage.modifiers_event(KeyMods { shift: true, ctrl: false, alt: false, logo: false }),
        None
    );
    assert!(stage.update(10).is_empty());
    assert_eq!(stage.draw(), None);
    assert_eq!(stage.phase(), LoopPhase::Stopped);
}

#[test]
fn user_events_arrive_in_the_order_sent() {
    let window = Window::<u32>::new_with_user_events(
        "t",
        WindowCreationOptions::new_fullscreen_borderless(),
    )
    .ok()
    .unwrap();
    let sender = window.create_user_event_sender();
    let (mut stage, _) = window.run_loop(Vector2::new(800, 600), ScaleFactor::identity());
    assert!(stage.update(100).is_empty());
    for i in 0..5 {
        assert_eq!(sender.send_event(i), Ok(()));
    }
    let events = stage.update(100);
    assert_eq!(events, (0..5).map(CanonicalEvent::UserEvent).collect::<Vec<_>>());
    assert!(stage.update(100).is_empty());
    // What does not fit in one tick waits for the next.
    for i in 10..15 {
        sender.send_event(i).unwrap();
    }
    assert_eq!(stage.update(2), vec![CanonicalEvent::UserEvent(10), CanonicalEvent::UserEvent(11)]);
    assert!(stage.update(0).is_empty());
    let from_helper = stage.helper().create_user_event_sender();
    from_helper.send_event(99).unwrap();
    assert_eq!(
        stage.update(100),
        vec![
            CanonicalEvent::UserEvent(12),
            CanonicalEvent::UserEvent(13),
            CanonicalEvent::UserEvent(14),
            CanonicalEvent::UserEvent(99)
        ]
    );
}

#[test]
fn two_senders_each_keep_their_order() {
    let window = Window::<(u8, u32)>::new_with_user_events(
        "t",
        WindowCreationOptions::new_fullscreen_borderless(),
    )
    .ok()
    .unwrap();
    let first = window.create_user_event_sender();
    let second = first.clone();
    let (mut stage, _) = window.run_loop(Vector2::new(800, 600), ScaleFactor::identity());
    let mut sent = 0;
    let mut drained = Vec::new();
    for tick in 0..4u32 {
        for i in 0..3 {
            first.send_event((1, tick * 10 + i)).unwrap();
            second.send_event((2, tick * 10 + i)).unwrap();
            second.send_event((2, tick * 10 + i + 5)).unwrap();
            sent += 3;
        }
        for e in stage.update(7) {
            match e {
                CanonicalEvent::UserEvent(payload) => drained.push(payload),
                other => panic!("not a user event: {:?}", other),
            }
        }
        stage.end_tick();
    }
    for e in stage.update(usize::MAX) {
        if let CanonicalEvent::UserEvent(payload) = e {
            drained.push(payload);
        }
    }
    assert_eq!(drained.len(), sent);
    let of_first: Vec<u32> = drained.iter().filter(|p| p.0 == 1).map(|p| p.1).collect();
    let of_second: Vec<u32> = drained.iter().filter(|p| p.0 == 2).map(|p| p.1).collect();
    assert_eq!(of_first, vec![0, 1, 2, 10, 11, 12, 20, 21, 22, 30, 31, 32]);
    assert_eq!(
        of_second,
        vec![
            0, 5, 1, 6, 2, 7, 10, 15, 11, 16, 12, 17, 20, 25, 21, 26, 22, 27, 30, 35, 31, 36, 32,
            37
        ]
    );
}

#[test]
fn sending_to_a_loop_that_is_gone_fails() {
    let window = Window::<u32>::new_with_user_events(
        "t",
        WindowCreationOptions::new_fullscreen_borderless(),
    )
    .ok()
    .unwrap();
    let sender = window.create_user_event_sender();
    let (stage, _) = window.run_loop(Vector2::new(800, 600), ScaleFactor::identity());
    assert_eq!(sender.send_event(1), Ok(()));
    drop(stage);
    assert_eq!(sender.send_event(2), Err(EventLoopSendError::EventLoopNoLongerExists));
    assert_eq!(sender.clone().send_event(3), Err(EventLoopSendError::EventLoopNoLongerExists));
}

#[test]
fn outcome_of_a_post() {
    assert_eq!(report_sent::<u8>(Ok(())), Ok(()));
    assert_eq!(
        report_sent(Err(std::sync::mpsc::SendError(5u8))),
        Err(EventLoopSendError::EventLoopNoLongerExists)
    );
}

#[test]
fn every_payload_becomes_one_user_event_in_order() {
    assert_eq!(
        user_events_of(vec![1u32, 2, 3]),
        vec![
            CanonicalEvent::UserEvent(1),
            CanonicalEvent::UserEvent(2),
            CanonicalEvent::UserEvent(3)
        ]
    );
    assert_eq!(user_events_of(vec!["a".to_string()]), vec![CanonicalEvent::UserEvent("a".to_string())]);
    assert_eq!(user_events_of(vec![7u8, 7]), vec![CanonicalEvent::UserEvent(7), CanonicalEvent::UserEvent(7)]);
    assert!(user_events_of(Vec::<u32>::new()).is_empty());
    let many: Vec<u32> = (0..1001).collect();
    let events = user_events_of(many.clone());
    assert_eq!(events.len(), 1001);
    for (i, e) in events.iter().enumerate() {
        assert_eq!(*e, CanonicalEvent::UserEvent(many[i]));
    }
}

#[test]
fn three_waiting_events_come_out_in_one_tick() {
    let window = Window::<u32>::new_with_user_events(
        "t",
        WindowCreationOptions::new_fullscreen_borderless(),
    )
    .ok()
    .unwrap();
    let sender = window.create_user_event_sender();
    let (mut stage, _) = window.run_loop(Vector2::new(800, 600), ScaleFactor::identity());
    for i in [1, 2, 3] {
        sender.send_event(i).unwrap();
    }
    assert_eq!(
        stage.update(usize::MAX),
        vec![
            CanonicalEvent::UserEvent(1),
            CanonicalEvent::UserEvent(2),
            CanonicalEvent::UserEvent(3)
        ]
    );
    // The queue is empty afterwards, and an empty queue does not hold the
    // tick up.
    assert!(stage.update(usize::MAX).is_empty());
}

#[test]
fn termination_once_seen_is_kept() {
    let mut stage = started(800, 600, (1, 1));
    stage.helper_mut().terminate_loop();
    assert_eq!(stage.phase(), LoopPhase::TerminationRequested);
    // The handle is lent out again and again; the request stands.
    stage.helper_mut().request_redraw();
    stage.helper_mut().set_title("still here");
    assert_eq!(stage.phase(), LoopPhase::TerminationRequested);
    assert_eq!(stage.end_tick(), WindowEventLoopAction::Exit);
    assert_eq!(stage.phase(), LoopPhase::Stopped);
}

#[test]
fn mouse_grab_is_recorded_when_the_backend_confirms_it() {
    let mut stage = started(800, 600, (1, 1));
    assert!(stage.helper_mut().set_cursor_grab(true).is_ok());
    assert!(!stage.helper().is_mouse_grabbed());
    assert_eq!(stage.helper_mut().take_actions(), vec![WindowAction::SetCursorGrab(true)]);
    stage.mouse_grab_status_changed(true);
    assert!(stage.helper().is_mouse_grabbed());
    stage.mouse_grab_status_changed(false);
    assert!(!stage.helper().is_mouse_grabbed());
    assert!(stage.helper_mut().take_actions().is_empty());
}

#[test]
fn requests_to_the_window_are_recorded_in_order() {
    let mut stage = started(800, 600, (1, 1));
    let helper = stage.helper_mut();
    helper.set_title("new title");
    helper.set_cursor_visible(false);
    assert!(helper.set_cursor_grab(true).is_ok());
    assert!(!helper.is_mouse_grabbed());
    helper.set_resizable(false);
    helper.set_fullscreen_mode(WindowFullscreenMode::FullscreenBorderless);
    helper.set_size_pixels(Vector2::new(10, 20));
    helper.set_size_scaled_pixels(Vector2::new(5, 10));
    helper.set_position_pixels(Vector2::new(-1, 2));
    helper.set_position_scaled_pixels(Vector2::new(3, -4));
    // Asking for a size does not change the size on record.
    assert_eq!(helper.get_physical_size_pixels(), Vector2::new(800, 600));
    let actions = helper.take_actions();
    assert_eq!(
        actions,
        vec![
            WindowAction::SetTitle("new title".to_string()),
            WindowAction::SetCursorVisible(false),
            WindowAction::SetCursorGrab(true),
            WindowAction::SetResizable(false),
            WindowAction::SetFullscreenMode(WindowFullscreenMode::FullscreenBorderless),
            WindowAction::SetSizePixels(Vector2::new(10, 20)),
            WindowAction::SetSizeScaledPixels(Vector2::new(5, 10)),
            WindowAction::SetPositionPixels(Vector2::new(-1, 2)),
            WindowAction::SetPositionScaledPixels(Vector2::new(3, -4)),
        ]
    );
    assert!(helper.take_actions().is_empty());
    assert!(helper.set_cursor_grab(false).is_ok());
    assert!(!helper.is_mouse_grabbed());
}

#[test]
fn icon_needs_four_bytes_to_the_pixel() {
    let mut stage = started(800, 600, (1, 1));
    let helper = stage.helper_mut();
    let e = helper.set_icon_from_rgba_pixels(vec![0; 15], Vector2::new(2, 2)).unwrap_err();
    assert_eq!(*e.error(), WindowActionError::InvalidIconData);
    assert!(helper.set_icon_from_rgba_pixels(vec![0; 12], Vector2::new(2, 2)).is_err());
    assert!(helper.take_actions().is_empty());
    assert!(helper.set_icon_from_rgba_pixels(vec![7; 16], Vector2::new(2, 2)).is_ok());
    assert_eq!(
        helper.take_actions(),
        vec![WindowAction::SetIcon(vec![7; 16], Vector2::new(2, 2))]
    );
}

#[test]
fn sender_posts_to_the_channel_it_was_made_for() {
    let (tx, rx) = std::sync::mpsc::channel::<u32>();
    let (other_tx, other_rx) = std::sync::mpsc::channel::<u32>();
    let sender = UserEventSenderQuad::new(tx);
    let other = UserEventSenderQuad::new(other_tx);
    assert_eq!(sender.send_event(5), Ok(()));
    assert_eq!(sender.clone().send_event(6), Ok(()));
    assert_eq!(other.send_event(7), Ok(()));
    assert_eq!(rx.try_recv(), Ok(5));
    assert_eq!(rx.try_recv(), Ok(6));
    assert!(rx.try_recv().is_err());
    assert_eq!(other_rx.try_recv(), Ok(7));
    drop(rx);
    assert_eq!(sender.send_event(8), Err(EventLoopSendError::EventLoopNoLongerExists));
    assert_eq!(other.send_event(9), Ok(()));
}

#[test]
fn senders_of_a_window_post_to_its_loop_only() {
    let options = WindowCreationOptions::new_fullscreen_borderless();
    let first = Window::<u32>::new_with_user_events("a", options).ok().unwrap();
    let second = Window::<u32>::new_with_user_events("b", options).ok().unwrap();
    let to_first = first.create_user_event_sender();
    let to_second = second.window_impl().create_user_event_sender();
    let (mut first_stage, _) = first.run_loop(Vector2::new(1, 1), ScaleFactor::identity());
    let (mut second_stage, _) = second.run_loop(Vector2::new(1, 1), ScaleFactor::identity());
    let from_helper = first_stage.helper().create_user_event_sender();
    to_first.send_event(1).unwrap();
    to_second.send_event(2).unwrap();
    from_helper.send_event(3).unwrap();
    assert_eq!(
        first_stage.update(10),
        vec![CanonicalEvent::UserEvent(1), CanonicalEvent::UserEvent(3)]
    );
    assert_eq!(second_stage.update(10), vec![CanonicalEvent::UserEvent(2)]);
}
