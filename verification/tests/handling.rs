use speedy2d::color::Color;
use speedy2d::dimen::{LogicalPosition, ScaleFactor, UVec2, Vector2, Viewport};
use speedy2d::handler::{dispatch, WindowHandler};
use speedy2d::renderer::GpuCommand;
use speedy2d::window::{
    CanonicalEvent, ModifiersState, MouseButton, VirtualKeyCode, WindowCreationOptions,
    WindowEventLoopAction, WindowStartupInfo,
};
use speedy2d::window_internal_quad::{LoopPhase, Stage, WindowHelperQuad};
use speedy2d::{GLRenderer, Graphics2D, Window};

#[derive(Default)]
struct Recorder {
    seen: Vec<String>,
    quit_on_char: Option<char>,
}

impl WindowHandler<u32, f32> for Recorder {
    fn on_start(&mut self, _helper: &mut WindowHelperQuad<u32>, info: WindowStartupInfo) {
        self.seen.push(format!("start {:?}", info.viewport_size_pixels));
    }

    fn on_user_event(&mut self, helper: &mut WindowHelperQuad<u32>, user_event: u32) {
        self.seen.push(format!("user {}", user_event));
        helper.request_redraw();
    }

    fn on_resize(&mut self, _helper: &mut WindowHelperQuad<u32>, size_pixels: UVec2) {
        self.seen.push(format!("resize {} {}", size_pixels.x, size_pixels.y));
    }

    fn on_draw(&mut self, _helper: &mut WindowHelperQuad<u32>, graphics: &mut Graphics2D<f32>) {
        self.seen.push("draw".to_string());
        graphics.clear_screen(Color::from_rgba(0.0, 0.0, 0.0, 1.0));
        graphics.draw_triangle(
            [Vector2::new(0.0, 0.0), Vector2::new(1.0, 0.0), Vector2::new(0.0, 1.0)],
            Color::from_rgba(1.0, 1.0, 1.0, 1.0),
        );
    }

    fn on_mouse_move(&mut self, _helper: &mut WindowHelperQuad<u32>, position: LogicalPosition) {
        self.seen.push(format!(
            "move {}+{}/{} {}+{}/{}",
            position.pixel.x, position.part.x, position.per, position.pixel.y, position.part.y,
            position.per
        ));
    }

    fn on_mouse_button_down(&mut self, _helper: &mut WindowHelperQuad<u32>, button: MouseButton) {
        self.seen.push(format!("down {:?}", button));
    }

    fn on_mouse_button_up(&mut self, _helper: &mut WindowHelperQuad<u32>, button: MouseButton) {
        self.seen.push(format!("up {:?}", button));
    }

    fn on_key_down(
        &mut self,
        _helper: &mut WindowHelperQuad<u32>,
        virtual_key_code: Option<VirtualKeyCode>,
        scancode: u32,
    ) {
        self.seen.push(format!("keydown {:?} {}", virtual_key_code, scancode));
    }

    fn on_key_up(
        &mut self,
        _helper: &mut WindowHelperQuad<u32>,
        virtual_key_code: Option<VirtualKeyCode>,
        scancode: u32,
    ) {
        self.seen.push(format!("keyup {:?} {}", virtual_key_code, scancode));
    }

    fn on_keyboard_char(&mut self, helper: &mut WindowHelperQuad<u32>, unicode_codepoint: char) {
        self.seen.push(format!("char {}", unicode_codepoint));
        if self.quit_on_char == Some(unicode_codepoint) {
            helper.terminate_loop();
        }
    }

    fn on_keyboard_modifiers_changed(
        &mut self,
        _helper: &mut WindowHelperQuad<u32>,
        state: ModifiersState,
    ) {
        self.seen.push(format!("mods {}", state.shift));
    }
}

struct Silent;

impl WindowHandler<u32, f32> for Silent {}

fn setup() -> (Stage<u32>, GLRenderer<f32>) {
    let window = Window::<u32>::new_with_user_events(
        "t",
        WindowCreationOptions::new_fullscreen_borderless(),
    )
    .ok()
    .unwrap();
    let (stage, _) = window.run_loop(Vector2::new(800, 600), ScaleFactor::identity());
    (
        stage,
        GLRenderer::new_for_quad(
            1,
            Viewport::new(Vector2::new(800, 600), ScaleFactor::identity()),
            0.0,
            1.0,
        ),
    )
}

#[test]
fn each_event_reaches_its_callback() {
    let (mut stage, mut renderer) = setup();
    let mut h = Recorder::default();
    let events = vec![
        CanonicalEvent::Start(WindowStartupInfo::new(Vector2::new(800, 600), ScaleFactor::identity())),
        CanonicalEvent::Resize(Vector2::new(10, 20)),
        CanonicalEvent::UserEvent(7),
        CanonicalEvent::MouseMove(LogicalPosition {
            pixel: Vector2::new(-1, 2),
            part: Vector2::new(1, 0),
            per: 4,
        }),
        CanonicalEvent::MouseButtonDown(MouseButton::Left),
        CanonicalEvent::MouseButtonUp(MouseButton::Other(0)),
        CanonicalEvent::KeyDown(Some(VirtualKeyCode::A), 0),
        CanonicalEvent::KeyUp(None, 3),
        CanonicalEvent::KeyboardChar('x'),
        CanonicalEvent::ModifiersChanged(ModifiersState { ctrl: false, alt: false, shift: true, logo: false }),
    ];
    for e in events {
        assert!(dispatch(&mut h, &mut stage, &mut renderer, e).is_empty());
    }
    assert_eq!(
        h.seen,
        vec![
            "start Vector2 { x: 800, y: 600 }",
            "resize 10 20",
            "user 7",
            "move -1+1/4 2+0/4",
            "down Left",
            "up Other(0)",
            "keydown Some(A) 0",
            "keyup None 3",
            "char x",
            "mods true",
        ]
    );
    // The user-event callback asked for a redraw through the handle.
    assert!(stage.helper().is_redraw_requested());
}

#[test]
fn draw_opens_and_closes_a_frame() {
    let (mut stage, mut renderer) = setup();
    let mut h = Recorder::default();
    let commands = dispatch(&mut h, &mut stage, &mut renderer, CanonicalEvent::Draw);
    assert_eq!(h.seen, vec!["draw"]);
    assert!(!renderer.is_frame_open());
    assert_eq!(commands.len(), 4);
    assert!(matches!(&commands[0], GpuCommand::Clear(_)));
    assert!(matches!(&commands[1], GpuCommand::Draw(b) if b.len() == 1));
    assert!(matches!(&commands[2], GpuCommand::SetProjection(v)
        if *v == Viewport::new(Vector2::new(800, 600), ScaleFactor::identity())));
    assert!(matches!(&commands[3], GpuCommand::Present));
    assert!(renderer.take_commands().is_empty());
}

#[test]
fn unwritten_callbacks_do_nothing() {
    let (mut stage, mut renderer) = setup();
    let mut h = Silent;
    assert!(dispatch(&mut h, &mut stage, &mut renderer, CanonicalEvent::KeyboardChar('x')).is_empty());
    assert!(dispatch(&mut h, &mut stage, &mut renderer, CanonicalEvent::UserEvent(1)).is_empty());
    let commands = dispatch(&mut h, &mut stage, &mut renderer, CanonicalEvent::Draw);
    assert_eq!(commands.len(), 2);
    assert!(matches!(&commands[1], GpuCommand::Present));
    assert_eq!(stage.phase(), LoopPhase::Running);
    assert_eq!(stage.end_tick(), WindowEventLoopAction::Continue);
}

#[test]
fn a_callback_cannot_stop_the_loop_mid_tick() {
    let (mut stage, mut renderer) = setup();
    let mut h = Recorder { seen: Vec::new(), quit_on_char: Some('q') };
    for c in ['a', 'q', 'b'] {
        let event = stage.char_event(c).unwrap();
        dispatch(&mut h, &mut stage, &mut renderer, event);
        assert_ne!(stage.phase(), LoopPhase::Stopped);
    }
    assert_eq!(h.seen, vec!["char a", "char q", "char b"]);
    assert_eq!(stage.phase(), LoopPhase::TerminationRequested);
    assert_eq!(stage.end_tick(), WindowEventLoopAction::Exit);
    assert_eq!(stage.phase(), LoopPhase::Stopped);
    assert_eq!(stage.char_event('c'), None);
}

struct Eager;

impl WindowHandler<u32, f32> for Eager {
    fn on_draw(&mut self, _helper: &mut WindowHelperQuad<u32>, graphics: &mut Graphics2D<f32>) {
        graphics.clear_screen(Color::from_rgba(0.0, 0.0, 0.0, 1.0));
        graphics.end_frame(Viewport::new(Vector2::new(1, 1), ScaleFactor::identity()));
    }

    fn on_keyboard_char(&mut self, helper: &mut WindowHelperQuad<u32>, _c: char) {
        helper.set_title("typed");
    }
}

#[test]
fn a_frame_that_the_handler_closed_stays_closed() {
    let (mut stage, mut renderer) = setup();
    let commands = dispatch(&mut Eager, &mut stage, &mut renderer, CanonicalEvent::Draw);
    assert!(!renderer.is_frame_open());
    assert_eq!(commands.len(), 3);
    assert!(matches!(&commands[0], GpuCommand::Clear(_)));
    assert!(matches!(
        &commands[1],
        GpuCommand::SetProjection(v)
        if *v == Viewport::new(Vector2::new(1, 1), ScaleFactor::identity())
    ));
    assert!(matches!(&commands[2], GpuCommand::Present));
}

#[test]
fn what_was_issued_before_an_event_is_handed_over_with_it() {
    let (mut stage, mut renderer) = setup();
    let image = renderer
        .create_image_from_raw_pixels(
            speedy2d::image::ImageDataType::RGB,
            speedy2d::image::ImageSmoothingMode::Linear,
            Vector2::new(1, 1),
            &[1, 2, 3],
        )
        .unwrap();
    let commands = dispatch(&mut Eager, &mut stage, &mut renderer, CanonicalEvent::KeyboardChar('x'));
    assert_eq!(commands.len(), 1);
    assert!(matches!(&commands[0], GpuCommand::CreateTexture(h, p) if *h == image && p == &vec![1, 2, 3]));
    assert!(renderer.take_commands().is_empty());
    assert_eq!(stage.helper_mut().take_actions().len(), 1);
}

struct Fickle;

impl WindowHandler<u32, f32> for Fickle {
    fn on_keyboard_char(&mut self, helper: &mut WindowHelperQuad<u32>, c: char) {
        if c == 'q' {
            helper.terminate_loop();
        } else {
            helper.request_redraw();
        }
    }
}

#[test]
fn a_later_callback_cannot_take_termination_back() {
    let (mut stage, mut renderer) = setup();
    for c in ['a', 'q', 'b', 'c'] {
        let event = stage.char_event(c).unwrap();
        dispatch(&mut Fickle, &mut stage, &mut renderer, event);
    }
    assert_eq!(stage.phase(), LoopPhase::TerminationRequested);
    assert_eq!(stage.draw(), Some(CanonicalEvent::Draw));
    assert_eq!(stage.end_tick(), WindowEventLoopAction::Exit);
    // No callback of a later tick is reached: nothing is handed out.
    assert_eq!(stage.char_event('d'), None);
    assert!(stage.update(10).is_empty());
    assert_eq!(stage.draw(), None);
    assert_eq!(stage.end_tick(), WindowEventLoopAction::Exit);
    assert_eq!(stage.phase(), LoopPhase::Stopped);
}
