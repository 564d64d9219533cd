use mixel::application::{App, Outcome, CANVAS_SIDE};
use mixel::canvas::{ExecError, Export};
use mixel::commands::{Command, CommandInput, BACKSPACE, ENTER, ESCAPE};
use mixel::geometry::{Pixel, Position, Size};
use mixel::input::{Action, ConfigError, Input, InputHandler, Key, KeyState};
use mixel::Mode;

const TABLE: &str = r#"
[normal]
left = "h"
right = "l"
up = "k"
down = "j"

[insert]
left = "h"
right = "l"
up = "k"
down = "j"

[visual]
left = "h"
right = "l"
"#;

/// Escape and Enter are bound: in normal mode they move the cursor, in
/// insert mode Escape stands for an action without a move.
const TABLE_WITH_BOUND_ENDS: &str = r#"
[normal]
right = "\u001b"
down = "\r"

[insert]
jump = "\u001b"

[visual]
left = "\u001b"
"#;

const BACKGROUND: Pixel = Pixel { r: 12, g: 34, b: 56, a: 255 };
const INK: Pixel = Pixel { r: 255, g: 255, b: 255, a: 255 };

fn app() -> App {
    App::new(TABLE, Size::new(901, 733), 10).unwrap()
}

fn app_with_bound_ends() -> App {
    App::new(TABLE_WITH_BOUND_ENDS, Size::new(901, 733), 10).unwrap()
}

/// One character, taken from start to end.
fn key(app: &mut App, c: char) -> Outcome {
    assert!(app.accepts_key(c));
    app.key(c)
}

fn keys(app: &mut App, text: &str) {
    for c in text.chars() {
        assert_eq!(key(app, c), Outcome::Nothing);
    }
}

#[test]
fn only_command_mode_is_command_mode() {
    assert!(Mode::Command.command_mode());
    assert!(!Mode::Normal.command_mode());
    assert!(!Mode::Insert.command_mode());
    assert!(!Mode::Visual.command_mode());
}

#[test]
fn modes_follow_each_other() {
    assert_eq!(Mode::Normal.next('i'), Mode::Insert);
    assert_eq!(Mode::Normal.next(':'), Mode::Command);
    assert_eq!(Mode::Visual.next(':'), Mode::Command);
    assert_eq!(Mode::Visual.next(ESCAPE), Mode::Normal);
    assert_eq!(Mode::Insert.next(ESCAPE), Mode::Normal);
    assert_eq!(Mode::Command.next(ENTER), Mode::Normal);
    assert_eq!(Mode::Command.next(ESCAPE), Mode::Normal);
    assert_eq!(Mode::Normal.next(ESCAPE), Mode::Normal);
    assert_eq!(Mode::Normal.next(ENTER), Mode::Normal);
    assert_eq!(Mode::Visual.next('i'), Mode::Visual);
    assert_eq!(Mode::Visual.next(ENTER), Mode::Visual);
    assert_eq!(Mode::Insert.next(':'), Mode::Insert);
    assert_eq!(Mode::Insert.next('i'), Mode::Insert);
    assert_eq!(Mode::Insert.next(ENTER), Mode::Insert);
    assert_eq!(Mode::Command.next('i'), Mode::Command);
    assert_eq!(Mode::Command.next(':'), Mode::Command);
    assert_eq!(Mode::Command.next(BACKSPACE), Mode::Command);
}

#[test]
fn new_app_is_in_normal_mode() {
    let app = app();
    assert_eq!(app.mode, Mode::Normal);
    assert_eq!(app.input.key, None);
    assert!(!app.input.ctrl);
    assert_eq!(app.command_input.text_buffer(), "");
    assert_eq!(CANVAS_SIDE, 32);
    assert_eq!(app.canvas.extent(), Size::new(32, 32));
    assert_eq!(app.canvas.layer_count(), 1);
    assert_eq!(app.canvas.layer_pixels(0), &vec![BACKGROUND; 1024]);
    assert_eq!(app.canvas.cursor_position(), Position::new(16, 16));
    assert_eq!(app.canvas.placement().position, Position::new(12, 6));
    assert_eq!(app.input.to_action('h', Mode::Normal), Some(Action::Left));
}

#[test]
fn app_needs_a_well_formed_table() {
    assert!(matches!(
        App::new("[normal", Size::new(901, 733), 10),
        Err(ConfigError::Malformed(_))
    ));
}

#[test]
fn app_refuses_a_table_nested_too_deep() {
    let text = format!("a = {}1{}\n", "[".repeat(5000), "]".repeat(5000));
    assert!(matches!(App::new(&text, Size::new(901, 733), 10), Err(ConfigError::TooDeep)));
}

#[test]
fn insert_and_back() {
    let mut app = app();
    assert_eq!(app.update_input('i'), Command::Noop);
    assert_eq!(app.mode, Mode::Insert);
    assert_eq!(app.update_input(ESCAPE), Command::Noop);
    assert_eq!(app.mode, Mode::Normal);
    assert_eq!(app.input.key, Some(ESCAPE));
    // Escape is not bound in insert mode: the canvas was shown it and
    // dropped it.
    assert_eq!(app.canvas.layer_pixels(0), &vec![BACKGROUND; 1024]);
    assert_eq!(app.canvas.cursor_position(), Position::new(16, 16));
}

#[test]
fn canvas_sees_escape_before_insert_mode_ends() {
    let mut app = app_with_bound_ends();
    assert_eq!(app.update_input('i'), Command::Noop);
    assert!(app.accepts_update(ESCAPE));
    assert_eq!(app.update_input(ESCAPE), Command::Noop);
    assert_eq!(app.mode, Mode::Normal);
    // Under insert mode Escape is a bound key that does not move: ink at the
    // cursor. Under normal mode it would have moved the cursor instead.
    assert_eq!(app.canvas.pixel_at(0, Position::new(16, 16)), Some(INK));
    assert_eq!(app.canvas.cursor_position(), Position::new(16, 16));
}

#[test]
fn escape_is_handed_on_under_the_mode_that_follows() {
    let mut app = app_with_bound_ends();
    keys(&mut app, "i");
    assert_eq!(app.mode, Mode::Insert);
    assert_eq!(app.canvas.layer_pixels(0), &vec![BACKGROUND; 1024]);
    keys(&mut app, "\u{1b}");
    assert_eq!(app.mode, Mode::Normal);
    // First ink under insert mode, then the move of normal mode.
    assert_eq!(app.canvas.pixel_at(0, Position::new(16, 16)), Some(INK));
    assert_eq!(app.canvas.pixel_at(0, Position::new(17, 16)), Some(BACKGROUND));
    assert_eq!(app.canvas.cursor_position(), Position::new(17, 16));
}

#[test]
fn escape_in_visual_mode_reaches_the_canvas_without_drawing() {
    let mut app = app_with_bound_ends();
    app.mode = Mode::Visual;
    assert!(app.accepts_update(ESCAPE));
    assert_eq!(app.update_input(ESCAPE), Command::Noop);
    assert_eq!(app.mode, Mode::Normal);
    assert_eq!(app.canvas.layer_pixels(0), &vec![BACKGROUND; 1024]);
    assert_eq!(app.canvas.cursor_position(), Position::new(15, 16));
}

#[test]
fn key_is_update_input_then_input() {
    for text in ["hil\u{1b}j:w a\u{8}b\rkki:\u{1b}", ":q\u{1b}i\u{1b}\u{1b}", "i:qhh\r"] {
        let mut whole = app_with_bound_ends();
        let mut parts = app_with_bound_ends();
        for c in text.chars() {
            let outcome = key(&mut whole, c);
            assert!(parts.accepts_update(c));
            let command = parts.update_input(c);
            assert_eq!(parts.canvas.exec(command.clone()).is_ok(), outcome != Outcome::Refused(ExecError::EmptyPath));
            assert!(parts.accepts_input(c));
            parts.input(c);
            assert_eq!(whole.mode, parts.mode);
            assert_eq!(whole.input.key, parts.input.key);
            assert_eq!(whole.command_input.text_buffer(), parts.command_input.text_buffer());
            assert_eq!(whole.canvas.cursor_position(), parts.canvas.cursor_position());
            assert_eq!(whole.canvas.layer_pixels(0), parts.canvas.layer_pixels(0));
            assert_eq!(whole.canvas.overlay_pixels(), parts.canvas.overlay_pixels());
        }
    }
}

#[test]
fn write_command_typed_and_submitted() {
    let mut app = app();
    keys(&mut app, ":w a.png");
    assert_eq!(app.mode, Mode::Command);
    assert_eq!(app.command_input.text_buffer(), ":w a.png");
    assert_eq!(
        key(&mut app, ENTER),
        Outcome::Save(Export {
            path: "a.png".to_string(),
            size: Size::new(32, 32),
            pixels: vec![BACKGROUND; 1024],
        })
    );
    assert_eq!(app.mode, Mode::Normal);
    assert_eq!(app.command_input.text_buffer(), "");
    assert_eq!(app.command_input.visible_text(), "");
    assert_eq!(app.canvas.layer_pixels(0), &vec![BACKGROUND; 1024]);
    assert_eq!(app.canvas.cursor_position(), Position::new(16, 16));
}

#[test]
fn write_command_by_its_parts() {
    let mut app = app();
    for c in ":w a.png".chars() {
        assert_eq!(app.update_input(c), Command::Noop);
        app.input(c);
    }
    assert_eq!(app.update_input(ENTER), Command::Write("a.png".to_string()));
    assert_eq!(app.mode, Mode::Normal);
    assert_eq!(app.command_input.text_buffer(), "");
}

#[test]
fn picture_is_taken_before_the_character_is_handed_on() {
    let mut app = app_with_bound_ends();
    keys(&mut app, "i\u{1b}:w a.png");
    let before = app.canvas.layer_pixels(0).clone();
    assert_eq!(app.canvas.cursor_position(), Position::new(17, 16));
    assert_eq!(
        key(&mut app, ENTER),
        Outcome::Save(Export { path: "a.png".to_string(), size: Size::new(32, 32), pixels: before })
    );
    // Enter is bound in normal mode and was handed on after the write.
    assert_eq!(app.canvas.cursor_position(), Position::new(17, 17));
}

#[test]
fn write_without_a_path_is_refused() {
    let mut app = app();
    keys(&mut app, ":w");
    assert_eq!(key(&mut app, ENTER), Outcome::Refused(ExecError::EmptyPath));
    assert_eq!(app.mode, Mode::Normal);
    assert_eq!(app.command_input.text_buffer(), "");
    assert_eq!(app.canvas.layer_pixels(0), &vec![BACKGROUND; 1024]);
}

#[test]
fn quit_command_typed_and_submitted() {
    let mut app = app();
    keys(&mut app, ":q");
    assert_eq!(key(&mut app, ENTER), Outcome::Quit);
    assert_eq!(app.mode, Mode::Normal);
    assert_eq!(app.command_input.text_buffer(), "");
}

#[test]
fn quit_ends_the_sequence_before_the_character_is_handed_on() {
    let mut app = app_with_bound_ends();
    keys(&mut app, ":q");
    assert_eq!(key(&mut app, ENTER), Outcome::Quit);
    assert_eq!(app.canvas.cursor_position(), Position::new(16, 16));
    let mut app = app_with_bound_ends();
    keys(&mut app, ":bogus");
    assert_eq!(key(&mut app, ENTER), Outcome::Nothing);
    assert_eq!(app.canvas.cursor_position(), Position::new(16, 17));
}

#[test]
fn quit_is_accepted_where_handing_on_would_not_be() {
    let mut app = app_with_bound_ends();
    app.canvas.move_cursor(Position::new(0, i32::MAX - 16));
    keys(&mut app, ":bogus");
    assert!(app.accepts_update(ENTER));
    assert!(!app.accepts_key(ENTER));
    keys(&mut app, "\u{8}\u{8}\u{8}\u{8}\u{8}q");
    assert_eq!(app.command_input.text_buffer(), ":q");
    assert_eq!(key(&mut app, ENTER), Outcome::Quit);
}

#[test]
fn key_at_the_edge_of_the_range_is_not_accepted() {
    let mut app = app();
    app.canvas.move_cursor(Position::new(i32::MAX - 16, 0));
    assert!(!app.accepts_key('l'));
    assert!(!app.accepts_input('l'));
    assert!(app.accepts_update('l'));
    assert!(app.accepts_key('h'));
    assert!(app.accepts_key('q'));
    assert!(app.accepts_key(':'));
    let mut app = app_with_bound_ends();
    app.canvas.move_cursor(Position::new(i32::MAX - 16, 0));
    assert!(app.accepts_key('i'));
    keys(&mut app, "i");
    // Escape does not move under insert mode, but moves right once it is
    // handed on under normal mode.
    assert!(app.accepts_update(ESCAPE));
    assert!(!app.accepts_key(ESCAPE));
    // In visual mode Escape moves left, and the canvas is shown it.
    let mut app = app_with_bound_ends();
    app.mode = Mode::Visual;
    app.canvas.move_cursor(Position::new(-16, 0));
    app.canvas.move_cursor(Position::new(i32::MIN, 0));
    assert_eq!(app.canvas.cursor_position(), Position::new(i32::MIN, 16));
    assert!(!app.accepts_update(ESCAPE));
    assert!(!app.accepts_key(ESCAPE));
}

#[test]
fn command_mode_from_visual_mode() {
    let mut app = app();
    app.mode = Mode::Visual;
    keys(&mut app, ":");
    assert_eq!(app.mode, Mode::Command);
    assert_eq!(app.command_input.text_buffer(), ":");
}

#[test]
fn escape_abandons_the_command_line() {
    let mut app = app();
    keys(&mut app, ":w a.png");
    assert_eq!(key(&mut app, ESCAPE), Outcome::Nothing);
    assert_eq!(app.mode, Mode::Normal);
    assert_eq!(app.command_input.text_buffer(), "");
    assert_eq!(key(&mut app, ESCAPE), Outcome::Nothing);
    assert_eq!(app.mode, Mode::Normal);
    assert_eq!(app.command_input.text_buffer(), "");
}

#[test]
fn command_line_starts_empty_each_time() {
    let mut app = app();
    keys(&mut app, ":bogus");
    assert_eq!(key(&mut app, ENTER), Outcome::Nothing);
    keys(&mut app, ":q");
    assert_eq!(app.command_input.text_buffer(), ":q");
    assert_eq!(key(&mut app, ENTER), Outcome::Quit);
}

#[test]
fn backspace_edits_the_command_line() {
    let mut app = app();
    keys(&mut app, ":wq");
    assert_eq!(key(&mut app, BACKSPACE), Outcome::Nothing);
    assert_eq!(app.mode, Mode::Command);
    assert_eq!(app.command_input.text_buffer(), ":w");
    keys(&mut app, " x");
    assert!(matches!(key(&mut app, ENTER), Outcome::Save(export) if export.path == "x"));
}

#[test]
fn keys_in_command_mode_do_not_move_the_cursor() {
    let mut app = app();
    keys(&mut app, ":hjkli");
    assert_eq!(app.mode, Mode::Command);
    assert_eq!(app.canvas.cursor_position(), Position::new(16, 16));
    assert_eq!(app.command_input.text_buffer(), ":hjkli");
}

#[test]
fn normal_mode_moves_without_drawing() {
    let mut app = app();
    keys(&mut app, "lljq");
    assert_eq!(app.mode, Mode::Normal);
    assert_eq!(app.canvas.cursor_position(), Position::new(18, 17));
    assert_eq!(app.canvas.layer_pixels(0), &vec![BACKGROUND; 1024]);
    assert_eq!(app.command_input.text_buffer(), "");
}

#[test]
fn insert_mode_paints_while_moving() {
    let mut app = app();
    keys(&mut app, "hil");
    assert_eq!(app.mode, Mode::Insert);
    assert_eq!(app.canvas.cursor_position(), Position::new(16, 16));
    // `i` is not bound in insert mode: entering the mode leaves no ink.
    assert_eq!(app.canvas.pixel_at(0, Position::new(15, 16)), Some(BACKGROUND));
    assert_eq!(app.canvas.pixel_at(0, Position::new(16, 16)), Some(INK));
    assert_eq!(app.canvas.pixel_at(0, Position::new(17, 16)), Some(BACKGROUND));
    // In insert mode `:` and `i` are ordinary keystrokes, here unbound.
    keys(&mut app, ":i");
    assert_eq!(app.mode, Mode::Insert);
    keys(&mut app, "kk");
    assert_eq!(app.canvas.pixel_at(0, Position::new(16, 15)), Some(INK));
    assert_eq!(app.canvas.pixel_at(0, Position::new(16, 14)), Some(INK));
    assert_eq!(app.canvas.layer_pixels(0).iter().filter(|p| **p == INK).count(), 3);
}

#[test]
fn other_characters_keep_the_mode() {
    for (mode, stay) in [
        (Mode::Normal, "xhjkl\r\u{1b}\u{8}"),
        (Mode::Visual, "xi\r\u{8}"),
        (Mode::Insert, "xi:\r\u{8}"),
        (Mode::Command, "xi:\u{8}"),
    ] {
        for c in stay.chars() {
            let mut app = app();
            app.mode = mode;
            assert_eq!(app.update_input(c), Command::Noop);
            assert_eq!(app.mode, mode);
            assert_eq!(app.input.key, Some(c));
        }
    }
}

#[test]
fn app_follows_the_control_keys() {
    let mut app = app();
    app.update_modifier(Key::RControl, KeyState::Pressed);
    assert!(app.input.ctrl);
    app.update_modifier(Key::Other, KeyState::Released);
    assert!(app.input.ctrl);
    app.update_modifier(Key::LControl, KeyState::Released);
    assert!(!app.input.ctrl);
    assert_eq!(app.mode, Mode::Normal);
}

#[test]
fn resize_changes_nothing() {
    let mut app = app();
    keys(&mut app, "l");
    app.resize(Size::new(10, 10));
    assert_eq!(app.mode, Mode::Normal);
    assert_eq!(app.canvas.extent(), Size::new(32, 32));
    assert_eq!(app.canvas.cursor_position(), Position::new(17, 16));
    assert_eq!(app.canvas.placement().position, Position::new(12, 6));
}

#[test]
fn command_line_takes_input_as_a_component() {
    fn hand<T: Input>(component: &mut T, c: char, mode: Mode, input: &InputHandler) {
        component.input(c, mode, input);
    }
    let input = InputHandler::new(TABLE).unwrap();
    let mut line = CommandInput::new(Size::new(901, 733), 10);
    hand(&mut line, ':', Mode::Command, &input);
    hand(&mut line, 'q', Mode::Command, &input);
    hand(&mut line, 'x', Mode::Normal, &input);
    assert_eq!(line.text_buffer(), ":q");
    hand(&mut line, ENTER, Mode::Command, &input);
    assert_eq!(line.text_buffer(), "");
}

#[test]
fn command_line_is_drawn_in_command_mode_only() {
    let mut app = app();
    let (draws, line) = app.render();
    assert_eq!(draws.len(), 2);
    assert_eq!(draws[0].pixels, vec![BACKGROUND; 1024]);
    assert_eq!(line, None);
    keys(&mut app, ":w");
    let (draws, line) = app.render();
    assert_eq!(draws.len(), 2);
    assert_eq!(line, Some(":w".to_string()));
    assert_eq!(app.command_input.render(Mode::Command), Some(":w".to_string()));
    assert_eq!(app.command_input.render(Mode::Insert), None);
    assert_eq!(key(&mut app, ESCAPE), Outcome::Nothing);
    assert_eq!(app.render().1, None);
}
