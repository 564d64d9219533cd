//! The editing modes and the application that routes input between them.

use vstd::prelude::*;
use crate::canvas::{composite, step, step_of, Canvas, Draw, ExecError, Export};
use crate::commands::{
    buffer_after, parse, parse_command, Command, CommandInput, CommandSpec, ENTER, ESCAPE,
};
use crate::geometry::{Position, Size};
use crate::input::{table_document, ConfigError, InputHandler, Key, KeyState};

verus! {

/// The editing context that decides how a keystroke is read.
#[derive(Clone, Copy, Debug, PartialEq, Eq, Structural)]
pub enum Mode {
    Insert,
    Normal,
    Visual,
    Command,
}

impl Mode {
    pub open spec fn spec_command_mode(&self) -> bool {
        *self == Mode::Command
    }

    /// Whether keystrokes are read as raw command-line text.
    #[verifier::when_used_as_spec(spec_command_mode)]
    pub fn command_mode(&self) -> (b: bool)
        ensures
            b == (*self == Mode::Command),
    {
        match self {
            Mode::Command => true,
            _ => false,
        }
    }

    /// The mode that follows `self` when the character `c` is received.
    ///
    /// `i` leads from normal to insert mode, `:` from normal or visual to
    /// command mode, Escape from every other mode back to normal mode, and
    /// Enter from command mode to normal mode. Nothing else changes the mode.
    pub open spec fn spec_next(self, c: char) -> Mode {
        match self {
            Mode::Normal => if c == 'i' {
                Mode::Insert
            } else if c == ':' {
                Mode::Command
            } else {
                Mode::Normal
            },
            Mode::Visual => if c == ':' {
                Mode::Command
            } else if c == ESCAPE {
                Mode::Normal
            } else {
                Mode::Visual
            },
            Mode::Insert => if c == ESCAPE {
                Mode::Normal
            } else {
                Mode::Insert
            },
            Mode::Command => if c == ENTER || c == ESCAPE {
                Mode::Normal
            } else {
                Mode::Command
            },
        }
    }

    /// The mode that follows `self` when the character `c` is received.
    #[verifier::when_used_as_spec(spec_next)]
    pub fn next(self, c: char) -> (mode: Mode)
        ensures
            mode == self.spec_next(c),
    {
        match self {
            Mode::Normal => if c == 'i' {
                Mode::Insert
            } else if c == ':' {
                Mode::Command
            } else {
                Mode::Normal
            },
            Mode::Visual => if c == ':' {
                Mode::Command
            } else if c == ESCAPE {
                Mode::Normal
            } else {
                Mode::Visual
            },
            Mode::Insert => if c == ESCAPE {
                Mode::Normal
            } else {
                Mode::Insert
            },
            Mode::Command => if c == ENTER || c == ESCAPE {
                Mode::Normal
            } else {
                Mode::Command
            },
        }
    }

    /// Whether the canvas is shown the character `c` before the mode
    /// changes: Escape, on the way out of insert or visual mode.
    pub open spec fn shows_canvas(self, c: char) -> bool {
        (self == Mode::Insert || self == Mode::Visual) && c == ESCAPE
    }
}

/// Escape leads to normal mode from every mode.
pub proof fn law_escape_gives_normal_mode(mode: Mode)
    ensures
        mode.next(ESCAPE) == Mode::Normal,
{
}

/// What is left for the caller to do once the editor has taken a character.
#[derive(Debug, Clone, PartialEq, Eq)]
pub enum Outcome {
    /// Leave the editor.
    Quit,
    /// Write this picture to its file.
    Save(Export),
    /// Report that a command could not be carried out.
    Refused(ExecError),
    /// Nothing.
    Nothing,
}

/// The side of the canvas in cells.
pub const CANVAS_SIDE: i32 = 32;

/// The editor: the mode, the input handler, the command line and the canvas.
#[derive(Debug)]
pub struct App {
    pub mode: Mode,
    pub input: InputHandler,
    pub command_input: CommandInput,
    pub canvas: Canvas,
}

impl App {
    /// The command line and the canvas are sound.
    pub open spec fn wf(&self) -> bool {
        self.command_input.wf() && self.canvas.wf()
    }

    /// The command line's buffer after `update_input` has seen `c`: emptied
    /// when command mode is entered or left, untouched otherwise.
    pub open spec fn buffer_after_update(&self, c: char) -> Seq<char> {
        if self.mode.next(c) != self.mode && (self.mode == Mode::Command || self.mode.next(c)
            == Mode::Command) {
            Seq::empty()
        } else {
            self.command_input.buffer()
        }
    }

    /// The command that `update_input` hands out for `c`: the parsed line
    /// when Enter ends command mode, `Noop` otherwise.
    pub open spec fn command_of_update(&self, c: char) -> CommandSpec {
        if self.mode == Mode::Command && c == ENTER {
            parse(self.command_input.buffer())
        } else {
            CommandSpec::Noop
        }
    }

    /// Whether `update_input` may be called with `c`: where the canvas is
    /// shown the character, it must be able to take it.
    pub open spec fn can_update(&self, c: char) -> bool {
        self.mode.shows_canvas(c) ==> self.canvas.can_take(
            self.input.spec_to_action(c, self.mode),
            self.mode,
        )
    }

    /// Whether `input` may be called with `c`.
    pub open spec fn can_input(&self, c: char) -> bool {
        self.canvas.can_take(self.input.spec_to_action(c, self.mode), self.mode)
    }

    /// Where the cursor stands after `update_input` has seen `c`.
    pub open spec fn position_after_update(&self, c: char) -> Position {
        if self.mode.shows_canvas(c) {
            self.canvas.cursor().position.spec_moved(
                step(self.input.spec_to_action(c, self.mode)),
            )
        } else {
            self.canvas.cursor().position
        }
    }

    /// Whether `key` may be called with `c`: `update_input` must be able to
    /// take it, and unless the character completes the command to quit,
    /// `input` must be able to take it after that.
    pub open spec fn can_key(&self, c: char) -> bool {
        &&& self.can_update(c)
        &&& (self.command_of_update(c) != CommandSpec::Quit && self.mode.next(c)
            != Mode::Command) ==> self.position_after_update(c).can_move(
            step(self.input.spec_to_action(c, self.mode.next(c))),
        )
    }

    /// Whether `self` is what `before` becomes when `update_input` has seen
    /// `c`.
    pub open spec fn updated(&self, before: App, c: char) -> bool {
        &&& self.wf()
        &&& self.mode == before.mode.next(c)
        &&& self.input.key == Some(c)
        &&& self.input.ctrl == before.input.ctrl
        &&& self.input.input_map == before.input.input_map
        &&& self.command_input.buffer() == before.buffer_after_update(c)
        &&& self.command_input.viewport() == before.command_input.viewport()
        &&& self.command_input.advance() == before.command_input.advance()
        &&& if before.mode.shows_canvas(c) {
            self.canvas.took(
                before.canvas,
                before.input.spec_to_action(c, before.mode),
                before.mode,
            )
        } else {
            self.canvas == before.canvas
        }
    }

    /// Whether `self` is what `before` becomes when `input` has handed `c`
    /// to the command line and to the canvas.
    pub open spec fn fed(&self, before: App, c: char) -> bool {
        &&& self.wf()
        &&& self.mode == before.mode
        &&& self.input == before.input
        &&& self.command_input.buffer() == buffer_after(
            before.command_input.buffer(),
            c,
            before.mode,
        )
        &&& self.command_input.viewport() == before.command_input.viewport()
        &&& self.command_input.advance() == before.command_input.advance()
        &&& self.canvas.took(
            before.canvas,
            before.input.spec_to_action(c, before.mode),
            before.mode,
        )
    }

    /// From normal mode, `i` gives insert mode and Escape then gives normal
    /// mode again; the canvas is shown that Escape as a keystroke of insert
    /// mode, before the mode changes.
    pub proof fn law_insert_and_back(start: App, inserting: App, back: App)
        requires
            start.mode == Mode::Normal,
            inserting.updated(start, 'i'),
            back.updated(inserting, ESCAPE),
        ensures
            inserting.mode == Mode::Insert,
            inserting.canvas == start.canvas,
            back.mode == Mode::Normal,
            back.canvas.took(
                inserting.canvas,
                inserting.input.spec_to_action(ESCAPE, Mode::Insert),
                Mode::Insert,
            ),
    {
    }

    /// An editor in normal mode with an empty command line and a fresh
    /// canvas of 32 by 32 cells, its key bindings read from the text of the
    /// key-binding table. Fails exactly when that text holds too many
    /// nesting marks or is no TOML document.
    pub fn new(config: &str, window_size: Size, glyph_advance: u32) -> (result: Result<
        App,
        ConfigError,
    >)
        ensures
            match result {
                Ok(app) => {
                    &&& app.wf()
                    &&& app.mode == Mode::Normal
                    &&& app.input.key.is_none()
                    &&& !app.input.ctrl
                    &&& match table_document(config@) {
                        Some(doc) => app.input.input_map.reads(doc),
                        None => false,
                    }
                    &&& app.command_input.buffer() == Seq::<char>::empty()
                    &&& app.command_input.viewport() == window_size
                    &&& app.command_input.advance() == glyph_advance
                    &&& app.command_input.visible() == Seq::<char>::empty()
                    &&& app.canvas.fresh(
                        window_size,
                        Size { width: CANVAS_SIDE, height: CANVAS_SIDE },
                    )
                },
                Err(e) => e.refuses(config@),
            },
    {
        let input = match InputHandler::new(config) {
            Ok(input) => input,
            Err(e) => return Err(e),
        };
        let command_input = CommandInput::new(window_size, glyph_advance);
        let size = Size::new(CANVAS_SIDE, CANVAS_SIDE);
        proof {
            assert(size.area() == 32 * 32);
        }
        let canvas = Canvas::new(window_size, size);
        Ok(App { mode: Mode::Normal, input, command_input, canvas })
    }

    /// The window has a new size. Nothing follows from that.
    pub fn resize(&mut self, new_size: Size)
        ensures
            *final(self) == *old(self),
    {
    }

    /// Takes note of the character `c` and lets it change the mode.
    ///
    /// Where the character ends a mode, the part of the editor that the
    /// mode belongs to is shown the character first: the canvas sees Escape
    /// under insert or visual mode, the command line sees Enter or Escape
    /// under command mode. Only then the mode changes. The command line is
    /// emptied when command mode is entered. The result is the command that
    /// Enter has completed, `Noop` in every other case.
    pub fn update_input(&mut self, c: char) -> (command: Command)
        requires
            old(self).wf(),
            old(self).can_update(c),
        ensures
            final(self).updated(*old(self), c),
            command@ == old(self).command_of_update(c),
    {
        self.input.update(c);
        let mut command = Command::Noop;
        match self.mode {
            Mode::Normal => {
                if c == 'i' {
                    self.mode = Mode::Insert;
                } else if c == ':' {
                    self.command_input.clear();
                    self.mode = Mode::Command;
                }
            },
            Mode::Visual => {
                if c == ':' {
                    self.command_input.clear();
                    self.mode = Mode::Command;
                } else if c == ESCAPE {
                    self.canvas.input(c, self.mode, &self.input);
                    self.mode = Mode::Normal;
                }
            },
            Mode::Insert => {
                if c == ESCAPE {
                    self.canvas.input(c, self.mode, &self.input);
                    self.mode = Mode::Normal;
                }
            },
            Mode::Command => {
                if c == ENTER {
                    command = self.command_input.input(c, self.mode, &self.input);
                    self.mode = Mode::Normal;
                } else if c == ESCAPE {
                    self.command_input.input(c, self.mode, &self.input);
                    self.mode = Mode::Normal;
                }
            },
        }
        command
    }

    /// What is to be drawn: the canvas, and the visible part of the command
    /// line while the editor is in command mode.
    pub fn render(&mut self) -> (frame: (Vec<Draw>, Option<String>))
        ensures
            *final(self) == *old(self),
            frame.0@.len() == old(self).canvas.layer_cells().len() + 1,
            forall|i: int|
                0 <= i < old(self).canvas.layer_cells().len() ==> {
                    &&& (#[trigger] frame.0@[i]).sprite == old(self).canvas.sprite()
                    &&& frame.0@[i].size == old(self).canvas.size()
                    &&& frame.0@[i].pixels@ == old(self).canvas.layer_cells()[i]
                },
            frame.0@.last().sprite == old(self).canvas.cursor_sprite(),
            frame.0@.last().size == old(self).canvas.size(),
            frame.0@.last().pixels@ == old(self).canvas.overlay_cells(),
            match frame.1 {
                Some(text) => old(self).mode == Mode::Command && text@
                    == old(self).command_input.visible(),
                None => old(self).mode != Mode::Command,
            },
    {
        let draws = self.canvas.render();
        let line = self.command_input.render(self.mode);
        (draws, line)
    }

    /// Whether `update_input` may be called with `c`.
    pub fn accepts_update(&self, c: char) -> (ok: bool)
        ensures
            ok == self.can_update(c),
    {
        let shown = match self.mode {
            Mode::Insert | Mode::Visual => c == ESCAPE,
            _ => false,
        };
        !shown || self.canvas.accepts(c, self.mode, &self.input)
    }

    /// Whether `input` may be called with `c`.
    pub fn accepts_input(&self, c: char) -> (ok: bool)
        ensures
            ok == self.can_input(c),
    {
        self.canvas.accepts(c, self.mode, &self.input)
    }

    /// Follows the control keys.
    pub fn update_modifier(&mut self, key: Key, state: KeyState)
        ensures
            final(self).input.ctrl == (if key.is_control() {
                state == KeyState::Pressed
            } else {
                old(self).input.ctrl
            }),
            final(self).input.key == old(self).input.key,
            final(self).input.input_map == old(self).input.input_map,
            final(self).mode == old(self).mode,
            final(self).command_input == old(self).command_input,
            final(self).canvas == old(self).canvas,
    {
        self.input.update_modifier(key, state);
    }

    /// Hands the character `c` to the command line and to the canvas, each
    /// of which acts on it or not as the mode says. The mode stays.
    pub fn input(&mut self, c: char)
        requires
            old(self).wf(),
            old(self).can_input(c),
        ensures
            final(self).fed(*old(self), c),
    {
        self.command_input.input(c, self.mode, &self.input);
        self.canvas.input(c, self.mode, &self.input);
    }

    /// Takes one character from start to end: `update_input` sees it and
    /// may change the mode; a command that Enter has completed is carried
    /// out; then `input` hands the character on under the mode that now
    /// holds. The command to quit ends the sequence before the character is
    /// handed on. A write is carried out on the canvas as it stands before
    /// the character is handed on.
    pub fn key(&mut self, c: char) -> (outcome: Outcome)
        requires
            old(self).wf(),
            old(self).can_key(c),
        ensures
            final(self).wf(),
            if old(self).command_of_update(c) == CommandSpec::Quit {
                final(self).updated(*old(self), c)
            } else {
                exists|mid: App| #[trigger] mid.updated(*old(self), c) && final(self).fed(mid, c)
            },
            match old(self).command_of_update(c) {
                CommandSpec::Quit => outcome == Outcome::Quit,
                CommandSpec::Write(path) => if path.len() == 0 {
                    outcome == Outcome::Refused(ExecError::EmptyPath)
                } else {
                    match outcome {
                        Outcome::Save(export) => {
                            &&& export.path@ == path
                            &&& export.size == old(self).canvas.size()
                            &&& export.pixels@ == composite(old(self).canvas.layer_cells())
                        },
                        _ => false,
                    }
                },
                CommandSpec::Noop => outcome == Outcome::Nothing,
            },
    {
        let command = self.update_input(c);
        let ghost mid = *self;
        let outcome = match command {
            Command::Quit => {
                return Outcome::Quit;
            },
            command => match self.canvas.exec(command) {
                Ok(Some(export)) => Outcome::Save(export),
                Ok(None) => Outcome::Nothing,
                Err(e) => Outcome::Refused(e),
            },
        };
        self.input(c);
        proof {
            assert(mid.updated(*old(self), c) && self.fed(mid, c));
        }
        outcome
    }

    /// Whether `key` may be called with `c`.
    pub fn accepts_key(&self, c: char) -> (ok: bool)
        ensures
            ok == self.can_key(c),
    {
        if !self.accepts_update(c) {
            return false;
        }
        let next = self.mode.next(c);
        let quits = match self.mode {
            Mode::Command => c == ENTER && match parse_command(self.command_input.text_buffer()) {
                Command::Quit => true,
                _ => false,
            },
            _ => false,
        };
        let shown = match self.mode {
            Mode::Insert | Mode::Visual => c == ESCAPE,
            _ => false,
        };
        let at = if shown {
            self.canvas.cursor_position().moved(step_of(self.input.to_action(c, self.mode)))
        } else {
            self.canvas.cursor_position()
        };
        match next {
            Mode::Command => true,
            _ => quits || at.fits(step_of(self.input.to_action(c, next))),
        }
    }
}

} // verus!
