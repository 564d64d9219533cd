//! The command line: its text buffer, the part of it that is on screen, and
//! the parser that turns a finished line into a `Command`.

use vstd::prelude::*;
use crate::application::Mode;
use crate::geometry::Size;
use crate::input::{Input, InputHandler};
use crate::text::{char_is_control, char_is_whitespace, chars_of, is_control, is_whitespace, string_of};

verus! {

/// A directive typed on the command line.
#[derive(Debug, Clone, PartialEq, Eq)]
pub enum Command {
    /// Leave the editor.
    Quit,
    /// Save the picture under the given path. The path may be empty; it is
    /// judged when the command is carried out, not when it is read.
    Write(String),
    /// Nothing to do.
    Noop,
}

/// A `Command` as a mathematical value.
pub enum CommandSpec {
    Quit,
    Write(Seq<char>),
    Noop,
}

impl View for Command {
    type V = CommandSpec;

    open spec fn view(&self) -> CommandSpec {
        match self {
            Command::Quit => CommandSpec::Quit,
            Command::Write(path) => CommandSpec::Write(path@),
            Command::Noop => CommandSpec::Noop,
        }
    }
}

/// Length of the longest prefix of `s` made of blank characters (if `blank`)
/// or of characters that are not blank (if not).
pub open spec fn run_len(s: Seq<char>, blank: bool) -> nat
    decreases s.len(),
{
    if s.len() > 0 && is_whitespace(s[0]) == blank {
        1 + run_len(s.drop_first(), blank)
    } else {
        0
    }
}

/// `s` without its leading blanks.
pub open spec fn skip_blank(s: Seq<char>) -> Seq<char> {
    s.skip(run_len(s, true) as int)
}

/// The first blank-separated word of `s`; empty if `s` holds no word.
pub open spec fn first_word(s: Seq<char>) -> Seq<char> {
    skip_blank(s).take(run_len(skip_blank(s), false) as int)
}

/// What follows the first word of `s`.
pub open spec fn after_first_word(s: Seq<char>) -> Seq<char> {
    skip_blank(s).skip(run_len(skip_blank(s), false) as int)
}

/// The command that a line stands for.
///
/// A line that, apart from surrounding blanks, is exactly `:q` quits. A line
/// whose first word is `:w` writes to the path given by its second word, or
/// to the empty path if there is none. Every other line does nothing.
pub open spec fn parse(line: Seq<char>) -> CommandSpec {
    let head = first_word(line);
    let arg = first_word(after_first_word(line));
    if head == seq![':', 'q'] && arg.len() == 0 {
        CommandSpec::Quit
    } else if head == seq![':', 'w'] {
        CommandSpec::Write(arg)
    } else {
        CommandSpec::Noop
    }
}

/// The index at which the run that starts at `from` ends.
fn scan_run(chars: &Vec<char>, from: usize, blank: bool) -> (end: usize)
    requires
        from <= chars.len(),
    ensures
        from <= end <= chars.len(),
        end == from + run_len(chars@.skip(from as int), blank),
{
    let mut i: usize = from;
    while i < chars.len() && char_is_whitespace(chars[i]) == blank
        invariant
            from <= i <= chars.len(),
            run_len(chars@.skip(from as int), blank) == (i - from) + run_len(
                chars@.skip(i as int),
                blank,
            ),
        decreases chars.len() - i,
    {
        proof {
            assert(chars@.skip(i as int).drop_first() == chars@.skip(i + 1));
        }
        i += 1;
    }
    i
}

/// The characters of `chars` from `from` up to `to`.
fn copy_range(chars: &Vec<char>, from: usize, to: usize) -> (part: Vec<char>)
    requires
        from <= to <= chars.len(),
    ensures
        part@ == chars@.subrange(from as int, to as int),
{
    let mut part: Vec<char> = Vec::new();
    let mut i: usize = from;
    while i < to
        invariant
            from <= i <= to <= chars.len(),
            part@ == chars@.subrange(from as int, i as int),
        decreases to - i,
    {
        part.push(chars[i]);
        i += 1;
    }
    part
}

/// Reads a finished command line. Never fails: what is not understood is
/// `Noop`.
pub fn parse_command(s: String) -> (command: Command)
    ensures
        command@ == parse(s@),
{
    let chars = chars_of(s.as_str());
    let head_start = scan_run(&chars, 0, true);
    let head_end = scan_run(&chars, head_start, false);
    let arg_start = scan_run(&chars, head_end, true);
    let arg_end = scan_run(&chars, arg_start, false);
    let head = copy_range(&chars, head_start, head_end);
    let arg = copy_range(&chars, arg_start, arg_end);
    proof {
        let line = s@;
        assert(line.skip(0) == line);
        assert(skip_blank(line) == line.skip(head_start as int));
        assert(first_word(line) == head@);
        assert(after_first_word(line) == line.skip(head_end as int));
        let rest = line.skip(head_end as int);
        assert(skip_blank(rest) == line.skip(arg_start as int));
        assert(first_word(rest) == arg@);
    }
    if head.len() == 2 && head[0] == ':' && head[1] == 'q' && arg.len() == 0 {
        proof {
            assert(head@ == seq![':', 'q']);
        }
        Command::Quit
    } else if head.len() == 2 && head[0] == ':' && head[1] == 'w' {
        proof {
            assert(head@ == seq![':', 'w']);
        }
        Command::Write(string_of(&arg))
    } else {
        proof {
            assert(seq![':', 'q'].len() == 2 && seq![':', 'q'][0] == ':' && seq![':', 'q'][1]
                == 'q');
            assert(seq![':', 'w'].len() == 2 && seq![':', 'w'][0] == ':' && seq![':', 'w'][1]
                == 'w');
        }
        Command::Noop
    }
}

/// Width of the caret block that follows the text, in display units.
pub const CARET_WIDTH: u32 = 18;

/// The key that deletes the last character.
pub const BACKSPACE: char = '\u{8}';

/// The key that submits the line.
pub const ENTER: char = '\r';

/// The key that abandons the line.
pub const ESCAPE: char = '\u{1b}';

/// Whether `count` characters, each `advance` wide, and the caret after them
/// fit into a display that is `width` wide.
pub open spec fn fits(count: nat, width: int, advance: int) -> bool {
    count * advance + CARET_WIDTH <= width
}

/// How many characters stay on screen of a line of `count` characters: the
/// line loses its leading character until it fits or is empty.
pub open spec fn window_len(count: nat, width: int, advance: int) -> nat
    decreases count,
{
    if count == 0 || fits(count, width, advance) {
        count
    } else {
        window_len((count - 1) as nat, width, advance)
    }
}

/// The part of `line` that stays on screen: its longest tail that fits.
pub open spec fn window(line: Seq<char>, width: int, advance: int) -> Seq<char> {
    line.skip(line.len() - window_len(line.len(), width, advance))
}

/// The text buffer after the character `c` has come in under `mode`.
pub open spec fn buffer_after(buffer: Seq<char>, c: char, mode: Mode) -> Seq<char> {
    if mode != Mode::Command {
        buffer
    } else if c == BACKSPACE {
        if buffer.len() > 0 {
            buffer.drop_last()
        } else {
            buffer
        }
    } else if c == ENTER || c == ESCAPE {
        Seq::empty()
    } else if !is_control(c) {
        buffer.push(c)
    } else {
        buffer
    }
}

/// The command that the character `c`, coming in under `mode`, sets off.
pub open spec fn command_after(buffer: Seq<char>, c: char, mode: Mode) -> CommandSpec {
    if mode == Mode::Command && c == ENTER {
        parse(buffer)
    } else {
        CommandSpec::Noop
    }
}

/// The window never holds more than the line.
pub proof fn lemma_window_len_bounded(count: nat, width: int, advance: int)
    ensures
        window_len(count, width, advance) <= count,
    decreases count,
{
    if !(count == 0 || fits(count, width, advance)) {
        lemma_window_len_bounded((count - 1) as nat, width, advance);
    }
}

/// A line that does not fit does not fit when it grows.
proof fn lemma_longer_does_not_fit(count: nat, width: int, advance: int)
    requires
        advance >= 0,
        !fits(count, width, advance),
    ensures
        !fits(count + 1, width, advance),
{
    assert((count + 1) * advance == count * advance + advance) by (nonlinear_arith);
}

/// Clipping the old window with one more character gives the window of the
/// line with one more character.
proof fn lemma_window_grows(count: nat, width: int, advance: int)
    requires
        advance >= 0,
    ensures
        window_len(window_len(count, width, advance) + 1, width, advance) == window_len(
            count + 1,
            width,
            advance,
        ),
    decreases count,
{
    if !(count == 0 || fits(count, width, advance)) {
        lemma_window_grows((count - 1) as nat, width, advance);
        lemma_longer_does_not_fit(count, width, advance);
    }
}

/// Escape in command mode empties the line and gives no command; a second
/// Escape, whether it still comes in under command mode or under the mode
/// that followed, finds the line empty and leaves it so.
pub proof fn law_escape_twice_is_escape_once(buffer: Seq<char>, then: Mode)
    ensures
        buffer_after(buffer, ESCAPE, Mode::Command) == Seq::<char>::empty(),
        buffer_after(buffer_after(buffer, ESCAPE, Mode::Command), ESCAPE, then) == buffer_after(
            buffer,
            ESCAPE,
            Mode::Command,
        ),
        command_after(buffer, ESCAPE, Mode::Command) == CommandSpec::Noop,
        command_after(buffer_after(buffer, ESCAPE, Mode::Command), ESCAPE, then)
            == CommandSpec::Noop,
{
}

/// Backspace on an empty line leaves it empty and gives no command.
pub proof fn law_backspace_on_empty_line(mode: Mode)
    ensures
        buffer_after(Seq::<char>::empty(), BACKSPACE, mode) == Seq::<char>::empty(),
        command_after(Seq::<char>::empty(), BACKSPACE, mode) == CommandSpec::Noop,
{
}

/// What is on screen is a tail of the line, and it fits the display unless
/// it is empty.
pub proof fn law_window_is_fitting_tail(line: Seq<char>, width: int, advance: int)
    ensures
        window(line, width, advance).len() <= line.len(),
        window(line, width, advance) == line.skip(
            line.len() - window(line, width, advance).len(),
        ),
        window(line, width, advance).len() == 0 || fits(
            window(line, width, advance).len(),
            width,
            advance,
        ),
{
    lemma_window_len_bounded(line.len(), width, advance);
    lemma_window_len_fits(line.len(), width, advance);
}

/// The window is empty or fits.
proof fn lemma_window_len_fits(count: nat, width: int, advance: int)
    ensures
        window_len(count, width, advance) == 0 || fits(
            window_len(count, width, advance),
            width,
            advance,
        ),
    decreases count,
{
    if !(count == 0 || fits(count, width, advance)) {
        lemma_window_len_fits((count - 1) as nat, width, advance);
    }
}

/// The command line: the text typed since command mode was entered, and the
/// tail of it that is on screen. The line is shown in a fixed-pitch face, so
/// every character takes the same width.
#[derive(Debug)]
pub struct CommandInput {
    viewport: Size,
    glyph_advance: u32,
    visible_text: Vec<char>,
    text_buffer: Vec<char>,
}

impl CommandInput {
    /// Everything typed since command mode was entered.
    pub closed spec fn buffer(&self) -> Seq<char> {
        self.text_buffer@
    }

    /// The part of the buffer that is on screen.
    pub closed spec fn visible(&self) -> Seq<char> {
        self.visible_text@
    }

    /// The display that the line is shown in.
    pub closed spec fn viewport(&self) -> Size {
        self.viewport
    }

    /// The width of one character.
    pub closed spec fn advance(&self) -> u32 {
        self.glyph_advance
    }

    /// The visible text is the window of the buffer.
    pub open spec fn wf(&self) -> bool {
        self.visible() == window(self.buffer(), self.viewport().width as int, self.advance() as int)
    }

    /// An empty command line for a display of the given size, shown in a
    /// face whose characters are `glyph_advance` wide.
    pub fn new(viewport: Size, glyph_advance: u32) -> (line: CommandInput)
        ensures
            line.wf(),
            line.buffer() == Seq::<char>::empty(),
            line.visible() == Seq::<char>::empty(),
            line.viewport() == viewport,
            line.advance() == glyph_advance,
    {
        let line = CommandInput {
            viewport,
            glyph_advance,
            visible_text: Vec::new(),
            text_buffer: Vec::new(),
        };
        proof {
            assert(line.visible() =~= window(
                line.buffer(),
                viewport.width as int,
                glyph_advance as int,
            ));
        }
        line
    }

    /// Whether `count` characters and the caret fit the display.
    fn fits_display(&self, count: usize) -> (ok: bool)
        ensures
            ok == fits(count as nat, self.viewport().width as int, self.advance() as int),
    {
        if self.viewport.width < 0 {
            proof {
                assert(count * self.glyph_advance >= 0) by (nonlinear_arith)
                    requires
                        count >= 0,
                        self.glyph_advance >= 0,
                ;
            }
            return false;
        }
        let count_wide: u128 = count as u128;
        let advance_wide: u128 = self.glyph_advance as u128;
        proof {
            assert(count_wide * advance_wide <= 0xffff_ffff_ffff_ffff * 0xffff_ffff)
                by (nonlinear_arith)
                requires
                    0 <= count_wide <= 0xffff_ffff_ffff_ffff,
                    0 <= advance_wide <= 0xffff_ffff,
            ;
        }
        count_wide * advance_wide + (CARET_WIDTH as u128) <= (self.viewport.width as u128)
    }

    /// Drops leading characters of the visible text until it fits.
    fn update_text(&mut self)
        requires
            old(self).visible_text@.len() <= old(self).text_buffer@.len(),
            old(self).visible_text@ == old(self).text_buffer@.skip(
                old(self).text_buffer@.len() - old(self).visible_text@.len(),
            ),
            window_len(
                old(self).visible_text@.len(),
                old(self).viewport.width as int,
                old(self).glyph_advance as int,
            ) == window_len(
                old(self).text_buffer@.len(),
                old(self).viewport.width as int,
                old(self).glyph_advance as int,
            ),
        ensures
            final(self).wf(),
            final(self).text_buffer == old(self).text_buffer,
            final(self).viewport == old(self).viewport,
            final(self).glyph_advance == old(self).glyph_advance,
    {
        while !self.fits_display(self.visible_text.len())
            invariant
                self.text_buffer == old(self).text_buffer,
                self.viewport == old(self).viewport,
                self.glyph_advance == old(self).glyph_advance,
                self.visible_text@.len() <= self.text_buffer@.len(),
                self.visible_text@ == self.text_buffer@.skip(
                    self.text_buffer@.len() - self.visible_text@.len(),
                ),
                window_len(
                    self.visible_text@.len(),
                    self.viewport.width as int,
                    self.glyph_advance as int,
                ) == window_len(
                    self.text_buffer@.len(),
                    self.viewport.width as int,
                    self.glyph_advance as int,
                ),
            decreases self.visible_text@.len(),
        {
            if self.visible_text.len() == 0 {
                return;
            }
            self.visible_text.remove(0);
        }
    }

    /// Empties the buffer and the visible text.
    pub fn clear(&mut self)
        ensures
            final(self).wf(),
            final(self).buffer() == Seq::<char>::empty(),
            final(self).visible() == Seq::<char>::empty(),
            final(self).viewport() == old(self).viewport(),
            final(self).advance() == old(self).advance(),
    {
        self.visible_text.clear();
        self.text_buffer.clear();
        proof {
            assert(self.visible() =~= window(
                self.buffer(),
                self.viewport.width as int,
                self.glyph_advance as int,
            ));
        }
    }

    /// Takes one character. Outside command mode nothing happens. In command
    /// mode Backspace deletes the last character if there is one, Enter
    /// parses the line and empties it, Escape empties it unread, a control
    /// character is dropped, and any other character joins the line. Only
    /// Enter can give a command other than `Noop`.
    pub fn input(&mut self, c: char, mode: Mode, input: &InputHandler) -> (command: Command)
        requires
            old(self).wf(),
        ensures
            final(self).wf(),
            final(self).buffer() == buffer_after(old(self).buffer(), c, mode),
            command@ == command_after(old(self).buffer(), c, mode),
            final(self).viewport() == old(self).viewport(),
            final(self).advance() == old(self).advance(),
    {
        match mode {
            Mode::Command => {},
            Mode::Insert | Mode::Normal | Mode::Visual => return Command::Noop,
        }
        let ghost width = self.viewport.width as int;
        let ghost advance = self.glyph_advance as int;
        if c == BACKSPACE {
            self.text_buffer.pop();
            self.visible_text = self.text_buffer.clone();
            proof {
                assert(self.visible_text@ =~= self.text_buffer@.skip(0));
                assert(self.text_buffer@ =~= buffer_after(old(self).buffer(), c, mode));
            }
            self.update_text();
        } else if c == ENTER {
            let raw_command = string_of(&self.text_buffer);
            let command = parse_command(raw_command);
            self.clear();
            return command;
        } else if c == ESCAPE {
            self.clear();
        } else if !char_is_control(c) {
            proof {
                lemma_window_len_bounded(self.text_buffer@.len(), width, advance);
                lemma_window_grows(self.text_buffer@.len(), width, advance);
            }
            self.visible_text.push(c);
            self.text_buffer.push(c);
            proof {
                assert(self.visible_text@ =~= self.text_buffer@.skip(
                    self.text_buffer@.len() - self.visible_text@.len(),
                ));
            }
            self.update_text();
        }
        Command::Noop
    }

    /// What is to be drawn of the command line: its visible part in command
    /// mode, nothing in any other mode.
    pub fn render(&self, mode: Mode) -> (shown: Option<String>)
        ensures
            match shown {
                Some(text) => mode == Mode::Command && text@ == self.visible(),
                None => mode != Mode::Command,
            },
    {
        if !mode.command_mode() {
            return None;
        }
        Some(string_of(&self.visible_text))
    }

    /// The text typed since command mode was entered.
    pub fn text_buffer(&self) -> (text: String)
        ensures
            text@ == self.buffer(),
    {
        string_of(&self.text_buffer)
    }

    /// The part of the text that is on screen.
    pub fn visible_text(&self) -> (text: String)
        ensures
            text@ == self.visible(),
    {
        string_of(&self.visible_text)
    }
}

impl Input for CommandInput {
    open spec fn ready(&self, c: char, mode: Mode, input: &InputHandler) -> bool {
        self.wf()
    }

    open spec fn handled(
        &self,
        before: CommandInput,
        c: char,
        mode: Mode,
        input: &InputHandler,
    ) -> bool {
        &&& self.wf()
        &&& self.buffer() == buffer_after(before.buffer(), c, mode)
        &&& self.viewport() == before.viewport()
        &&& self.advance() == before.advance()
    }

    /// Takes the character as `CommandInput::input` does; the command that
    /// Enter may have completed is dropped.
    fn input(&mut self, c: char, mode: Mode, input: &InputHandler) {
        let _ = CommandInput::input(self, c, mode, input);
    }
}

} // verus!
