//! Keystrokes and what they mean: actions, the per-mode key bindings, and the
//! handler that remembers the last key and the state of the control key.

use std::collections::HashMap;
use vstd::prelude::*;
use crate::application::Mode;
use crate::config::{
    ascending, entries, member, parse_document, toml_document, toml_entries, toml_member,
    Binding, BindingSpec,
};
use crate::text::{ascii_lower, char_to_ascii_lower, chars_of, same_chars};

verus! {

broadcast use vstd::std_specs::hash::group_hash_axioms;

/// What a keystroke asks the editor to do.
#[derive(Debug, Copy, Clone, PartialEq, Eq, Structural)]
pub enum Action {
    Left,
    Right,
    Up,
    Down,
    Draw,
    CommandInput,
    CloseCommandInput,
    Noop,
}

/// The action that a name in the key-binding table stands for. The case of
/// ASCII letters does not matter; a name that is not known stands for `Noop`.
pub open spec fn action_named(name: Seq<char>) -> Action {
    let lower = name.map_values(|c: char| ascii_lower(c));
    if lower == seq!['l', 'e', 'f', 't'] {
        Action::Left
    } else if lower == seq!['r', 'i', 'g', 'h', 't'] {
        Action::Right
    } else if lower == seq!['u', 'p'] {
        Action::Up
    } else if lower == seq!['d', 'o', 'w', 'n'] {
        Action::Down
    } else {
        Action::Noop
    }
}

impl Action {
    /// Reads an action's name as the key-binding table writes it.
    pub fn from_str(s: &str) -> (action: Action)
        ensures
            action == action_named(s@),
    {
        let chars = chars_of(s);
        let mut lower: Vec<char> = Vec::new();
        let mut i: usize = 0;
        while i < chars.len()
            invariant
                i <= chars.len(),
                lower@ == chars@.take(i as int).map_values(|c: char| ascii_lower(c)),
            decreases chars.len() - i,
        {
            lower.push(char_to_ascii_lower(chars[i]));
            proof {
                assert(chars@.take(i + 1) == chars@.take(i as int).push(chars@[i as int]));
                assert(lower@ == chars@.take(i + 1).map_values(|c: char| ascii_lower(c)));
            }
            i += 1;
        }
        proof {
            assert(chars@.take(chars.len() as int) == chars@);
        }
        let left = vec!['l', 'e', 'f', 't'];
        let right = vec!['r', 'i', 'g', 'h', 't'];
        let up = vec!['u', 'p'];
        let down = vec!['d', 'o', 'w', 'n'];
        proof {
            assert(left@ == seq!['l', 'e', 'f', 't']);
            assert(right@ == seq!['r', 'i', 'g', 'h', 't']);
            assert(up@ == seq!['u', 'p']);
            assert(down@ == seq!['d', 'o', 'w', 'n']);
        }
        if same_chars(&lower, &left) {
            Action::Left
        } else if same_chars(&lower, &right) {
            Action::Right
        } else if same_chars(&lower, &up) {
            Action::Up
        } else if same_chars(&lower, &down) {
            Action::Down
        } else {
            Action::Noop
        }
    }
}

/// Whether keystrokes are resolved through the key bindings or taken as
/// they are.
#[derive(Debug, Copy, Clone, PartialEq, Eq, Structural)]
pub enum InputMode {
    Mapped,
    Raw,
}

/// The keys whose state the handler follows.
#[derive(Debug, Copy, Clone, PartialEq, Eq, Structural)]
pub enum Key {
    LControl,
    RControl,
    Other,
}

impl Key {
    /// Whether the key is one of the two control keys.
    pub open spec fn is_control(self) -> bool {
        self == Key::LControl || self == Key::RControl
    }
}

/// Whether a key went down or came up.
#[derive(Debug, Copy, Clone, PartialEq, Eq, Structural)]
pub enum KeyState {
    Pressed,
    Released,
}

/// The key bindings that a table's entries give, read in order: each entry
/// whose value is a string that is not empty binds the first character of
/// that string to the action that the entry's name stands for. A later entry
/// for a character replaces an earlier one.
pub open spec fn bound_keys(table: Seq<BindingSpec>) -> Map<char, Action>
    decreases table.len(),
{
    if table.len() == 0 {
        Map::empty()
    } else {
        let before = bound_keys(table.drop_last());
        match table.last().key {
            Some(key) => if key.len() > 0 {
                before.insert(key[0], action_named(table.last().name))
            } else {
                before
            },
            None => before,
        }
    }
}

/// Whether an entry binds the character `c`.
pub open spec fn binds(entry: BindingSpec, c: char) -> bool {
    match entry.key {
        Some(key) => key.len() > 0 && key[0] == c,
        None => false,
    }
}

/// Of the entries that bind a character, the last one decides what it is
/// bound to.
pub proof fn law_last_binding_decides(table: Seq<BindingSpec>, c: char, last: int)
    requires
        0 <= last < table.len(),
        binds(table[last], c),
        forall|i: int| last < i < table.len() ==> !binds(#[trigger] table[i], c),
    ensures
        bound_keys(table).contains_key(c),
        bound_keys(table)[c] == action_named(table[last].name),
    decreases table.len(),
{
    if last < table.len() - 1 {
        let front = table.drop_last();
        assert(!binds(table[table.len() - 1], c));
        assert forall|i: int| last < i < front.len() implies !binds(#[trigger] front[i], c) by {
            assert(front[i] == table[i]);
        }
        law_last_binding_decides(front, c, last);
    }
}

/// The number under which a character is filed.
pub open spec fn code(c: char) -> u32 {
    c as u32
}

/// Two characters are never filed under one number.
proof fn lemma_code_injective(a: char, b: char)
    ensures
        a != b ==> code(a) != code(b),
{
    assert(code(a) as int == a as int);
    assert(code(b) as int == b as int);
}

/// The number under which `c` is filed.
fn code_of(c: char) -> (n: u32)
    ensures
        n == code(c),
{
    c as u32
}

/// The bindings of one editing mode: from a character to an action.
#[derive(Debug)]
pub struct KeyMap(HashMap<u32, Action>);

impl View for KeyMap {
    type V = Map<char, Action>;

    closed spec fn view(&self) -> Map<char, Action> {
        Map::new(|c: char| self.0@.contains_key(code(c)), |c: char| self.0@[code(c)])
    }
}

impl KeyMap {
    /// The bindings that a value of the key-binding document gives: those of
    /// its entries if it is a table, none otherwise.
    pub open spec fn spec_from_val(val: Option<toml::Value>) -> Map<char, Action> {
        match val {
            Some(value) => match toml_entries(value) {
                Some(table) => bound_keys(table),
                None => Map::empty(),
            },
            None => Map::empty(),
        }
    }

    /// Whether the entries of `val`, if it is a table, stand in the order of
    /// their names.
    pub open spec fn in_order(val: Option<toml::Value>) -> bool {
        match val {
            Some(value) => match toml_entries(value) {
                Some(table) => ascending(table),
                None => true,
            },
            None => true,
        }
    }

    /// A key map without bindings.
    pub fn empty() -> (keys: KeyMap)
        ensures
            keys@ == Map::<char, Action>::empty(),
    {
        let keys = KeyMap(HashMap::new());
        proof {
            assert(keys@ =~= Map::<char, Action>::empty());
        }
        keys
    }

    /// The action bound to `c`, if any. The control key does not change the
    /// answer.
    pub fn map_input(&self, c: char, ctrl: bool) -> (action: Option<Action>)
        ensures
            action == (if self@.contains_key(c) {
                Some(self@[c])
            } else {
                None
            }),
    {
        let code: u32 = code_of(c);
        match self.0.get(&code) {
            Some(action) => Some(*action),
            None => None,
        }
    }

    /// The key map that the entries of a table give.
    pub fn from_bindings(table: &Vec<Binding>) -> (keys: KeyMap)
        ensures
            keys@ == bound_keys(table@.map_values(|b: Binding| b@)),
    {
        let ghost all = table@.map_values(|b: Binding| b@);
        let mut keys = KeyMap::empty();
        let mut i: usize = 0;
        proof {
            assert(all.take(0) =~= Seq::<BindingSpec>::empty());
        }
        while i < table.len()
            invariant
                i <= table.len(),
                all == table@.map_values(|b: Binding| b@),
                keys@ == bound_keys(all.take(i as int)),
            decreases table.len() - i,
        {
            let ghost before = keys@;
            proof {
                assert(all.take(i + 1).drop_last() =~= all.take(i as int));
                assert(all.take(i + 1).last() == table@[i as int]@);
            }
            match &table[i].key {
                Some(key) => {
                    let key_chars = chars_of(key.as_str());
                    if key_chars.len() > 0 {
                        let action = Action::from_str(table[i].name.as_str());
                        let c = key_chars[0];
                        keys.0.insert(code_of(c), action);
                        proof {
                            assert forall|d: char| d != c implies #[trigger] code(d) != code(c) by {
                                lemma_code_injective(d, c);
                            }
                            assert(keys@ =~= before.insert(c, action));
                        }
                    }
                },
                None => {},
            }
            i += 1;
        }
        proof {
            assert(all.take(table.len() as int) =~= all);
        }
        keys
    }

    /// The key map of one section of the key-binding document. A section
    /// that is missing, or that is no table, binds nothing. The entries of a
    /// table are read in the order of their names, so of two names that bind
    /// one character the later in that order decides.
    pub fn from_val(val: Option<&toml::Value>) -> (keys: KeyMap)
        ensures
            keys@ == KeyMap::spec_from_val(
                match val {
                    Some(value) => Some(*value),
                    None => None,
                },
            ),
            KeyMap::in_order(
                match val {
                    Some(value) => Some(*value),
                    None => None,
                },
            ),
    {
        match val {
            Some(value) => match entries(value) {
                Some(table) => KeyMap::from_bindings(&table),
                None => KeyMap::empty(),
            },
            None => KeyMap::empty(),
        }
    }
}

/// Whether `c` opens a level of nesting in a TOML document: the bracket of
/// an array or of a table's header, the brace of an inline table, or the
/// dot of a dotted name.
pub open spec fn is_nesting_mark(c: char) -> bool {
    c == '[' || c == '{' || c == '.'
}

/// How many nesting marks `text` holds. Each level of nesting in a document
/// takes one, so this bounds how deep the document goes.
pub open spec fn nesting_marks(text: Seq<char>) -> nat
    decreases text.len(),
{
    if text.len() == 0 {
        0
    } else {
        nesting_marks(text.drop_last()) + if is_nesting_mark(text.last()) {
            1nat
        } else {
            0nat
        }
    }
}

/// The most nesting marks that a key-binding table may hold. A table with
/// more is refused unread, so that reading it cannot exhaust the stack.
pub const MAX_NESTING_MARKS: usize = 100;

/// The document that the text of a key-binding table stands for: what
/// `toml` reads from it, if the text holds no more nesting marks than
/// allowed and `toml` accepts it.
pub open spec fn table_document(text: Seq<char>) -> Option<toml::Value> {
    if nesting_marks(text) <= MAX_NESTING_MARKS {
        toml_document(text)
    } else {
        None
    }
}

/// Why a key-binding table could not be used.
#[derive(Debug)]
pub enum ConfigError {
    /// The text holds more nesting marks than allowed.
    TooDeep,
    /// The text is no TOML document.
    Malformed(toml::de::Error),
}

impl ConfigError {
    /// Whether `self` is the error that the text of a key-binding table is
    /// refused with: `TooDeep` for a text with too many nesting marks,
    /// `Malformed` for any other that `toml` does not accept.
    pub open spec fn refuses(self, text: Seq<char>) -> bool {
        &&& table_document(text).is_none()
        &&& (self is TooDeep) <==> nesting_marks(text) > MAX_NESTING_MARKS
    }
}

fn char_is_nesting_mark(c: char) -> (b: bool)
    ensures
        b == is_nesting_mark(c),
{
    c == '[' || c == '{' || c == '.'
}

/// Counts the nesting marks of `text`.
pub fn count_nesting_marks(text: &str) -> (count: usize)
    ensures
        count == nesting_marks(text@),
{
    let chars = chars_of(text);
    let mut count: usize = 0;
    let mut i: usize = 0;
    proof {
        assert(chars@.take(0) =~= Seq::<char>::empty());
    }
    while i < chars.len()
        invariant
            i <= chars.len(),
            count <= i,
            count == nesting_marks(chars@.take(i as int)),
        decreases chars.len() - i,
    {
        proof {
            assert(chars@.take(i + 1).drop_last() =~= chars@.take(i as int));
            assert(chars@.take(i + 1).last() == chars@[i as int]);
        }
        if char_is_nesting_mark(chars[i]) {
            count += 1;
        }
        i += 1;
    }
    proof {
        assert(chars@.take(chars.len() as int) =~= chars@);
    }
    count
}

/// The key bindings of the three modes that have any. Command mode has
/// none: its keystrokes are text.
#[derive(Debug)]
pub struct InputMap {
    normal: KeyMap,
    insert: KeyMap,
    visual: KeyMap,
}

impl InputMap {
    /// The bindings that hold in `mode`.
    pub closed spec fn keys(&self, mode: Mode) -> Map<char, Action> {
        match mode {
            Mode::Insert => self.insert@,
            Mode::Normal => self.normal@,
            Mode::Visual => self.visual@,
            Mode::Command => Map::empty(),
        }
    }

    /// The action that `c` resolves to in `mode`, if any.
    pub open spec fn resolve(&self, c: char, mode: Mode) -> Option<Action> {
        if self.keys(mode).contains_key(c) {
            Some(self.keys(mode)[c])
        } else {
            None
        }
    }

    /// Whether `self` holds the bindings that `doc` gives in its sections
    /// `normal`, `insert` and `visual`, each read in the order of its names.
    pub open spec fn reads(&self, doc: toml::Value) -> bool {
        &&& self.keys(Mode::Normal) == KeyMap::spec_from_val(toml_member(doc, "normal"@))
        &&& self.keys(Mode::Insert) == KeyMap::spec_from_val(toml_member(doc, "insert"@))
        &&& self.keys(Mode::Visual) == KeyMap::spec_from_val(toml_member(doc, "visual"@))
        &&& self.keys(Mode::Command) == Map::<char, Action>::empty()
        &&& KeyMap::in_order(toml_member(doc, "normal"@))
        &&& KeyMap::in_order(toml_member(doc, "insert"@))
        &&& KeyMap::in_order(toml_member(doc, "visual"@))
    }

    /// The bindings of a parsed key-binding document.
    pub fn from_document(doc: &toml::Value) -> (map: InputMap)
        ensures
            map.reads(*doc),
    {
        InputMap {
            normal: KeyMap::from_val(member(doc, "normal")),
            insert: KeyMap::from_val(member(doc, "insert")),
            visual: KeyMap::from_val(member(doc, "visual")),
        }
    }

    /// The bindings of the three sections.
    pub fn from_sections(normal: KeyMap, insert: KeyMap, visual: KeyMap) -> (map: InputMap)
        ensures
            map.keys(Mode::Normal) == normal@,
            map.keys(Mode::Insert) == insert@,
            map.keys(Mode::Visual) == visual@,
            map.keys(Mode::Command) == Map::<char, Action>::empty(),
    {
        InputMap { normal, insert, visual }
    }

    /// Reads the key-binding table from the text of a TOML document. Fails
    /// exactly when the text holds too many nesting marks or is no TOML
    /// document.
    pub fn new(config: &str) -> (result: Result<InputMap, ConfigError>)
        ensures
            match result {
                Ok(map) => match table_document(config@) {
                    Some(doc) => map.reads(doc),
                    None => false,
                },
                Err(e) => e.refuses(config@),
            },
    {
        if count_nesting_marks(config) > MAX_NESTING_MARKS {
            return Err(ConfigError::TooDeep);
        }
        match parse_document(config) {
            Ok(doc) => Ok(InputMap::from_document(&doc)),
            Err(e) => Err(ConfigError::Malformed(e)),
        }
    }

    /// Resolves a character in a mode. In command mode nothing is bound.
    pub fn map_input(&self, c: char, mode: Mode, ctrl: bool) -> (action: Option<Action>)
        ensures
            action == self.resolve(c, mode),
    {
        match mode {
            Mode::Insert => self.insert.map_input(c, ctrl),
            Mode::Normal => self.normal.map_input(c, ctrl),
            Mode::Visual => self.visual.map_input(c, ctrl),
            Mode::Command => None,
        }
    }
}

/// Remembers the character last received and whether a control key is held,
/// and resolves characters through the key bindings.
#[derive(Debug)]
pub struct InputHandler {
    pub key: Option<char>,
    pub ctrl: bool,
    pub input_map: InputMap,
}

impl InputHandler {
    /// The action that `c` resolves to in `mode`, if any.
    pub open spec fn spec_to_action(&self, c: char, mode: Mode) -> Option<Action> {
        self.input_map.resolve(c, mode)
    }

    /// A handler over the given bindings: no key received, control not held.
    pub fn with_map(input_map: InputMap) -> (handler: InputHandler)
        ensures
            handler.key.is_none(),
            !handler.ctrl,
            handler.input_map == input_map,
    {
        InputHandler { key: None, ctrl: false, input_map }
    }

    /// A handler whose bindings are read from the text of the key-binding
    /// table. Fails exactly when the text holds too many nesting marks or is
    /// no TOML document.
    pub fn new(config: &str) -> (result: Result<InputHandler, ConfigError>)
        ensures
            match result {
                Ok(handler) => match table_document(config@) {
                    Some(doc) => handler.input_map.reads(doc) && handler.key.is_none()
                        && !handler.ctrl,
                    None => false,
                },
                Err(e) => e.refuses(config@),
            },
    {
        match InputMap::new(config) {
            Ok(input_map) => Ok(InputHandler::with_map(input_map)),
            Err(e) => Err(e),
        }
    }

    /// Records `c` as the character last received.
    pub fn update(&mut self, c: char)
        ensures
            final(self).key == Some(c),
            final(self).ctrl == old(self).ctrl,
            final(self).input_map == old(self).input_map,
    {
        self.key = Some(c);
    }

    /// Follows the control keys: pressing either one sets `ctrl`, releasing
    /// either one clears it. Other keys change nothing.
    pub fn update_modifier(&mut self, key: Key, state: KeyState)
        ensures
            final(self).ctrl == (if key.is_control() {
                state == KeyState::Pressed
            } else {
                old(self).ctrl
            }),
            final(self).key == old(self).key,
            final(self).input_map == old(self).input_map,
    {
        match (key, state) {
            (Key::LControl, KeyState::Pressed) => self.ctrl = true,
            (Key::RControl, KeyState::Pressed) => self.ctrl = true,
            _ => {},
        }
        match (state, key) {
            (KeyState::Released, Key::LControl) => self.ctrl = false,
            (KeyState::Released, Key::RControl) => self.ctrl = false,
            _ => {},
        }
    }

    /// Hands out the character last received and forgets it.
    pub fn take(&mut self) -> (key: Option<char>)
        ensures
            key == old(self).key,
            final(self).key.is_none(),
            final(self).ctrl == old(self).ctrl,
            final(self).input_map == old(self).input_map,
    {
        let key = self.key;
        self.key = None;
        key
    }

    /// Resolves `c` through the bindings of `mode`. A character that is not
    /// bound gives no action.
    pub fn to_action(&self, c: char, mode: Mode) -> (action: Option<Action>)
        ensures
            action == self.spec_to_action(c, mode),
    {
        self.input_map.map_input(c, mode, self.ctrl)
    }

    /// Forgets the character last received.
    pub fn consume(&mut self)
        ensures
            final(self).key.is_none(),
            final(self).ctrl == old(self).ctrl,
            final(self).input_map == old(self).input_map,
    {
        self.key = None;
    }
}

/// What takes keystrokes: given a character, the mode it came in under and
/// the input handler, a component acts on the character or lets it pass.
pub trait Input: Sized {
    /// Whether the component can be handed `c` under `mode`.
    spec fn ready(&self, c: char, mode: Mode, input: &InputHandler) -> bool;

    /// Whether `self` is what `before` becomes when it is handed `c` under
    /// `mode`.
    spec fn handled(&self, before: Self, c: char, mode: Mode, input: &InputHandler) -> bool;

    fn input(&mut self, c: char, mode: Mode, input: &InputHandler)
        requires
            old(self).ready(c, mode, input),
        ensures
            final(self).handled(*old(self), c, mode, input),
    ;
}

} // verus!
