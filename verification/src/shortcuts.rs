//! Global shortcut: parsing of strings such as `"ctrl+shift+space"` and the
//! key tracker that turns raw key events into press and release of the
//! shortcut.
use vstd::prelude::*;
use crate::number::decimal;
use crate::text::{
    chars_of, concat_lit, is_literal, lowercase, split, split_chars, string_from,
    to_lowercase_chars, trim, trim_chars, views,
};

verus! {

/// A modifier that a shortcut may require.
#[derive(Debug, Clone, Copy, PartialEq, Eq, Hash, Structural)]
pub enum Modifier {
    Ctrl,
    Shift,
    Alt,
    Super,
}

/// The keys the shortcut listener tells apart; every other key is `Other`.
#[derive(Debug, Clone, Copy, PartialEq, Eq, Hash, Structural)]
pub enum Key {
    Space,
    Return,
    Escape,
    Tab,
    Backspace,
    F1,
    F2,
    F3,
    F4,
    F5,
    F6,
    F7,
    F8,
    F9,
    F10,
    F11,
    F12,
    KeyA,
    KeyB,
    KeyC,
    KeyD,
    KeyE,
    KeyF,
    KeyG,
    KeyH,
    KeyI,
    KeyJ,
    KeyK,
    KeyL,
    KeyM,
    KeyN,
    KeyO,
    KeyP,
    KeyQ,
    KeyR,
    KeyS,
    KeyT,
    KeyU,
    KeyV,
    KeyW,
    KeyX,
    KeyY,
    KeyZ,
    ControlLeft,
    ControlRight,
    ShiftLeft,
    ShiftRight,
    Alt,
    AltGr,
    MetaLeft,
    MetaRight,
    Other,
}

/// A set of modifiers.
#[derive(Debug, Clone, Copy, PartialEq, Eq, Structural)]
pub struct ModifierSet {
    pub ctrl: bool,
    pub shift: bool,
    pub alt: bool,
    pub super_key: bool,
}

impl ModifierSet {
    pub open spec fn has(self, m: Modifier) -> bool {
        match m {
            Modifier::Ctrl => self.ctrl,
            Modifier::Shift => self.shift,
            Modifier::Alt => self.alt,
            Modifier::Super => self.super_key,
        }
    }

    /// The empty set.
    pub fn new() -> (s: Self)
        ensures
            forall|m: Modifier| !s.has(m),
    {
        ModifierSet { ctrl: false, shift: false, alt: false, super_key: false }
    }

    /// Adds a modifier.
    pub fn insert(&mut self, m: Modifier)
        ensures
            forall|x: Modifier| final(self).has(x) == (old(self).has(x) || x == m),
    {
        match m {
            Modifier::Ctrl => self.ctrl = true,
            Modifier::Shift => self.shift = true,
            Modifier::Alt => self.alt = true,
            Modifier::Super => self.super_key = true,
        }
    }

    /// Whether the set holds the modifier.
    pub fn contains(&self, m: &Modifier) -> (r: bool)
        ensures
            r == self.has(*m),
    {
        match m {
            Modifier::Ctrl => self.ctrl,
            Modifier::Shift => self.shift,
            Modifier::Alt => self.alt,
            Modifier::Super => self.super_key,
        }
    }

    /// Whether the set holds no modifier.
    pub fn is_empty(&self) -> (r: bool)
        ensures
            r == (forall|m: Modifier| !self.has(m)),
    {
        let r = !self.ctrl && !self.shift && !self.alt && !self.super_key;
        assert(!self.has(Modifier::Ctrl) && !self.has(Modifier::Shift) && !self.has(Modifier::Alt)
            ==> (self.has(Modifier::Super) == !r));
        r
    }
}

/// A parsed shortcut: the modifiers it requires and its trigger key.
#[derive(Debug, Clone, Copy, PartialEq, Eq, Structural)]
pub struct Shortcut {
    pub modifiers: ModifierSet,
    pub key: Key,
}

// ───────────────────────────── parsing ─────────────────────────────

/// The modifier that a lowercase name denotes.
pub open spec fn modifier_name(l: Seq<char>) -> Option<Modifier> {
    if l == "ctrl"@ || l == "control"@ {
        Some(Modifier::Ctrl)
    } else if l == "shift"@ {
        Some(Modifier::Shift)
    } else if l == "alt"@ {
        Some(Modifier::Alt)
    } else if l == "super"@ || l == "meta"@ || l == "win"@ {
        Some(Modifier::Super)
    } else {
        None
    }
}

/// The modifier a part of a shortcut names, compared case-insensitively.
pub open spec fn modifier_of(part: Seq<char>) -> Option<Modifier> {
    modifier_name(lowercase(part))
}

/// The named (non-letter) key that a lowercase name denotes.
pub open spec fn key_name(l: Seq<char>) -> Option<Key> {
    if l == "space"@ {
        Some(Key::Space)
    } else if l == "return"@ || l == "enter"@ {
        Some(Key::Return)
    } else if l == "escape"@ || l == "esc"@ {
        Some(Key::Escape)
    } else if l == "tab"@ {
        Some(Key::Tab)
    } else if l == "backspace"@ {
        Some(Key::Backspace)
    } else if l == "f1"@ {
        Some(Key::F1)
    } else if l == "f2"@ {
        Some(Key::F2)
    } else if l == "f3"@ {
        Some(Key::F3)
    } else if l == "f4"@ {
        Some(Key::F4)
    } else if l == "f5"@ {
        Some(Key::F5)
    } else if l == "f6"@ {
        Some(Key::F6)
    } else if l == "f7"@ {
        Some(Key::F7)
    } else if l == "f8"@ {
        Some(Key::F8)
    } else if l == "f9"@ {
        Some(Key::F9)
    } else if l == "f10"@ {
        Some(Key::F10)
    } else if l == "f11"@ {
        Some(Key::F11)
    } else if l == "f12"@ {
        Some(Key::F12)
    } else {
        None
    }
}

/// The letter key of a lowercase ASCII letter.
pub open spec fn letter_key(c: char) -> Option<Key> {
    match c {
        'a' => Some(Key::KeyA),
        'b' => Some(Key::KeyB),
        'c' => Some(Key::KeyC),
        'd' => Some(Key::KeyD),
        'e' => Some(Key::KeyE),
        'f' => Some(Key::KeyF),
        'g' => Some(Key::KeyG),
        'h' => Some(Key::KeyH),
        'i' => Some(Key::KeyI),
        'j' => Some(Key::KeyJ),
        'k' => Some(Key::KeyK),
        'l' => Some(Key::KeyL),
        'm' => Some(Key::KeyM),
        'n' => Some(Key::KeyN),
        'o' => Some(Key::KeyO),
        'p' => Some(Key::KeyP),
        'q' => Some(Key::KeyQ),
        'r' => Some(Key::KeyR),
        's' => Some(Key::KeyS),
        't' => Some(Key::KeyT),
        'u' => Some(Key::KeyU),
        'v' => Some(Key::KeyV),
        'w' => Some(Key::KeyW),
        'x' => Some(Key::KeyX),
        'y' => Some(Key::KeyY),
        'z' => Some(Key::KeyZ),
        _ => None,
    }
}

/// The key a lowercased key name denotes, or the error text: named keys
/// first, then a single ASCII character (only letters are supported).
pub open spec fn key_from_lowercase_spec(l: Seq<char>) -> Result<Key, Seq<char>> {
    match key_name(l) {
        Some(k) => Ok(k),
        None => if l.len() == 1 && (l[0] as u32) < 0x80 {
            match letter_key(l[0]) {
                Some(k) => Ok(k),
                None => Err("unsupported key character: "@ + l),
            }
        } else {
            Err("unknown key: "@ + l)
        },
    }
}

/// The trimmed parts of a shortcut string, split at `+`.
pub open spec fn shortcut_parts(s: Seq<char>) -> Seq<Seq<char>> {
    split(s, '+').map_values(|p: Seq<char>| trim(p))
}

/// The parts that name no modifier, in order.
pub open spec fn non_modifier_parts(parts: Seq<Seq<char>>) -> Seq<Seq<char>>
    decreases parts.len(),
{
    if parts.len() == 0 {
        seq![]
    } else {
        let rest = non_modifier_parts(parts.drop_last());
        if modifier_of(parts.last()) is None {
            rest.push(parts.last())
        } else {
            rest
        }
    }
}

/// Some part of `parts` names the modifier `m`.
pub open spec fn names_modifier(parts: Seq<Seq<char>>, m: Modifier) -> bool {
    exists|i: int| 0 <= i < parts.len() && modifier_of(#[trigger] parts[i]) == Some(m)
}

/// The trigger key of a shortcut string, or the error text.
pub open spec fn shortcut_key_spec(s: Seq<char>) -> Result<Key, Seq<char>> {
    let parts = shortcut_parts(s);
    if parts.len() == 1 && parts[0].len() == 0 {
        Err("empty shortcut"@)
    } else {
        let keys = non_modifier_parts(parts);
        if keys.len() == 0 {
            Err("no trigger key found"@)
        } else if keys.len() == 1 {
            key_from_lowercase_spec(lowercase(keys[0]))
        } else {
            Err("multiple non-modifier keys: "@ + keys[1])
        }
    }
}

/// The modifier a lowercase name denotes.
pub fn modifier_from_lowercase(l: &[char]) -> (r: Option<Modifier>)
    ensures
        r == modifier_name(l@),
{
    if is_literal(l, "ctrl") || is_literal(l, "control") {
        Some(Modifier::Ctrl)
    } else if is_literal(l, "shift") {
        Some(Modifier::Shift)
    } else if is_literal(l, "alt") {
        Some(Modifier::Alt)
    } else if is_literal(l, "super") || is_literal(l, "meta") || is_literal(l, "win") {
        Some(Modifier::Super)
    } else {
        None
    }
}

/// The modifier that `part` names, compared case-insensitively.
fn parse_modifier(part: &[char]) -> (r: Option<Modifier>)
    ensures
        r == modifier_of(part@),
{
    let lowered = to_lowercase_chars(part);
    modifier_from_lowercase(lowered.as_slice())
}

fn named_key(l: &[char]) -> (r: Option<Key>)
    ensures
        r == key_name(l@),
{
    if is_literal(l, "space") {
        Some(Key::Space)
    } else if is_literal(l, "return") || is_literal(l, "enter") {
        Some(Key::Return)
    } else if is_literal(l, "escape") || is_literal(l, "esc") {
        Some(Key::Escape)
    } else if is_literal(l, "tab") {
        Some(Key::Tab)
    } else if is_literal(l, "backspace") {
        Some(Key::Backspace)
    } else if is_literal(l, "f1") {
        Some(Key::F1)
    } else if is_literal(l, "f2") {
        Some(Key::F2)
    } else if is_literal(l, "f3") {
        Some(Key::F3)
    } else if is_literal(l, "f4") {
        Some(Key::F4)
    } else if is_literal(l, "f5") {
        Some(Key::F5)
    } else if is_literal(l, "f6") {
        Some(Key::F6)
    } else if is_literal(l, "f7") {
        Some(Key::F7)
    } else if is_literal(l, "f8") {
        Some(Key::F8)
    } else if is_literal(l, "f9") {
        Some(Key::F9)
    } else if is_literal(l, "f10") {
        Some(Key::F10)
    } else if is_literal(l, "f11") {
        Some(Key::F11)
    } else if is_literal(l, "f12") {
        Some(Key::F12)
    } else {
        None
    }
}

/// The letter key of a lowercase ASCII letter.
fn key_from_char(c: char) -> (r: Option<Key>)
    ensures
        r == letter_key(c),
{
    match c {
        'a' => Some(Key::KeyA),
        'b' => Some(Key::KeyB),
        'c' => Some(Key::KeyC),
        'd' => Some(Key::KeyD),
        'e' => Some(Key::KeyE),
        'f' => Some(Key::KeyF),
        'g' => Some(Key::KeyG),
        'h' => Some(Key::KeyH),
        'i' => Some(Key::KeyI),
        'j' => Some(Key::KeyJ),
        'k' => Some(Key::KeyK),
        'l' => Some(Key::KeyL),
        'm' => Some(Key::KeyM),
        'n' => Some(Key::KeyN),
        'o' => Some(Key::KeyO),
        'p' => Some(Key::KeyP),
        'q' => Some(Key::KeyQ),
        'r' => Some(Key::KeyR),
        's' => Some(Key::KeyS),
        't' => Some(Key::KeyT),
        'u' => Some(Key::KeyU),
        'v' => Some(Key::KeyV),
        'w' => Some(Key::KeyW),
        'x' => Some(Key::KeyX),
        'y' => Some(Key::KeyY),
        'z' => Some(Key::KeyZ),
        _ => None,
    }
}

/// The key a lowercased key name denotes, or why there is none.
pub fn key_from_lowercase(l: &[char]) -> (r: Result<Key, String>)
    ensures
        match key_from_lowercase_spec(l@) {
            Ok(k) => r == Ok::<Key, String>(k),
            Err(e) => r matches Err(m) && m@ == e,
        },
{
    match named_key(l) {
        Some(k) => Ok(k),
        None => {
            if l.len() == 1 && (l[0] as u32) < 0x80 {
                match key_from_char(l[0]) {
                    Some(k) => Ok(k),
                    None => Err(concat_lit("unsupported key character: ", l)),
                }
            } else {
                Err(concat_lit("unknown key: ", l))
            }
        },
    }
}

/// The key that `part` names, compared case-insensitively.
fn parse_key(part: &[char]) -> (r: Result<Key, String>)
    ensures
        match key_from_lowercase_spec(lowercase(part@)) {
            Ok(k) => r == Ok::<Key, String>(k),
            Err(e) => r matches Err(m) && m@ == e,
        },
{
    let lowered = to_lowercase_chars(part);
    key_from_lowercase(lowered.as_slice())
}

/// The trimmed parts of `s` split at `+`; an empty shortcut is refused.
fn split_shortcut_parts(s: &[char]) -> (r: Result<Vec<Vec<char>>, String>)
    ensures
        match r {
            Ok(parts) => views(parts@) == shortcut_parts(s@) && !(shortcut_parts(s@).len() == 1
                && shortcut_parts(s@)[0].len() == 0),
            Err(e) => e@ == "empty shortcut"@ && shortcut_parts(s@).len() == 1 && shortcut_parts(
                s@,
            )[0].len() == 0,
        },
{
    let pieces = split_chars(s, '+');
    let ghost sp = split(s@, '+');
    let mut parts: Vec<Vec<char>> = Vec::new();
    let mut i: usize = 0;
    while i < pieces.len()
        invariant
            i <= pieces@.len(),
            views(pieces@) == sp,
            parts@.len() == i,
            forall|j: int| 0 <= j < i ==> (#[trigger] parts@[j])@ == trim(sp[j]),
        decreases pieces@.len() - i,
    {
        assert(views(pieces@)[i as int] == pieces@[i as int]@);
        let t = trim_chars(pieces[i].as_slice());
        parts.push(t);
        i = i + 1;
    }
    assert(views(parts@) =~= shortcut_parts(s@)) by {
        assert(sp.len() == pieces@.len());
        assert forall|j: int| 0 <= j < parts@.len() implies views(parts@)[j] == shortcut_parts(
            s@,
        )[j] by {
            assert(views(parts@)[j] == parts@[j]@);
        }
    }
    if parts.len() == 0 || (parts.len() == 1 && parts[0].len() == 0) {
        proof {
            crate::text::lemma_split_from_nonempty(s@, '+', seq![]);
            assert(views(parts@)[0] == parts@[0]@);
        }
        return Err(string_from(chars_of("empty shortcut").as_slice()));
    }
    proof {
        if parts@.len() == 1 {
            assert(views(parts@)[0] == parts@[0]@);
        }
    }
    Ok(parts)
}

/// The set of modifiers that the parts name.
fn extract_modifiers(parts: &Vec<Vec<char>>) -> (r: ModifierSet)
    ensures
        forall|m: Modifier| r.has(m) == names_modifier(views(parts@), m),
{
    let mut mods = ModifierSet::new();
    let mut i: usize = 0;
    while i < parts.len()
        invariant
            i <= parts@.len(),
            forall|m: Modifier| mods.has(m) == names_modifier(views(parts@).take(i as int), m),
        decreases parts@.len() - i,
    {
        let found = parse_modifier(parts[i].as_slice());
        if let Some(m) = found {
            mods.insert(m);
        }
        i = i + 1;
        assert forall|m: Modifier| mods.has(m) == names_modifier(views(parts@).take(i as int), m) by {
            let v = views(parts@).take(i as int);
            let w = views(parts@).take(i - 1);
            assert(v[i - 1] == parts@[i - 1]@);
            if names_modifier(v, m) {
                let j = choose|j: int| 0 <= j < v.len() && modifier_of(#[trigger] v[j]) == Some(m);
                if j < i - 1 {
                    assert(w[j] == v[j]);
                }
            }
            if names_modifier(w, m) {
                let j = choose|j: int| 0 <= j < w.len() && modifier_of(#[trigger] w[j]) == Some(m);
                assert(w[j] == v[j]);
            }
        }
    }
    assert(views(parts@).take(i as int) =~= views(parts@));
    mods
}

/// The parts that name no modifier.
fn trigger_parts(parts: &Vec<Vec<char>>) -> (r: Vec<Vec<char>>)
    ensures
        views(r@) == non_modifier_parts(views(parts@)),
{
    let mut out: Vec<Vec<char>> = Vec::new();
    let mut i: usize = 0;
    while i < parts.len()
        invariant
            i <= parts@.len(),
            views(out@) == non_modifier_parts(views(parts@).take(i as int)),
        decreases parts@.len() - i,
    {
        let ghost v = views(parts@).take(i + 1);
        assert(v.drop_last() =~= views(parts@).take(i as int));
        assert(v.last() == parts@[i as int]@);
        if parse_modifier(parts[i].as_slice()).is_none() {
            let ghost before = out@;
            out.push(parts[i].clone());
            assert(views(out@) =~= views(before).push(parts@[i as int]@));
        }
        i = i + 1;
    }
    assert(views(parts@).take(i as int) =~= views(parts@));
    out
}

/// The trigger key among the parts: exactly one part may name no modifier.
fn extract_trigger_key(parts: &Vec<Vec<char>>) -> (r: Result<Key, String>)
    ensures
        ({
            let keys = non_modifier_parts(views(parts@));
            if keys.len() == 0 {
                r matches Err(m) && m@ == "no trigger key found"@
            } else if keys.len() == 1 {
                match key_from_lowercase_spec(lowercase(keys[0])) {
                    Ok(k) => r == Ok::<Key, String>(k),
                    Err(e) => r matches Err(m) && m@ == e,
                }
            } else {
                r matches Err(m) && m@ == "multiple non-modifier keys: "@ + keys[1]
            }
        }),
{
    let keys = trigger_parts(parts);
    if keys.len() == 0 {
        Err(string_from(chars_of("no trigger key found").as_slice()))
    } else if keys.len() == 1 {
        assert(views(keys@)[0] == keys@[0]@);
        parse_key(keys[0].as_slice())
    } else {
        assert(views(keys@)[1] == keys@[1]@);
        Err(concat_lit("multiple non-modifier keys: ", keys[1].as_slice()))
    }
}

impl Shortcut {
    /// Parses a shortcut string like `"ctrl+shift+space"`: parts are split
    /// at `+` and trimmed, modifier names and key names are matched
    /// case-insensitively, and exactly one part must name the trigger key.
    pub fn parse(s: &str) -> (r: Result<Shortcut, String>)
        ensures
            match shortcut_key_spec(s@) {
                Ok(k) => r matches Ok(sc) && sc.key == k && forall|m: Modifier| sc.modifiers.has(m)
                    == names_modifier(shortcut_parts(s@), m),
                Err(e) => r matches Err(m) && m@ == e,
            },
    {
        let chars = chars_of(s);
        let parts = match split_shortcut_parts(chars.as_slice()) {
            Ok(p) => p,
            Err(e) => return Err(e),
        };
        let modifiers = extract_modifiers(&parts);
        match extract_trigger_key(&parts) {
            Ok(key) => Ok(Shortcut { modifiers, key }),
            Err(e) => Err(e),
        }
    }
}


// ───────────────────────────── key tracking ─────────────────────────────

/// What the shortcut listener reports.
#[derive(Debug, Clone, Copy, PartialEq, Eq, Structural)]
pub enum ShortcutEvent {
    Press,
    Release,
}

/// A raw keyboard event.
#[derive(Debug, Clone, Copy, PartialEq, Eq, Structural)]
pub enum KeyEvent {
    KeyPress(Key),
    KeyRelease(Key),
    Other,
}

/// Whether one of the keys that produce modifier `m` is held.
pub open spec fn holds_modifier(pressed: Set<Key>, m: Modifier) -> bool {
    match m {
        Modifier::Ctrl => pressed.contains(Key::ControlLeft) || pressed.contains(Key::ControlRight),
        Modifier::Shift => pressed.contains(Key::ShiftLeft) || pressed.contains(Key::ShiftRight),
        Modifier::Alt => pressed.contains(Key::Alt) || pressed.contains(Key::AltGr),
        Modifier::Super => pressed.contains(Key::MetaLeft) || pressed.contains(Key::MetaRight),
    }
}

/// `trigger` is the shortcut's key and every modifier it requires is held.
pub open spec fn chord_complete(sc: Shortcut, pressed: Set<Key>, trigger: Key) -> bool {
    &&& trigger == sc.key
    &&& (sc.modifiers.has(Modifier::Ctrl) ==> holds_modifier(pressed, Modifier::Ctrl))
    &&& (sc.modifiers.has(Modifier::Shift) ==> holds_modifier(pressed, Modifier::Shift))
    &&& (sc.modifiers.has(Modifier::Alt) ==> holds_modifier(pressed, Modifier::Alt))
    &&& (sc.modifiers.has(Modifier::Super) ==> holds_modifier(pressed, Modifier::Super))
}

/// The state of the listener: the keys held and whether a press of the
/// shortcut was reported and not yet released.
pub struct KeyState {
    pub pressed: Set<Key>,
    pub press_sent: bool,
}

/// One event: the listener's next state and what it reports.  A key press
/// reports `Press` once per physical hold of the trigger (repeats while the
/// key is held are ignored); releasing the trigger reports `Release` only
/// after a reported press.
pub open spec fn key_step(sc: Shortcut, st: KeyState, ev: KeyEvent) -> (KeyState, Option<ShortcutEvent>) {
    match ev {
        KeyEvent::KeyPress(k) => {
            let held = st.pressed.contains(k);
            let pressed = st.pressed.insert(k);
            if !held && chord_complete(sc, pressed, k) {
                (KeyState { pressed, press_sent: true }, Some(ShortcutEvent::Press))
            } else {
                (KeyState { pressed, press_sent: st.press_sent }, None)
            }
        },
        KeyEvent::KeyRelease(k) => {
            let pressed = st.pressed.remove(k);
            if st.press_sent && k == sc.key {
                (KeyState { pressed, press_sent: false }, Some(ShortcutEvent::Release))
            } else {
                (KeyState { pressed, press_sent: st.press_sent }, None)
            }
        },
        KeyEvent::Other => (st, None),
    }
}

/// The state of a listener that has seen no event: no key held, no press
/// reported.
pub open spec fn fresh_key_state() -> KeyState {
    KeyState { pressed: Set::empty(), press_sent: false }
}

/// A reported press is still held.
pub open spec fn key_state_inv(sc: Shortcut, st: KeyState) -> bool {
    st.press_sent ==> st.pressed.contains(sc.key)
}

/// Follows the shortcut through a stream of key events.
pub struct KeyTracker {
    shortcut: Shortcut,
    pressed: Vec<Key>,
    press_sent: bool,
}

impl KeyTracker {
    /// No key is listed twice and a reported press is still held.
    pub closed spec fn wf(self) -> bool {
        &&& self.pressed@.no_duplicates()
        &&& key_state_inv(self.shortcut, self.state())
    }

    pub closed spec fn shortcut(self) -> Shortcut {
        self.shortcut
    }

    pub closed spec fn state(self) -> KeyState {
        KeyState { pressed: self.pressed@.to_set(), press_sent: self.press_sent }
    }

    /// A tracker for `shortcut` with no key held.
    pub fn new(shortcut: Shortcut) -> (t: Self)
        ensures
            t.wf(),
            t.shortcut() == shortcut,
            t.state().pressed == Set::<Key>::empty(),
            !t.state().press_sent,
            t.state() == fresh_key_state(),
    {
        let t = KeyTracker { shortcut, pressed: Vec::new(), press_sent: false };
        assert(t.pressed@.to_set() =~= Set::<Key>::empty());
        t
    }

    fn is_held(&self, k: Key) -> (r: bool)
        ensures
            r == self.state().pressed.contains(k),
    {
        let mut i: usize = 0;
        while i < self.pressed.len()
            invariant
                i <= self.pressed@.len(),
                forall|j: int| 0 <= j < i ==> self.pressed@[j] != k,
            decreases self.pressed@.len() - i,
        {
            if self.pressed[i] == k {
                assert(self.pressed@.contains(k));
                return true;
            }
            i = i + 1;
        }
        assert(!self.pressed@.contains(k));
        false
    }

    fn chord_complete_exec(&self, trigger: Key) -> (r: bool)
        ensures
            r == chord_complete(self.shortcut, self.state().pressed, trigger),
    {
        let m = self.shortcut.modifiers;
        trigger == self.shortcut.key && (!m.ctrl || self.is_held(Key::ControlLeft) || self.is_held(
            Key::ControlRight,
        )) && (!m.shift || self.is_held(Key::ShiftLeft) || self.is_held(Key::ShiftRight)) && (
        !m.alt || self.is_held(Key::Alt) || self.is_held(Key::AltGr)) && (!m.super_key
            || self.is_held(Key::MetaLeft) || self.is_held(Key::MetaRight))
    }

    /// Feeds one key event; returns what the listener reports for it.
    pub fn handle_key_event(&mut self, ev: KeyEvent) -> (r: Option<ShortcutEvent>)
        requires
            old(self).wf(),
        ensures
            final(self).wf(),
            final(self).shortcut() == old(self).shortcut(),
            (final(self).state(), r) == key_step(old(self).shortcut(), old(self).state(), ev),
    {
        let ghost st0 = self.state();
        match ev {
            KeyEvent::KeyPress(k) => {
                let held = self.is_held(k);
                if !held {
                    let ghost before = self.pressed@;
                    self.pressed.push(k);
                    proof {
                        assert(self.pressed@ == before.push(k));
                        assert forall|x: Key| self.pressed@.contains(x) == (before.contains(x) || x == k) by {
                            if self.pressed@.contains(x) {
                                let j = choose|j: int| 0 <= j < self.pressed@.len() && self.pressed@[j] == x;
                                if j < before.len() {
                                    assert(before[j] == x);
                                }
                            }
                            if before.contains(x) {
                                let j = choose|j: int| 0 <= j < before.len() && before[j] == x;
                                assert(self.pressed@[j] == x);
                            }
                            if x == k {
                                assert(self.pressed@[before.len() as int] == k);
                            }
                        }
                        assert(self.pressed@.to_set() =~= before.to_set().insert(k));
                        assert(self.pressed@.no_duplicates()) by {
                            assert forall|a: int, b: int|
                                0 <= a < self.pressed@.len() && 0 <= b < self.pressed@.len() && a
                                    != b implies self.pressed@[a] != self.pressed@[b] by {
                                if a < before.len() && b < before.len() {
                                    assert(self.pressed@[a] == before[a]);
                                    assert(self.pressed@[b] == before[b]);
                                } else if a < before.len() {
                                    assert(before.contains(before[a]));
                                } else if b < before.len() {
                                    assert(before.contains(before[b]));
                                }
                            }
                        }
                    }
                } else {
                    assert(st0.pressed.insert(k) =~= st0.pressed);
                }
                if !held && self.chord_complete_exec(k) {
                    self.press_sent = true;
                    Some(ShortcutEvent::Press)
                } else {
                    None
                }
            },
            KeyEvent::KeyRelease(k) => {
                self.release(k);
                if self.press_sent && k == self.shortcut.key {
                    self.press_sent = false;
                    Some(ShortcutEvent::Release)
                } else {
                    None
                }
            },
            KeyEvent::Other => None,
        }
    }

    fn position(&self, k: Key) -> (r: Option<usize>)
        ensures
            match r {
                Some(i) => i < self.pressed@.len() && self.pressed@[i as int] == k,
                None => !self.pressed@.contains(k),
            },
    {
        let mut i: usize = 0;
        while i < self.pressed.len()
            invariant
                i <= self.pressed@.len(),
                forall|j: int| 0 <= j < i ==> self.pressed@[j] != k,
            decreases self.pressed@.len() - i,
        {
            if self.pressed[i] == k {
                return Some(i);
            }
            i = i + 1;
        }
        None
    }

    fn release(&mut self, k: Key)
        requires
            old(self).pressed@.no_duplicates(),
        ensures
            final(self).shortcut == old(self).shortcut,
            final(self).press_sent == old(self).press_sent,
            final(self).pressed@.no_duplicates(),
            final(self).pressed@.to_set() == old(self).pressed@.to_set().remove(k),
    {
        match self.position(k) {
            Some(i) => {
                let ghost before = self.pressed@;
                let _ = self.pressed.remove(i);
                proof {
                    let after = self.pressed@;
                    assert(after =~= before.remove(i as int));
                    assert forall|a: int, b: int|
                        0 <= a < after.len() && 0 <= b < after.len() && a != b implies after[a]
                        != after[b] by {
                        let a2 = if a < i { a } else { a + 1 };
                        let b2 = if b < i { b } else { b + 1 };
                        assert(after[a] == before[a2]);
                        assert(after[b] == before[b2]);
                    }
                    assert forall|x: Key| after.contains(x) == before.to_set().remove(k).contains(
                        x,
                    ) by {
                        if after.contains(x) {
                            let j = choose|j: int| 0 <= j < after.len() && after[j] == x;
                            let j2 = if j < i { j } else { j + 1 };
                            assert(before[j2] == x);
                            assert(j2 != i);
                        }
                        if before.contains(x) && x != k {
                            let j = choose|j: int| 0 <= j < before.len() && before[j] == x;
                            if j < i {
                                assert(after[j] == x);
                            } else {
                                assert(after[j - 1] == x);
                            }
                        }
                    }
                    assert(after.to_set() =~= before.to_set().remove(k));
                }
            },
            None => {
                assert(self.pressed@.to_set() =~= self.pressed@.to_set().remove(k));
            },
        }
    }
}


/// What the listener reports for a stream of key events, from state `st`.
pub open spec fn run_keys(sc: Shortcut, st: KeyState, evs: Seq<KeyEvent>) -> Seq<ShortcutEvent>
    decreases evs.len(),
{
    if evs.len() == 0 {
        seq![]
    } else {
        let (next, out) = key_step(sc, st, evs[0]);
        let rest = run_keys(sc, next, evs.drop_first());
        match out {
            Some(e) => seq![e] + rest,
            None => rest,
        }
    }
}

/// The listener's state after a stream of key events, from state `st`.
pub open spec fn state_after(sc: Shortcut, st: KeyState, evs: Seq<KeyEvent>) -> KeyState
    decreases evs.len(),
{
    if evs.len() == 0 {
        st
    } else {
        state_after(sc, key_step(sc, st, evs[0]).0, evs.drop_first())
    }
}

/// The reports of one step, as a sequence of at most one.
pub open spec fn reports_of(out: Option<ShortcutEvent>) -> Seq<ShortcutEvent> {
    match out {
        Some(e) => seq![e],
        None => seq![],
    }
}

pub open spec fn other_event(e: ShortcutEvent) -> ShortcutEvent {
    match e {
        ShortcutEvent::Press => ShortcutEvent::Release,
        ShortcutEvent::Release => ShortcutEvent::Press,
    }
}

/// The reports alternate, the first being `first`.
pub open spec fn alternating(outs: Seq<ShortcutEvent>, first: ShortcutEvent) -> bool
    decreases outs.len(),
{
    outs.len() == 0 || (outs[0] == first && alternating(outs.drop_first(), other_event(first)))
}

/// One step keeps the state's invariant.
pub proof fn lemma_key_step_keeps_inv(sc: Shortcut, st: KeyState, ev: KeyEvent)
    requires
        key_state_inv(sc, st),
    ensures
        key_state_inv(sc, key_step(sc, st, ev).0),
{
}

/// Law: what one event reports.  A press is reported exactly for a press of
/// the shortcut's key that was not already held, while every modifier the
/// shortcut requires is held; a release exactly for a release of the
/// shortcut's key after a reported press.  A repeated press of a held key
/// reports nothing, and an event that is neither a press nor a release
/// changes nothing.
pub proof fn lemma_key_step_reports(sc: Shortcut, st: KeyState, ev: KeyEvent)
    ensures
        (key_step(sc, st, ev).1 == Some(ShortcutEvent::Press)) <==> (ev matches KeyEvent::KeyPress(k)
            && k == sc.key && !st.pressed.contains(k) && chord_complete(sc, st.pressed.insert(k), k)),
        (key_step(sc, st, ev).1 == Some(ShortcutEvent::Release)) <==> (ev matches KeyEvent::KeyRelease(
            k,
        ) && k == sc.key && st.press_sent),
        (ev matches KeyEvent::KeyPress(k) && st.pressed.contains(k)) ==> key_step(sc, st, ev).1
            is None,
        ev is Other ==> key_step(sc, st, ev) == (st, None::<ShortcutEvent>),
{
}

/// Law: feeding one more event appends what that event reports, from the
/// state the earlier events left.
pub proof fn lemma_run_keys_push(sc: Shortcut, st: KeyState, evs: Seq<KeyEvent>, ev: KeyEvent)
    ensures
        state_after(sc, st, evs.push(ev)) == key_step(sc, state_after(sc, st, evs), ev).0,
        run_keys(sc, st, evs.push(ev)) == run_keys(sc, st, evs) + reports_of(
            key_step(sc, state_after(sc, st, evs), ev).1,
        ),
    decreases evs.len(),
{
    let all = evs.push(ev);
    if evs.len() == 0 {
        assert(all.drop_first() =~= Seq::<KeyEvent>::empty());
        assert(all[0] == ev);
        let out = key_step(sc, st, ev).1;
        assert(state_after(sc, st, all) == state_after(sc, key_step(sc, st, ev).0, all.drop_first()));
        assert(run_keys(sc, key_step(sc, st, ev).0, all.drop_first()) == Seq::<ShortcutEvent>::empty());
        assert(reports_of(out) + Seq::<ShortcutEvent>::empty() =~= reports_of(out));
        assert(Seq::<ShortcutEvent>::empty() + reports_of(out) =~= reports_of(out));
    } else {
        let next = key_step(sc, st, evs[0]).0;
        let out = key_step(sc, st, evs[0]).1;
        assert(all[0] == evs[0]);
        assert(all.drop_first() =~= evs.drop_first().push(ev));
        lemma_run_keys_push(sc, next, evs.drop_first(), ev);
        assert(state_after(sc, st, all) == state_after(sc, next, all.drop_first()));
        assert(state_after(sc, st, evs) == state_after(sc, next, evs.drop_first()));
        let rest = run_keys(sc, next, evs.drop_first());
        let last = reports_of(key_step(sc, state_after(sc, st, evs), ev).1);
        assert(run_keys(sc, next, all.drop_first()) == rest + last);
        assert(run_keys(sc, st, all) == reports_of(out) + run_keys(sc, next, all.drop_first()));
        assert(run_keys(sc, st, evs) == reports_of(out) + rest);
        assert(reports_of(out) + (rest + last) =~= (reports_of(out) + rest) + last);
    }
}

/// Law: a listener that has seen no event reports press and release in
/// turn, the first report being a press, whatever events follow.
pub proof fn lemma_fresh_listener_alternates(sc: Shortcut, evs: Seq<KeyEvent>)
    ensures
        alternating(run_keys(sc, fresh_key_state(), evs), ShortcutEvent::Press),
{
    lemma_press_release_alternate(sc, fresh_key_state(), evs);
}

/// Law: whatever keys are pressed and released, the listener reports
/// press and release of the shortcut strictly in turn; from a state with no
/// press reported, the first report is a press.
pub proof fn lemma_press_release_alternate(sc: Shortcut, st: KeyState, evs: Seq<KeyEvent>)
    requires
        key_state_inv(sc, st),
    ensures
        alternating(
            run_keys(sc, st, evs),
            if st.press_sent {
                ShortcutEvent::Release
            } else {
                ShortcutEvent::Press
            },
        ),
    decreases evs.len(),
{
    if evs.len() > 0 {
        let (next, out) = key_step(sc, st, evs[0]);
        lemma_key_step_keeps_inv(sc, st, evs[0]);
        lemma_press_release_alternate(sc, next, evs.drop_first());
        let rest = run_keys(sc, next, evs.drop_first());
        match out {
            Some(e) => {
                assert((seq![e] + rest).drop_first() =~= rest);
            },
            None => {},
        }
    }
}

/// The `n`-th function key (F12 for every `n` from 12 on).
pub open spec fn function_key(n: nat) -> Key {
    if n == 1 {
        Key::F1
    } else if n == 2 {
        Key::F2
    } else if n == 3 {
        Key::F3
    } else if n == 4 {
        Key::F4
    } else if n == 5 {
        Key::F5
    } else if n == 6 {
        Key::F6
    } else if n == 7 {
        Key::F7
    } else if n == 8 {
        Key::F8
    } else if n == 9 {
        Key::F9
    } else if n == 10 {
        Key::F10
    } else if n == 11 {
        Key::F11
    } else {
        Key::F12
    }
}

/// Law: for `n` from 1 to 12, the key named `f` followed by the decimal
/// digits of `n` is the `n`-th function key.
pub proof fn lemma_function_key_names(n: nat)
    requires
        1 <= n <= 12,
    ensures
        key_name(seq!['f'] + decimal(n)) == Some(function_key(n)),
{
    {
        reveal_strlit("space");
        reveal_strlit("return");
        reveal_strlit("enter");
        reveal_strlit("escape");
        reveal_strlit("esc");
        reveal_strlit("tab");
        reveal_strlit("backspace");
        reveal_strlit("f1");
        reveal_strlit("f2");
        reveal_strlit("f3");
        reveal_strlit("f4");
        reveal_strlit("f5");
        reveal_strlit("f6");
        reveal_strlit("f7");
        reveal_strlit("f8");
        reveal_strlit("f9");
        reveal_strlit("f10");
        reveal_strlit("f11");
        reveal_strlit("f12");
    }
    reveal_with_fuel(decimal, 2);
    if n == 1 {
        assert(seq!['f'] + decimal(1) =~= "f1"@);
        assert(key_name("f1"@) == Some(Key::F1));
    } else if n == 2 {
        assert(seq!['f'] + decimal(2) =~= "f2"@);
        assert("f2"@[1] != "f1"@[1]);
        assert(key_name("f2"@) == Some(Key::F2));
    } else if n == 3 {
        assert(seq!['f'] + decimal(3) =~= "f3"@);
        assert("f3"@[1] != "f1"@[1]);
        assert("f3"@[1] != "f2"@[1]);
        assert(key_name("f3"@) == Some(Key::F3));
    } else if n == 4 {
        assert(seq!['f'] + decimal(4) =~= "f4"@);
        assert("f4"@[1] != "f1"@[1]);
        assert("f4"@[1] != "f2"@[1]);
        assert("f4"@[1] != "f3"@[1]);
        assert(key_name("f4"@) == Some(Key::F4));
    } else if n == 5 {
        assert(seq!['f'] + decimal(5) =~= "f5"@);
        assert("f5"@[1] != "f1"@[1]);
        assert("f5"@[1] != "f2"@[1]);
        assert("f5"@[1] != "f3"@[1]);
        assert("f5"@[1] != "f4"@[1]);
        assert(key_name("f5"@) == Some(Key::F5));
    } else if n == 6 {
        assert(seq!['f'] + decimal(6) =~= "f6"@);
        assert("f6"@[1] != "f1"@[1]);
        assert("f6"@[1] != "f2"@[1]);
        assert("f6"@[1] != "f3"@[1]);
        assert("f6"@[1] != "f4"@[1]);
        assert("f6"@[1] != "f5"@[1]);
        assert(key_name("f6"@) == Some(Key::F6));
    } else if n == 7 {
        assert(seq!['f'] + decimal(7) =~= "f7"@);
        assert("f7"@[1] != "f1"@[1]);
        assert("f7"@[1] != "f2"@[1]);
        assert("f7"@[1] != "f3"@[1]);
        assert("f7"@[1] != "f4"@[1]);
        assert("f7"@[1] != "f5"@[1]);
        assert("f7"@[1] != "f6"@[1]);
        assert(key_name("f7"@) == Some(Key::F7));
    } else if n == 8 {
        assert(seq!['f'] + decimal(8) =~= "f8"@);
        assert("f8"@[1] != "f1"@[1]);
        assert("f8"@[1] != "f2"@[1]);
        assert("f8"@[1] != "f3"@[1]);
        assert("f8"@[1] != "f4"@[1]);
        assert("f8"@[1] != "f5"@[1]);
        assert("f8"@[1] != "f6"@[1]);
        assert("f8"@[1] != "f7"@[1]);
        assert(key_name("f8"@) == Some(Key::F8));
    } else if n == 9 {
        assert(seq!['f'] + decimal(9) =~= "f9"@);
        assert("f9"@[1] != "f1"@[1]);
        assert("f9"@[1] != "f2"@[1]);
        assert("f9"@[1] != "f3"@[1]);
        assert("f9"@[1] != "f4"@[1]);
        assert("f9"@[1] != "f5"@[1]);
        assert("f9"@[1] != "f6"@[1]);
        assert("f9"@[1] != "f7"@[1]);
        assert("f9"@[1] != "f8"@[1]);
        assert(key_name("f9"@) == Some(Key::F9));
    } else if n == 10 {
        assert(seq!['f'] + decimal(10) =~= "f10"@);
        assert("f10"@[0] != "esc"@[0]);
        assert("f10"@[0] != "tab"@[0]);
        assert(key_name("f10"@) == Some(Key::F10));
    } else if n == 11 {
        assert(seq!['f'] + decimal(11) =~= "f11"@);
        assert("f11"@[0] != "esc"@[0]);
        assert("f11"@[0] != "tab"@[0]);
        assert("f11"@[2] != "f10"@[2]);
        assert(key_name("f11"@) == Some(Key::F11));
    } else if n == 12 {
        assert(seq!['f'] + decimal(12) =~= "f12"@);
        assert("f12"@[0] != "esc"@[0]);
        assert("f12"@[0] != "tab"@[0]);
        assert("f12"@[2] != "f10"@[2]);
        assert("f12"@[2] != "f11"@[2]);
        assert(key_name("f12"@) == Some(Key::F12));
    }
}

/// Law: different key names denote different keys, except for the two
/// pairs of aliases `return`/`enter` and `escape`/`esc`.
pub proof fn lemma_key_names_distinct(a: Seq<char>, b: Seq<char>)
    requires
        key_name(a) is Some,
        key_name(a) == key_name(b),
    ensures
        a == b || (a == "return"@ || a == "enter"@) && (b == "return"@ || b == "enter"@) || (a
            == "escape"@ || a == "esc"@) && (b == "escape"@ || b == "esc"@),
{
}

/// Law: exactly the lowercase ASCII letters name letter keys, and different
/// letters name different keys.
pub proof fn lemma_letter_keys(c: char, d: char)
    ensures
        letter_key(c) is Some <==> 'a' <= c <= 'z',
        letter_key(c) is Some && letter_key(c) == letter_key(d) ==> c == d,
        letter_key(c) != Some(Key::Space) && letter_key(c) != Some(Key::Other),
{
}

/// Law: different modifier names denote different modifiers, except for the
/// aliases `ctrl`/`control` and `super`/`meta`/`win`.
pub proof fn lemma_modifier_names_distinct(a: Seq<char>, b: Seq<char>)
    requires
        modifier_name(a) is Some,
        modifier_name(a) == modifier_name(b),
    ensures
        a == b || (a == "ctrl"@ || a == "control"@) && (b == "ctrl"@ || b == "control"@) || (a
            == "super"@ || a == "meta"@ || a == "win"@) && (b == "super"@ || b == "meta"@ || b
            == "win"@),
        modifier_name("ctrl"@) == Some(Modifier::Ctrl),
        modifier_name("shift"@) == Some(Modifier::Shift),
        modifier_name("alt"@) == Some(Modifier::Alt),
        modifier_name("super"@) == Some(Modifier::Super),
{
    reveal_strlit("ctrl");
    reveal_strlit("control");
    reveal_strlit("shift");
    reveal_strlit("alt");
    reveal_strlit("super");
    assert("alt"@.len() == 3 && "ctrl"@.len() == 4 && "control"@.len() == 7 && "shift"@.len() == 5);
    assert("super"@[1] != "shift"@[1]);
}

/// Law: the names of the keys other than letters and function keys:
/// `space`, `return` and `enter`, `escape` and `esc`, `tab`, `backspace`.
pub proof fn lemma_named_keys()
    ensures
        key_name("space"@) == Some(Key::Space),
        key_name("return"@) == Some(Key::Return),
        key_name("enter"@) == Some(Key::Return),
        key_name("escape"@) == Some(Key::Escape),
        key_name("esc"@) == Some(Key::Escape),
        key_name("tab"@) == Some(Key::Tab),
        key_name("backspace"@) == Some(Key::Backspace),
{
    reveal_strlit("space");
    reveal_strlit("return");
    reveal_strlit("enter");
    reveal_strlit("escape");
    reveal_strlit("esc");
    reveal_strlit("tab");
    reveal_strlit("backspace");
    reveal_strlit("f1");
    reveal_strlit("f2");
    reveal_strlit("f3");
    reveal_strlit("f4");
    reveal_strlit("f5");
    reveal_strlit("f6");
    reveal_strlit("f7");
    reveal_strlit("f8");
    reveal_strlit("f9");
    reveal_strlit("f10");
    reveal_strlit("f11");
    reveal_strlit("f12");
    assert("space"@.len() == 5);
    assert("return"@.len() == 6);
    assert("enter"@.len() == 5);
    assert("escape"@.len() == 6);
    assert("esc"@.len() == 3);
    assert("tab"@.len() == 3);
    assert("backspace"@.len() == 9);
    assert("f1"@.len() == 2);
    assert("f2"@.len() == 2);
    assert("f3"@.len() == 2);
    assert("f4"@.len() == 2);
    assert("f5"@.len() == 2);
    assert("f6"@.len() == 2);
    assert("f7"@.len() == 2);
    assert("f8"@.len() == 2);
    assert("f9"@.len() == 2);
    assert("f10"@.len() == 3);
    assert("f11"@.len() == 3);
    assert("f12"@.len() == 3);
    assert("enter"@[0] != "space"@[0]);
    assert("escape"@[0] != "return"@[0]);
    assert("tab"@[0] != "esc"@[0]);
}

/// The key of the `i`-th letter of the alphabet, counted from 0.
pub open spec fn alphabet_key(i: int) -> Key {
    if i == 0 {
        Key::KeyA
    } else if i == 1 {
        Key::KeyB
    } else if i == 2 {
        Key::KeyC
    } else if i == 3 {
        Key::KeyD
    } else if i == 4 {
        Key::KeyE
    } else if i == 5 {
        Key::KeyF
    } else if i == 6 {
        Key::KeyG
    } else if i == 7 {
        Key::KeyH
    } else if i == 8 {
        Key::KeyI
    } else if i == 9 {
        Key::KeyJ
    } else if i == 10 {
        Key::KeyK
    } else if i == 11 {
        Key::KeyL
    } else if i == 12 {
        Key::KeyM
    } else if i == 13 {
        Key::KeyN
    } else if i == 14 {
        Key::KeyO
    } else if i == 15 {
        Key::KeyP
    } else if i == 16 {
        Key::KeyQ
    } else if i == 17 {
        Key::KeyR
    } else if i == 18 {
        Key::KeyS
    } else if i == 19 {
        Key::KeyT
    } else if i == 20 {
        Key::KeyU
    } else if i == 21 {
        Key::KeyV
    } else if i == 22 {
        Key::KeyW
    } else if i == 23 {
        Key::KeyX
    } else if i == 24 {
        Key::KeyY
    } else if i == 25 {
        Key::KeyZ
    } else {
        Key::Other
    }
}

/// Law: the `i`-th lowercase letter of the alphabet names the `i`-th letter
/// key.
pub proof fn lemma_letter_key_order(c: char)
    requires
        'a' <= c <= 'z',
    ensures
        letter_key(c) == Some(alphabet_key(c as int - 'a' as int)),
{
}

} // verus!
