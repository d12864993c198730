//! Keyboard shortcuts: the hotkey registry kept by the keyboard manager
//! thread, the handle other threads use to reach it, shortcut recording for
//! the settings UI, and the press/release policy of shortcut events.

use vstd::prelude::*;
use vstd::string::*;
use std::sync::mpsc::{Receiver, Sender};
use crate::text::{join_strings, join_with, lowercase_of, str_eq, string_views, to_lowercase};

verus! {

// ---------------------------------------------------------------------------
// Key events as Handy names them
// ---------------------------------------------------------------------------

/// Which modifier keys a key event holds.
#[derive(Debug, Clone, Copy, PartialEq, Eq, Structural)]
pub struct ModifierState {
    pub ctrl: bool,
    pub opt: bool,
    pub shift: bool,
    pub cmd: bool,
    pub fn_key: bool,
}

pub open spec fn part_if(present: bool, name: Seq<char>) -> Seq<Seq<char>> {
    if present { seq![name] } else { Seq::empty() }
}

/// Handy's names for the held modifiers, in canonical order. macOS names
/// the option and command keys and reports `fn`; other platforms say
/// `alt` and `super` and have no `fn`.
pub open spec fn modifier_names(m: ModifierState, macos: bool) -> Seq<Seq<char>> {
    if macos {
        part_if(m.ctrl, "ctrl"@) + part_if(m.opt, "option"@) + part_if(m.shift, "shift"@)
            + part_if(m.cmd, "command"@) + part_if(m.fn_key, "fn"@)
    } else {
        part_if(m.ctrl, "ctrl"@) + part_if(m.opt, "alt"@) + part_if(m.shift, "shift"@)
            + part_if(m.cmd, "super"@)
    }
}

/// How many modifiers a key event holds that the platform names: control,
/// option/alt, shift and command/super everywhere, and `fn` on macOS.
pub open spec fn held_modifier_count(m: ModifierState, macos: bool) -> int {
    (if m.ctrl { 1int } else { 0int }) + (if m.opt { 1int } else { 0int }) + (if m.shift { 1int } else { 0int })
        + (if m.cmd { 1int } else { 0int }) + (if macos && m.fn_key { 1int } else { 0int })
}

proof fn lemma_concat_contains(a: Seq<Seq<char>>, b: Seq<Seq<char>>, x: Seq<char>)
    ensures
        (a + b).contains(x) <==> (a.contains(x) || b.contains(x)),
{
    if a.contains(x) {
        let i = choose|i: int| 0 <= i < a.len() && a[i] == x;
        assert((a + b)[i] == x);
    }
    if b.contains(x) {
        let i = choose|i: int| 0 <= i < b.len() && b[i] == x;
        assert((a + b)[a.len() + i] == x);
    }
    if (a + b).contains(x) {
        let i = choose|i: int| 0 <= i < (a + b).len() && (a + b)[i] == x;
        if i < a.len() {
            assert(a[i] == x);
        } else {
            assert(b[i - a.len()] == x);
        }
    }
}

proof fn lemma_part_if_contains(present: bool, name: Seq<char>, x: Seq<char>)
    ensures
        part_if(present, name).contains(x) <==> (present && x == name),
        part_if(present, name).len() == (if present { 1int } else { 0int }),
{
    if present {
        assert(part_if(present, name)[0] == name);
    }
}

/// Law: each held modifier is named exactly once. The names are as many as
/// the held modifiers the platform reports, and a name is present exactly
/// when its modifier is held: `ctrl` and `shift` everywhere, `option`,
/// `command` and `fn` on macOS, `alt` and `super` elsewhere (which never
/// name `fn`).
pub proof fn law_each_held_modifier_named_once(m: ModifierState, macos: bool)
    ensures
        modifier_names(m, macos).len() == held_modifier_count(m, macos),
        modifier_names(m, macos).contains("ctrl"@) <==> m.ctrl,
        modifier_names(m, macos).contains("shift"@) <==> m.shift,
        macos ==> (modifier_names(m, macos).contains("option"@) <==> m.opt),
        macos ==> (modifier_names(m, macos).contains("command"@) <==> m.cmd),
        macos ==> (modifier_names(m, macos).contains("fn"@) <==> m.fn_key),
        !macos ==> (modifier_names(m, macos).contains("alt"@) <==> m.opt),
        !macos ==> (modifier_names(m, macos).contains("super"@) <==> m.cmd),
        !macos ==> !modifier_names(m, macos).contains("fn"@),
{
    reveal_strlit("ctrl");
    assert("ctrl"@.len() == 4);
    reveal_strlit("option");
    assert("option"@.len() == 6);
    reveal_strlit("shift");
    assert("shift"@.len() == 5);
    reveal_strlit("command");
    assert("command"@.len() == 7);
    reveal_strlit("fn");
    assert("fn"@.len() == 2);
    reveal_strlit("alt");
    assert("alt"@.len() == 3);
    reveal_strlit("super");
    assert("super"@.len() == 5);
    assert("ctrl"@ != "option"@);
    assert("ctrl"@ != "shift"@);
    assert("ctrl"@ != "fn"@);
    assert("ctrl"@ != "super"@);
    assert("option"@ != "shift"@);
    assert("option"@ != "super"@);
    assert("shift"@[1] != "super"@[1]);
    assert("shift"@ != "super"@);
    assert("command"@ != "ctrl"@);
    assert("command"@ != "option"@);
    assert("command"@ != "shift"@);
    assert("command"@ != "fn"@);
    assert("command"@ != "super"@);
    assert("fn"@ != "option"@);
    assert("fn"@ != "shift"@);
    assert("fn"@ != "super"@);
    assert("alt"@ != "ctrl"@);
    assert("alt"@ != "option"@);
    assert("alt"@ != "shift"@);
    assert("alt"@ != "command"@);
    assert("alt"@ != "fn"@);
    assert("alt"@ != "super"@);
    let names: Seq<Seq<char>> = seq!["ctrl"@, "option"@, "shift"@, "command"@, "fn"@, "alt"@, "super"@];
    assert forall|x: Seq<char>| #![trigger names.contains(x)] names.contains(x) implies (modifier_names(m, macos).contains(x) <==> (
        (x == "ctrl"@ && m.ctrl) || (x == "shift"@ && m.shift) || (macos && x == "option"@ && m.opt) || (
        macos && x == "command"@ && m.cmd) || (macos && x == "fn"@ && m.fn_key) || (!macos && x == "alt"@
        && m.opt) || (!macos && x == "super"@ && m.cmd))) by {
        if macos {
            let p1 = part_if(m.ctrl, "ctrl"@);
            let p2 = part_if(m.opt, "option"@);
            let p3 = part_if(m.shift, "shift"@);
            let p4 = part_if(m.cmd, "command"@);
            let p5 = part_if(m.fn_key, "fn"@);
            lemma_part_if_contains(m.ctrl, "ctrl"@, x);
            lemma_part_if_contains(m.opt, "option"@, x);
            lemma_part_if_contains(m.shift, "shift"@, x);
            lemma_part_if_contains(m.cmd, "command"@, x);
            lemma_part_if_contains(m.fn_key, "fn"@, x);
            lemma_concat_contains(p1, p2, x);
            lemma_concat_contains(p1 + p2, p3, x);
            lemma_concat_contains(p1 + p2 + p3, p4, x);
            lemma_concat_contains(p1 + p2 + p3 + p4, p5, x);
        } else {
            let p1 = part_if(m.ctrl, "ctrl"@);
            let p2 = part_if(m.opt, "alt"@);
            let p3 = part_if(m.shift, "shift"@);
            let p4 = part_if(m.cmd, "super"@);
            lemma_part_if_contains(m.ctrl, "ctrl"@, x);
            lemma_part_if_contains(m.opt, "alt"@, x);
            lemma_part_if_contains(m.shift, "shift"@, x);
            lemma_part_if_contains(m.cmd, "super"@, x);
            lemma_concat_contains(p1, p2, x);
            lemma_concat_contains(p1 + p2, p3, x);
            lemma_concat_contains(p1 + p2 + p3, p4, x);
        }
    }
    assert(names.contains("ctrl"@)) by { assert(names[0] == "ctrl"@); }
    assert(names.contains("option"@)) by { assert(names[1] == "option"@); }
    assert(names.contains("shift"@)) by { assert(names[2] == "shift"@); }
    assert(names.contains("command"@)) by { assert(names[3] == "command"@); }
    assert(names.contains("fn"@)) by { assert(names[4] == "fn"@); }
    assert(names.contains("alt"@)) by { assert(names[5] == "alt"@); }
    assert(names.contains("super"@)) by { assert(names[6] == "super"@); }
    lemma_part_if_contains(m.ctrl, "ctrl"@, "ctrl"@);
    lemma_part_if_contains(m.opt, "option"@, "option"@);
    lemma_part_if_contains(m.opt, "alt"@, "alt"@);
    lemma_part_if_contains(m.shift, "shift"@, "shift"@);
    lemma_part_if_contains(m.cmd, "command"@, "command"@);
    lemma_part_if_contains(m.cmd, "super"@, "super"@);
    lemma_part_if_contains(m.fn_key, "fn"@, "fn"@);
}

fn push_if(parts: &mut Vec<String>, present: bool, name: &str)
    ensures
        string_views(final(parts)@) == string_views(old(parts)@) + part_if(present, name@),
{
    let ghost before = string_views(parts@);
    if present {
        parts.push(String::from_str(name));
        assert(string_views(parts@) =~= before + seq![name@]);
    } else {
        assert(string_views(parts@) =~= before + Seq::<Seq<char>>::empty());
    }
}

/// Convert a key event to Handy's key strings: the held modifiers by name
/// and the key (its display name, lowercased).
pub fn key_event_to_handy_parts(modifiers: ModifierState, key: Option<&str>, macos: bool) -> (res: (Vec<String>, Option<String>))
    ensures
        string_views(res.0@) == modifier_names(modifiers, macos),
        res.0@.len() == held_modifier_count(modifiers, macos),
        string_views(res.0@).contains("shift"@) <==> modifiers.shift,
        string_views(res.0@).contains("ctrl"@) <==> modifiers.ctrl,
        match key {
            None => res.1 is None,
            Some(k) => res.1 matches Some(l) && l@ == lowercase_of(k@),
        },
{
    let mut parts: Vec<String> = Vec::new();
    assert(string_views(parts@) =~= Seq::<Seq<char>>::empty());
    if macos {
        push_if(&mut parts, modifiers.ctrl, "ctrl");
        push_if(&mut parts, modifiers.opt, "option");
        push_if(&mut parts, modifiers.shift, "shift");
        push_if(&mut parts, modifiers.cmd, "command");
        push_if(&mut parts, modifiers.fn_key, "fn");
    } else {
        push_if(&mut parts, modifiers.ctrl, "ctrl");
        push_if(&mut parts, modifiers.opt, "alt");
        push_if(&mut parts, modifiers.shift, "shift");
        push_if(&mut parts, modifiers.cmd, "super");
    }
    proof {
        law_each_held_modifier_named_once(modifiers, macos);
    }
    let key = match key {
        Some(k) => Some(to_lowercase(k)),
        None => None,
    };
    (parts, key)
}

// ---------------------------------------------------------------------------
// Recording a shortcut
// ---------------------------------------------------------------------------

/// The keys held at the latest key-down: the modifiers, then the key unless
/// it is already among them.
pub open spec fn pressed_after_key_down(modifiers: Seq<Seq<char>>, key: Option<Seq<char>>) -> Seq<Seq<char>> {
    match key {
        Some(k) => if modifiers.contains(k) { modifiers } else { modifiers.push(k) },
        None => modifiers,
    }
}

/// What a recording session reports for one key event.
#[derive(Debug)]
pub enum RecorderStep {
    /// A key went down; the combination now held.
    KeyDown { current_combo: String },
    /// Every key was released after a combination was held: the recorded
    /// shortcut. Recording stops.
    Complete { shortcut: String },
    /// Nothing to report.
    Nothing,
}

/// Sent to the settings UI for each key-down while recording.
#[derive(Debug)]
pub struct KeyboardRecordEvent {
    pub binding_id: String,
    pub modifiers: Vec<String>,
    pub key: Option<String>,
    pub current_combo: String,
}

/// Sent to the settings UI when a recording completes.
#[derive(Debug)]
pub struct KeyboardRecordingComplete {
    pub binding_id: String,
    pub shortcut: String,
}

/// Accumulates the combination the user holds while recording a shortcut.
pub struct KeyRecorder {
    all_pressed: Vec<String>,
}

impl View for KeyRecorder {
    type V = Seq<Seq<char>>;

    closed spec fn view(&self) -> Seq<Seq<char>> {
        string_views(self.all_pressed@)
    }
}

fn contains_string(v: &Vec<String>, s: &String) -> (res: bool)
    ensures
        res == string_views(v@).contains(s@),
{
    let mut i: usize = 0;
    while i < v.len()
        invariant
            0 <= i <= v@.len(),
            forall|k: int| 0 <= k < i ==> v@[k]@ != s@,
        decreases v@.len() - i,
    {
        if v[i] == *s {
            assert(string_views(v@)[i as int] == s@);
            return true;
        }
        i = i + 1;
    }
    assert forall|k: int| 0 <= k < string_views(v@).len() implies string_views(v@)[k] != s@ by {
        assert(string_views(v@)[k] == v@[k]@);
    }
    false
}

impl KeyRecorder {
    /// A recorder holding nothing yet.
    pub fn new() -> (res: KeyRecorder)
        ensures
            res@ == Seq::<Seq<char>>::empty(),
    {
        let r = KeyRecorder { all_pressed: Vec::new() };
        assert(r@ =~= Seq::<Seq<char>>::empty());
        r
    }

    /// The combination held at the latest key-down, joined with `+`.
    pub fn current_combo(&self) -> (res: String)
        ensures
            res@ == join_with(self@, "+"@),
    {
        join_strings(&self.all_pressed, "+")
    }

    /// Take one key event. On key-down the held combination becomes the
    /// event's modifiers plus its key; on a key-up with nothing held any more
    /// the combination held last (if any) is the recorded shortcut.
    pub fn on_key_event(&mut self, modifiers: Vec<String>, key: Option<String>, is_key_down: bool) -> (res: RecorderStep)
        ensures
            is_key_down ==> final(self)@ == pressed_after_key_down(
                string_views(modifiers@),
                match key { Some(k) => Some(k@), None => None },
            ) && (res matches RecorderStep::KeyDown { current_combo } && current_combo@
                == join_with(final(self)@, "+"@)),
            !is_key_down && modifiers@.len() == 0 && key is None && old(self)@.len() > 0
                ==> final(self)@ == old(self)@ && (res matches RecorderStep::Complete { shortcut }
                && shortcut@ == join_with(old(self)@, "+"@)),
            !is_key_down && !(modifiers@.len() == 0 && key is None && old(self)@.len() > 0)
                ==> final(self)@ == old(self)@ && res is Nothing,
    {
        if is_key_down {
            let mut pressed = modifiers;
            match key {
                Some(k) => {
                    if !contains_string(&pressed, &k) {
                        let ghost before = string_views(pressed@);
                        pressed.push(k);
                        assert(string_views(pressed@) =~= before.push(k@));
                    }
                },
                None => {},
            }
            self.all_pressed = pressed;
            let combo = join_strings(&self.all_pressed, "+");
            RecorderStep::KeyDown { current_combo: combo }
        } else if modifiers.len() == 0 && key.is_none() && self.all_pressed.len() > 0 {
            let shortcut = join_strings(&self.all_pressed, "+");
            RecorderStep::Complete { shortcut }
        } else {
            RecorderStep::Nothing
        }
    }
}

/// The settings UI's shortcut-recording state: which binding is being
/// recorded, and whether the recording thread should keep listening.
pub struct KeyboardRecordingState {
    current_binding_id: Option<String>,
    recording: bool,
}

impl View for KeyboardRecordingState {
    /// `(binding being recorded, recording flag)`.
    type V = (Option<Seq<char>>, bool);

    closed spec fn view(&self) -> (Option<Seq<char>>, bool) {
        (
            match &self.current_binding_id {
                Some(b) => Some(b@),
                None => None,
            },
            self.recording,
        )
    }
}

impl Default for KeyboardRecordingState {
    fn default() -> (res: KeyboardRecordingState)
        ensures
            res@ == (None::<Seq<char>>, false),
    {
        KeyboardRecordingState { current_binding_id: None, recording: false }
    }
}

impl KeyboardRecordingState {
    /// Start recording a shortcut for `binding_id`; refused while another
    /// recording is in progress.
    pub fn start(&mut self, binding_id: &str) -> (res: Result<(), String>)
        ensures
            old(self)@.0 is Some ==> final(self)@ == old(self)@ && (res matches Err(e) && e@
                == "Already recording a shortcut"@),
            old(self)@.0 is None ==> final(self)@ == (Some(binding_id@), true) && res is Ok,
    {
        if self.current_binding_id.is_some() {
            return Err(String::from_str("Already recording a shortcut"));
        }
        self.current_binding_id = Some(String::from_str(binding_id));
        self.recording = true;
        Ok(())
    }

    /// Stop recording `binding_id`; refused unless that binding is the one
    /// being recorded.
    pub fn stop(&mut self, binding_id: &str) -> (res: Result<(), String>)
        ensures
            old(self)@.0 == Some(binding_id@) ==> final(self)@ == (None::<Seq<char>>, false)
                && res is Ok,
            old(self)@.0 != Some(binding_id@) ==> final(self)@ == old(self)@ && (res matches Err(e)
                && e@ == "Not currently recording binding '"@ + binding_id@ + "'"@),
    {
        let is_current = match &self.current_binding_id {
            Some(b) => str_eq(b.as_str(), binding_id),
            None => false,
        };
        if !is_current {
            let mut m = String::from_str("Not currently recording binding '");
            m.append(binding_id);
            m.append("'");
            return Err(m);
        }
        self.recording = false;
        self.current_binding_id = None;
        Ok(())
    }

    /// The recording thread for `binding_id` has ended (completed, stopped or
    /// failed): forget the binding if it is still the current one.
    pub fn finish(&mut self, binding_id: &str)
        ensures
            old(self)@.0 == Some(binding_id@) ==> final(self)@ == (None::<Seq<char>>, old(self)@.1),
            old(self)@.0 != Some(binding_id@) ==> final(self)@ == old(self)@,
    {
        let is_current = match &self.current_binding_id {
            Some(b) => str_eq(b.as_str(), binding_id),
            None => false,
        };
        if is_current {
            self.current_binding_id = None;
        }
    }

    /// Whether the recording thread should keep listening.
    pub fn is_recording(&self) -> (res: bool)
        ensures
            res == self@.1,
    {
        self.recording
    }

    /// A recording completed: stop listening.
    pub fn mark_complete(&mut self)
        ensures
            final(self)@ == (old(self)@.0, false),
    {
        self.recording = false;
    }
}

// ---------------------------------------------------------------------------
// The hotkey registry of the keyboard manager thread
// ---------------------------------------------------------------------------

/// One registered hotkey.
#[derive(Debug)]
pub struct RegisteredHotkey {
    pub binding_id: String,
    pub hotkey_id: u64,
    pub shortcut: String,
}

/// Abstract registry entry: `(binding id, hotkey id, shortcut text)`.
pub type HotkeyEntry = (Seq<char>, u64, Seq<char>);

/// Whether `binding` has an entry.
pub open spec fn binding_registered(entries: Seq<HotkeyEntry>, binding: Seq<char>) -> bool {
    exists|i: int| 0 <= i < entries.len() && #[trigger] entries[i].0 == binding
}

/// Registry invariant: one entry per binding.
pub open spec fn unique_bindings(entries: Seq<HotkeyEntry>) -> bool {
    forall|i: int, j: int| 0 <= i < entries.len() && 0 <= j < entries.len() && i != j
        ==> #[trigger] entries[i].0 != #[trigger] entries[j].0
}

/// The bindings registered with the hotkey manager and their hotkeys.
pub struct HotkeyRegistry {
    entries: Vec<RegisteredHotkey>,
}

impl View for HotkeyRegistry {
    type V = Seq<HotkeyEntry>;

    closed spec fn view(&self) -> Seq<HotkeyEntry> {
        self.entries@.map_values(|e: RegisteredHotkey| (e.binding_id@, e.hotkey_id, e.shortcut@))
    }
}

impl HotkeyRegistry {
    /// An empty registry.
    pub fn new() -> (res: HotkeyRegistry)
        ensures
            res@ == Seq::<HotkeyEntry>::empty(),
    {
        let r = HotkeyRegistry { entries: Vec::new() };
        assert(r@ =~= Seq::<HotkeyEntry>::empty());
        r
    }

    fn index_of(&self, binding_id: &str) -> (res: Option<usize>)
        ensures
            match res {
                Some(i) => i < self@.len() && self@[i as int].0 == binding_id@,
                None => !binding_registered(self@, binding_id@),
            },
    {
        let mut i: usize = 0;
        while i < self.entries.len()
            invariant
                0 <= i <= self.entries@.len(),
                self@.len() == self.entries@.len(),
                forall|k: int| 0 <= k < i ==> self@[k].0 != binding_id@,
            decreases self.entries@.len() - i,
        {
            if str_eq(self.entries[i].binding_id.as_str(), binding_id) {
                return Some(i);
            }
            i = i + 1;
        }
        None
    }

    /// Whether `binding_id` is registered.
    pub fn is_registered(&self, binding_id: &str) -> (res: bool)
        ensures
            res == binding_registered(self@, binding_id@),
    {
        self.index_of(binding_id).is_some()
    }

    /// The checks made before registering `shortcut` for `binding_id`: the
    /// shortcut must parse (`parse_error` carries the parser's complaint) and
    /// the binding must not be registered yet.
    pub fn check_register(&self, binding_id: &str, shortcut: &str, parse_error: Option<&str>) -> (res: Result<(), String>)
        ensures
            match parse_error {
                Some(e) => res matches Err(m) && m@ == "Failed to parse shortcut '"@ + shortcut@
                    + "': "@ + e@,
                None => if binding_registered(self@, binding_id@) {
                    res matches Err(m) && m@ == "Binding '"@ + binding_id@ + "' is already registered"@
                } else {
                    res is Ok
                },
            },
    {
        match parse_error {
            Some(e) => {
                let mut m = String::from_str("Failed to parse shortcut '");
                m.append(shortcut);
                m.append("': ");
                m.append(e);
                Err(m)
            },
            None => {
                if self.is_registered(binding_id) {
                    let mut m = String::from_str("Binding '");
                    m.append(binding_id);
                    m.append("' is already registered");
                    Err(m)
                } else {
                    Ok(())
                }
            },
        }
    }

    /// Record the hotkey manager's answer to registering `shortcut` for
    /// `binding_id`: on success the binding maps to the new hotkey.
    pub fn finish_register(&mut self, binding_id: &str, shortcut: &str, outcome: Result<u64, String>) -> (res: Result<(), String>)
        requires
            unique_bindings(old(self)@),
            !binding_registered(old(self)@, binding_id@),
        ensures
            unique_bindings(final(self)@),
            match outcome {
                Ok(id) => res is Ok && final(self)@ == old(self)@.push((binding_id@, id, shortcut@)),
                Err(e) => final(self)@ == old(self)@ && (res matches Err(m) && m@
                    == "Failed to register shortcut: "@ + e@),
            },
    {
        match outcome {
            Ok(hotkey_id) => {
                let ghost before = self@;
                self.entries.push(
                    RegisteredHotkey {
                        binding_id: String::from_str(binding_id),
                        hotkey_id,
                        shortcut: String::from_str(shortcut),
                    },
                );
                assert(self@ =~= before.push((binding_id@, hotkey_id, shortcut@)));
                assert forall|i: int, j: int|
                    0 <= i < self@.len() && 0 <= j < self@.len() && i != j implies #[trigger] self@[i].0
                    != #[trigger] self@[j].0 by {
                    if i < before.len() && j < before.len() {
                    } else if i == before.len() {
                        assert(self@[j].0 == before[j].0);
                    } else {
                        assert(self@[i].0 == before[i].0);
                    }
                }
                Ok(())
            },
            Err(e) => {
                let mut m = String::from_str("Failed to register shortcut: ");
                m.append(e.as_str());
                Err(m)
            },
        }
    }

    /// The hotkey registered for `binding_id`, or the refusal to unregister
    /// a binding that is not registered.
    pub fn check_unregister(&self, binding_id: &str) -> (res: Result<u64, String>)
        ensures
            binding_registered(self@, binding_id@) ==> (res matches Ok(id) && exists|i: int|
                0 <= i < self@.len() && self@[i].0 == binding_id@ && self@[i].1 == id),
            !binding_registered(self@, binding_id@) ==> (res matches Err(m) && m@ == "Binding '"@
                + binding_id@ + "' is not registered"@),
    {
        match self.index_of(binding_id) {
            Some(i) => Ok(self.entries[i].hotkey_id),
            None => {
                let mut m = String::from_str("Binding '");
                m.append(binding_id);
                m.append("' is not registered");
                Err(m)
            },
        }
    }

    /// Record the hotkey manager's answer to unregistering `binding_id`: on
    /// success the binding's entry is removed and every other entry kept.
    pub fn finish_unregister(&mut self, binding_id: &str, outcome: Result<(), String>) -> (res: Result<(), String>)
        requires
            unique_bindings(old(self)@),
        ensures
            unique_bindings(final(self)@),
            match outcome {
                Ok(()) => res is Ok && !binding_registered(final(self)@, binding_id@) && (forall|
                    e: HotkeyEntry,
                | e.0 != binding_id@ ==> (old(self)@.contains(e) <==> final(self)@.contains(e))),
                Err(e) => final(self)@ == old(self)@ && (res matches Err(m) && m@
                    == "Failed to unregister shortcut: "@ + e@),
            },
    {
        match outcome {
            Ok(()) => {
                match self.index_of(binding_id) {
                    Some(i) => {
                        let ghost before = self@;
                        let _removed = self.entries.remove(i);
                        assert(self@ =~= before.remove(i as int));
                        assert forall|k: int| 0 <= k < self@.len() implies self@[k].0 != binding_id@ by {
                            if k < i {
                                assert(self@[k] == before[k]);
                            } else {
                                assert(self@[k] == before[k + 1]);
                            }
                        }
                        assert forall|e: HotkeyEntry| e.0 != binding_id@ implies (before.contains(e)
                            <==> self@.contains(e)) by {
                            if before.contains(e) {
                                let k = choose|k: int| 0 <= k < before.len() && before[k] == e;
                                if k < i {
                                    assert(self@[k] == e);
                                } else {
                                    assert(k != i);
                                    assert(self@[k - 1] == e);
                                }
                            }
                            if self@.contains(e) {
                                let k = choose|k: int| 0 <= k < self@.len() && self@[k] == e;
                                if k < i {
                                    assert(before[k] == e);
                                } else {
                                    assert(before[k + 1] == e);
                                }
                            }
                        }
                    },
                    None => {},
                }
                Ok(())
            },
            Err(e) => {
                let mut m = String::from_str("Failed to unregister shortcut: ");
                m.append(e.as_str());
                Err(m)
            },
        }
    }

    /// The binding and shortcut text of a hotkey, for dispatching its events.
    pub fn lookup_hotkey(&self, hotkey_id: u64) -> (res: Option<(String, String)>)
        ensures
            match res {
                Some((b, s)) => self@.contains((b@, hotkey_id, s@)),
                None => forall|i: int| 0 <= i < self@.len() ==> self@[i].1 != hotkey_id,
            },
    {
        let mut i: usize = 0;
        while i < self.entries.len()
            invariant
                0 <= i <= self.entries@.len(),
                self@.len() == self.entries@.len(),
                forall|k: int| 0 <= k < i ==> self@[k].1 != hotkey_id,
            decreases self.entries@.len() - i,
        {
            if self.entries[i].hotkey_id == hotkey_id {
                let b = self.entries[i].binding_id.clone();
                let s = self.entries[i].shortcut.clone();
                assert(self@[i as int] == (b@, hotkey_id, s@));
                return Some((b, s));
            }
            i = i + 1;
        }
        None
    }
}

/// Law: registering a binding and then unregistering it leaves no entry for
/// the binding and every other entry as it was.
pub proof fn law_register_then_unregister(entries: Seq<HotkeyEntry>, binding: Seq<char>, id: u64, shortcut: Seq<char>)
    requires
        unique_bindings(entries),
        !binding_registered(entries, binding),
    ensures
        binding_registered(entries.push((binding, id, shortcut)), binding),
        unique_bindings(entries.push((binding, id, shortcut))),
        entries.push((binding, id, shortcut)).remove(entries.len() as int) == entries,
{
    let pushed = entries.push((binding, id, shortcut));
    assert(pushed[entries.len() as int].0 == binding);
    assert(pushed.remove(entries.len() as int) =~= entries);
    assert forall|i: int, j: int|
        0 <= i < pushed.len() && 0 <= j < pushed.len() && i != j implies #[trigger] pushed[i].0
        != #[trigger] pushed[j].0 by {
        if i < entries.len() && j < entries.len() {
            assert(pushed[i] == entries[i] && pushed[j] == entries[j]);
        } else if i == entries.len() {
            assert(pushed[j] == entries[j]);
        } else {
            assert(pushed[i] == entries[i]);
        }
    }
}

// ---------------------------------------------------------------------------
// Reaching the keyboard manager thread
// ---------------------------------------------------------------------------

#[verifier::external_type_specification]
#[verifier::external_body]
#[verifier::reject_recursive_types(T)]
pub struct ExSender<T>(Sender<T>);

#[verifier::external_type_specification]
#[verifier::external_body]
#[verifier::reject_recursive_types(T)]
pub struct ExReceiver<T>(Receiver<T>);

/// Commands for the keyboard manager thread.
#[allow(inconsistent_fields)]
pub enum KeyboardCommand {
    Register { binding_id: String, shortcut_str: String, response: Sender<Result<(), String>> },
    Unregister { binding_id: String, response: Sender<Result<(), String>> },
    IsRegistered { binding_id: String, response: Sender<bool> },
    Shutdown,
}

/// std's `mpsc::channel`: a fresh reply channel.
#[verifier::external_body]
fn reply_channel<T>() -> (Sender<T>, Receiver<T>) {
    std::sync::mpsc::channel()
}

/// std's `Sender::send`: whether the command reached the manager thread
/// (false once the thread is gone).
#[verifier::external_body]
fn send_command(sender: &Sender<KeyboardCommand>, command: KeyboardCommand) -> bool {
    sender.send(command).is_ok()
}

/// std's `Receiver::recv`: the thread's reply, or `None` when it dropped the
/// reply channel without answering.
#[verifier::external_body]
fn receive_reply<T>(receiver: &Receiver<T>) -> Option<T> {
    receiver.recv().ok()
}

/// The command asking the manager thread to register `shortcut_str` for
/// `binding_id`, answered on `response`.
pub fn register_command(binding_id: &str, shortcut_str: &str, response: Sender<Result<(), String>>) -> (c: KeyboardCommand)
    ensures
        c matches KeyboardCommand::Register { binding_id: b, shortcut_str: s, response: r } && b@ == binding_id@
            && s@ == shortcut_str@ && r == response,
{
    KeyboardCommand::Register {
        binding_id: String::from_str(binding_id),
        shortcut_str: String::from_str(shortcut_str),
        response,
    }
}

/// The command asking the manager thread to unregister `binding_id`.
pub fn unregister_command(binding_id: &str, response: Sender<Result<(), String>>) -> (c: KeyboardCommand)
    ensures
        c matches KeyboardCommand::Unregister { binding_id: b, response: r } && b@ == binding_id@ && r == response,
{
    KeyboardCommand::Unregister { binding_id: String::from_str(binding_id), response }
}

/// The command asking the manager thread whether `binding_id` is registered.
pub fn is_registered_command(binding_id: &str, response: Sender<bool>) -> (c: KeyboardCommand)
    ensures
        c matches KeyboardCommand::IsRegistered { binding_id: b, response: r } && b@ == binding_id@ && r == response,
{
    KeyboardCommand::IsRegistered { binding_id: String::from_str(binding_id), response }
}

/// How a register or unregister answer `res` follows from whether the
/// command reached the manager thread (`sent`) and the reply it sent back
/// (`None` when it dropped the reply channel without answering).
pub open spec fn manager_outcome(sent: bool, reply: Option<Result<(), String>>, res: Result<(), String>) -> bool {
    &&& !sent ==> (res matches Err(m) && m@ == "Keyboard manager thread not running"@)
    &&& sent && reply is None ==> (res matches Err(m) && m@ == "Keyboard manager thread died"@)
    &&& sent && reply is Some ==> res == reply->0
}

/// How an is-registered answer follows from the send and the reply.
pub open spec fn registered_outcome(sent: bool, reply: Option<bool>, res: bool) -> bool {
    res == (sent && reply == Some(true))
}

/// The answer to a register or unregister request, from whether the command
/// reached the manager thread and the reply it sent back.
pub fn manager_reply(sent: bool, reply: Option<Result<(), String>>) -> (res: Result<(), String>)
    ensures
        manager_outcome(sent, reply, res),
{
    if !sent {
        return Err(String::from_str("Keyboard manager thread not running"));
    }
    match reply {
        Some(answer) => answer,
        None => Err(String::from_str("Keyboard manager thread died")),
    }
}

/// The answer to an is-registered request: the thread's reply, or false
/// when the thread could not answer.
pub fn registered_reply(sent: bool, reply: Option<bool>) -> (res: bool)
    ensures
        registered_outcome(sent, reply, res),
{
    sent && reply == Some(true)
}

/// Handle to communicate with the keyboard manager thread.
pub struct KeyboardManagerHandle {
    sender: Sender<KeyboardCommand>,
}

impl KeyboardManagerHandle {
    /// The channel this handle sends its commands on.
    pub closed spec fn command_sender(&self) -> Sender<KeyboardCommand> {
        self.sender
    }

    /// A handle that sends its commands on `sender`.
    pub fn new(sender: Sender<KeyboardCommand>) -> (res: KeyboardManagerHandle)
        ensures
            res.command_sender() == sender,
    {
        KeyboardManagerHandle { sender }
    }

    /// Ask the manager thread to register `shortcut_str` for `binding_id`
    /// (the command of [`register_command`]). The answer is the thread's
    /// reply, unless the command could not be sent (the thread is not
    /// running) or no reply came back (the thread died).
    pub fn register(&self, binding_id: &str, shortcut_str: &str) -> (res: Result<(), String>)
        ensures
            exists|sent: bool, reply: Option<Result<(), String>>| #[trigger] manager_outcome(sent, reply, res),
    {
        let (tx, rx) = reply_channel::<Result<(), String>>();
        let command = register_command(binding_id, shortcut_str, tx);
        let sent = send_command(&self.sender, command);
        let reply = if sent {
            receive_reply(&rx)
        } else {
            None
        };
        let res = manager_reply(sent, reply);
        assert(manager_outcome(sent, reply, res));
        res
    }

    /// Ask the manager thread to unregister `binding_id` (the command of
    /// [`unregister_command`]); answered as [`KeyboardManagerHandle::register`].
    pub fn unregister(&self, binding_id: &str) -> (res: Result<(), String>)
        ensures
            exists|sent: bool, reply: Option<Result<(), String>>| #[trigger] manager_outcome(sent, reply, res),
    {
        let (tx, rx) = reply_channel::<Result<(), String>>();
        let command = unregister_command(binding_id, tx);
        let sent = send_command(&self.sender, command);
        let reply = if sent {
            receive_reply(&rx)
        } else {
            None
        };
        let res = manager_reply(sent, reply);
        assert(manager_outcome(sent, reply, res));
        res
    }

    /// Ask the manager thread whether `binding_id` is registered (the command
    /// of [`is_registered_command`]); false when the thread cannot answer.
    pub fn is_registered(&self, binding_id: &str) -> (res: bool)
        ensures
            exists|sent: bool, reply: Option<bool>| #[trigger] registered_outcome(sent, reply, res),
    {
        let (tx, rx) = reply_channel::<bool>();
        let command = is_registered_command(binding_id, tx);
        let sent = send_command(&self.sender, command);
        let reply = if sent {
            receive_reply(&rx)
        } else {
            None
        };
        let res = registered_reply(sent, reply);
        assert(registered_outcome(sent, reply, res));
        res
    }
}

// ---------------------------------------------------------------------------
// What a shortcut event does
// ---------------------------------------------------------------------------

/// What a shortcut event asks of its binding's action.
#[derive(Debug, Clone, Copy, PartialEq, Eq, Structural)]
pub enum ShortcutAction {
    Start,
    Stop,
    Nothing,
}

/// One binding's toggle state.
#[derive(Debug)]
pub struct ToggleEntry {
    pub binding_id: String,
    pub active: bool,
}

/// Per-binding toggle state for toggle mode (absent = off).
pub struct ToggleStates {
    entries: Vec<ToggleEntry>,
}

impl View for ToggleStates {
    type V = Seq<(Seq<char>, bool)>;

    closed spec fn view(&self) -> Seq<(Seq<char>, bool)> {
        self.entries@.map_values(|e: ToggleEntry| (e.binding_id@, e.active))
    }
}

/// One entry per binding.
pub open spec fn unique_toggles(entries: Seq<(Seq<char>, bool)>) -> bool {
    forall|i: int, j: int| 0 <= i < entries.len() && 0 <= j < entries.len() && i != j
        ==> #[trigger] entries[i].0 != #[trigger] entries[j].0
}

/// Whether `binding`'s toggle is on.
pub open spec fn toggle_on(entries: Seq<(Seq<char>, bool)>, binding: Seq<char>) -> bool {
    exists|i: int| 0 <= i < entries.len() && #[trigger] entries[i].0 == binding && entries[i].1
}

proof fn lemma_toggle_at(entries: Seq<(Seq<char>, bool)>, i: int, binding: Seq<char>)
    requires
        unique_toggles(entries),
        0 <= i < entries.len(),
        entries[i].0 == binding,
    ensures
        toggle_on(entries, binding) == entries[i].1,
        forall|v: bool| unique_toggles(#[trigger] entries.update(i, (binding, v))),
{
    if !entries[i].1 {
        assert forall|k: int| 0 <= k < entries.len() && #[trigger] entries[k].0 == binding implies !entries[k].1 by {
            if k != i {
                assert(entries[k].0 != entries[i].0);
            }
        }
    }
    assert forall|v: bool| unique_toggles(#[trigger] entries.update(i, (binding, v))) by {
        let u = entries.update(i, (binding, v));
        assert forall|a: int, b: int| 0 <= a < u.len() && 0 <= b < u.len() && a != b implies #[trigger] u[a].0
            != #[trigger] u[b].0 by {
            assert(entries[a].0 != entries[b].0);
        }
    }
}

impl ToggleStates {
    /// Every toggle off.
    pub fn new() -> (res: ToggleStates)
        ensures
            res@ == Seq::<(Seq<char>, bool)>::empty(),
    {
        let t = ToggleStates { entries: Vec::new() };
        assert(t@ =~= Seq::<(Seq<char>, bool)>::empty());
        t
    }

    /// Whether `binding_id`'s toggle is on.
    pub fn is_on(&self, binding_id: &str) -> (res: bool)
        requires
            unique_toggles(self@),
        ensures
            res == toggle_on(self@, binding_id@),
    {
        let mut i: usize = 0;
        while i < self.entries.len()
            invariant
                0 <= i <= self.entries@.len(),
                self@.len() == self.entries@.len(),
                unique_toggles(self@),
                forall|k: int| 0 <= k < i ==> self@[k].0 != binding_id@,
            decreases self.entries@.len() - i,
        {
            if str_eq(self.entries[i].binding_id.as_str(), binding_id) {
                assert(self@[i as int] == (self.entries@[i as int].binding_id@, self.entries@[i as int].active));
                proof {
                    lemma_toggle_at(self@, i as int, binding_id@);
                }
                return self.entries[i].active;
            }
            i = i + 1;
        }
        false
    }

    /// Flip `binding_id`'s toggle and return its new state.
    pub fn toggle(&mut self, binding_id: &str) -> (res: bool)
        requires
            unique_toggles(old(self)@),
        ensures
            unique_toggles(final(self)@),
            res == !toggle_on(old(self)@, binding_id@),
            toggle_on(final(self)@, binding_id@) == res,
            forall|b: Seq<char>| b != binding_id@ ==> toggle_on(final(self)@, b) == toggle_on(old(self)@, b),
    {
        let ghost before = self@;
        let mut i: usize = 0;
        while i < self.entries.len()
            invariant
                0 <= i <= self.entries@.len(),
                self@ == before,
                before == old(self)@,
                unique_toggles(before),
                self@.len() == self.entries@.len(),
                forall|k: int| 0 <= k < i ==> self@[k].0 != binding_id@,
            decreases self.entries@.len() - i,
        {
            if str_eq(self.entries[i].binding_id.as_str(), binding_id) {
                let now = !self.entries[i].active;
                let ghost old_entry = before[i as int];
                assert(old_entry == (self.entries@[i as int].binding_id@, self.entries@[i as int].active));
                proof {
                    lemma_toggle_at(before, i as int, binding_id@);
                    assert(unique_toggles(before.update(i as int, (binding_id@, now))));
                }
                self.entries.set(i, ToggleEntry { binding_id: String::from_str(binding_id), active: now });
                assert(self@ =~= before.update(i as int, (binding_id@, now)));
                proof {
                    lemma_toggle_at(self@, i as int, binding_id@);
                }
                assert(toggle_on(self@, binding_id@) == now);
                assert(toggle_on(before, binding_id@) == old_entry.1);
                assert forall|b: Seq<char>| b != binding_id@ implies toggle_on(self@, b) == toggle_on(before, b) by {
                    if toggle_on(before, b) {
                        let k = choose|k: int| 0 <= k < before.len() && #[trigger] before[k].0 == b && before[k].1;
                        assert(k != i);
                        assert(self@[k] == before[k]);
                        assert(self@[k].0 == b);
                    }
                    if toggle_on(self@, b) {
                        let k = choose|k: int| 0 <= k < self@.len() && #[trigger] self@[k].0 == b && self@[k].1;
                        assert(k != i);
                        assert(self@[k] == before[k]);
                        assert(before[k].0 == b);
                    }
                }
                return now;
            }
            i = i + 1;
        }
        self.entries.push(ToggleEntry { binding_id: String::from_str(binding_id), active: true });
        assert(self@ =~= before.push((binding_id@, true)));
        assert(self@[before.len() as int].0 == binding_id@);
        assert forall|b: Seq<char>| b != binding_id@ implies toggle_on(self@, b) == toggle_on(before, b) by {
            if toggle_on(before, b) {
                let k = choose|k: int| 0 <= k < before.len() && #[trigger] before[k].0 == b && before[k].1;
                assert(self@[k] == before[k]);
            }
            if toggle_on(self@, b) {
                let k = choose|k: int| 0 <= k < self@.len() && #[trigger] self@[k].0 == b && self@[k].1;
                assert(self@[k] == before[k]);
            }
        }
        true
    }
}

/// The action for a shortcut event, given whether the binding has an action,
/// is the cancel binding, whether audio is being recorded, the push-to-talk
/// setting, whether the key was pressed, and the binding's toggle state.
pub open spec fn shortcut_action(
    has_action: bool,
    is_cancel: bool,
    is_recording: bool,
    push_to_talk: bool,
    is_pressed: bool,
    toggled_on: bool,
) -> ShortcutAction {
    if !has_action {
        ShortcutAction::Nothing
    } else if is_cancel {
        if is_recording && is_pressed { ShortcutAction::Start } else { ShortcutAction::Nothing }
    } else if push_to_talk {
        if is_pressed { ShortcutAction::Start } else { ShortcutAction::Stop }
    } else if is_pressed {
        if toggled_on { ShortcutAction::Stop } else { ShortcutAction::Start }
    } else {
        ShortcutAction::Nothing
    }
}

/// Whether the event flips the binding's toggle state (toggle mode, key
/// pressed, a binding with an action other than cancel).
pub open spec fn shortcut_flips_toggle(has_action: bool, is_cancel: bool, push_to_talk: bool, is_pressed: bool) -> bool {
    has_action && !is_cancel && !push_to_talk && is_pressed
}

/// Decide what a shortcut event does. The cancel binding fires only on a
/// press while recording; in push-to-talk mode a press starts and a release
/// stops; in toggle mode each press flips the binding's state, starting when
/// it turns on and stopping when it turns off, and releases do nothing. A
/// binding without an action does nothing.
pub fn handle_shortcut_event(
    toggles: &mut ToggleStates,
    binding_id: &str,
    has_action: bool,
    is_recording: bool,
    push_to_talk: bool,
    is_pressed: bool,
) -> (res: ShortcutAction)
    requires
        unique_toggles(old(toggles)@),
    ensures
        unique_toggles(final(toggles)@),
        res == shortcut_action(
            has_action,
            binding_id@ == "cancel"@,
            is_recording,
            push_to_talk,
            is_pressed,
            toggle_on(old(toggles)@, binding_id@),
        ),
        shortcut_flips_toggle(has_action, binding_id@ == "cancel"@, push_to_talk, is_pressed) ==> (
        toggle_on(final(toggles)@, binding_id@) == !toggle_on(old(toggles)@, binding_id@) && forall|
            b: Seq<char>,
        | b != binding_id@ ==> toggle_on(final(toggles)@, b) == toggle_on(old(toggles)@, b)),
        !shortcut_flips_toggle(has_action, binding_id@ == "cancel"@, push_to_talk, is_pressed)
            ==> final(toggles)@ == old(toggles)@,
{
    if !has_action {
        return ShortcutAction::Nothing;
    }
    if str_eq(binding_id, "cancel") {
        if is_recording && is_pressed {
            return ShortcutAction::Start;
        }
        return ShortcutAction::Nothing;
    }
    if push_to_talk {
        if is_pressed {
            return ShortcutAction::Start;
        }
        return ShortcutAction::Stop;
    }
    if is_pressed {
        let should_start = toggles.toggle(binding_id);
        if should_start {
            ShortcutAction::Start
        } else {
            ShortcutAction::Stop
        }
    } else {
        ShortcutAction::Nothing
    }
}

/// Law: in push-to-talk mode a press starts and a release stops, whatever
/// the toggle state.
pub proof fn law_push_to_talk(has_action: bool, is_cancel: bool, is_recording: bool, toggled_on: bool)
    requires
        has_action,
        !is_cancel,
    ensures
        shortcut_action(has_action, is_cancel, is_recording, true, true, toggled_on) == ShortcutAction::Start,
        shortcut_action(has_action, is_cancel, is_recording, true, false, toggled_on) == ShortcutAction::Stop,
        !shortcut_flips_toggle(has_action, is_cancel, true, true),
{
}

/// Law: in toggle mode two presses alternate start and stop, and releases
/// do nothing.
pub proof fn law_toggle_alternates(is_recording: bool, toggled_on: bool)
    ensures
        shortcut_action(true, false, is_recording, false, true, toggled_on) == (if toggled_on {
            ShortcutAction::Stop
        } else {
            ShortcutAction::Start
        }),
        shortcut_action(true, false, is_recording, false, true, !toggled_on) != shortcut_action(
            true,
            false,
            is_recording,
            false,
            true,
            toggled_on,
        ),
        shortcut_action(true, false, is_recording, false, false, toggled_on) == ShortcutAction::Nothing,
{
}

/// Law: the cancel binding only ever starts its action, and only on a press
/// while recording.
pub proof fn law_cancel_fires_only_while_recording(is_recording: bool, push_to_talk: bool, is_pressed: bool, toggled_on: bool)
    ensures
        shortcut_action(true, true, is_recording, push_to_talk, is_pressed, toggled_on) == (if is_recording
            && is_pressed {
            ShortcutAction::Start
        } else {
            ShortcutAction::Nothing
        }),
        !shortcut_flips_toggle(true, true, push_to_talk, is_pressed),
{
}

/// The check `register_shortcut` makes before registering a binding.
pub fn check_not_registered(already_registered: bool, current_binding: &str) -> (res: Result<(), String>)
    ensures
        already_registered ==> (res matches Err(m) && m@ == "Shortcut '"@ + current_binding@
            + "' is already registered"@),
        !already_registered ==> res is Ok,
{
    if already_registered {
        let mut m = String::from_str("Shortcut '");
        m.append(current_binding);
        m.append("' is already registered");
        return Err(m);
    }
    Ok(())
}


// ---------------------------------------------------------------------------
// Shortcuts registered at startup
// ---------------------------------------------------------------------------

/// A binding and the shortcut currently bound to it.
#[derive(Debug)]
pub struct BindingShortcut {
    pub id: String,
    pub current_binding: String,
}

/// The abstract form of a binding: `(id, shortcut)`.
pub open spec fn binding_view(b: BindingShortcut) -> (Seq<char>, Seq<char>) {
    (b.id@, b.current_binding@)
}

/// The shortcut the user bound to `id`, if any (the first entry for it).
pub open spec fn user_binding(user: Seq<(Seq<char>, Seq<char>)>, id: Seq<char>) -> Option<Seq<char>>
    decreases user.len(),
{
    if user.len() == 0 {
        None
    } else if user[0].0 == id {
        Some(user[0].1)
    } else {
        user_binding(user.drop_first(), id)
    }
}

/// The bindings registered at startup: every default binding except the
/// cancel binding (registered only while recording), with the user's
/// shortcut where the user customised it.
pub open spec fn startup_bindings(
    defaults: Seq<(Seq<char>, Seq<char>)>,
    user: Seq<(Seq<char>, Seq<char>)>,
) -> Seq<(Seq<char>, Seq<char>)>
    decreases defaults.len(),
{
    if defaults.len() == 0 {
        Seq::empty()
    } else {
        let d = defaults.last();
        let before = startup_bindings(defaults.drop_last(), user);
        if d.0 == "cancel"@ {
            before
        } else {
            before.push(
                (
                    d.0,
                    match user_binding(user, d.0) {
                        Some(s) => s,
                        None => d.1,
                    },
                ),
            )
        }
    }
}

fn find_user_binding(user: &Vec<BindingShortcut>, id: &str) -> (res: Option<usize>)
    ensures
        match res {
            Some(i) => i < user@.len() && user_binding(user@.map_values(|b: BindingShortcut| binding_view(b)), id@)
                == Some(user@[i as int].current_binding@),
            None => user_binding(user@.map_values(|b: BindingShortcut| binding_view(b)), id@) is None,
        },
{
    let ghost uv = user@.map_values(|b: BindingShortcut| binding_view(b));
    let mut i: usize = 0;
    assert(uv.skip(0) == uv);
    while i < user.len()
        invariant
            0 <= i <= user@.len(),
            uv == user@.map_values(|b: BindingShortcut| binding_view(b)),
            user_binding(uv, id@) == user_binding(uv.skip(i as int), id@),
        decreases user@.len() - i,
    {
        proof {
            assert(uv.skip(i as int).drop_first() == uv.skip(i + 1));
            assert(uv.skip(i as int)[0] == uv[i as int]);
        }
        if str_eq(user[i].id.as_str(), id) {
            return Some(i);
        }
        i = i + 1;
    }
    assert(uv.skip(user@.len() as int) =~= Seq::<(Seq<char>, Seq<char>)>::empty());
    None
}

/// The bindings to register at startup, in the order of the defaults.
pub fn startup_registrations(defaults: &Vec<BindingShortcut>, user: &Vec<BindingShortcut>) -> (res: Vec<BindingShortcut>)
    ensures
        res@.map_values(|b: BindingShortcut| binding_view(b)) == startup_bindings(
            defaults@.map_values(|b: BindingShortcut| binding_view(b)),
            user@.map_values(|b: BindingShortcut| binding_view(b)),
        ),
{
    let ghost dv = defaults@.map_values(|b: BindingShortcut| binding_view(b));
    let ghost uv = user@.map_values(|b: BindingShortcut| binding_view(b));
    let mut out: Vec<BindingShortcut> = Vec::new();
    let mut i: usize = 0;
    while i < defaults.len()
        invariant
            0 <= i <= defaults@.len(),
            dv == defaults@.map_values(|b: BindingShortcut| binding_view(b)),
            uv == user@.map_values(|b: BindingShortcut| binding_view(b)),
            out@.map_values(|b: BindingShortcut| binding_view(b)) == startup_bindings(dv.take(i as int), uv),
        decreases defaults@.len() - i,
    {
        let d = &defaults[i];
        proof {
            assert(dv.take(i + 1).drop_last() == dv.take(i as int));
            assert(dv.take(i + 1).last() == binding_view(*d));
        }
        if !str_eq(d.id.as_str(), "cancel") {
            let shortcut = match find_user_binding(user, d.id.as_str()) {
                Some(k) => user[k].current_binding.clone(),
                None => d.current_binding.clone(),
            };
            let ghost before = out@.map_values(|b: BindingShortcut| binding_view(b));
            out.push(BindingShortcut { id: d.id.clone(), current_binding: shortcut });
            assert(out@.map_values(|b: BindingShortcut| binding_view(b)) =~= before.push(
                (d.id@, shortcut@),
            ));
        }
        i = i + 1;
    }
    assert(dv.take(defaults@.len() as int) == dv);
    out
}

} // verus!
