//! Shortcuts: the table of rebindable key combinations, and recording a new one.
//!
//! A combination that is bound elsewhere is refused while it is recorded, so recording never puts a
//! conflict into the keymap.

use crate::lists;
use crate::lists::{find_first, first_at, pointees};
use crate::popover::FocusTarget;
use crate::text;
use crate::text::text_opt;
use vstd::prelude::*;

verus! {

/// A rebindable shortcut.
#[derive(Debug, Clone, Copy, PartialEq, Eq, Structural)]
pub enum ShortcutId {
    SaveFile,
    ToggleSidebar,
    ToggleChanges,
    ToggleTerminal,
    NewSession,
    NextSession,
    PrevSession,
    ArchiveSession,
    /// Jumps to the session at a place in the sidebar.
    JumpSession(u8),
}

/// A shortcut with its words, its combination and the combination it starts with.
#[derive(Debug, PartialEq, Eq)]
pub struct Binding {
    pub id: ShortcutId,
    pub label: String,
    pub combo: String,
    pub default_combo: String,
}

/// All shortcuts, in display order.
#[derive(Debug, PartialEq, Eq)]
pub struct KeymapConfig {
    pub bindings: Vec<Binding>,
}

/// The test for a shortcut.
pub open spec fn bound_to(id: ShortcutId) -> spec_fn(Binding) -> bool {
    |b: Binding| b.id == id
}

/// The test for another shortcut with a combination.
pub open spec fn clashes(id: ShortcutId, combo: Seq<char>) -> spec_fn(Binding) -> bool {
    |b: Binding| b.id != id && b.combo@ == combo
}

/// The test for a combination that was changed.
pub open spec fn is_custom() -> spec_fn(Binding) -> bool {
    |b: Binding| b.combo@ != b.default_combo@
}

impl KeymapConfig {
    /// Every shortcut is listed once.
    pub open spec fn wf(self) -> bool {
        forall|i: int, j: int|
            0 <= i < j < self.bindings@.len() ==> (#[trigger] self.bindings@[i]).id != (
            #[trigger] self.bindings@[j]).id
    }

    /// No two shortcuts share a combination.
    pub open spec fn unique(self) -> bool {
        forall|i: int, j: int|
            0 <= i < j < self.bindings@.len() ==> (#[trigger] self.bindings@[i]).combo@ != (
            #[trigger] self.bindings@[j]).combo@
    }

    /// The combination of a shortcut.
    pub open spec fn combo_of(self, id: ShortcutId) -> Option<Seq<char>> {
        match find_first(self.bindings@, bound_to(id)) {
            Some(b) => Some(b.combo@),
            None => None,
        }
    }

    /// Everything but the combination of the shortcut at a place is as before.
    pub open spec fn rebound(before: Seq<Binding>, after: Seq<Binding>, i: int, combo: Seq<char>) -> bool {
        &&& after.len() == before.len()
        &&& after == before.update(i, after[i])
        &&& after[i].id == before[i].id
        &&& after[i].label == before[i].label
        &&& after[i].default_combo == before[i].default_combo
        &&& after[i].combo@ == combo
    }

    fn find(&self, id: ShortcutId) -> (r: Option<usize>)
        ensures
            match r {
                Some(i) => i < self.bindings.len() && first_at(self.bindings@, bound_to(id)) == Some(
                    i as int,
                ) && find_first(self.bindings@, bound_to(id)) == Some(self.bindings@[i as int]),
                None => first_at(self.bindings@, bound_to(id)) is None && find_first(
                    self.bindings@,
                    bound_to(id),
                ) is None,
            },
    {
        let ghost p = bound_to(id);
        let bound = |b: &Binding| -> (r: bool)
            ensures
                r == p(*b),
            { b.id == id };
        lists::position(&self.bindings, bound, Ghost(p))
    }

    /// The combination of a shortcut.
    pub fn get(&self, id: ShortcutId) -> (r: Option<String>)
        ensures
            text_opt(r) == self.combo_of(id),
    {
        match self.find(id) {
            Some(i) => Some(self.bindings[i].combo.clone()),
            None => None,
        }
    }

    /// Binds a shortcut.
    pub fn set(&mut self, id: ShortcutId, combo: String)
        ensures
            match first_at(old(self).bindings@, bound_to(id)) {
                Some(i) => Self::rebound(old(self).bindings@, final(self).bindings@, i, combo@),
                None => *final(self) == *old(self),
            },
            old(self).wf() ==> final(self).wf(),
    {
        if let Some(i) = self.find(id) {
            self.bindings[i].combo = combo;
            proof {
                assert(self.bindings@ =~= old(self).bindings@.update(
                    i as int,
                    self.bindings@[i as int],
                ));
            }
        }
    }

    /// Gives a shortcut back the combination it started with.
    pub fn reset(&mut self, id: ShortcutId)
        ensures
            match first_at(old(self).bindings@, bound_to(id)) {
                Some(i) => Self::rebound(
                    old(self).bindings@,
                    final(self).bindings@,
                    i,
                    old(self).bindings@[i].default_combo@,
                ),
                None => *final(self) == *old(self),
            },
            old(self).wf() ==> final(self).wf(),
    {
        if let Some(i) = self.find(id) {
            let combo = self.bindings[i].default_combo.clone();
            self.bindings[i].combo = combo;
            proof {
                assert(self.bindings@ =~= old(self).bindings@.update(
                    i as int,
                    self.bindings@[i as int],
                ));
            }
        }
    }

    /// A list with every combination as it started.
    pub open spec fn restored(before: Seq<Binding>, after: Seq<Binding>) -> bool {
        &&& after.len() == before.len()
        &&& forall|i: int|
            0 <= i < after.len() ==> {
                &&& (#[trigger] after[i]).id == before[i].id
                &&& after[i].label == before[i].label
                &&& after[i].default_combo == before[i].default_combo
                &&& after[i].combo@ == before[i].default_combo@
            }
    }

    /// Gives every shortcut back the combination it started with.
    pub fn restore(&mut self)
        ensures
            Self::restored(old(self).bindings@, final(self).bindings@),
            old(self).wf() ==> final(self).wf(),
    {
        let ghost before = self.bindings@;
        let mut i: usize = 0;
        while i < self.bindings.len()
            invariant
                i <= self.bindings.len(),
                self.bindings@.len() == before.len(),
                Self::restored(before.take(i as int), self.bindings@.take(i as int)),
                forall|k: int| i <= k < before.len() ==> self.bindings@[k] == before[k],
            decreases self.bindings.len() - i,
        {
            let ghost was = self.bindings@;
            let combo = self.bindings[i].default_combo.clone();
            self.bindings[i].combo = combo;
            proof {
                assert forall|k: int| 0 <= k < i + 1 implies {
                    &&& (#[trigger] self.bindings@.take(i + 1)[k]).id == before.take(i + 1)[k].id
                    &&& self.bindings@.take(i + 1)[k].label == before.take(i + 1)[k].label
                    &&& self.bindings@.take(i + 1)[k].default_combo == before.take(i
                        + 1)[k].default_combo
                    &&& self.bindings@.take(i + 1)[k].combo@ == before.take(i + 1)[k].default_combo@
                } by {
                    if k < i {
                        assert(was.take(i as int)[k] == self.bindings@[k]);
                    }
                }
            }
            i = i + 1;
        }
        proof {
            assert(before.take(i as int) =~= before);
            assert(self.bindings@.take(i as int) =~= self.bindings@);
        }
    }

    /// Whether any combination was changed.
    pub fn customized(&self) -> (r: bool)
        ensures
            r == lists::some_passes(self.bindings@, is_custom()),
    {
        let ghost p = is_custom();
        let custom = |b: &Binding| -> (r: bool)
            ensures
                r == p(*b),
            { !text::same(b.combo.as_str(), b.default_combo.as_str()) };
        lists::any(&self.bindings, custom, Ghost(p))
    }
}

/// The shortcut, other than the given one, that a combination is already bound to.
pub fn conflict_owner(keymap: &KeymapConfig, id: ShortcutId, combo: &str) -> (r: Option<ShortcutId>)
    ensures
        r == (match find_first(keymap.bindings@, clashes(id, combo@)) {
            Some(b) => Some(b.id),
            None => None,
        }),
{
    match find_clash(keymap, id, combo) {
        Some(b) => Some(b.id),
        None => None,
    }
}

fn find_clash<'a>(keymap: &'a KeymapConfig, id: ShortcutId, combo: &str) -> (r: Option<&'a Binding>)
    ensures
        lists::pointee(r) == find_first(keymap.bindings@, clashes(id, combo@)),
{
    let ghost p = clashes(id, combo@);
    let clash = |b: &Binding| -> (r: bool)
        ensures
            r == p(*b),
        { b.id != id && text::same(b.combo.as_str(), combo) };
    lists::find(&keymap.bindings, clash, Ghost(p))
}

// ---------------------------------------------------------------------------
// Recording
// ---------------------------------------------------------------------------

/// What one key does while a combination is recorded.
#[derive(Debug, PartialEq, Eq)]
pub enum RecordOutcome {
    /// Escape: recording ends, the old combination stays.
    Cancelled,
    /// A bare modifier or an unusable key: recording goes on.
    Ignored,
    /// A full combination.
    Assigned(String),
}

/// A character with its ASCII letter made small.
pub open spec fn ascii_small(c: char) -> int {
    if 'A' <= c && c <= 'Z' {
        c as int + 32
    } else {
        c as int
    }
}

/// Two texts that differ at most in the case of ASCII letters.
pub open spec fn same_letters(a: Seq<char>, b: Seq<char>) -> bool {
    a.len() == b.len() && forall|i: int|
        0 <= i < a.len() ==> ascii_small(#[trigger] a[i]) == ascii_small(b[i])
}

fn small(c: char) -> (r: u32)
    ensures
        r == ascii_small(c),
{
    if 'A' <= c && c <= 'Z' {
        c as u32 + 32
    } else {
        c as u32
    }
}

fn equal_letters(a: &str, b: &str) -> (r: bool)
    ensures
        r == same_letters(a@, b@),
{
    let left = text::chars_of(a);
    let right = text::chars_of(b);
    if left.len() != right.len() {
        return false;
    }
    let mut i: usize = 0;
    while i < left.len()
        invariant
            i <= left.len(),
            left@ == a@,
            right@ == b@,
            left.len() == right.len(),
            forall|k: int| 0 <= k < i ==> ascii_small(#[trigger] a@[k]) == ascii_small(b@[k]),
        decreases left.len() - i,
    {
        if small(left[i]) != small(right[i]) {
            proof {
                assert(ascii_small(a@[i as int]) != ascii_small(b@[i as int]));
            }
            return false;
        }
        i = i + 1;
    }
    true
}

/// What a key does while a combination is recorded. `combo` is the combination that the key makes with
/// the modifiers that are held, where it makes one.
pub fn record_key(key: &str, combo: Option<String>) -> (r: RecordOutcome)
    ensures
        r == (if same_letters(key@, "escape"@) {
            RecordOutcome::Cancelled
        } else {
            match combo {
                Some(c) => RecordOutcome::Assigned(c),
                None => RecordOutcome::Ignored,
            }
        }),
{
    if equal_letters(key, "escape") {
        return RecordOutcome::Cancelled;
    }
    match combo {
        Some(combo) => RecordOutcome::Assigned(combo),
        None => RecordOutcome::Ignored,
    }
}

/// The shortcuts page.
#[derive(Debug, PartialEq, Eq)]
pub struct ShortcutsPage {
    pub keymap: KeymapConfig,
    pub recording: Option<ShortcutId>,
    /// Why a combination was refused.
    pub conflict_notice: Option<String>,
}

/// What the caller has to do after a key.
#[derive(Debug, Clone, Copy, PartialEq, Eq, Structural)]
pub struct KeyEffect {
    /// The key was taken; nothing else may see it.
    pub handled: bool,
    /// The keymap changed; keep it and apply it.
    pub changed: bool,
}

impl ShortcutsPage {
    pub fn new(keymap: KeymapConfig) -> (p: Self)
        ensures
            p.keymap == keymap,
            p.recording is None,
            p.conflict_notice is None,
    {
        ShortcutsPage { keymap, recording: None, conflict_notice: None }
    }

    /// Starts to record a combination. The page gets the focus, so that it sees the keys.
    pub fn record(&mut self, id: ShortcutId) -> (focus: FocusTarget)
        ensures
            focus == FocusTarget::Frame,
            *final(self) == (ShortcutsPage {
                recording: Some(id),
                conflict_notice: None,
                ..*old(self)
            }),
    {
        self.recording = Some(id);
        self.conflict_notice = None;
        FocusTarget::Frame
    }

    /// The notice on a combination that is taken.
    pub open spec fn notice(shown: Seq<char>, owner: Seq<char>) -> Seq<char> {
        shown + " is already assigned to "@ + owner + "."@
    }

    /// Takes a key while a combination is recorded. `combo` is what the key makes with the modifiers that
    /// are held, and `shown` is that combination in words.
    pub fn on_key_down(&mut self, key: &str, combo: Option<String>, shown: &str) -> (effect: KeyEffect)
        ensures
            effect.handled == old(self).recording is Some,
            match old(self).recording {
                None => *final(self) == *old(self) && !effect.changed,
                Some(id) => if same_letters(key@, "escape"@) {
                    *final(self) == (ShortcutsPage { recording: None, ..*old(self) })
                        && !effect.changed
                } else {
                    match combo {
                        None => *final(self) == *old(self) && !effect.changed,
                        Some(c) => match find_first(old(self).keymap.bindings@, clashes(id, c@)) {
                            Some(owner) => {
                                &&& final(self).keymap == old(self).keymap
                                &&& final(self).recording is None
                                &&& text_opt(final(self).conflict_notice) == Some(
                                    Self::notice(shown@, owner.label@),
                                )
                                &&& !effect.changed
                            },
                            None => {
                                &&& match first_at(old(self).keymap.bindings@, bound_to(id)) {
                                    Some(i) => KeymapConfig::rebound(
                                        old(self).keymap.bindings@,
                                        final(self).keymap.bindings@,
                                        i,
                                        c@,
                                    ),
                                    None => final(self).keymap == old(self).keymap,
                                }
                                &&& final(self).recording is None
                                &&& final(self).conflict_notice is None
                                &&& effect.changed
                            },
                        },
                    }
                },
            },
            old(self).keymap.wf() ==> final(self).keymap.wf(),
            old(self).keymap.wf() && old(self).keymap.unique() ==> final(self).keymap.unique(),
    {
        let id = match self.recording {
            Some(id) => id,
            None => {
                return KeyEffect { handled: false, changed: false };
            },
        };
        match record_key(key, combo) {
            RecordOutcome::Cancelled => {
                self.recording = None;
                KeyEffect { handled: true, changed: false }
            },
            RecordOutcome::Ignored => KeyEffect { handled: true, changed: false },
            RecordOutcome::Assigned(c) => {
                let notice = match find_clash(&self.keymap, id, c.as_str()) {
                    Some(owner) => {
                        let head = text::joined3(
                            shown,
                            " is already assigned to ",
                            owner.label.as_str(),
                        );
                        Some(text::joined(head.as_str(), "."))
                    },
                    None => None,
                };
                self.recording = None;
                if notice.is_some() {
                    self.conflict_notice = notice;
                    KeyEffect { handled: true, changed: false }
                } else {
                    let ghost before = self.keymap.bindings@;
                    let ghost combo_text = c@;
                    self.keymap.set(id, c);
                    self.conflict_notice = None;
                    proof {
                        recording_keeps_unique(before, self.keymap.bindings@, id, combo_text);
                    }
                    KeyEffect { handled: true, changed: true }
                }
            },
        }
    }

    /// Gives a shortcut back the combination it started with.
    pub fn reset_row(&mut self, id: ShortcutId)
        ensures
            final(self).recording is None,
            final(self).conflict_notice == old(self).conflict_notice,
            match first_at(old(self).keymap.bindings@, bound_to(id)) {
                Some(i) => KeymapConfig::rebound(
                    old(self).keymap.bindings@,
                    final(self).keymap.bindings@,
                    i,
                    old(self).keymap.bindings@[i].default_combo@,
                ),
                None => final(self).keymap == old(self).keymap,
            },
            old(self).keymap.wf() ==> final(self).keymap.wf(),
    {
        self.keymap.reset(id);
        self.recording = None;
    }

    /// Gives every shortcut back the combination it started with.
    pub fn restore_defaults(&mut self)
        ensures
            final(self).recording is None,
            final(self).conflict_notice is None,
            KeymapConfig::restored(old(self).keymap.bindings@, final(self).keymap.bindings@),
            old(self).keymap.wf() ==> final(self).keymap.wf(),
    {
        self.keymap.restore();
        self.recording = None;
        self.conflict_notice = None;
    }

    /// Whether the defaults can be restored: something was changed, and nothing is being recorded.
    pub fn can_restore(&self) -> (r: bool)
        ensures
            r == (lists::some_passes(self.keymap.bindings@, is_custom()) && self.recording is None),
    {
        self.keymap.customized() && self.recording.is_none()
    }

    /// The line under the table.
    pub fn helper(&self) -> (r: String)
        ensures
            r@ == (if self.recording is Some {
                "Press Escape to cancel."@
            } else {
                match self.conflict_notice {
                    Some(notice) => notice@,
                    None => "Shortcuts must be unique."@,
                }
            }),
    {
        if self.recording.is_some() {
            return "Press Escape to cancel.".to_owned();
        }
        match &self.conflict_notice {
            Some(notice) => notice.clone(),
            None => "Shortcuts must be unique.".to_owned(),
        }
    }

    /// The text on the chip of a row, and whether the row offers to reset it. `shown` is the combination
    /// of the row in words.
    pub fn row(&self, binding: &Binding, shown: &str) -> (r: (String, bool))
        ensures
            ({
                let recording = self.recording == Some(binding.id);
                &&& r.0@ == (if recording {
                    "Press keys…"@
                } else {
                    shown@
                })
                &&& r.1 == (!recording && is_custom()(*binding))
            }),
    {
        let recording = match self.recording {
            Some(id) => id == binding.id,
            None => false,
        };
        let chip = if recording {
            "Press keys…"
        } else {
            shown
        };
        let custom = !text::same(binding.combo.as_str(), binding.default_combo.as_str());
        (chip.to_owned(), !recording && custom)
    }
}

/// A combination that clashes with no other shortcut keeps the keymap free of conflicts.
proof fn recording_keeps_unique(
    before: Seq<Binding>,
    after: Seq<Binding>,
    id: ShortcutId,
    combo: Seq<char>,
)
    requires
        find_first(before, clashes(id, combo)) is None,
        match first_at(before, bound_to(id)) {
            Some(i) => KeymapConfig::rebound(before, after, i, combo),
            None => after == before,
        },
    ensures
        (forall|i: int, j: int|
            0 <= i < j < before.len() ==> (#[trigger] before[i]).id != (#[trigger] before[j]).id) && (
        forall|i: int, j: int|
            0 <= i < j < before.len() ==> (#[trigger] before[i]).combo@ != (
            #[trigger] before[j]).combo@) ==> (forall|i: int, j: int|
            0 <= i < j < after.len() ==> (#[trigger] after[i]).combo@ != (#[trigger] after[j]).combo@),
{
    lists::search_meaning(before, clashes(id, combo));
    lists::search_meaning(before, bound_to(id));
    if first_at(before, bound_to(id)) is Some {
        let k = first_at(before, bound_to(id))->0;
        assert(bound_to(id)(before[k]));
        assert forall|i: int, j: int|
            0 <= i < j < after.len() && (forall|i: int, j: int|
                0 <= i < j < before.len() ==> (#[trigger] before[i]).id != (#[trigger] before[j]).id)
                && (forall|i: int, j: int|
                0 <= i < j < before.len() ==> (#[trigger] before[i]).combo@ != (
                #[trigger] before[j]).combo@) implies (#[trigger] after[i]).combo@ != (
        #[trigger] after[j]).combo@ by {
            if i == k {
                assert(!clashes(id, combo)(before[j]));
            } else if j == k {
                assert(!clashes(id, combo)(before[i]));
            } else {
                assert(after[i] == before[i] && after[j] == before[j]);
            }
        }
    }
}

// ---------------------------------------------------------------------------
// Sections
// ---------------------------------------------------------------------------

/// The sections of the page, in display order.
pub open spec fn group_names() -> Seq<Seq<char>> {
    seq!["Files"@, "Panels"@, "Sessions"@, "Jump to session"@]
}

/// The place of the section of a shortcut.
pub open spec fn group_at(id: ShortcutId) -> int {
    match id {
        ShortcutId::SaveFile => 0,
        ShortcutId::ToggleSidebar => 1,
        ShortcutId::ToggleChanges => 1,
        ShortcutId::ToggleTerminal => 1,
        ShortcutId::NewSession => 2,
        ShortcutId::NextSession => 2,
        ShortcutId::PrevSession => 2,
        ShortcutId::ArchiveSession => 2,
        ShortcutId::JumpSession(_) => 3,
    }
}

/// The sections of the page, in display order.
pub fn group_order() -> (r: Vec<&'static str>)
    ensures
        r@.len() == group_names().len(),
        forall|i: int| 0 <= i < r@.len() ==> (#[trigger] r@[i])@ == group_names()[i],
{
    let mut r: Vec<&'static str> = Vec::new();
    r.push("Files");
    r.push("Panels");
    r.push("Sessions");
    r.push("Jump to session");
    r
}

/// The section that a shortcut stands in.
pub fn group(id: ShortcutId) -> (r: &'static str)
    ensures
        r@ == group_names()[group_at(id)],
{
    match id {
        ShortcutId::SaveFile => "Files",
        ShortcutId::ToggleSidebar => "Panels",
        ShortcutId::ToggleChanges => "Panels",
        ShortcutId::ToggleTerminal => "Panels",
        ShortcutId::NewSession => "Sessions",
        ShortcutId::NextSession => "Sessions",
        ShortcutId::PrevSession => "Sessions",
        ShortcutId::ArchiveSession => "Sessions",
        ShortcutId::JumpSession(_) => "Jump to session",
    }
}

/// The test for a shortcut of a section.
pub open spec fn in_group(name: Seq<char>) -> spec_fn(Binding) -> bool {
    |b: Binding| group_names()[group_at(b.id)] == name
}

/// The rows of a section, in order.
pub fn group_rows<'a>(keymap: &'a KeymapConfig, name: &str) -> (rows: Vec<&'a Binding>)
    ensures
        pointees(rows@) == keymap.bindings@.filter(in_group(name@)),
{
    let ghost p = in_group(name@);
    let member = |b: &Binding| -> (r: bool)
        ensures
            r == p(*b),
        { text::same(group(b.id), name) };
    lists::select(&keymap.bindings, member, Ghost(p))
}

/// Every shortcut lands in exactly one section of the page.
pub proof fn every_shortcut_has_one_section(id: ShortcutId, i: int)
    requires
        0 <= i < group_names().len(),
    ensures
        0 <= group_at(id) < group_names().len(),
        group_names()[i] == group_names()[group_at(id)] <==> i == group_at(id),
{
    reveal_strlit("Files");
    reveal_strlit("Panels");
    reveal_strlit("Sessions");
    reveal_strlit("Jump to session");
    assert(group_names()[0].len() == 5);
    assert(group_names()[1].len() == 6);
    assert(group_names()[2].len() == 8);
    assert(group_names()[3].len() == 15);
}

/// Every section of the page has a shortcut that belongs to it.
pub proof fn every_section_has_a_shortcut(i: int)
    requires
        0 <= i < group_names().len(),
    ensures
        exists|id: ShortcutId| group_at(id) == i,
{
    assert(group_at(ShortcutId::SaveFile) == 0);
    assert(group_at(ShortcutId::ToggleSidebar) == 1);
    assert(group_at(ShortcutId::NewSession) == 2);
    assert(group_at(ShortcutId::JumpSession(0)) == 3);
}

/// What a shortcut is for.
pub open spec fn purpose(id: ShortcutId) -> Seq<char> {
    match id {
        ShortcutId::SaveFile => "Save the active workspace file."@,
        ShortcutId::ToggleSidebar => "Show or hide sessions and settings navigation."@,
        ShortcutId::ToggleChanges => "Show or hide the right sidebar for the current session."@,
        ShortcutId::ToggleTerminal => "Show or hide the terminal for the current session."@,
        ShortcutId::NewSession => "Open a blank session canvas to start a new session."@,
        ShortcutId::NextSession => "Select the next session in the sidebar, wrapping at the end."@,
        ShortcutId::PrevSession => "Select the previous session in the sidebar, wrapping at the start."@,
        ShortcutId::ArchiveSession => "Move the current session to the archived shelf."@,
        ShortcutId::JumpSession(_) => "Open the session at this place in the sidebar list."@,
    }
}

/// What a shortcut is for, in one line.
pub fn description(id: ShortcutId) -> (r: &'static str)
    ensures
        r@ == purpose(id),
{
    match id {
        ShortcutId::SaveFile => "Save the active workspace file.",
        ShortcutId::ToggleSidebar => "Show or hide sessions and settings navigation.",
        ShortcutId::ToggleChanges => "Show or hide the right sidebar for the current session.",
        ShortcutId::ToggleTerminal => "Show or hide the terminal for the current session.",
        ShortcutId::NewSession => "Open a blank session canvas to start a new session.",
        ShortcutId::NextSession => "Select the next session in the sidebar, wrapping at the end.",
        ShortcutId::PrevSession => "Select the previous session in the sidebar, wrapping at the start.",
        ShortcutId::ArchiveSession => "Move the current session to the archived shelf.",
        ShortcutId::JumpSession(_) => "Open the session at this place in the sidebar list.",
    }
}

} // verus!
