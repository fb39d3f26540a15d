//! Project labels, sidebar groups and the short texts of a chat row.

use crate::lists;
use crate::lists::{pointees, search_meaning};
use crate::model::Chat;
use crate::text;
use crate::text::{decimal_text, text_opt, trimmed};
use crate::time::{truncated_div, Timestamp};
use vstd::prelude::*;

verus! {

/// A text without the path separators it ends with.
pub open spec fn without_separators(s: Seq<char>) -> Seq<char>
    decreases s.len(),
{
    if s.len() > 0 && (s.last() == '/' || s.last() == '\\') {
        without_separators(s.drop_last())
    } else {
        s
    }
}

/// The position of the last occurrence of a character, or -1.
pub open spec fn last_at(s: Seq<char>, c: char) -> int
    decreases s.len(),
{
    if s.len() == 0 {
        -1
    } else if s.last() == c {
        s.len() - 1
    } else {
        last_at(s.drop_last(), c)
    }
}

/// The last occurrence lies in the text, holds the character, and nothing after it does.
pub proof fn last_at_meaning(s: Seq<char>, c: char)
    ensures
        -1 <= last_at(s, c) < s.len(),
        last_at(s, c) >= 0 ==> s[last_at(s, c)] == c,
        forall|i: int| last_at(s, c) < i < s.len() ==> s[i] != c,
    decreases s.len(),
{
    if s.len() > 0 && s.last() != c {
        last_at_meaning(s.drop_last(), c);
        assert forall|i: int| last_at(s, c) < i < s.len() implies s[i] != c by {
            if i < s.len() - 1 {
                assert(s.drop_last()[i] == s[i]);
            }
        }
    }
}

/// The last named component of a path: empty components and `.` are skipped, and a path that ends
/// in `..`, or that names only the root or the current directory, has none.
pub open spec fn file_name_of(path: Seq<char>) -> Option<Seq<char>>
    decreases path.len(),
    via file_name_decreases
{
    let slash = last_at(path, '/');
    let last = path.skip(slash + 1);
    if last == ".."@ {
        None
    } else if last.len() > 0 && last != "."@ {
        Some(last)
    } else if slash < 0 {
        None
    } else {
        file_name_of(path.take(slash))
    }
}

#[via_fn]
proof fn file_name_decreases(path: Seq<char>) {
    last_at_meaning(path, '/');
}

/// The project label of a folder: its last component, or the folder as written.
pub open spec fn folder_label(folder: Seq<char>) -> Seq<char> {
    match file_name_of(without_separators(folder)) {
        Some(name) => name,
        None => folder,
    }
}

/// The project label of a chat's folder.
pub open spec fn label_of(cwd: Option<Seq<char>>) -> Seq<char> {
    match cwd {
        Some(c) => if trimmed(c).len() > 0 {
            folder_label(trimmed(c))
        } else {
            "No project"@
        },
        None => "No project"@,
    }
}

fn file_name(chars: &[char], end: usize) -> (r: Option<String>)
    requires
        end <= chars.len(),
    ensures
        text_opt(r) == file_name_of(chars@.take(end as int)),
{
    let mut to: usize = end;
    loop
        invariant
            to <= end <= chars.len(),
            file_name_of(chars@.take(end as int)) == file_name_of(chars@.take(to as int)),
        decreases to,
    {
        let ghost path = chars@.take(to as int);
        let mut at: usize = to;
        proof {
            assert(path.take(to as int) =~= path);
        }
        while at > 0 && chars[at - 1] != '/'
            invariant
                at <= to <= chars.len(),
                path == chars@.take(to as int),
                last_at(path, '/') == last_at(path.take(at as int), '/'),
            decreases at,
        {
            proof {
                assert(path.take(at as int).drop_last() =~= path.take(at - 1));
            }
            at = at - 1;
        }
        let last = text::string_of(chars, at, to);
        proof {
            assert(last_at(path, '/') == at - 1);
            assert(last@ =~= path.skip(at as int));
        }
        if text::same(last.as_str(), "..") {
            return None;
        }
        if !text::empty(last.as_str()) && !text::same(last.as_str(), ".") {
            return Some(last);
        }
        if at == 0 {
            return None;
        }
        proof {
            assert(path.take(at - 1) =~= chars@.take(at - 1));
        }
        to = at - 1;
    }
}

/// The project label of a folder that is already trimmed.
fn label_folder(folder: &String) -> (r: String)
    ensures
        r@ == folder_label(folder@),
{
    let chars = text::chars_of(folder.as_str());
    let mut to: usize = chars.len();
    proof {
        assert(chars@.take(to as int) =~= folder@);
    }
    while to > 0 && (chars[to - 1] == '/' || chars[to - 1] == '\\')
        invariant
            to <= chars.len(),
            without_separators(folder@) == without_separators(chars@.take(to as int)),
        decreases to,
    {
        proof {
            assert(chars@.take(to as int).drop_last() =~= chars@.take(to - 1));
        }
        to = to - 1;
    }
    match file_name(&chars, to) {
        Some(name) => name,
        None => folder.clone(),
    }
}

/// Project label for a chat: the basename of its folder, or "No project".
pub fn project_label(cwd: Option<&str>) -> (r: String)
    ensures
        r@ == label_of(match cwd {
            Some(c) => Some(c@),
            None => None,
        }),
{
    match cwd {
        Some(c) => {
            let folder = text::trim(c);
            if text::empty(folder.as_str()) {
                "No project".to_owned()
            } else {
                label_folder(&folder)
            }
        },
        None => "No project".to_owned(),
    }
}

/// The project label of a chat.
pub open spec fn chat_label(chat: Chat) -> Seq<char> {
    label_of(text_opt(chat.cwd))
}

fn label_chat(chat: &Chat) -> (r: String)
    ensures
        r@ == chat_label(*chat),
{
    match &chat.cwd {
        Some(c) => project_label(Some(c.as_str())),
        None => project_label(None),
    }
}

/// One grouped-by-project sidebar section.
#[derive(Debug, PartialEq)]
pub struct ChatGroup<'a> {
    pub label: String,
    pub chats: Vec<&'a Chat>,
}

/// The labels of chats in the order in which they first occur.
pub open spec fn labels_in_order(chats: Seq<Chat>) -> Seq<Seq<char>>
    decreases chats.len(),
{
    if chats.len() == 0 {
        Seq::empty()
    } else {
        let before = labels_in_order(chats.drop_last());
        if before.contains(chat_label(chats.last())) {
            before
        } else {
            before.push(chat_label(chats.last()))
        }
    }
}

/// The chats with a label, in their order.
pub open spec fn labelled(chats: Seq<Chat>, label: Seq<char>) -> Seq<Chat> {
    chats.filter(|c: Chat| chat_label(c) == label)
}

/// The sections of a list of chats: one per label in the order of first occurrence, each with the
/// chats of that label in their order.
pub open spec fn grouped(groups: Seq<ChatGroup<'_>>, chats: Seq<Chat>) -> bool {
    let labels = labels_in_order(chats);
    &&& groups.len() == labels.len()
    &&& forall|i: int|
        0 <= i < groups.len() ==> (#[trigger] groups[i]).label@ == labels[i] && pointees(
            groups[i].chats@,
        ) == labelled(chats, labels[i])
}

/// Every label occurs once, and exactly the labels of the chats occur.
pub proof fn labels_are_distinct(chats: Seq<Chat>)
    ensures
        labels_in_order(chats).no_duplicates(),
        forall|l: Seq<char>|
            labels_in_order(chats).contains(l) <==> exists|k: int|
                0 <= k < chats.len() && chat_label(#[trigger] chats[k]) == l,
    decreases chats.len(),
{
    if chats.len() > 0 {
        let front = chats.drop_last();
        let before = labels_in_order(front);
        let all = labels_in_order(chats);
        let last = chat_label(chats.last());
        labels_are_distinct(front);
        assert forall|l: Seq<char>| all.contains(l) <==> exists|k: int|
            0 <= k < chats.len() && chat_label(#[trigger] chats[k]) == l by {
            if all.contains(l) {
                if before.contains(l) {
                    let k = choose|k: int| 0 <= k < front.len() && chat_label(#[trigger] front[k]) == l;
                    assert(chat_label(chats[k]) == l);
                } else {
                    assert(chat_label(chats[chats.len() - 1]) == l);
                }
            }
            if exists|k: int| 0 <= k < chats.len() && chat_label(#[trigger] chats[k]) == l {
                let k = choose|k: int| 0 <= k < chats.len() && chat_label(#[trigger] chats[k]) == l;
                if k < front.len() {
                    assert(chat_label(front[k]) == l);
                    assert(before.contains(l));
                    let m = choose|m: int| 0 <= m < before.len() && before[m] == l;
                    assert(all[m] == l);
                } else if before.contains(last) {
                    let m = choose|m: int| 0 <= m < before.len() && before[m] == l;
                    assert(all[m] == l);
                } else {
                    assert(all[before.len() as int] == l);
                }
            }
        }
    }
}

proof fn empty_label_group(chats: Seq<Chat>, label: Seq<char>)
    requires
        !labels_in_order(chats).contains(label),
    ensures
        labelled(chats, label) == Seq::<Chat>::empty(),
{
    labels_are_distinct(chats);
    let p = |c: Chat| chat_label(c) == label;
    if labelled(chats, label).len() > 0 {
        let x = labelled(chats, label)[0];
        chats.lemma_filter_contains_rev(p, x);
    }
    assert(labelled(chats, label) =~= Seq::<Chat>::empty());
}

/// Groups chats by project label, keeping the incoming order both for groups (by their first chat)
/// and for the rows within a group.
pub fn group_chats<'a>(chats: &[&'a Chat]) -> (groups: Vec<ChatGroup<'a>>)
    ensures
        grouped(groups@, pointees(chats@)),
{
    let mut groups: Vec<ChatGroup<'a>> = Vec::new();
    let mut i: usize = 0;
    let ghost all = pointees(chats@);
    proof {
        assert(all.take(0) =~= Seq::<Chat>::empty());
    }
    while i < chats.len()
        invariant
            i <= chats.len(),
            all == pointees(chats@),
            grouped(groups@, all.take(i as int)),
        decreases chats.len() - i,
    {
        let chat = chats[i];
        let label = label_chat(chat);
        let ghost p = |g: ChatGroup<'a>| g.label@ == label@;
        let same_label = |g: &ChatGroup<'a>| -> (b: bool)
            ensures
                b == p(*g),
            { text::same(g.label.as_str(), label.as_str()) };
        let ghost old_groups = groups@;
        let ghost front = all.take(i as int);
        let ghost next = all.take(i + 1);
        let ghost labels = labels_in_order(front);
        proof {
            assert(next.drop_last() =~= front);
            assert(next =~= front.push(*chat));
            assert forall|l: Seq<char>| #[trigger]
                labelled(next, l) == (if chat_label(*chat) == l {
                    labelled(front, l).push(*chat)
                } else {
                    labelled(front, l)
                }) by {
                front.lemma_filter_push(*chat, |c: Chat| chat_label(c) == l);
            }
            labels_are_distinct(front);
        }
        match lists::position(&groups, same_label, Ghost(p)) {
            Some(at) => {
                proof {
                    assert(labels[at as int] == label@);
                    assert(labels.contains(label@));
                }
                let mut group = groups.remove(at);
                let ghost before = group.chats@;
                group.chats.push(chat);
                proof {
                    assert(pointees(group.chats@) =~= pointees(before).push(*chat));
                    assert(group.label == old_groups[at as int].label);
                }
                groups.insert(at, group);
                proof {
                    assert(groups@.len() == old_groups.len());
                    assert forall|k: int| 0 <= k < groups@.len() implies (
                    #[trigger] groups@[k]).label@ == labels[k] && pointees(groups@[k].chats@)
                        == labelled(next, labels[k]) by {
                        if k == at {
                            assert(groups@[k].chats@ == group.chats@);
                        } else {
                            assert(groups@[k] == old_groups[k]);
                            assert(labels[k] != labels[at as int]);
                        }
                    }
                }
            },
            None => {
                proof {
                    search_meaning(old_groups, p);
                    assert forall|k: int| 0 <= k < labels.len() implies labels[k] != label@ by {
                        assert(!p(old_groups[k]));
                    }
                    assert(!labels.contains(label@));
                    empty_label_group(front, label@);
                }
                let ghost text = label@;
                let mut rows: Vec<&'a Chat> = Vec::new();
                rows.push(chat);
                proof {
                    assert(pointees(rows@) =~= Seq::<Chat>::empty().push(*chat));
                }
                groups.push(ChatGroup { label, chats: rows });
                proof {
                    let now = labels_in_order(next);
                    assert(now == labels.push(text));
                    assert forall|k: int| 0 <= k < groups@.len() implies (
                    #[trigger] groups@[k]).label@ == now[k] && pointees(groups@[k].chats@)
                        == labelled(next, now[k]) by {
                        if k < old_groups.len() {
                            assert(groups@[k] == old_groups[k]);
                        }
                    }
                }
            },
        }
        i = i + 1;
    }
    proof {
        assert(all.take(i as int) =~= all);
    }
    groups
}

/// Whole seconds since an instant; an instant in the future counts as now.
pub open spec fn age_seconds(then: Timestamp, now: Timestamp) -> int {
    seconds_between(then@, now@)
}

/// Whole seconds between two instants in nanoseconds; an instant in the future counts as now.
pub open spec fn seconds_between(then: int, now: int) -> int {
    let s = truncated_div(now - then, 1_000_000_000);
    if s > 0 {
        s
    } else {
        0
    }
}

/// A count with its unit.
pub open spec fn with_unit(n: int, unit: Seq<char>) -> Seq<char> {
    decimal_text(n as nat) + unit
}

/// The compact text of an age in seconds.
pub open spec fn age_text(s: int) -> Seq<char> {
    let m = s / 60;
    let h = m / 60;
    let d = h / 24;
    if s < 60 {
        "now"@
    } else if m < 60 {
        with_unit(m, "m"@)
    } else if h < 24 {
        with_unit(h, "h"@)
    } else if d < 7 {
        with_unit(d, "d"@)
    } else if d / 7 < 5 {
        with_unit(d / 7, "w"@)
    } else if d / 30 < 12 {
        with_unit(d / 30, "mo"@)
    } else {
        with_unit(d / 365, "y"@)
    }
}

fn counted(n: u64, unit: &str) -> (r: String)
    ensures
        r@ == with_unit(n as int, unit@),
{
    let digits = text::decimal(n);
    text::joined(digits.as_str(), unit)
}

/// Compact relative time ("now", "5m", "3h", "2d", "1w", ..).
pub fn format_time_ago(then: Timestamp, now: Timestamp) -> (r: String)
    ensures
        r@ == age_text(age_seconds(then, now)),
{
    let raw: i128 = now.seconds_since(&then);
    let s: i128 = if raw > 0 {
        raw
    } else {
        0
    };
    if s < 60 {
        return "now".to_owned();
    }
    let m: i128 = s / 60;
    if m < 60 {
        return counted(m as u64, "m");
    }
    let h: i128 = m / 60;
    if h < 24 {
        return counted(h as u64, "h");
    }
    let d: i128 = h / 24;
    if d < 7 {
        return counted(d as u64, "d");
    }
    let w: i128 = d / 7;
    if w < 5 {
        return counted(w as u64, "w");
    }
    let mo: i128 = d / 30;
    if mo < 12 {
        return counted(mo as u64, "mo");
    }
    counted((d / 365) as u64, "y")
}

/// A text without surrounding whitespace, where that leaves something.
pub open spec fn filled(s: Option<String>) -> Option<Seq<char>> {
    match s {
        Some(t) => if trimmed(t@).len() > 0 {
            Some(trimmed(t@))
        } else {
            None
        },
        None => None,
    }
}

/// The sub-line of a session row.
pub open spec fn location_of(chat: Chat) -> Option<Seq<char>> {
    match (filled(chat.cwd), filled(chat.branch)) {
        (Some(c), Some(b)) => Some(label_of(Some(c)) + " · "@ + b),
        (Some(c), None) => Some(label_of(Some(c))),
        (None, Some(b)) => Some(b),
        (None, None) => None,
    }
}

/// A text without surrounding whitespace, where that leaves something.
pub(crate) fn fill(s: &Option<String>) -> (r: Option<String>)
    ensures
        text_opt(r) == filled(*s),
{
    match s {
        Some(t) => {
            let t = text::trim(t.as_str());
            if text::empty(t.as_str()) {
                None
            } else {
                Some(t)
            }
        },
        None => None,
    }
}

/// Session-row sub-line, "project · branch". Either part may be missing; nothing when both are.
pub fn chat_location(chat: &Chat) -> (r: Option<String>)
    ensures
        text_opt(r) == location_of(*chat),
{
    let project = match fill(&chat.cwd) {
        Some(c) => Some(project_label(Some(c.as_str()))),
        None => None,
    };
    match (project, fill(&chat.branch)) {
        (Some(p), Some(b)) => Some(text::joined3(p.as_str(), " · ", b.as_str())),
        (Some(p), None) => Some(p),
        (None, Some(b)) => Some(b),
        (None, None) => None,
    }
}

} // verus!
