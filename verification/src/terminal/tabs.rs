//! Tab arithmetic, titles and the encodings of the terminal protocol.

use crate::project::{last_at, last_at_meaning};
use crate::text;
use crate::text::{decimal_text, trimmed};
use base64::Engine as _;
use vstd::prelude::*;
use vstd::utf8::encode_utf8;

verus! {

// ---------------------------------------------------------------------------
// Backoff
// ---------------------------------------------------------------------------

/// Reconnect delay: 500 ms, doubled with every attempt up to 8 s.
pub open spec fn backoff_at(attempt: nat) -> nat
    decreases attempt,
{
    if attempt == 0 {
        500
    } else if 2 * backoff_at((attempt - 1) as nat) <= 8_000 {
        2 * backoff_at((attempt - 1) as nat)
    } else {
        8_000
    }
}

/// The delay never falls and stays between its bounds.
pub proof fn backoff_is_bounded(attempt: nat)
    ensures
        500 <= backoff_at(attempt) <= 8_000,
        backoff_at(attempt) <= backoff_at(attempt + 1),
        attempt >= 4 ==> backoff_at(attempt) == 8_000,
    decreases attempt,
{
    if attempt > 0 {
        backoff_is_bounded((attempt - 1) as nat);
    }
    reveal_with_fuel(backoff_at, 6);
}

/// Reconnect delay in milliseconds.
pub fn backoff_ms(attempt: u32) -> (ms: u64)
    ensures
        ms == backoff_at(attempt as nat),
{
    proof {
        backoff_is_bounded(attempt as nat);
        reveal_with_fuel(backoff_at, 6);
    }
    if attempt == 0 {
        500
    } else if attempt == 1 {
        1_000
    } else if attempt == 2 {
        2_000
    } else if attempt == 3 {
        4_000
    } else {
        8_000
    }
}

// ---------------------------------------------------------------------------
// Tab order
// ---------------------------------------------------------------------------

/// A sequence with the value at `from` moved to `to`; indices outside leave it.
pub open spec fn moved<T>(s: Seq<T>, from: int, to: int) -> Seq<T> {
    if 0 <= from < s.len() && 0 <= to < s.len() {
        s.remove(from).insert(to, s[from])
    } else {
        s
    }
}

/// Moves a tab from `from` to `to`.
pub fn reorder_tabs<T>(tabs: &mut Vec<T>, from: usize, to: usize)
    ensures
        final(tabs)@ == moved(old(tabs)@, from as int, to as int),
{
    if from >= tabs.len() || to >= tabs.len() || from == to {
        proof {
            if from < tabs.len() && from == to {
                assert(moved(tabs@, from as int, to as int) =~= tabs@);
            }
        }
        return;
    }
    let tab = tabs.remove(from);
    tabs.insert(to, tab);
}

/// Moving a tab keeps the same tabs, and moving it back restores the order.
pub proof fn reordering_keeps_tabs<T>(s: Seq<T>, from: int, to: int)
    ensures
        moved(s, from, to).to_multiset() == s.to_multiset(),
        moved(s, from, to).len() == s.len(),
        moved(moved(s, from, to), to, from) == s,
{
    if 0 <= from < s.len() && 0 <= to < s.len() {
        let x = s[from];
        vstd::seq_lib::to_multiset_remove(s, from);
        vstd::seq_lib::to_multiset_insert(s.remove(from), to, x);
        assert(s.to_multiset().count(x) > 0) by {
            vstd::seq_lib::to_multiset_contains(s, x);
            assert(s.contains(x));
        }
        assert(s.to_multiset().remove(x).insert(x) =~= s.to_multiset());
        assert(moved(moved(s, from, to), to, from) =~= s);
    }
}

/// How many slots a tab slides while the tab at `from` is dragged over `over`: the tabs between the two
/// move one slot toward the gap.
pub open spec fn slide_of(ix: int, from: int, over: int) -> int {
    if from < ix <= over {
        -1
    } else if over <= ix < from {
        1
    } else {
        0
    }
}

/// Sliding transform, in tab widths, for tab `ix` while `from` is dragged over `over`.
pub fn slide_offset(ix: usize, from: usize, over: usize) -> (r: i32)
    ensures
        r == slide_of(ix as int, from as int, over as int),
{
    if from < over && ix > from && ix <= over {
        -1
    } else if over < from && ix >= over && ix < from {
        1
    } else {
        0
    }
}

/// A tab that slides lands where the finished move puts it.
pub proof fn slide_shows_the_move<T>(s: Seq<T>, ix: int, from: int, over: int)
    requires
        0 <= ix < s.len(),
        0 <= from < s.len(),
        0 <= over < s.len(),
        ix != from,
    ensures
        0 <= ix + slide_of(ix, from, over) < s.len(),
        moved(s, from, over)[ix + slide_of(ix, from, over)] == s[ix],
{
}

/// Where the active tab stands after a move.
pub open spec fn active_moved(active: int, from: int, to: int) -> int {
    if active == from {
        to
    } else if from < active <= to {
        active - 1
    } else if to <= active < from {
        active + 1
    } else {
        active
    }
}

/// Active index after a reorder commit.
pub fn active_after_reorder(active: usize, from: usize, to: usize) -> (r: usize)
    ensures
        r == active_moved(active as int, from as int, to as int),
{
    if active == from {
        to
    } else if from < active && to >= active {
        active - 1
    } else if from > active && to <= active {
        active + 1
    } else {
        active
    }
}

/// A move keeps the same tab active.
pub proof fn reorder_keeps_active_tab<T>(s: Seq<T>, active: int, from: int, to: int)
    requires
        0 <= active < s.len(),
        0 <= from < s.len(),
        0 <= to < s.len(),
    ensures
        0 <= active_moved(active, from, to) < s.len(),
        moved(s, from, to)[active_moved(active, from, to)] == s[active],
{
}

/// Where the active tab stands after a tab was closed: it keeps its tab, and where that was the closed
/// one the next tab, or the last one.
pub open spec fn active_closed(active: int, closed: int, len_after: int) -> int {
    let shifted = if closed < active {
        active - 1
    } else {
        active
    };
    if len_after == 0 {
        0
    } else if shifted > len_after - 1 {
        len_after - 1
    } else {
        shifted
    }
}

/// Active index after closing `closed`, given the new length.
pub fn active_after_close(active: usize, closed: usize, len_after: usize) -> (r: usize)
    ensures
        r == active_closed(active as int, closed as int, len_after as int),
{
    let shifted: usize = if closed < active {
        active - 1
    } else {
        active
    };
    if len_after == 0 {
        0
    } else if shifted > len_after - 1 {
        len_after - 1
    } else {
        shifted
    }
}

/// Closing another tab keeps the same tab active, and closing the active one leaves an active tab
/// while any is left.
pub proof fn close_keeps_active_tab<T>(s: Seq<T>, active: int, closed: int)
    requires
        0 <= active < s.len(),
        0 <= closed < s.len(),
    ensures
        s.len() > 1 ==> 0 <= active_closed(active, closed, s.len() - 1) < s.len() - 1,
        closed != active ==> s.remove(closed)[active_closed(active, closed, s.len() - 1)]
            == s[active],
{
}

// ---------------------------------------------------------------------------
// Texts
// ---------------------------------------------------------------------------

/// A number with its sign, in decimal.
pub open spec fn signed_text(n: int) -> Seq<char> {
    if n < 0 {
        "-"@ + decimal_text((-n) as nat)
    } else {
        decimal_text(n as nat)
    }
}

fn signed(n: i32) -> (r: String)
    ensures
        r@ == signed_text(n as int),
{
    if n < 0 {
        let digits = text::decimal((-(n as i64)) as u64);
        text::joined("-", digits.as_str())
    } else {
        text::decimal(n as u64)
    }
}

/// The trailer of a process that exited, dimmed.
pub open spec fn exit_text(code: int) -> Seq<char> {
    "\r\n\x1b[90m[process exited "@ + signed_text(code) + "]\x1b[0m\r\n"@
}

/// The bytes of the trailer of a process that exited.
pub fn exit_message(code: i32) -> (bytes: Vec<u8>)
    ensures
        bytes@ == encode_utf8(exit_text(code as int)),
{
    let number = signed(code);
    let message = text::joined3(
        "\r\n\x1b[90m[process exited ",
        number.as_str(),
        "]\x1b[0m\r\n",
    );
    message.as_str().as_bytes_vec()
}

/// The notice of a terminal that could not be opened.
pub open spec fn open_failed_text(error: Seq<char>) -> Seq<char> {
    "\x1b[31mfailed to open terminal: "@ + error + "\x1b[0m\r\n"@
}

/// The bytes of the notice of a terminal that could not be opened.
pub fn open_failed_message(error: &str) -> (bytes: Vec<u8>)
    ensures
        bytes@ == encode_utf8(open_failed_text(error@)),
{
    let message = text::joined3(
        "\x1b[31mfailed to open terminal: ",
        error,
        "\x1b[0m\r\n",
    );
    message.as_str().as_bytes_vec()
}

/// The larger of two numbers.
pub open spec fn larger(a: int, b: int) -> int {
    if a < b {
        b
    } else {
        a
    }
}

/// What follows the last path separator, of either kind.
pub open spec fn after_separators(s: Seq<char>) -> Seq<char> {
    s.skip(larger(last_at(s, '/'), last_at(s, '\\')) + 1)
}

/// The title of a shell: its file name, or "terminal" where that is blank.
pub open spec fn title_of_shell(shell: Seq<char>) -> Seq<char> {
    let name = trimmed(after_separators(shell));
    if name.len() == 0 {
        "terminal"@
    } else {
        name
    }
}

/// Tab title from the session's shell path.
pub fn shell_title(shell: &str) -> (title: String)
    ensures
        title@ == title_of_shell(shell@),
{
    let chars = text::chars_of(shell);
    let mut at: usize = chars.len();
    while at > 0 && chars[at - 1] != '/' && chars[at - 1] != '\\'
        invariant
            at <= chars.len(),
            forall|k: int|
                at <= k < chars.len() ==> chars@[k] != '/' && chars@[k] != '\\',
        decreases at,
    {
        at = at - 1;
    }
    proof {
        last_at_meaning(shell@, '/');
        last_at_meaning(shell@, '\\');
        assert(larger(last_at(shell@, '/'), last_at(shell@, '\\')) == at - 1);
        assert(chars@.subrange(at as int, chars.len() as int) =~= after_separators(shell@));
    }
    let last = text::string_of(&chars, at, chars.len());
    let name = text::trim(last.as_str());
    if text::empty(name.as_str()) {
        "terminal".to_owned()
    } else {
        name
    }
}

/// The title of the n-th new tab.
pub open spec fn numbered_title(n: nat) -> Seq<char> {
    "Terminal "@ + decimal_text(n)
}

/// The title of the n-th new tab.
pub fn new_tab_title(n: usize) -> (title: String)
    ensures
        title@ == numbered_title(n as nat),
{
    let digits = text::decimal(n as u64);
    text::joined("Terminal ", digits.as_str())
}

// ---------------------------------------------------------------------------
// Base64
// ---------------------------------------------------------------------------

/// What the padded standard engine of `base64` decodes a text to, if it accepts it.
pub uninterp spec fn base64_padded(data: Seq<char>) -> Option<Seq<u8>>;

/// What the unpadded standard engine of `base64` decodes a text to, if it accepts it.
pub uninterp spec fn base64_unpadded(data: Seq<char>) -> Option<Seq<u8>>;

/// What the padded standard engine of `base64` encodes bytes to.
pub uninterp spec fn base64_encoded(bytes: Seq<u8>) -> Seq<char>;

/// Optional bytes.
pub open spec fn bytes_opt(bytes: Option<Vec<u8>>) -> Option<Seq<u8>> {
    match bytes {
        Some(b) => Some(b@),
        None => None,
    }
}

/// `Engine::decode` of `base64` with the standard alphabet and required padding.
#[verifier::external_body]
fn decode_padded(data: &str) -> (r: Option<Vec<u8>>)
    ensures
        bytes_opt(r) == base64_padded(data@),
{
    base64::engine::general_purpose::STANDARD.decode(data).ok()
}

/// `Engine::decode` of `base64` with the standard alphabet and no padding.
#[verifier::external_body]
fn decode_unpadded(data: &str) -> (r: Option<Vec<u8>>)
    ensures
        bytes_opt(r) == base64_unpadded(data@),
{
    base64::engine::general_purpose::STANDARD_NO_PAD.decode(data).ok()
}

/// `Engine::encode` of `base64` with the standard alphabet and padding: what it writes, the same engine
/// decodes to the bytes again.
#[verifier::external_body]
fn encode_padded(bytes: &[u8]) -> (r: String)
    ensures
        r@ == base64_encoded(bytes@),
        base64_padded(r@) == Some(bytes@),
{
    base64::engine::general_purpose::STANDARD.encode(bytes)
}

/// The bytes that count, of two ways to decode: the first that succeeded, or none at all.
pub open spec fn first_decoded(padded: Option<Seq<u8>>, unpadded: Option<Seq<u8>>) -> Seq<u8> {
    match padded {
        Some(bytes) => bytes,
        None => match unpadded {
            Some(bytes) => bytes,
            None => Seq::empty(),
        },
    }
}

/// Picks the bytes of two ways to decode.
pub fn pick_decoded(padded: Option<Vec<u8>>, unpadded: Option<Vec<u8>>) -> (bytes: Vec<u8>)
    ensures
        bytes@ == first_decoded(bytes_opt(padded), bytes_opt(unpadded)),
{
    match padded {
        Some(bytes) => bytes,
        None => match unpadded {
            Some(bytes) => bytes,
            None => Vec::new(),
        },
    }
}

/// Decodes a data frame, with or without padding; a frame that cannot be decoded holds nothing.
pub fn decode_base64(data: &str) -> (bytes: Vec<u8>)
    ensures
        bytes@ == first_decoded(base64_padded(data@), base64_unpadded(data@)),
{
    let padded = decode_padded(data);
    let unpadded = if padded.is_some() {
        None
    } else {
        decode_unpadded(data)
    };
    pick_decoded(padded, unpadded)
}

/// Encodes bytes for the wire; decoding gives them back.
pub fn encode_base64(bytes: &[u8]) -> (data: String)
    ensures
        data@ == base64_encoded(bytes@),
        first_decoded(base64_padded(data@), base64_unpadded(data@)) == bytes@,
{
    encode_padded(bytes)
}

} // verus!
