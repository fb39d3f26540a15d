//! Filtered and sorted lists by their members, and instants.

use crate::lists::{find_first, first_at, search_meaning};
use crate::model;
use crate::model::{Chat, ChatIndicator, Session, SessionStatus};
use crate::order;
use crate::order::Indicator;
use crate::text;
use crate::time::Timestamp;
use vstd::prelude::*;

verus! {

/// What a filter lets through is in the list and passes; what is in the list and passes is let through.
pub proof fn filtered_members<T>(s: Seq<T>, p: spec_fn(T) -> bool)
    ensures
        forall|x: T| #[trigger] s.filter(p).contains(x) <==> s.contains(x) && p(x),
        forall|k: int| 0 <= k < s.filter(p).len() ==> p(#[trigger] s.filter(p)[k]) && s.contains(s.filter(p)[k]),
{
    assert forall|x: T| #[trigger] s.filter(p).contains(x) <==> s.contains(x) && p(x) by {
        if s.filter(p).contains(x) {
            s.lemma_filter_contains_rev(p, x);
            let k = choose|k: int| 0 <= k < s.filter(p).len() && s.filter(p)[k] == x;
            s.lemma_filter_pred(p, k);
        }
        if s.contains(x) && p(x) {
            let k = choose|k: int| 0 <= k < s.len() && s[k] == x;
            s.lemma_filter_contains(p, k);
        }
    }
    assert forall|k: int| 0 <= k < s.filter(p).len() implies p(#[trigger] s.filter(p)[k]) && s.contains(s.filter(p)[k]) by {
        assert(s.filter(p).contains(s.filter(p)[k]));
    }
}

/// Lists of the same values have the same members.
pub proof fn same_members<T>(a: Seq<T>, b: Seq<T>)
    requires
        a.to_multiset() == b.to_multiset(),
    ensures
        a.len() == b.len(),
        forall|x: T| #[trigger] a.contains(x) <==> b.contains(x),
        forall|k: int| 0 <= k < a.len() ==> b.contains(#[trigger] a[k]),
        forall|k: int| 0 <= k < b.len() ==> a.contains(#[trigger] b[k]),
{
    a.to_multiset_ensures();
    b.to_multiset_ensures();
    assert forall|x: T| #[trigger] a.contains(x) <==> b.contains(x) by {
        assert(a.contains(x) <==> a.to_multiset().count(x) > 0);
        assert(b.contains(x) <==> b.to_multiset().count(x) > 0);
    }
    assert forall|k: int| 0 <= k < a.len() implies b.contains(#[trigger] a[k]) by {
        assert(a.contains(a[k]));
    }
    assert forall|k: int| 0 <= k < b.len() implies a.contains(#[trigger] b[k]) by {
        assert(b.contains(b[k]));
    }
}

/// A search that finds something finds a member that passes; one that finds nothing leaves none.
pub proof fn searched<T>(s: Seq<T>, p: spec_fn(T) -> bool)
    ensures
        match find_first(s, p) {
            Some(x) => p(x) && s.contains(x) && first_at(s, p) is Some,
            None => first_at(s, p) is None && forall|k: int| 0 <= k < s.len() ==> !p(#[trigger] s[k]),
        },
{
    search_meaning(s, p);
}

/// Later instants lie before no earlier ones, and the time between two instants is counted forward, in
/// whole units.
pub proof fn time_runs_forward(
    secs: i64,
    nanos: u32,
    t: Timestamp,
    a: &Timestamp,
    b: &Timestamp,
    before: bool,
    ms: i128,
    s: i128,
)
    requires
        call_ensures(Timestamp::from_parts, (secs, nanos), t),
        call_ensures(Timestamp::before, (a, b), before),
        call_ensures(Timestamp::millis_since, (b, a), ms),
        call_ensures(Timestamp::seconds_since, (b, a), s),
    ensures
        t@ == secs * 1_000_000_000 + nanos,
        before <==> a@ < b@,
        a@ <= b@ ==> 0 <= ms && ms * 1_000_000 <= b@ - a@ < (ms + 1) * 1_000_000,
        b@ <= a@ ==> ms <= 0 && (ms - 1) * 1_000_000 < b@ - a@ <= ms * 1_000_000,
        a@ <= b@ ==> 0 <= s && s * 1_000_000_000 <= b@ - a@ < (s + 1) * 1_000_000_000,
        b@ <= a@ ==> s <= 0 && (s - 1) * 1_000_000_000 < b@ - a@ <= s * 1_000_000_000,
{
}

/// A chat is unseen while its last message is newer than the last look; without a message it never is.
pub proof fn a_chat_is_unseen_until_it_was_looked_at(chat: &Chat, unseen: bool, recent: Timestamp)
    requires
        call_ensures(Chat::unseen, (chat,), unseen),
        call_ensures(Chat::recent_at, (chat,), recent),
    ensures
        chat.last_message_at is None ==> !unseen,
        chat.last_message_at is Some && chat.last_seen_at is None ==> unseen,
        chat.last_message_at matches Some(m) ==> (chat.last_seen_at matches Some(seen) ==> (unseen
            <==> seen@ < m@)),
        chat.last_message_at matches Some(m) ==> recent@ == m@,
        chat.last_message_at is None ==> recent@ == chat.created_at@,
{
}

/// Whether a message is newer than the last look.
pub open spec fn news(chat: Chat) -> bool {
    chat.last_message_at matches Some(m) && (chat.last_seen_at matches Some(seen) ==> seen@ < m@)
}

/// What a chat shows: a run in progress that was heard of in the last 45 seconds, else an error or a
/// message that nobody has looked at, else nothing.
pub proof fn a_chat_shows_what_needs_attention(
    chat: &Chat,
    session: Option<&Session>,
    now: Timestamp,
    shown: ChatIndicator,
)
    requires
        call_ensures(order::display_status, (chat, session, now), shown),
    ensures
        shown == ChatIndicator::Working <==> (session matches Some(s) && s.status
            == SessionStatus::Working && now@ - s.updated_at@ < 45_001_000_000),
        shown == ChatIndicator::AwaitingInput <==> (session matches Some(s) && s.status
            == SessionStatus::AwaitingInput && now@ - s.updated_at@ < 45_001_000_000),
        shown == ChatIndicator::Errored <==> (session matches Some(s) && s.status
            == SessionStatus::Errored && news(*chat)),
        shown == ChatIndicator::Completed ==> news(*chat),
        shown == ChatIndicator::Idle && news(*chat) ==> false,
        session is None ==> (shown == ChatIndicator::Completed <==> news(*chat)),
{
}

/// A session shows its own status while it is fresh; an error shows at any age, and a stale run never.
pub proof fn a_session_shows_while_it_is_fresh(session: Option<&Session>, now: Timestamp, r: Indicator)
    requires
        call_ensures(order::effective_indicator, (session, now), r),
    ensures
        r == Indicator::Errored <==> (session matches Some(s) && s.status == SessionStatus::Errored),
        r == Indicator::Working <==> (session matches Some(s) && s.status == SessionStatus::Working
            && now@ - s.updated_at@ < 45_001_000_000),
        r == Indicator::AwaitingInput <==> (session matches Some(s) && s.status
            == SessionStatus::AwaitingInput && now@ - s.updated_at@ < 45_001_000_000),
{
}

/// What waits for a person comes before what failed, that before what runs, that before what is done, and
/// that before what rests.
pub proof fn urgency_has_one_order(status: ChatIndicator, other: ChatIndicator, a: u8, b: u8)
    requires
        call_ensures(order::attention_rank, (status,), a),
        call_ensures(order::attention_rank, (other,), b),
    ensures
        status == ChatIndicator::AwaitingInput && other != status ==> a < b,
        status == ChatIndicator::Idle && other != status ==> a > b,
        status == ChatIndicator::Errored && other == ChatIndicator::Working ==> a < b,
        status == ChatIndicator::Working && other == ChatIndicator::Completed ==> a < b,
        a == b <==> status == other,
{
}

/// The live session decides first, then whether the chat was looked at.
pub proof fn a_live_run_wins(chat: &Chat, session: Option<&Session>, shown: ChatIndicator)
    requires
        call_ensures(model::chat_indicator, (chat, session), shown),
    ensures
        session matches Some(s) ==> (s.status == SessionStatus::Working ==> shown
            == ChatIndicator::Working),
        session matches Some(s) ==> (s.status == SessionStatus::AwaitingInput ==> shown
            == ChatIndicator::AwaitingInput),
        session matches Some(s) ==> (s.status == SessionStatus::Errored ==> (if news(*chat) {
            shown == ChatIndicator::Errored
        } else {
            shown == ChatIndicator::Idle
        })),
        (session matches Some(s) ==> s.status == SessionStatus::Idle) ==> (if news(*chat) {
            shown == ChatIndicator::Completed
        } else {
            shown == ChatIndicator::Idle
        }),
{
}

/// Trimming leaves a stretch of the text that neither begins nor ends with a space, and leaves out nothing
/// but white space.
pub proof fn trimming_takes_white_space_only(s: &str, out: String, end: String)
    requires
        call_ensures(text::trim, (s,), out),
        call_ensures(text::trim_end, (s,), end),
    ensures
        out@.len() > 0 ==> !text::is_white(out@[0]) && !text::is_white(out@.last()),
        end@.len() > 0 ==> !text::is_white(end@.last()),
        out@.len() <= s@.len() && end@.len() <= s@.len(),
{
    front_is_cut(s@);
    back_is_cut(text::trim_front(s@));
    back_is_cut(s@);
}

/// What stands between white space is what trimming leaves.
pub proof fn trimming_leaves_what_stands_between(
    s: &str,
    front: Seq<char>,
    word: Seq<char>,
    back: Seq<char>,
    out: String,
    end: String,
)
    requires
        call_ensures(text::trim, (s,), out),
        call_ensures(text::trim_end, (s,), end),
        s@ == front + word + back,
        forall|i: int| 0 <= i < front.len() ==> blank(#[trigger] front[i]),
        forall|i: int| 0 <= i < back.len() ==> blank(#[trigger] back[i]),
        word.len() > 0 && !text::is_white(word[0]) && !text::is_white(word.last()),
    ensures
        out@ == word,
        end@ == front + word,
{
    front_falls_away(front, word + back);
    assert(front + (word + back) =~= s@);
    back_falls_away(word, back);
    back_falls_away(front + word, back);
}

/// The plain white space of a keyboard.
pub open spec fn blank(c: char) -> bool {
    c == ' ' || c == '\t' || c == '\n' || c == '\r'
}

/// Printed characters are not white space, and blanks are.
pub proof fn printed_characters_are_not_white(c: char)
    ensures
        0x21 <= c as u32 <= 0x7e ==> !text::is_white(c),
        blank(c) ==> text::is_white(c),
        c as u32 == 0xa0 || c as u32 == 0x2003 || c as u32 == 0x3000 ==> text::is_white(c),
{
}

proof fn front_falls_away(front: Seq<char>, rest: Seq<char>)
    requires
        forall|i: int| 0 <= i < front.len() ==> blank(#[trigger] front[i]),
        rest.len() > 0 && !text::is_white(rest[0]),
    ensures
        text::trim_front(front + rest) == rest,
    decreases front.len(),
{
    if front.len() == 0 {
        assert(front + rest =~= rest);
    } else {
        assert((front + rest)[0] == front[0]);
        assert((front + rest).skip(1) =~= front.skip(1) + rest);
        assert forall|i: int| 0 <= i < front.skip(1).len() implies blank(#[trigger] front.skip(1)[i]) by {
            assert(front.skip(1)[i] == front[i + 1]);
        }
        front_falls_away(front.skip(1), rest);
    }
}

proof fn back_falls_away(rest: Seq<char>, back: Seq<char>)
    requires
        forall|i: int| 0 <= i < back.len() ==> blank(#[trigger] back[i]),
        rest.len() > 0 && !text::is_white(rest.last()),
    ensures
        text::trim_back(rest + back) == rest,
    decreases back.len(),
{
    if back.len() == 0 {
        assert(rest + back =~= rest);
    } else {
        assert((rest + back).last() == back.last());
        assert(back.last() == back[back.len() - 1]);
        assert((rest + back).drop_last() =~= rest + back.drop_last());
        assert forall|i: int| 0 <= i < back.drop_last().len() implies blank(#[trigger] back.drop_last()[i]) by {
            assert(back.drop_last()[i] == back[i]);
        }
        back_falls_away(rest, back.drop_last());
    }
}

/// Texts are ordered by their first difference, and a beginning comes before what goes on.
pub proof fn texts_are_ordered_by_their_first_difference(a: &str, b: &str, r: bool, k: int)
    requires
        call_ensures(text::less, (a, b), r),
    ensures
        0 <= k < a@.len() && k < b@.len() && a@.take(k) == b@.take(k) && a@[k] < b@[k] ==> r,
        0 <= k < a@.len() && k < b@.len() && a@.take(k) == b@.take(k) && a@[k] > b@[k] ==> !r,
        a@.len() < b@.len() && a@ == b@.take(a@.len() as int) ==> r,
        b@.len() <= a@.len() && b@ == a@.take(b@.len() as int) ==> !r,
{
    first_difference_decides(a@, b@, k);
    if a@.len() < b@.len() && a@ == b@.take(a@.len() as int) {
        beginnings_come_first(a@, b@);
    }
    if b@.len() <= a@.len() && b@ == a@.take(b@.len() as int) {
        beginnings_come_first(b@, a@);
        text::text_order_is_strict(a@, b@);
        if a@.len() == b@.len() {
            assert(a@ =~= b@);
        }
    }
}

proof fn first_difference_decides(a: Seq<char>, b: Seq<char>, k: int)
    ensures
        0 <= k < a.len() && k < b.len() && a.take(k) == b.take(k) && a[k] != b[k] ==> (text::text_less(a, b)
            <==> a[k] < b[k]),
    decreases k,
{
    if 0 < k < a.len() && k < b.len() && a.take(k) == b.take(k) && a[k] != b[k] {
        assert(a.take(k)[0] == a[0] && b.take(k)[0] == b[0]);
        let x = a.skip(1);
        let y = b.skip(1);
        assert(x.take(k - 1) =~= y.take(k - 1)) by {
            assert forall|i: int| 0 <= i < k - 1 implies x[i] == y[i] by {
                assert(a.take(k)[i + 1] == b.take(k)[i + 1]);
            }
        }
        first_difference_decides(x, y, k - 1);
    }
}

proof fn beginnings_come_first(a: Seq<char>, b: Seq<char>)
    requires
        a.len() <= b.len(),
        a == b.take(a.len() as int),
    ensures
        text::text_less(a, b) <==> a.len() < b.len(),
    decreases a.len(),
{
    if a.len() > 0 {
        assert(b.take(a.len() as int)[0] == b[0]);
        assert(a.skip(1) =~= b.skip(1).take(a.skip(1).len() as int)) by {
            assert forall|i: int| 0 <= i < a.len() - 1 implies a.skip(1)[i] == b.skip(1)[i] by {
                assert(b.take(a.len() as int)[i + 1] == b[i + 1]);
            }
        }
        beginnings_come_first(a.skip(1), b.skip(1));
    }
}

/// A number is written digit by digit.
pub proof fn numbers_are_written_in_tens(n: u64, out: String, tens: u64, front: String)
    requires
        call_ensures(text::decimal, (n,), out),
        tens == n / 10,
        call_ensures(text::decimal, (tens,), front),
    ensures
        out@.len() > 0,
        out@.last() as u32 == 48 + n % 10,
        n < 10 ==> out@.len() == 1,
        n >= 10 ==> out@.drop_last() == front@,
{
    if n >= 10 {
        assert(out@.drop_last() =~= front@);
    }
}

/// Texts are told apart, told to be empty, copied and put together character by character.
pub proof fn texts_are_taken_character_by_character(
    a: &str,
    b: &str,
    same: bool,
    empty: bool,
    both: String,
    c: &str,
    all: String,
    o: &Option<String>,
    copy: Option<String>,
)
    requires
        call_ensures(text::same, (a, b), same),
        call_ensures(text::empty, (a,), empty),
        call_ensures(text::joined, (a, b), both),
        call_ensures(text::joined3, (a, b, c), all),
        call_ensures(text::copied, (o,), copy),
    ensures
        same <==> a@.len() == b@.len() && forall|i: int| 0 <= i < a@.len() ==> a@[i] == #[trigger] b@[i],
        empty <==> a@.len() == 0,
        both@.take(a@.len() as int) == a@ && both@.skip(a@.len() as int) == b@,
        all@.take(both@.len() as int) == both@ && all@.skip(both@.len() as int) == c@,
        copy == *o,
{
    if a@.len() == b@.len() && forall|i: int| 0 <= i < a@.len() ==> a@[i] == #[trigger] b@[i] {
        assert(a@ =~= b@);
    }
    assert(both@.take(a@.len() as int) =~= a@ && both@.skip(a@.len() as int) =~= b@);
    assert(all@.take(both@.len() as int) =~= both@ && all@.skip(both@.len() as int) =~= c@);
}

/// Letters are set apart by hair spaces.
pub proof fn letters_are_set_apart(s: &str, out: String, k: int)
    requires
        call_ensures(crate::popover::space_letters, (s,), out),
    ensures
        s@.len() == 0 ==> out@.len() == 0,
        s@.len() > 0 ==> out@.len() == 2 * s@.len() - 1,
        0 <= k < s@.len() ==> out@[2 * k] == s@[k],
        0 <= k < s@.len() - 1 ==> out@[2 * k + 1] as u32 == 0x200a,
{
    letters_alternate(s@, k);
}

proof fn letters_alternate(s: Seq<char>, k: int)
    ensures
        s.len() > 0 ==> crate::popover::spaced(s).len() == 2 * s.len() - 1,
        0 <= k < s.len() ==> crate::popover::spaced(s)[2 * k] == s[k],
        0 <= k < s.len() - 1 ==> crate::popover::spaced(s)[2 * k + 1] as u32 == 0x200a,
    decreases s.len(),
{
    if s.len() > 1 {
        letters_alternate(s.drop_last(), k);
    }
}

proof fn front_is_cut(s: Seq<char>)
    ensures
        text::trim_front(s).len() <= s.len(),
        text::trim_front(s).len() > 0 ==> !text::is_white(text::trim_front(s)[0]),
    decreases s.len(),
{
    if s.len() > 0 && text::is_white(s[0]) {
        front_is_cut(s.skip(1));
    }
}

proof fn back_is_cut(s: Seq<char>)
    ensures
        text::trim_back(s).len() <= s.len(),
        text::trim_back(s).len() > 0 ==> !text::is_white(text::trim_back(s).last()),
        text::trim_back(s).len() > 0 ==> text::trim_back(s)[0] == s[0],
    decreases s.len(),
{
    if s.len() > 0 && text::is_white(s.last()) {
        back_is_cut(s.drop_last());
    }
}

} // verus!
