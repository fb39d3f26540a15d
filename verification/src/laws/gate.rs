//! Sign-in, workspaces, project labels and the rail.

use crate::gate;
use crate::gate::{ConnectionStatus, EngineMode, GatePhase, MembershipOrder, OrgRow};
use crate::json::Json;
use crate::laws::ground::{same_members, searched};
use crate::lists::{pointees, search_meaning, search_stops_at};
use crate::model::{AuthState, Chat, MessageRole, SessionMessageEntry};
use crate::project;
use crate::project::ChatGroup;
use crate::rail;
use crate::rail::{RailMark, RailTick};
use crate::sorting::{in_order, stably_sorted, Precedence};
use crate::text;
use crate::text::{decimal_text, lowercase, text_opt};
use crate::time::Timestamp;
use vstd::prelude::*;

verus! {

/// The first member of an object with this name stands here.
pub open spec fn first_member(value: Json, i: int, name: Seq<char>) -> bool {
    value matches Json::Object(members) && 0 <= i < members@.len() && members@[i].0@ == name && (
    forall|k: int| 0 <= k < i ==> (#[trigger] members@[k]).0@ != name)
}

/// A member is found by its name, and the first of a name counts; only objects have members.
pub proof fn members_are_found_by_name(value: &Json, name: &str, r: Option<&Json>, i: int)
    requires
        call_ensures(Json::get, (value, name), r),
    ensures
        first_member(*value, i, name@) ==> (r matches Some(v) && *v == (*value)->Object_0@[i].1),
        !(*value is Object) ==> r is None,
        r is None ==> (*value matches Json::Object(members) ==> forall|k: int|
            0 <= k < members@.len() ==> (#[trigger] members@[k]).0@ != name@),
{
    if *value is Object {
        let members = (*value)->Object_0@;
        let p = |m: (String, Json)| m.0@ == name@;
        searched(members, p);
        if first_member(*value, i, name@) {
            assert(p(members[i]));
            assert forall|k: int| 0 <= k < i implies !p(#[trigger] members[k]) by {
                assert(members[k].0@ != name@);
            }
            search_stops_at(members, p, i);
        }
        if r is None {
            assert forall|k: int| 0 <= k < members.len() implies (#[trigger] members[k]).0@ != name@ by {
                assert(!p(members[k]));
            }
        }
    }
}

/// A member is read as what it is, and as nothing else.
pub proof fn members_are_read_as_what_they_are(
    value: &Json,
    name: &str,
    r: Option<&Json>,
    words: Option<String>,
    plain: String,
    flag: bool,
    number: Option<u64>,
    items: Option<&Vec<Json>>,
)
    requires
        call_ensures(Json::get, (value, name), r),
        call_ensures(Json::get_text, (value, name), words),
        call_ensures(Json::get_text_or_empty, (value, name), plain),
        call_ensures(Json::get_flag, (value, name), flag),
        call_ensures(Json::get_natural, (value, name), number),
        call_ensures(Json::get_array, (value, name), items),
    ensures
        words is Some <==> (r matches Some(v) && *v is Text),
        words matches Some(s) ==> (*r->0 matches Json::Text(t) && t@ == s@ && plain@ == t@),
        words is None ==> plain@.len() == 0,
        flag <==> (r matches Some(v) && *v == Json::Bool(true)),
        number is Some <==> (r matches Some(v) && *v is Natural),
        number matches Some(n) ==> *r->0 == Json::Natural(n),
        items is Some <==> (r matches Some(v) && *v is Array),
        items matches Some(list) ==> (*r->0 matches Json::Array(a) && a@ == list@),
{
}

/// The window waits for the engine, shows why it failed, and asks to sign in or to choose a workspace before
/// it opens.
pub proof fn the_window_opens_when_signed_in(connection: &ConnectionStatus, auth: Option<&AuthState>, r: GatePhase)
    requires
        call_ensures(gate::gate_phase, (connection, auth), r),
    ensures
        *connection is Connecting ==> r == GatePhase::Loading,
        *connection matches ConnectionStatus::Failed(m) ==> r == GatePhase::Failed(m),
        *connection is Ready ==> {
            &&& auth is None ==> r == GatePhase::Ready
            &&& auth matches Some(a) ==> {
                &&& *a is SignedOut ==> r == GatePhase::SignIn
                &&& *a is NeedsOrganization ==> r == GatePhase::OrgGate
                &&& *a is SignedIn ==> r == GatePhase::Ready
            }
        },
{
}

/// A running daemon is used; without one the engine runs inside.
pub proof fn a_running_daemon_is_used(port: u16, listening: bool, mode: EngineMode)
    requires
        call_ensures(gate::engine_mode, (port, listening), mode),
    ensures
        listening ==> (mode matches EngineMode::Remote { url } && url@ == "ws://127.0.0.1:"@ + decimal_text(
            port as nat,
        )),
        !listening ==> mode is InProcess,
{
}

/// A sign-in frame names the user by the members of its `user`, whichever of the two forms it has.
pub proof fn a_frame_names_its_user(
    value: &Json,
    r: Option<AuthState>,
    ku: &str,
    user: Option<&Json>,
    ki: &str,
    id: Option<String>,
    ke: &str,
    email: Option<String>,
    kn: &str,
    name: Option<String>,
    ko: &str,
    org: Option<String>,
)
    requires
        call_ensures(gate::parse_auth_state, (value,), r),
        ku@ == "user"@ && ki@ == "id"@ && ke@ == "email"@ && kn@ == "name"@ && ko@ == "orgId"@,
        call_ensures(Json::get, (value, ku), user),
        user is Some ==> call_ensures(Json::get_text, (user->0, ki), id),
        user is Some ==> call_ensures(Json::get_text, (user->0, ke), email),
        user is Some ==> call_ensures(Json::get_text, (user->0, kn), name),
        call_ensures(Json::get_text, (value, ko), org),
    ensures
        r matches Some(AuthState::SignedIn { user: u, org_id }) ==> user is Some && (id matches Some(s) && s@
            == u.id@) && (email matches Some(s) && s@ == u.email@) && text_opt(u.name) == text_opt(name)
            && text_opt(org_id) == text_opt(org),
        r matches Some(AuthState::NeedsOrganization { user: u }) ==> user is Some && (id matches Some(s) && s@
            == u.id@) && (email matches Some(s) && s@ == u.email@) && text_opt(u.name) == text_opt(name),
{
}

/// A frame that names its user is read as the state that its tag says, in both of its forms.
pub proof fn a_named_user_is_signed_in(
    value: &Json,
    r: Option<AuthState>,
    ks: &str,
    state: Option<String>,
    kt: &str,
    tag: Option<String>,
    ku: &str,
    user: Option<&Json>,
    ki: &str,
    id: Option<String>,
    ke: &str,
    email: Option<String>,
    kn: &str,
    name: Option<&Json>,
    ko: &str,
    org: Option<&Json>,
)
    requires
        call_ensures(gate::parse_auth_state, (value,), r),
        ks@ == "state"@ && kt@ == "_tag"@ && ku@ == "user"@ && ki@ == "id"@ && ke@ == "email"@ && kn@ == "name"@
            && ko@ == "orgId"@,
        call_ensures(Json::get_text, (value, ks), state),
        call_ensures(Json::get_text, (value, kt), tag),
        call_ensures(Json::get, (value, ku), user),
        user is Some,
        call_ensures(Json::get_text, (user->0, ki), id),
        call_ensures(Json::get_text, (user->0, ke), email),
        call_ensures(Json::get, (user->0, kn), name),
        call_ensures(Json::get, (value, ko), org),
    ensures
        ({
            let named = id is Some && email is Some;
            let plain = (name matches Some(n) ==> *n is Text || *n is Null) && (org matches Some(o) ==> *o is Text
                || *o is Null);
            &&& (state matches Some(s) && s@ == "signedIn"@) && named && plain ==> (r matches Some(
                AuthState::SignedIn { .. },
            ))
            &&& (state matches Some(s) && s@ == "needsOrganization"@) && named && plain ==> (r matches Some(
                AuthState::NeedsOrganization { .. },
            ))
            &&& state is None && (tag matches Some(s) && s@ == "SignedIn"@) && named ==> (r matches Some(
                AuthState::SignedIn { .. },
            ))
            &&& state is None && (tag matches Some(s) && s@ == "NeedsOrganization"@) && named ==> (
            r matches Some(AuthState::NeedsOrganization { .. }))
            &&& !named ==> (r is None || r == Some(AuthState::SignedOut))
        }),
{
    reveal_strlit("signedIn");
    reveal_strlit("signedOut");
    reveal_strlit("needsOrganization");
    reveal_strlit("SignedIn");
    reveal_strlit("SignedOut");
    reveal_strlit("NeedsOrganization");
    assert("signedIn"@.len() == 8 && "signedOut"@.len() == 9 && "needsOrganization"@.len() == 17
        && "SignedIn"@.len() == 8 && "SignedOut"@.len() == 9 && "NeedsOrganization"@.len() == 17);
}

/// A frame says by its tag which state it is.
pub proof fn a_frame_says_its_state(
    value: &Json,
    r: Option<AuthState>,
    ks: &str,
    state: Option<String>,
    kt: &str,
    tag: Option<String>,
)
    requires
        call_ensures(gate::parse_auth_state, (value,), r),
        ks@ == "state"@ && kt@ == "_tag"@,
        call_ensures(Json::get_text, (value, ks), state),
        call_ensures(Json::get_text, (value, kt), tag),
    ensures
        (state matches Some(s) && s@ == "signedOut"@) ==> r == Some(AuthState::SignedOut),
        state is None && (tag matches Some(t) && t@ == "SignedOut"@) ==> r == Some(AuthState::SignedOut),
        state is None && tag is None ==> r is None,
        state is None && (r matches Some(AuthState::SignedIn { .. })) ==> (tag matches Some(t) && t@
            == "SignedIn"@),
        state is None && (r matches Some(AuthState::NeedsOrganization { .. })) ==> (tag matches Some(t) && t@
            == "NeedsOrganization"@),
        tag is None && (r matches Some(AuthState::SignedIn { .. })) ==> (state matches Some(s) && s@
            == "signedIn"@),
        tag is None && (r matches Some(AuthState::NeedsOrganization { .. })) ==> (state matches Some(s) && s@
            == "needsOrganization"@),
        tag is None && r == Some(AuthState::SignedOut) ==> (state matches Some(s) && s@ == "signedOut"@),
{
}

/// A workspace name is not blank and has at most sixty-four characters.
pub proof fn a_workspace_name_has_a_length(name: &str, ok: bool, plain: String)
    requires
        call_ensures(gate::org_name_valid, (name,), ok),
        call_ensures(text::trim, (name,), plain),
    ensures
        ok <==> 1 <= plain@.len() && plain@.len() <= 64,
{
}

/// Memberships: each workspace once, none lost and none made up, by name.
pub proof fn memberships_are_listed_once(orgs: Vec<OrgRow>, out: Vec<OrgRow>, k: int)
    requires
        call_ensures(gate::sort_memberships, (orgs,), out),
    ensures
        forall|i: int, j: int|
            0 <= i < j < out@.len() ==> (#[trigger] out@[i]).organization_id@ != (
            #[trigger] out@[j]).organization_id@,
        forall|i: int| 0 <= i < out@.len() ==> orgs@.contains(#[trigger] out@[i]),
        0 <= k < orgs@.len() ==> exists|i: int|
            0 <= i < out@.len() && (#[trigger] out@[i]).organization_id@ == orgs@[k].organization_id@,
        forall|i: int, j: int|
            0 <= i < j < out@.len() ==> text::text_at_most(
                lowercase((#[trigger] out@[i]).name@),
                lowercase((#[trigger] out@[j]).name@),
            ),
{
    let sorted = choose|sorted: Seq<OrgRow>| #[trigger]
        stably_sorted::<OrgRow, MembershipOrder>(orgs@, sorted) && out@ == gate::first_of_each_org(sorted);
    gate::each_org_stays_once(sorted);
    same_members(sorted, orgs@);
    firsts_are_part(sorted);
    assert(in_order::<OrgRow, MembershipOrder>(sorted));
    assert forall|i: int| 0 <= i < out@.len() implies orgs@.contains(#[trigger] out@[i]) by {
        assert(sorted.contains(out@[i]));
    }
    if 0 <= k < orgs@.len() {
        let m = choose|m: int| 0 <= m < sorted.len() && sorted[m] == orgs@[k];
        let p = |r: OrgRow| r.organization_id@ == sorted[m].organization_id@;
        search_meaning(out@, p);
        let i = crate::lists::first_at(out@, p)->0;
        assert(p(out@[i]));
    }
    firsts_keep_order(sorted);
}

proof fn firsts_are_part(rows: Seq<OrgRow>)
    ensures
        forall|i: int|
            0 <= i < gate::first_of_each_org(rows).len() ==> rows.contains(
                #[trigger] gate::first_of_each_org(rows)[i],
            ),
    decreases rows.len(),
{
    if rows.len() > 0 {
        let front = rows.drop_last();
        firsts_are_part(front);
        let all = gate::first_of_each_org(rows);
        let kept = gate::first_of_each_org(front);
        assert forall|i: int| 0 <= i < all.len() implies rows.contains(#[trigger] all[i]) by {
            if i < kept.len() {
                assert(all[i] == kept[i]);
                let m = choose|m: int| 0 <= m < front.len() && front[m] == kept[i];
                assert(rows[m] == all[i]);
            } else {
                assert(rows[rows.len() - 1] == all[i]);
            }
        }
    }
}

proof fn firsts_keep_order(rows: Seq<OrgRow>)
    requires
        in_order::<OrgRow, MembershipOrder>(rows),
    ensures
        ({
            let out = gate::first_of_each_org(rows);
            forall|i: int, j: int|
                0 <= i < j < out.len() ==> text::text_at_most(
                    lowercase((#[trigger] out[i]).name@),
                    lowercase((#[trigger] out[j]).name@),
                )
        }),
    decreases rows.len(),
{
    if rows.len() > 0 {
        let front = rows.drop_last();
        assert(in_order::<OrgRow, MembershipOrder>(front)) by {
            assert forall|i: int, j: int| 0 <= i < j < front.len() implies MembershipOrder::le(
                #[trigger] front[i],
                #[trigger] front[j],
            ) by {
                assert(MembershipOrder::le(rows[i], rows[j]));
            }
        }
        firsts_keep_order(front);
        firsts_are_part(front);
        let out = gate::first_of_each_org(rows);
        let kept = gate::first_of_each_org(front);
        assert forall|i: int, j: int| 0 <= i < j < out.len() implies text::text_at_most(
            lowercase((#[trigger] out[i]).name@),
            lowercase((#[trigger] out[j]).name@),
        ) by {
            if j < kept.len() {
                assert(out[i] == kept[i] && out[j] == kept[j]);
            } else {
                assert(out[i] == kept[i]);
                assert(out[j] == rows.last());
                let m = choose|m: int| 0 <= m < front.len() && front[m] == kept[i];
                assert(rows[m] == kept[i]);
                assert(MembershipOrder::le(rows[m], rows[rows.len() - 1]));
                text::text_order_is_strict(lowercase(rows[m].name@), lowercase(rows.last().name@));
                text::text_at_most_is_total_order(
                    lowercase(rows[m].name@),
                    lowercase(rows[m].name@),
                    lowercase(rows[m].name@),
                );
            }
        }
    }
}

/// Workspaces without their doubles: the first of each stays.
pub proof fn doubles_are_dropped(rows: Vec<OrgRow>, out: Vec<OrgRow>, k: int)
    requires
        call_ensures(gate::dedupe_orgs, (rows,), out),
    ensures
        forall|i: int, j: int|
            0 <= i < j < out@.len() ==> (#[trigger] out@[i]).organization_id@ != (
            #[trigger] out@[j]).organization_id@,
        forall|i: int| 0 <= i < out@.len() ==> rows@.contains(#[trigger] out@[i]),
        0 <= k < rows@.len() ==> exists|i: int|
            0 <= i < out@.len() && (#[trigger] out@[i]).organization_id@ == rows@[k].organization_id@,
{
    gate::each_org_stays_once(rows@);
    firsts_are_part(rows@);
    if 0 <= k < rows@.len() {
        let p = |r: OrgRow| r.organization_id@ == rows@[k].organization_id@;
        search_meaning(out@, p);
        let i = crate::lists::first_at(out@, p)->0;
        assert(p(out@[i]));
    }
}

/// A row of workspaces is read from an object or from a pair.
pub proof fn workspaces_are_read_row_by_row(
    value: &Json,
    rows: Vec<OrgRow>,
    items: Vec<Json>,
    ko: &str,
    inner: Option<&Json>,
    i: int,
    item: &Json,
    ki: &str,
    id: Option<String>,
    kn: &str,
    name: Option<String>,
)
    requires
        call_ensures(gate::parse_orgs, (value,), rows),
        ko@ == "orgs"@ && ki@ == "organizationId"@ && kn@ == "name"@,
        call_ensures(Json::get, (value, ko), inner),
        match inner {
            Some(list) => *list == Json::Array(items),
            None => *value == Json::Array(items),
        },
        0 <= i < items@.len(),
        *item == items@[i],
        call_ensures(Json::get_text, (item, ki), id),
        call_ensures(Json::get_text, (item, kn), name),
    ensures
        rows@.len() == 0 || rows@.len() == items@.len(),
        rows@.len() > 0 && *item is Object ==> (id matches Some(s) && s@ == rows@[i].organization_id@) && (
        name matches Some(s) && s@ == rows@[i].name@),
        rows@.len() > 0 ==> (*item matches Json::Array(pair) ==> pair@.len() == 2 && (
        pair@[0] matches Json::Text(s) && s@ == rows@[i].organization_id@) && (
        pair@[1] matches Json::Text(s) && s@ == rows@[i].name@)),
        *item is Object && (id is None || name is None) ==> rows@.len() == 0,
{
    assert(gate::org_views(rows@).len() == rows@.len());
    if rows@.len() > 0 {
        assert(gate::org_views(rows@)[i] == gate::org_view(rows@[i]));
        assert(gate::org_in(items@[i]) is Some);
    }
}

/// A folder is labelled by its last name; without a folder there is no project.
pub proof fn a_project_is_labelled_by_its_folder(
    cwd: Option<&str>,
    r: String,
    dir: Seq<char>,
    name: Seq<char>,
    plain: String,
)
    requires
        call_ensures(project::project_label, (cwd,), r),
        cwd is Some ==> call_ensures(text::trim, (cwd->0,), plain),
    ensures
        cwd is None ==> r@ == "No project"@,
        cwd is Some && plain@.len() == 0 ==> r@ == "No project"@,
        cwd is Some && plain@ == dir.push('/') + name && name.len() > 0 && !name.contains('/')
            && !name.contains('\\') && name != "."@ && name != ".."@ ==> r@ == name,
{
    if cwd is Some && plain@ == dir.push('/') + name && name.len() > 0 && !name.contains('/')
        && !name.contains('\\') && name != "."@ && name != ".."@ {
        let s = plain@;
        let at = dir.len() as int;
        assert(s.last() == name.last());
        assert(name.contains(name.last()));
        project::last_at_meaning(s, '/');
        assert(s[at] == '/');
        assert forall|k: int| at < k < s.len() implies #[trigger] s[k] != '/' by {
            assert(s[k] == name[k - at - 1]);
            assert(name.contains(name[k - at - 1]));
        }
        assert(project::last_at(s, '/') == at);
        assert(s.skip(at + 1) =~= name);
        assert(project::without_separators(s) == s);
        assert(project::file_name_of(s) == Some(name));
    }
}

/// An age is told in the largest unit that is not yet full: now, minutes, hours, days, weeks, months, years.
pub proof fn an_age_is_told_in_one_unit(then: Timestamp, now: Timestamp, r: String, s: int)
    requires
        call_ensures(project::format_time_ago, (then, now), r),
        s * 1_000_000_000 <= now@ - then@ < (s + 1) * 1_000_000_000,
        s >= 0,
    ensures
        s < 60 ==> r@ == "now"@,
        60 <= s < 3600 ==> r@ == decimal_text((s / 60) as nat) + "m"@,
        3600 <= s < 86400 ==> r@ == decimal_text((s / 3600) as nat) + "h"@,
        86400 <= s < 604800 ==> r@ == decimal_text((s / 86400) as nat) + "d"@,
        604800 <= s < 3024000 ==> r@ == decimal_text((s / 604800) as nat) + "w"@,
        3024000 <= s < 31104000 ==> r@ == decimal_text((s / 2592000) as nat) + "mo"@,
        s >= 31104000 ==> r@ == decimal_text((s / 31536000) as nat) + "y"@,
{
    let m = s / 60;
    let h = m / 60;
    let d = h / 24;
    assert(m / 60 == s / 3600 && h / 24 == s / 86400);
    assert(d / 7 == s / 604800 && d / 30 == s / 2592000 && d / 365 == s / 31536000);
}

/// What lies ahead, by a clock that is off, is now.
pub proof fn what_lies_ahead_is_now(then: Timestamp, now: Timestamp, r: String)
    requires
        call_ensures(project::format_time_ago, (then, now), r),
        now@ <= then@,
    ensures
        r@ == "now"@,
{
}

/// A chat lies in its project, on its branch.
pub proof fn a_chat_lies_in_its_project(
    chat: &Chat,
    r: Option<String>,
    cwd: &str,
    folder: String,
    branch: &str,
    on: String,
    plain: &str,
    label: String,
)
    requires
        call_ensures(project::chat_location, (chat,), r),
        chat.cwd is Some ==> cwd@ == chat.cwd->0@,
        call_ensures(text::trim, (cwd,), folder),
        chat.branch is Some ==> branch@ == chat.branch->0@,
        call_ensures(text::trim, (branch,), on),
        plain@ == folder@,
        call_ensures(project::project_label, (Some(plain),), label),
    ensures
        ({
            let has_cwd = chat.cwd is Some && folder@.len() > 0;
            let has_branch = chat.branch is Some && on@.len() > 0;
            &&& !has_cwd && !has_branch ==> r is None
            &&& has_cwd && !has_branch ==> (r matches Some(s) && s@ == label@)
            &&& !has_cwd && has_branch ==> (r matches Some(s) && s@ == on@)
            &&& has_cwd && has_branch ==> (r matches Some(s) && s@ == label@ + " · "@ + on@)
        }),
{
}

/// Groups: one for each label, every chat in the group of its label, none lost.
pub proof fn every_chat_is_in_the_group_of_its_label(
    chats: &[&Chat],
    groups: Vec<ChatGroup>,
    k: int,
    cwd: Option<&str>,
    label: String,
)
    requires
        call_ensures(project::group_chats, (chats,), groups),
        0 <= k < chats@.len(),
        match (chats@[k].cwd, cwd) {
            (Some(a), Some(b)) => a@ == b@,
            (None, None) => true,
            _ => false,
        },
        call_ensures(project::project_label, (cwd,), label),
    ensures
        forall|i: int, j: int|
            0 <= i < j < groups@.len() ==> (#[trigger] groups@[i]).label@ != (#[trigger] groups@[j]).label@,
        exists|g: int|
            0 <= g < groups@.len() && (#[trigger] groups@[g]).label@ == label@ && pointees(
                groups@[g].chats@,
            ).contains(*chats@[k]),
        forall|g: int, m: int|
            #![trigger groups@[g].chats@[m]]
            0 <= g < groups@.len() && 0 <= m < groups@[g].chats@.len() ==> pointees(chats@).contains(
                *groups@[g].chats@[m],
            ),
{
    let all = pointees(chats@);
    let labels = project::labels_in_order(all);
    project::labels_are_distinct(all);
    assert(all[k] == *chats@[k]);
    assert(project::chat_label(all[k]) == label@);
    assert(labels.contains(label@));
    let g = choose|g: int| 0 <= g < labels.len() && labels[g] == label@;
    assert(groups@[g].label@ == label@);
    let p = |c: Chat| project::chat_label(c) == labels[g];
    crate::laws::ground::filtered_members(all, p);
    assert(all.contains(all[k]));
    assert(p(all[k]));
    assert(all.filter(p).contains(all[k]));
    assert(pointees(groups@[g].chats@) == project::labelled(all, labels[g]));
    assert forall|i: int, j: int| 0 <= i < j < groups@.len() implies (#[trigger] groups@[i]).label@ != (
    #[trigger] groups@[j]).label@ by {
        assert(labels[i] != labels[j]);
    }
    assert forall|g2: int, m: int|
        #![trigger groups@[g2].chats@[m]]
        0 <= g2 < groups@.len() && 0 <= m < groups@[g2].chats@.len() implies all.contains(
        *groups@[g2].chats@[m],
    ) by {
        let q = |c: Chat| project::chat_label(c) == labels[g2];
        crate::laws::ground::filtered_members(all, q);
        assert(groups@[g2].label@ == labels[g2]);
        assert(pointees(groups@[g2].chats@) == all.filter(q));
        assert(pointees(groups@[g2].chats@)[m] == *groups@[g2].chats@[m]);
    }
}

/// The mark of the rail is the last one that the view reached, and the first above them all.
pub proof fn the_rail_marks_where_the_view_is(rows: &[usize], top: usize, r: Option<usize>)
    requires
        call_ensures(rail::active_tick, (rows, top), r),
    ensures
        r is None <==> rows@.len() == 0,
        r matches Some(i) ==> i < rows@.len() && (rows@[i as int] <= top || i == 0) && forall|k: int|
            i < k < rows@.len() ==> #[trigger] rows@[k] > top,
{
    last_reached_is_last(rows@, top);
}

proof fn last_reached_is_last(rows: Seq<usize>, top: usize)
    ensures
        ({
            let r = rail::last_reached(rows, top);
            &&& -1 <= r < rows.len()
            &&& r >= 0 ==> rows[r] <= top
            &&& forall|k: int| r < k < rows.len() ==> #[trigger] rows[k] > top
        }),
    decreases rows.len(),
{
    if rows.len() > 0 && rows.last() > top {
        last_reached_is_last(rows.drop_last(), top);
        assert forall|k: int| rail::last_reached(rows, top) < k < rows.len() implies #[trigger] rows[k]
            > top by {
            if k < rows.len() - 1 {
                assert(rows.drop_last()[k] == rows[k]);
            }
        }
    }
}

/// A preview fits; what fits anyway is shown whole, and what does not begins alike and ends in an ellipsis.
pub proof fn a_preview_fits(s: &str, max: usize, r: String, plain: String)
    requires
        call_ensures(rail::truncate_preview, (s, max), r),
        call_ensures(text::trim, (s,), plain),
        max >= 1,
    ensures
        r@.len() <= max,
        plain@.len() <= max ==> r@ == plain@,
        plain@.len() > max ==> r@.len() > 0 && r@.last() == '…' && forall|k: int|
            0 <= k < r@.len() - 1 ==> #[trigger] r@[k] == plain@[k],
{
    rail::preview_fits(s@, max as nat);
    reveal_strlit("…");
    if plain@.len() > max {
        let cut = plain@.take(max - 1);
        back_keeps_front(cut);
        assert(r@ =~= text::trim_back(cut) + "…"@);
    }
}

proof fn back_keeps_front(s: Seq<char>)
    ensures
        text::trim_back(s).len() <= s.len(),
        forall|k: int| 0 <= k < text::trim_back(s).len() ==> #[trigger] text::trim_back(s)[k] == s[k],
    decreases s.len(),
{
    if s.len() > 0 && text::is_white(s.last()) {
        back_keeps_front(s.drop_last());
    }
}

/// Every message of the user is on the rail once; nothing else is.
pub proof fn the_rail_marks_the_users_messages(
    entries: &[SessionMessageEntry],
    echoes: &[SessionMessageEntry],
    ticks: Vec<RailTick>,
    i: int,
)
    requires
        call_ensures(rail::rail_ticks, (entries, echoes), ticks),
    ensures
        0 <= i < entries@.len() && entries@[i].role == MessageRole::User ==> exists|k: int|
            0 <= k < ticks@.len() && (#[trigger] ticks@[k]).message_id@ == entries@[i].id@,
        0 <= i < echoes@.len() && echoes@[i].role == MessageRole::User ==> exists|k: int|
            0 <= k < ticks@.len() && (#[trigger] ticks@[k]).message_id@ == echoes@[i].id@,
        0 <= i < ticks@.len() ==> (exists|k: int|
            0 <= k < entries@.len() && (#[trigger] entries@[k]).id@ == ticks@[i].message_id@
                && entries@[k].role == MessageRole::User) || (exists|k: int|
            0 <= k < echoes@.len() && (#[trigger] echoes@[k]).id@ == ticks@[i].message_id@ && echoes@[k].role
                == MessageRole::User),
{
    let views = rail::tick_views(ticks@);
    assert(views.len() == ticks@.len());
    let own = rail::ticks_up_to(entries@, entries@.len());
    ticks_are_users(entries@, entries@.len());
    echoed_are_users(own, echoes@);
    if 0 <= i < entries@.len() && entries@[i].role == MessageRole::User {
        assert(rail::has_tick(own, entries@[i].id@));
        assert(rail::has_tick(views, entries@[i].id@));
        let m = choose|m: int| 0 <= m < views.len() && (#[trigger] views[m]).message_id == entries@[i].id@;
        assert(views[m] == rail::tick_view(ticks@[m]));
        assert(ticks@[m].message_id@ == entries@[i].id@);
    }
    if 0 <= i < echoes@.len() && echoes@[i].role == MessageRole::User {
        assert(rail::has_tick(views, echoes@[i].id@));
        let m = choose|m: int| 0 <= m < views.len() && (#[trigger] views[m]).message_id == echoes@[i].id@;
        assert(views[m] == rail::tick_view(ticks@[m]));
        assert(ticks@[m].message_id@ == echoes@[i].id@);
    }
    if 0 <= i < ticks@.len() {
        assert(views[i] == rail::tick_view(ticks@[i]));
    }
}

proof fn ticks_are_users(entries: Seq<SessionMessageEntry>, n: nat)
    requires
        n <= entries.len(),
    ensures
        ({
            let ticks = rail::ticks_up_to(entries, n);
            &&& forall|i: int|
                0 <= i < n && (#[trigger] entries[i]).role == MessageRole::User ==> rail::has_tick(
                    ticks,
                    entries[i].id@,
                )
            &&& forall|k: int|
                0 <= k < ticks.len() ==> exists|i: int|
                    0 <= i < n && (#[trigger] entries[i]).role == MessageRole::User && entries[i].id@ == (
                    #[trigger] ticks[k]).message_id
        }),
    decreases n,
{
    if n > 0 {
        let m = (n - 1) as nat;
        ticks_are_users(entries, m);
        let before = rail::ticks_up_to(entries, m);
        let ticks = rail::ticks_up_to(entries, n);
        assert forall|i: int| 0 <= i < n && (#[trigger] entries[i]).role == MessageRole::User implies rail::has_tick(
            ticks,
            entries[i].id@,
        ) by {
            if i < m {
                let k = choose|k: int|
                    0 <= k < before.len() && (#[trigger] before[k]).message_id == entries[i].id@;
                assert(ticks[k] == before[k]);
            } else {
                assert(ticks[ticks.len() - 1].message_id == entries[i].id@);
            }
        }
        assert forall|k: int| 0 <= k < ticks.len() implies exists|i: int|
            0 <= i < n && (#[trigger] entries[i]).role == MessageRole::User && entries[i].id@ == (
            #[trigger] ticks[k]).message_id by {
            if k < before.len() {
                assert(ticks[k] == before[k]);
            } else {
                assert(entries[n - 1].id@ == ticks[k].message_id);
            }
        }
    }
}

proof fn echoed_are_users(ticks: Seq<rail::TickView>, echoes: Seq<SessionMessageEntry>)
    ensures
        ({
            let all = rail::with_echoes(ticks, echoes);
            &&& forall|s: Seq<char>| rail::has_tick(ticks, s) ==> #[trigger] rail::has_tick(all, s)
            &&& forall|i: int|
                0 <= i < echoes.len() && (#[trigger] echoes[i]).role == MessageRole::User ==> rail::has_tick(
                    all,
                    echoes[i].id@,
                )
            &&& forall|k: int|
                0 <= k < all.len() ==> (rail::has_tick(ticks, (#[trigger] all[k]).message_id) || exists|
                    i: int,
                |
                    0 <= i < echoes.len() && (#[trigger] echoes[i]).role == MessageRole::User
                        && echoes[i].id@ == all[k].message_id)
        }),
    decreases echoes.len(),
{
    if echoes.len() > 0 {
        let front = echoes.drop_last();
        echoed_are_users(ticks, front);
        let before = rail::with_echoes(ticks, front);
        let all = rail::with_echoes(ticks, echoes);
        assert forall|s: Seq<char>| #[trigger] rail::has_tick(before, s) implies rail::has_tick(all, s) by {
            let k = choose|k: int| 0 <= k < before.len() && (#[trigger] before[k]).message_id == s;
            assert(all[k] == before[k]);
        }
        assert forall|s: Seq<char>| rail::has_tick(ticks, s) implies #[trigger] rail::has_tick(all, s) by {
            assert(rail::has_tick(before, s));
        }
        assert forall|i: int| 0 <= i < echoes.len() && (#[trigger] echoes[i]).role == MessageRole::User
            implies rail::has_tick(all, echoes[i].id@) by {
            if i < front.len() {
                assert(front[i] == echoes[i]);
                assert(rail::has_tick(before, echoes[i].id@));
            } else if !rail::has_tick(before, echoes[i].id@) {
                assert(all[all.len() - 1].message_id == echoes[i].id@);
            }
        }
        assert forall|k: int| 0 <= k < all.len() implies (rail::has_tick(
            ticks,
            (#[trigger] all[k]).message_id,
        ) || exists|i: int|
            0 <= i < echoes.len() && (#[trigger] echoes[i]).role == MessageRole::User && echoes[i].id@
                == all[k].message_id) by {
            if k < before.len() {
                assert(all[k] == before[k]);
                if !rail::has_tick(ticks, all[k].message_id) {
                    let i = choose|i: int|
                        0 <= i < front.len() && (#[trigger] front[i]).role == MessageRole::User
                            && front[i].id@ == before[k].message_id;
                    assert(echoes[i] == front[i]);
                }
            } else {
                assert(echoes[echoes.len() - 1].id@ == all[k].message_id);
            }
        }
    }
}

/// A mark carries what was asked, and how the first answer after it begins.
pub proof fn a_mark_carries_question_and_answer(
    entries: &[SessionMessageEntry],
    echoes: &[SessionMessageEntry],
    ticks: Vec<RailTick>,
    k: int,
)
    requires
        call_ensures(rail::rail_ticks, (entries, echoes), ticks),
        0 <= k < ticks@.len(),
    ensures
        ticks@[k].reply is Some ==> exists|i: int|
            0 <= i < entries@.len() && (#[trigger] entries@[i]).role == MessageRole::Assistant,
        (forall|i: int| 0 <= i < entries@.len() ==> (#[trigger] entries@[i]).role == MessageRole::User)
            ==> ticks@[k].reply is None,
{
    let views = rail::tick_views(ticks@);
    assert(views[k] == rail::tick_view(ticks@[k]));
    let own = rail::ticks_up_to(entries@, entries@.len());
    replies_are_of_assistants(entries@, entries@.len());
    echoes_have_no_replies(own, echoes@);
    if ticks@[k].reply is Some {
        assert(views[k].reply is Some);
        assert(rail::with_echoes(own, echoes@)[k].reply is Some);
    }
}

proof fn replies_are_of_assistants(entries: Seq<SessionMessageEntry>, n: nat)
    requires
        n <= entries.len(),
    ensures
        forall|k: int|
            0 <= k < rail::ticks_up_to(entries, n).len() ==> ((#[trigger] rail::ticks_up_to(
                entries,
                n,
            )[k]).reply is Some ==> exists|i: int|
                0 <= i < entries.len() && (#[trigger] entries[i]).role == MessageRole::Assistant),
    decreases n,
{
    if n > 0 {
        replies_are_of_assistants(entries, (n - 1) as nat);
        let rest = entries.skip(n as int);
        let p = rail::is_reply();
        search_meaning(rest, p);
        if crate::lists::first_at(rest, p) is Some {
            let m = crate::lists::first_at(rest, p)->0;
            assert(p(rest[m]));
            assert(entries[n + m].role == MessageRole::Assistant);
        }
        let before = rail::ticks_up_to(entries, (n - 1) as nat);
        let all = rail::ticks_up_to(entries, n);
        assert forall|k: int| 0 <= k < all.len() implies ((#[trigger] all[k]).reply is Some ==> exists|i: int|
            0 <= i < entries.len() && (#[trigger] entries[i]).role == MessageRole::Assistant) by {
            if k < before.len() {
                assert(all[k] == before[k]);
            }
        }
    }
}

proof fn echoes_have_no_replies(ticks: Seq<rail::TickView>, echoes: Seq<SessionMessageEntry>)
    ensures
        ({
            let all = rail::with_echoes(ticks, echoes);
            &&& all.len() >= ticks.len()
            &&& forall|k: int| 0 <= k < ticks.len() ==> #[trigger] all[k] == ticks[k]
            &&& forall|k: int| ticks.len() <= k < all.len() ==> (#[trigger] all[k]).reply is None
        }),
    decreases echoes.len(),
{
    if echoes.len() > 0 {
        echoes_have_no_replies(ticks, echoes.drop_last());
    }
}

/// A single question with its answer, as it stands on the rail.
pub proof fn one_question_and_its_answer(
    entries: &[SessionMessageEntry],
    echoes: &[SessionMessageEntry],
    ticks: Vec<RailTick>,
    asked: String,
    said: String,
    words: &str,
    plain: String,
)
    requires
        call_ensures(rail::rail_ticks, (entries, echoes), ticks),
        echoes@.len() == 0,
        entries@.len() == 2,
        entries@[0].role == MessageRole::User && entries@[1].role == MessageRole::Assistant,
        entries@[0].parts@ == seq![crate::model::MessagePart::Text { text: asked }],
        entries@[1].parts@ == seq![crate::model::MessagePart::Text { text: said }],
        words@ == said@,
        call_ensures(text::trim, (words,), plain),
    ensures
        ticks@.len() == 1,
        ticks@[0].message_id@ == entries@[0].id@,
        ticks@[0].prompt@ == asked@,
        plain@.len() > 0 ==> (ticks@[0].reply matches Some(r) && r@ == plain@),
        plain@.len() == 0 ==> ticks@[0].reply is None,
{
    let views = rail::tick_views(ticks@);
    reveal_with_fuel(rail::ticks_up_to, 3);
    reveal_with_fuel(rail::text_parts, 2);
    assert(views.len() == ticks@.len());
    assert(rail::with_echoes(rail::ticks_up_to(entries@, 2), echoes@) == rail::ticks_up_to(entries@, 2));
    assert(views.len() == 1);
    assert(views[0] == rail::tick_view(ticks@[0]));
    let part = crate::model::MessagePart::Text { text: asked };
    assert(entries@[0].parts@.drop_last() =~= Seq::<crate::model::MessagePart>::empty());
    assert(entries@[0].parts@.last() == part);
    assert(rail::text_parts(entries@[0].parts@) =~= seq![asked@]);
    let rest = entries@.skip(1);
    let p = rail::is_reply();
    assert(rest[0] == entries@[1]);
    assert(p(rest[0]));
    search_stops_at(rest, p, 0);
    let q = rail::says_something();
    let parts = entries@[1].parts@;
    if plain@.len() > 0 {
        assert(q(parts[0]));
        search_stops_at(parts, q, 0);
    } else {
        search_meaning(parts, q);
        assert(!q(parts[0]));
    }
}

/// A mark stands at the row of its message.
pub proof fn a_mark_stands_at_its_row(
    ticks: &[RailTick],
    row_ids: &[String],
    top: usize,
    hover: Option<usize>,
    marks: Vec<RailMark>,
    i: int,
)
    requires
        call_ensures(rail::rail_marks, (true, ticks, row_ids, top, hover), marks),
        0 <= i < marks@.len(),
    ensures
        marks@[i].row < row_ids@.len(),
        exists|k: int|
            0 <= k < ticks@.len() && (#[trigger] ticks@[k]).message_id@ == row_ids@[marks@[i].row as int]@,
{
    let views = rail::tick_views(ticks@);
    let pairs = rail::located(views, row_ids@);
    located_lie_in_rows(views, row_ids@);
    let m = marks@[i];
    let k = choose|k: int| 0 <= k < views.len() && views[k] == pairs[i].0;
    assert(views[k] == rail::tick_view(ticks@[k]));
    assert(ticks@[k].message_id@ == row_ids@[m.row as int]@);
}

proof fn located_lie_in_rows(ticks: Seq<rail::TickView>, row_ids: Seq<String>)
    ensures
        forall|i: int|
            0 <= i < rail::located(ticks, row_ids).len() ==> {
                let pair = #[trigger] rail::located(ticks, row_ids)[i];
                &&& ticks.contains(pair.0)
                &&& 0 <= pair.1 < row_ids.len()
                &&& row_ids[pair.1]@ == pair.0.message_id
            },
    decreases ticks.len(),
{
    if ticks.len() > 0 {
        let front = ticks.drop_last();
        located_lie_in_rows(front, row_ids);
        let p = rail::text_is(ticks.last().message_id);
        search_meaning(row_ids, p);
        if crate::lists::first_at(row_ids, p) is Some {
            assert(p(row_ids[crate::lists::first_at(row_ids, p)->0]));
        }
        let all = rail::located(ticks, row_ids);
        let before = rail::located(front, row_ids);
        assert forall|i: int| 0 <= i < all.len() implies {
            let pair = #[trigger] all[i];
            &&& ticks.contains(pair.0)
            &&& 0 <= pair.1 < row_ids.len()
            &&& row_ids[pair.1]@ == pair.0.message_id
        } by {
            if i < before.len() {
                assert(all[i] == before[i]);
                let k = choose|k: int| 0 <= k < front.len() && front[k] == before[i].0;
                assert(ticks[k] == before[i].0);
            } else {
                assert(ticks[ticks.len() - 1] == all[i].0);
            }
        }
    }
}

/// The rail is shown from two marks on, and one of them is active.
pub proof fn the_rail_needs_two_marks(
    enabled: bool,
    ticks: &[RailTick],
    row_ids: &[String],
    top: usize,
    hover: Option<usize>,
    marks: Vec<RailMark>,
)
    requires
        call_ensures(rail::rail_marks, (enabled, ticks, row_ids, top, hover), marks),
    ensures
        !enabled ==> marks@.len() == 0,
        marks@.len() != 1,
        ticks@.len() < 2 ==> marks@.len() == 0,
        forall|i: int|
            0 <= i < marks@.len() ==> ((#[trigger] marks@[i]).hovered <==> (hover matches Some(h) && h == i)),
        forall|i: int, j: int|
            0 <= i < j < marks@.len() ==> !((#[trigger] marks@[i]).active && (#[trigger] marks@[j]).active),
        forall|i: int| 0 <= i < marks@.len() ==> (#[trigger] marks@[i]).prompt@.len() <= 160,
        forall|i: int|
            0 <= i < marks@.len() ==> ((#[trigger] marks@[i]).reply matches Some(s) ==> s@.len() <= 200),
{
    let views = rail::tick_views(ticks@);
    let pairs = rail::located(views, row_ids@);
    located_is_no_longer(views, row_ids@);
    assert forall|i: int| 0 <= i < marks@.len() implies (#[trigger] marks@[i]).prompt@.len() <= 160 by {
        rail::preview_fits(pairs[i].0.prompt, 160);
    }
    assert forall|i: int| 0 <= i < marks@.len() implies ((#[trigger] marks@[i]).reply matches Some(s) ==> s@.len()
        <= 200) by {
        if pairs[i].0.reply is Some {
            rail::preview_fits(pairs[i].0.reply->0, 200);
        }
    }
}

proof fn located_is_no_longer(ticks: Seq<rail::TickView>, row_ids: Seq<String>)
    ensures
        rail::located(ticks, row_ids).len() <= ticks.len(),
    decreases ticks.len(),
{
    if ticks.len() > 0 {
        located_is_no_longer(ticks.drop_last(), row_ids);
    }
}

} // verus!
