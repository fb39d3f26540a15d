//! What stands in front of the shell: connection, sign-in and organization.

use crate::json::{member, text_in, text_member, Json};
use crate::lists;
use crate::lists::{pointee, some_passes};
use crate::model::{AuthState, UserProfile};
use crate::sorting::{stable_sort, stably_sorted, Precedence};
use crate::text;
use crate::text::{lowercase, text_at_most, text_at_most_is_total_order, trimmed};
use vstd::prelude::*;

verus! {

/// How this UI reached its engine.
#[derive(Debug, PartialEq, Eq)]
pub enum EngineMode {
    /// Engine embedded in this process.
    InProcess,
    /// Connected to a separate daemon over a localhost socket.
    Remote { url: String },
}

/// UI and engine connection lifecycle.
#[derive(Debug, PartialEq, Eq)]
pub enum ConnectionStatus {
    Connecting,
    Ready,
    Failed(String),
}

/// What stands in front of the shell.
#[derive(Debug, PartialEq, Eq)]
pub enum GatePhase {
    /// Booting or probing; the splash covers this.
    Loading,
    /// Engine unreachable and embedding failed.
    Failed(String),
    /// Engine up, but signed out.
    SignIn,
    /// Signed in but no organization selected.
    OrgGate,
    /// Render the shell.
    Ready,
}

/// The phase that a connection and a sign-in state lead to. An engine that reports no sign-in state
/// gates nothing.
pub open spec fn phase_of(connection: ConnectionStatus, auth: Option<AuthState>) -> GatePhase {
    match connection {
        ConnectionStatus::Connecting => GatePhase::Loading,
        ConnectionStatus::Failed(err) => GatePhase::Failed(err),
        ConnectionStatus::Ready => match auth {
            Some(AuthState::SignedOut) => GatePhase::SignIn,
            Some(AuthState::NeedsOrganization { .. }) => GatePhase::OrgGate,
            _ => GatePhase::Ready,
        },
    }
}

/// What stands in front of the shell now. `None` means that the engine does not report a sign-in state.
pub fn gate_phase(connection: &ConnectionStatus, auth: Option<&AuthState>) -> (r: GatePhase)
    ensures
        r == phase_of(*connection, pointee(auth)),
{
    match connection {
        ConnectionStatus::Connecting => GatePhase::Loading,
        ConnectionStatus::Failed(err) => GatePhase::Failed(err.clone()),
        ConnectionStatus::Ready => match auth {
            Some(AuthState::SignedOut) => GatePhase::SignIn,
            Some(AuthState::NeedsOrganization { .. }) => GatePhase::OrgGate,
            _ => GatePhase::Ready,
        },
    }
}

/// The shell renders exactly where the engine is connected and no sign-in step is missing.
pub proof fn shell_needs_connection_and_sign_in(
    connection: ConnectionStatus,
    auth: Option<AuthState>,
)
    ensures
        phase_of(connection, auth) == GatePhase::Ready <==> (connection is Ready && (auth is None
            || auth->0 is SignedIn)),
{
}

/// The embedded engine is reached in this process, a daemon by its localhost address.
pub open spec fn daemon_address(port: u16) -> Seq<char> {
    "ws://127.0.0.1:"@ + text::decimal_text(port as nat)
}

/// How the engine is reached, once the probe of the port has answered: a listening daemon is
/// connected to, otherwise an engine is embedded.
pub fn engine_mode(port: u16, daemon_listening: bool) -> (mode: EngineMode)
    ensures
        match mode {
            EngineMode::Remote { url } => daemon_listening && url@ == daemon_address(port),
            EngineMode::InProcess => !daemon_listening,
        },
{
    if daemon_listening {
        let digits = text::decimal(port as u64);
        EngineMode::Remote { url: text::joined("ws://127.0.0.1:", digits.as_str()) }
    } else {
        EngineMode::InProcess
    }
}

// ---------------------------------------------------------------------------
// Sign-in frames
// ---------------------------------------------------------------------------

/// The contents of a user profile.
pub struct ProfileView {
    pub id: Seq<char>,
    pub email: Seq<char>,
    pub name: Option<Seq<char>>,
}

/// The contents of a sign-in state.
pub enum AuthView {
    SignedOut,
    NeedsOrganization { user: ProfileView },
    SignedIn { user: ProfileView, org_id: Option<Seq<char>> },
}

/// The contents of a profile.
pub open spec fn profile_view(user: UserProfile) -> ProfileView {
    ProfileView { id: user.id@, email: user.email@, name: text::text_opt(user.name) }
}

/// The contents of a state.
pub open spec fn auth_view(auth: AuthState) -> AuthView {
    match auth {
        AuthState::SignedOut => AuthView::SignedOut,
        AuthState::NeedsOrganization { user } => AuthView::NeedsOrganization {
            user: profile_view(user),
        },
        AuthState::SignedIn { user, org_id } => AuthView::SignedIn {
            user: profile_view(user),
            org_id: text::text_opt(org_id),
        },
    }
}

/// The contents of an optional state.
pub open spec fn auth_opt_view(auth: Option<AuthState>) -> Option<AuthView> {
    match auth {
        Some(a) => Some(auth_view(a)),
        None => None,
    }
}

/// The profile in the member `user`: `id` and `email` must be texts, and `name` counts where it is one.
pub open spec fn profile_in(value: Json) -> Option<ProfileView> {
    match member(value, "user"@) {
        None => None,
        Some(user) => match (text_member(user, "id"@), text_member(user, "email"@)) {
            (Some(id), Some(email)) => Some(
                ProfileView { id, email, name: text_member(user, "name"@) },
            ),
            _ => None,
        },
    }
}

/// A member that a typed reader takes as an optional text: absent, null or a text.
pub open spec fn optional_text(value: Option<Json>) -> bool {
    value is None || value == Some(Json::Null) || value->0 is Text
}

/// The state that a frame tagged `state` holds. This shape is typed: an optional text of another
/// type spoils the frame.
pub open spec fn typed_state(value: Json) -> Option<AuthView> {
    match text_member(value, "state"@) {
        Some(tag) => if tag == "signedOut"@ {
            Some(AuthView::SignedOut)
        } else if tag == "needsOrganization"@ {
            match profile_in(value) {
                Some(user) if optional_text(member(member(value, "user"@)->0, "name"@)) => Some(
                    AuthView::NeedsOrganization { user },
                ),
                _ => None,
            }
        } else if tag == "signedIn"@ {
            match profile_in(value) {
                Some(user) if optional_text(member(member(value, "user"@)->0, "name"@))
                    && optional_text(member(value, "orgId"@)) => Some(
                    AuthView::SignedIn { user, org_id: text_member(value, "orgId"@) },
                ),
                _ => None,
            }
        } else {
            None
        },
        None => None,
    }
}

/// The state that a frame tagged `_tag` holds.
pub open spec fn tagged_state(value: Json) -> Option<AuthView> {
    match text_member(value, "_tag"@) {
        Some(tag) => if tag == "SignedOut"@ {
            Some(AuthView::SignedOut)
        } else if tag == "NeedsOrganization"@ {
            match profile_in(value) {
                Some(user) => Some(AuthView::NeedsOrganization { user }),
                None => None,
            }
        } else if tag == "SignedIn"@ {
            match profile_in(value) {
                Some(user) => Some(
                    AuthView::SignedIn { user, org_id: text_member(value, "orgId"@) },
                ),
                None => None,
            }
        } else {
            None
        },
        None => None,
    }
}

/// The state that a frame holds, in either shape.
pub open spec fn auth_in(value: Json) -> Option<AuthView> {
    match typed_state(value) {
        Some(state) => Some(state),
        None => tagged_state(value),
    }
}

fn read_profile(value: &Json) -> (r: Option<UserProfile>)
    ensures
        match r {
            Some(user) => profile_in(*value) == Some(profile_view(user)),
            None => profile_in(*value) is None,
        },
{
    match value.get("user") {
        None => None,
        Some(user) => match (user.get_text("id"), user.get_text("email")) {
            (Some(id), Some(email)) => Some(UserProfile { id, email, name: user.get_text("name") }),
            _ => None,
        },
    }
}

fn optional(value: Option<&Json>) -> (r: bool)
    ensures
        r == optional_text(pointee(value)),
{
    match value {
        None => true,
        Some(Json::Null) => true,
        Some(Json::Text(_)) => true,
        Some(_) => false,
    }
}

fn name_optional(value: &Json) -> (r: bool)
    requires
        member(*value, "user"@) is Some,
    ensures
        r == optional_text(member(member(*value, "user"@)->0, "name"@)),
{
    match value.get("user") {
        Some(user) => optional(user.get("name")),
        None => true,
    }
}

fn read_typed(value: &Json) -> (r: Option<AuthState>)
    ensures
        auth_opt_view(r) == typed_state(*value),
{
    let tag = match value.get_text("state") {
        Some(tag) => tag,
        None => {
            return None;
        },
    };
    if text::same(tag.as_str(), "signedOut") {
        Some(AuthState::SignedOut)
    } else if text::same(tag.as_str(), "needsOrganization") {
        match read_profile(value) {
            Some(user) => if name_optional(value) {
                Some(AuthState::NeedsOrganization { user })
            } else {
                None
            },
            None => None,
        }
    } else if text::same(tag.as_str(), "signedIn") {
        match read_profile(value) {
            Some(user) => if name_optional(value) && optional(value.get("orgId")) {
                Some(AuthState::SignedIn { user, org_id: value.get_text("orgId") })
            } else {
                None
            },
            None => None,
        }
    } else {
        None
    }
}

fn read_tagged(value: &Json) -> (r: Option<AuthState>)
    ensures
        auth_opt_view(r) == tagged_state(*value),
{
    let tag = match value.get_text("_tag") {
        Some(tag) => tag,
        None => {
            return None;
        },
    };
    if text::same(tag.as_str(), "SignedOut") {
        Some(AuthState::SignedOut)
    } else if text::same(tag.as_str(), "NeedsOrganization") {
        match read_profile(value) {
            Some(user) => Some(AuthState::NeedsOrganization { user }),
            None => None,
        }
    } else if text::same(tag.as_str(), "SignedIn") {
        match read_profile(value) {
            Some(user) => Some(AuthState::SignedIn { user, org_id: value.get_text("orgId") }),
            None => None,
        }
    } else {
        None
    }
}

/// Reads a sign-in frame in either of its two shapes: tagged `state` in camel case, or tagged `_tag`
/// in Pascal case.
pub fn parse_auth_state(value: &Json) -> (r: Option<AuthState>)
    ensures
        auth_opt_view(r) == auth_in(*value),
{
    match read_typed(value) {
        Some(state) => Some(state),
        None => read_tagged(value),
    }
}

/// A value that is no object is no sign-in frame.
pub proof fn only_objects_hold_auth(value: Json)
    requires
        !(value is Object),
    ensures
        auth_in(value) is None,
{
}

// ---------------------------------------------------------------------------
// Organizations
// ---------------------------------------------------------------------------

/// One organization membership.
#[derive(Debug, PartialEq)]
pub struct OrgRow {
    pub organization_id: String,
    pub name: String,
}

/// The contents of a membership: organization id and name.
pub open spec fn org_view(row: OrgRow) -> (Seq<char>, Seq<char>) {
    (row.organization_id@, row.name@)
}

/// The membership in a JSON value: an object with both texts, or an array of exactly the two texts.
pub open spec fn org_in(value: Json) -> Option<(Seq<char>, Seq<char>)> {
    match value {
        Json::Array(items) => if items@.len() == 2 {
            match (text_in(Some(items@[0])), text_in(Some(items@[1]))) {
                (Some(id), Some(name)) => Some((id, name)),
                _ => None,
            }
        } else {
            None
        },
        _ => match (text_member(value, "organizationId"@), text_member(value, "name"@)) {
            (Some(id), Some(name)) => Some((id, name)),
            _ => None,
        },
    }
}

/// The list that a reply holds: its member `orgs`, or the reply itself.
pub open spec fn org_list(value: Json) -> Json {
    match member(value, "orgs"@) {
        Some(list) => list,
        None => value,
    }
}

/// The memberships of a reply: all of its list, or none where the list is not made of memberships.
pub open spec fn orgs_in(value: Json) -> Seq<(Seq<char>, Seq<char>)> {
    match org_list(value) {
        Json::Array(items) => if forall|i: int|
            0 <= i < items@.len() ==> org_in(#[trigger] items@[i]) is Some {
            Seq::new(items@.len(), |i: int| org_in(items@[i])->0)
        } else {
            Seq::empty()
        },
        _ => Seq::empty(),
    }
}

fn read_org(value: &Json) -> (r: Option<OrgRow>)
    ensures
        match r {
            Some(row) => org_in(*value) == Some(org_view(row)),
            None => org_in(*value) is None,
        },
{
    match value {
        Json::Array(items) => {
            if items.len() != 2 {
                return None;
            }
            match (items[0].as_text(), items[1].as_text()) {
                (Some(id), Some(name)) => Some(
                    OrgRow { organization_id: id.clone(), name: name.clone() },
                ),
                _ => None,
            }
        },
        _ => match (value.get_text("organizationId"), value.get_text("name")) {
            (Some(organization_id), Some(name)) => Some(OrgRow { organization_id, name }),
            _ => None,
        },
    }
}

/// The contents of memberships.
pub open spec fn org_views(rows: Seq<OrgRow>) -> Seq<(Seq<char>, Seq<char>)> {
    rows.map_values(|row: OrgRow| org_view(row))
}

/// Reads a reply that lists organizations, `{"orgs": [..]}` or a bare array.
pub fn parse_orgs(value: &Json) -> (rows: Vec<OrgRow>)
    ensures
        org_views(rows@) == orgs_in(*value),
{
    let list = match value.get("orgs") {
        Some(list) => list,
        None => value,
    };
    let mut rows: Vec<OrgRow> = Vec::new();
    match list {
        Json::Array(items) => {
            let mut i: usize = 0;
            while i < items.len()
                invariant
                    i <= items.len(),
                    rows.len() == i,
                    org_list(*value) == Json::Array(*items),
                    forall|k: int|
                        0 <= k < i ==> org_in(#[trigger] items@[k]) == Some(org_view(rows@[k])),
                decreases items.len() - i,
            {
                match read_org(&items[i]) {
                    Some(row) => rows.push(row),
                    None => {
                        let none: Vec<OrgRow> = Vec::new();
                        proof {
                            assert(org_in(items@[i as int]) is None);
                            assert(org_views(none@) =~= Seq::empty());
                        }
                        return none;
                    },
                }
                i = i + 1;
            }
            proof {
                assert(org_views(rows@) =~= Seq::new(
                    items@.len(),
                    |k: int| org_in(items@[k])->0,
                ));
            }
        },
        _ => {
            proof {
                assert(org_views(rows@) =~= Seq::empty());
            }
        },
    }
    rows
}

/// Workspace names must hold something besides whitespace and at most 64 characters of it.
pub open spec fn valid_org_name(name: Seq<char>) -> bool {
    0 < trimmed(name).len() <= 64
}

/// Whether a workspace name is acceptable.
pub fn org_name_valid(name: &str) -> (r: bool)
    ensures
        r == valid_org_name(name@),
{
    let trimmed = text::trim(name);
    let n: usize = trimmed.as_str().unicode_len();
    0 < n && n <= 64
}

/// The order of two names, given their lowercase forms: by lowercase form, then as written.
pub open spec fn names_le(
    a_lower: Seq<char>,
    a: Seq<char>,
    b_lower: Seq<char>,
    b: Seq<char>,
) -> bool {
    if a_lower != b_lower {
        text_at_most(a_lower, b_lower)
    } else {
        text_at_most(a, b)
    }
}

/// Whether a name may stand before another one, given their lowercase forms.
pub fn name_at_most(a_lower: &str, a: &str, b_lower: &str, b: &str) -> (r: bool)
    ensures
        r == names_le(a_lower@, a@, b_lower@, b@),
{
    if text::same(a_lower, b_lower) {
        !text::less(b, a)
    } else {
        !text::less(b_lower, a_lower)
    }
}

/// The order of names is total and carries over.
pub proof fn names_le_is_total_order(
    al: Seq<char>,
    a: Seq<char>,
    bl: Seq<char>,
    b: Seq<char>,
    cl: Seq<char>,
    c: Seq<char>,
)
    ensures
        names_le(al, a, bl, b) || names_le(bl, b, al, a),
        names_le(al, a, bl, b) && names_le(bl, b, cl, c) ==> names_le(al, a, cl, c),
        names_le(al, a, bl, b) && names_le(bl, b, al, a) ==> al == bl && a == b,
{
    text_at_most_is_total_order(al, bl, cl);
    text_at_most_is_total_order(a, b, c);
}

/// Memberships by name: case-insensitive, then as written.
pub struct MembershipOrder;

impl Precedence<OrgRow> for MembershipOrder {
    open spec fn le(a: OrgRow, b: OrgRow) -> bool {
        names_le(lowercase(a.name@), a.name@, lowercase(b.name@), b.name@)
    }

    proof fn total(a: OrgRow, b: OrgRow) {
        names_le_is_total_order(
            lowercase(a.name@),
            a.name@,
            lowercase(b.name@),
            b.name@,
            lowercase(b.name@),
            b.name@,
        );
    }

    proof fn transitive(a: OrgRow, b: OrgRow, c: OrgRow) {
        names_le_is_total_order(
            lowercase(a.name@),
            a.name@,
            lowercase(b.name@),
            b.name@,
            lowercase(c.name@),
            c.name@,
        );
    }

    fn at_most(a: &OrgRow, b: &OrgRow) -> bool {
        let al = text::to_lower(a.name.as_str());
        let bl = text::to_lower(b.name.as_str());
        name_at_most(al.as_str(), a.name.as_str(), bl.as_str(), b.name.as_str())
    }
}

/// The memberships without those whose organization an earlier one names.
pub open spec fn first_of_each_org(rows: Seq<OrgRow>) -> Seq<OrgRow>
    decreases rows.len(),
{
    if rows.len() == 0 {
        rows
    } else {
        let kept = first_of_each_org(rows.drop_last());
        if some_passes(kept, |r: OrgRow| r.organization_id@ == rows.last().organization_id@) {
            kept
        } else {
            kept.push(rows.last())
        }
    }
}

/// Keeps the first membership of each organization.
pub fn dedupe_orgs(rows: Vec<OrgRow>) -> (out: Vec<OrgRow>)
    ensures
        out@ == first_of_each_org(rows@),
{
    let ghost before = rows@;
    let mut rest = rows;
    let mut out: Vec<OrgRow> = Vec::new();
    let n: usize = rest.len();
    let mut i: usize = 0;
    proof {
        assert(before.take(0) =~= Seq::<OrgRow>::empty());
        assert(rest@ =~= before.skip(0));
    }
    while i < n
        invariant
            i <= n == before.len(),
            rest@ == before.skip(i as int),
            out@ == first_of_each_org(before.take(i as int)),
        decreases n - i,
    {
        let row = rest.remove(0);
        let ghost p = |r: OrgRow| r.organization_id@ == row.organization_id@;
        let same_org = |r: &OrgRow| -> (b: bool)
            ensures
                b == p(*r),
            { text::same(r.organization_id.as_str(), row.organization_id.as_str()) };
        let known = lists::any(&out, same_org, Ghost(p));
        proof {
            assert(row == before[i as int]);
            assert(rest@ =~= before.skip(i + 1));
            assert(before.take(i + 1).drop_last() =~= before.take(i as int));
            assert(before.take(i + 1).last() == row);
            assert(p =~= |r: OrgRow|
                r.organization_id@ == before.take(i + 1).last().organization_id@);
        }
        if !known {
            out.push(row);
        }
        i = i + 1;
    }
    proof {
        assert(before.take(n as int) =~= before);
    }
    out
}

/// Memberships sorted by name without regard to case, one of each organization.
pub fn sort_memberships(orgs: Vec<OrgRow>) -> (out: Vec<OrgRow>)
    ensures
        exists|sorted: Seq<OrgRow>| #[trigger]
            stably_sorted::<OrgRow, MembershipOrder>(orgs@, sorted) && out@ == first_of_each_org(
                sorted,
            ),
{
    let mut rows = orgs;
    stable_sort::<OrgRow, MembershipOrder>(&mut rows);
    dedupe_orgs(rows)
}

/// After deduplication no organization occurs twice, and every one that was there still is.
pub proof fn each_org_stays_once(rows: Seq<OrgRow>)
    ensures
        forall|i: int, j: int|
            0 <= i < j < first_of_each_org(rows).len() ==> first_of_each_org(
                rows,
            )[i].organization_id@ != first_of_each_org(rows)[j].organization_id@,
        forall|k: int|
            0 <= k < rows.len() ==> some_passes(
                first_of_each_org(rows),
                |r: OrgRow| r.organization_id@ == (#[trigger] rows[k]).organization_id@,
            ),
    decreases rows.len(),
{
    if rows.len() > 0 {
        let front = rows.drop_last();
        let kept = first_of_each_org(front);
        let all = first_of_each_org(rows);
        each_org_stays_once(front);
        let last_p = |r: OrgRow| r.organization_id@ == rows.last().organization_id@;
        assert forall|i: int, j: int| 0 <= i < j < all.len() implies all[i].organization_id@
            != all[j].organization_id@ by {
            if j == kept.len() {
                if all[i].organization_id@ == all[j].organization_id@ {
                    assert(last_p(kept[i]));
                }
            }
        }
        assert forall|k: int| 0 <= k < rows.len() implies some_passes(
            all,
            |r: OrgRow| r.organization_id@ == (#[trigger] rows[k]).organization_id@,
        ) by {
            let p = |r: OrgRow| r.organization_id@ == rows[k].organization_id@;
            if k < rows.len() - 1 {
                assert(front[k] == rows[k]);
                assert(some_passes(
                    kept,
                    |r: OrgRow| r.organization_id@ == front[k].organization_id@,
                ));
                let q = |r: OrgRow| r.organization_id@ == front[k].organization_id@;
                let i = choose|i: int| 0 <= i < kept.len() && q(kept[i]);
                assert(p(all[i]));
            } else if some_passes(kept, last_p) {
                let i = choose|i: int| 0 <= i < kept.len() && last_p(kept[i]);
                assert(p(all[i]));
            } else {
                assert(p(all[kept.len() as int]));
            }
        }
    }
}

} // verus!
