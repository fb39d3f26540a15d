//! The "Create your workspace" gate: a name form and the workspaces to join.

use crate::gate::{
    first_of_each_org, org_name_valid, org_views, orgs_in, parse_orgs, sort_memberships, valid_org_name,
    MembershipOrder, OrgRow,
};
use crate::json::Json;
use crate::popover::Loadable;
use crate::sorting::stably_sorted;
use crate::text;
use crate::text::{text_opt, trimmed};
use vstd::prelude::*;

verus! {

/// The workspace gate.
#[derive(Debug, PartialEq)]
pub struct OrgGateUi {
    pub orgs: Loadable<Vec<OrgRow>>,
    pub submitting: bool,
    pub error: Option<String>,
}

/// What stands below the form.
#[derive(Debug, PartialEq, Eq)]
pub enum Memberships {
    Skeleton,
    /// The list could not be loaded; a retry is offered.
    Failed(String),
    Nothing,
    /// Workspaces to join, by id and name.
    Rows(Vec<(String, String)>),
}

/// The memberships of a reply: each organization once, sorted by name.
pub open spec fn memberships_in(reply: Json, rows: Seq<OrgRow>) -> bool {
    exists|parsed: Seq<OrgRow>| #[trigger]
        org_views(parsed) == orgs_in(reply) && exists|sorted: Seq<OrgRow>| #[trigger]
            stably_sorted::<OrgRow, MembershipOrder>(parsed, sorted) && rows == first_of_each_org(sorted)
}

impl OrgGateUi {
    pub fn new() -> (g: Self)
        ensures
            g.orgs is Idle,
            !g.submitting,
            g.error is None,
    {
        OrgGateUi { orgs: Loadable::Idle, submitting: false, error: None }
    }

    /// Asks for the memberships. Returns whether there is an engine to ask.
    pub fn load_orgs(&mut self, engine_attached: bool) -> (ask: bool)
        ensures
            ask == engine_attached,
            *final(self) == (if engine_attached {
                OrgGateUi { orgs: Loadable::Loading, ..*old(self) }
            } else {
                *old(self)
            }),
    {
        if !engine_attached {
            return false;
        }
        self.orgs = Loadable::Loading;
        true
    }

    /// Takes the memberships.
    pub fn orgs_loaded(&mut self, result: Result<Json, String>)
        ensures
            match result {
                Ok(reply) => final(self).orgs matches Loadable::Ready(rows) && memberships_in(
                    reply,
                    rows@,
                ),
                Err(message) => final(self).orgs == Loadable::<Vec<OrgRow>>::Error(message),
            },
            *final(self) == (OrgGateUi { orgs: final(self).orgs, ..*old(self) }),
    {
        self.orgs = match result {
            Ok(reply) => {
                let parsed = parse_orgs(&reply);
                Loadable::Ready(sort_memberships(parsed))
            },
            Err(message) => Loadable::Error(message),
        };
    }

    /// Creates a workspace under the typed name. Returns the name to send.
    pub fn create_org(&mut self, typed: &str, engine_attached: bool) -> (name: Option<String>)
        ensures
            ({
                let open = engine_attached && !old(self).submitting;
                let valid = valid_org_name(trimmed(typed@));
                &&& !open ==> name is None && *final(self) == *old(self)
                &&& open && !valid ==> name is None && final(self).orgs == old(self).orgs
                    && !final(self).submitting && text_opt(final(self).error) == Some(
                    "Enter a workspace name"@,
                )
                &&& open && valid ==> text_opt(name) == Some(trimmed(typed@)) && *final(self) == (
                OrgGateUi { submitting: true, error: None, ..*old(self) })
            }),
    {
        if !engine_attached || self.submitting {
            return None;
        }
        let name = text::trim(typed);
        if !org_name_valid(name.as_str()) {
            self.error = Some("Enter a workspace name".to_owned());
            return None;
        }
        self.submitting = true;
        self.error = None;
        Some(name)
    }

    /// Joins a workspace. Returns whether there is an engine to ask.
    pub fn select_org(&mut self, engine_attached: bool) -> (ask: bool)
        ensures
            ask == engine_attached,
            *final(self) == (if engine_attached {
                OrgGateUi { submitting: true, error: None, ..*old(self) }
            } else {
                *old(self)
            }),
    {
        if !engine_attached {
            return false;
        }
        self.submitting = true;
        self.error = None;
        true
    }

    /// Takes the answer to creating or joining. On success it falls away by itself once the
    /// sign-in state changes.
    pub fn answered(&mut self, result: Result<(), String>)
        ensures
            *final(self) == (OrgGateUi {
                submitting: false,
                error: match result {
                    Ok(_) => old(self).error,
                    Err(message) => Some(message),
                },
                ..*old(self)
            }),
    {
        self.submitting = false;
        if let Err(message) = result {
            self.error = Some(message);
        }
    }

    /// The words on the button that creates a workspace.
    pub fn create_label(&self) -> (r: &'static str)
        ensures
            r@ == (if self.submitting {
                "Creating…"@
            } else {
                "Create workspace"@
            }),
    {
        if self.submitting {
            "Creating…"
        } else {
            "Create workspace"
        }
    }

    /// What stands below the form.
    pub fn memberships(&self) -> (m: Memberships)
        ensures
            match self.orgs {
                Loadable::Idle => m is Skeleton,
                Loadable::Loading => m is Skeleton,
                Loadable::Error(message) => m == Memberships::Failed(message),
                Loadable::Ready(rows) => if rows@.len() == 0 {
                    m is Nothing
                } else {
                    m matches Memberships::Rows(shown) && shown@.len() == rows@.len() && (forall|i: int|
                        0 <= i < shown@.len() ==> (#[trigger] shown@[i]).0 == rows@[i].organization_id
                            && shown@[i].1 == rows@[i].name)
                },
            },
    {
        match &self.orgs {
            Loadable::Idle => Memberships::Skeleton,
            Loadable::Loading => Memberships::Skeleton,
            Loadable::Error(message) => Memberships::Failed(message.clone()),
            Loadable::Ready(rows) => {
                if rows.len() == 0 {
                    return Memberships::Nothing;
                }
                let mut shown: Vec<(String, String)> = Vec::new();
                let mut i: usize = 0;
                while i < rows.len()
                    invariant
                        i <= rows.len(),
                        shown.len() == i,
                        forall|k: int|
                            0 <= k < i ==> (#[trigger] shown@[k]).0 == rows@[k].organization_id
                                && shown@[k].1 == rows@[k].name,
                    decreases rows.len() - i,
                {
                    shown.push((rows[i].organization_id.clone(), rows[i].name.clone()));
                    i = i + 1;
                }
                Memberships::Rows(shown)
            },
        }
    }
}

} // verus!
