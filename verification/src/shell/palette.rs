//! The add-space palette: device tabs, a search over folders, and keys that walk them.
//!
//! The palette is one surface: another device tab browses again in place.

use crate::lists;
use crate::lists::{find_first, pointees};
use crate::model::{Device, FolderEntry, FolderListing, Space};
use crate::pickers::browse::{
    breadcrumbs, browser_rows, child_of, child_path, crumb_views, crumbs_of, folder_rows, parent_of,
    parent_path, segments,
};
use crate::popover;
use crate::popover::{
    as_ints, by_rank, classify_key, menu_key, menu_step, ranks_for, stepped, Loadable, MenuKey,
};
use crate::shell::frame::{Mutation, Shell};
use crate::shell::spaces::activated;
use crate::state::AppState;
use crate::text;
use crate::text::text_opt;
use crate::time::Timestamp;
use vstd::prelude::*;

verus! {

/// The palette while it is open.
#[derive(Debug, PartialEq)]
pub struct AddSpaceFlow {
    /// The device whose folders are browsed.
    pub device: Option<Device>,
    /// The search text.
    pub query: String,
    pub browser: Loadable<FolderListing>,
    /// The folder that was asked for; `None` is the home folder of the device.
    pub browser_path: Option<String>,
    /// Whether the folder is known to be a repository.
    pub browser_repo: bool,
    /// The highlighted row of the filtered folders.
    pub active: usize,
    pub submit_busy: bool,
    pub error: Option<String>,
    /// The search input gets the focus when the palette is drawn for the first time.
    pub focus_pending: bool,
}

/// A request for a folder. Its list starts at the top.
#[derive(Debug, PartialEq, Eq)]
pub struct FolderCall {
    pub path: Option<String>,
    /// The device to ask, where it is not this one.
    pub target_device: Option<String>,
}

/// The device to ask for folders: a device other than this one is named.
pub open spec fn target_of(device: Option<Device>, local: Option<String>) -> Option<Seq<char>> {
    match device {
        Some(d) => if text_opt(local) == Some(d.id@) {
            None
        } else {
            Some(d.id@)
        },
        None => None,
    }
}

/// The names of folders.
pub open spec fn entry_names(rows: Seq<FolderEntry>) -> Seq<String> {
    rows.map_values(|e: FolderEntry| e.name)
}

/// The folders that a search leaves, best matches first.
pub open spec fn filtered_in(listing: FolderListing, query: Seq<char>) -> Seq<FolderEntry> {
    let rows = folder_rows(listing);
    by_rank(ranks_for(query, entry_names(rows))).map_values(|i: int| rows[i])
}

/// The folders that the palette lists.
pub open spec fn filtered_rows(flow: Option<AddSpaceFlow>) -> Seq<FolderEntry> {
    match flow {
        Some(f) => match f.browser {
            Loadable::Ready(listing) => filtered_in(listing, f.query@),
            _ => Seq::empty(),
        },
        None => Seq::empty(),
    }
}

/// A palette that holds `flow`, with a search text, asks for a folder; without an engine it only keeps
/// the flow.
pub open spec fn loads(
    before: Shell,
    flow: AddSpaceFlow,
    query: Seq<char>,
    state: AppState,
    path: Option<Seq<char>>,
    after: Shell,
    call: Option<FolderCall>,
) -> bool {
    &&& after == (Shell { add_space: after.add_space, ..before })
    &&& match after.add_space {
        None => false,
        Some(f) => f.query@ == query && if state.engine_attached {
            &&& f == (AddSpaceFlow {
                query: f.query,
                browser: Loadable::Loading,
                browser_path: f.browser_path,
                active: 0,
                ..flow
            })
            &&& text_opt(f.browser_path) == path
            &&& call matches Some(c) && text_opt(c.path) == path && text_opt(c.target_device)
                == target_of(flow.device, state.local_device_id)
        } else {
            f == (AddSpaceFlow { query: f.query, ..flow }) && call is None
        },
    }
}

/// The highlighted folder was opened.
pub open spec fn active_opened(
    before: Shell,
    state: AppState,
    after: Shell,
    call: Option<FolderCall>,
) -> bool {
    match before.add_space {
        Some(flow) => match flow.browser {
            Loadable::Ready(listing) => {
                let rows = filtered_rows(before.add_space);
                if flow.active < rows.len() {
                    let entry = rows[flow.active as int];
                    loads(
                        before,
                        AddSpaceFlow { browser_repo: entry.is_repo, ..flow },
                        Seq::empty(),
                        state,
                        Some(child_of(listing.path@, entry.name@)),
                        after,
                        call,
                    )
                } else {
                    after == before && call is None
                }
            },
            _ => after == before && call is None,
        },
        None => after == before && call is None,
    }
}

/// The parent of the shown folder was opened; the root and an unknown folder have none.
pub open spec fn went_up(
    before: Shell,
    state: AppState,
    after: Shell,
    call: Option<FolderCall>,
) -> bool {
    match before.add_space {
        Some(flow) => match flow.browser {
            Loadable::Ready(listing) => match parent_of(listing.path@) {
                Some(parent) => loads(
                    before,
                    AddSpaceFlow { browser_repo: false, ..flow },
                    flow.query@,
                    state,
                    Some(parent),
                    after,
                    call,
                ),
                None => after == before && call is None,
            },
            _ => after == before && call is None,
        },
        None => after == before && call is None,
    }
}

// ---------------------------------------------------------------------------
// Creating a space
// ---------------------------------------------------------------------------

/// Calls `Uuid::new_v4` of `uuid` and writes the id as text. The id is random: nothing is known of it.
#[verifier::external_body]
fn new_space_id() -> (id: String) {
    uuid::Uuid::new_v4().to_string()
}

/// The test for a space at a place.
pub open spec fn at_place(device_id: Seq<char>, path: Seq<char>) -> spec_fn(Space) -> bool {
    |s: Space| s.device_id@ == device_id && s.path@ == path
}

/// The test for a space with an id.
pub open spec fn space_is(id: Seq<char>) -> spec_fn(Space) -> bool {
    |s: Space| s.id@ == id
}

/// The test for a space without an id.
pub open spec fn space_is_not(id: Seq<char>) -> spec_fn(Space) -> bool {
    |s: Space| s.id@ != id
}

/// What Enter means in the palette.
#[derive(Debug, PartialEq, Eq)]
pub enum SubmitPlan {
    /// Nothing can be done now.
    Nothing,
    /// The folder already has a space.
    Switch(String),
    /// A space has to be made.
    Create { device_id: String, path: String, git_detected: bool },
}

/// The plan for a palette: it needs an engine, a device and a folder that is there, and waits for an
/// earlier request. A folder that has a space is switched to.
pub open spec fn plan_is(shell: Shell, state: AppState, plan: SubmitPlan) -> bool {
    match shell.add_space {
        Some(flow) => match (flow.device, flow.browser) {
            (Some(device), Loadable::Ready(listing)) => if state.engine_attached && !flow.submit_busy {
                match find_first(state.spaces@, at_place(device.id@, listing.path@)) {
                    Some(existing) => plan == SubmitPlan::Switch(existing.id),
                    None => plan == (SubmitPlan::Create {
                        device_id: device.id,
                        path: listing.path,
                        git_detected: flow.browser_repo,
                    }),
                }
            } else {
                plan is Nothing
            },
            _ => plan is Nothing,
        },
        None => plan is Nothing,
    }
}

/// What the caller has to do after Enter.
#[derive(Debug, PartialEq, Eq)]
pub enum Submitted {
    Nothing,
    /// An existing space was switched to; tell the engine that this chat was seen.
    Switched { send_seen: Option<String> },
    /// Ask the engine to make the space.
    Create { call: Mutation },
}

/// A space was asked for under an id: its row shows at once, and the palette waits.
pub open spec fn space_asked(
    before: Shell,
    state: AppState,
    after: Shell,
    state_after: AppState,
    call: Mutation,
    display_name: Seq<char>,
    now: Timestamp,
) -> bool {
    match (before.add_space, call) {
        (
            Some(flow),
            Mutation::CreateSpace { space_id, device_id, path, git_detected },
        ) => {
            &&& after == (Shell {
                add_space: Some(AddSpaceFlow { submit_busy: true, error: None, ..flow }),
                ..before
            })
            &&& state_after == (AppState { spaces: state_after.spaces, ..state })
            &&& if lists::some_passes(state.spaces@, space_is(space_id@)) {
                state_after.spaces@ == state.spaces@
            } else {
                &&& state_after.spaces@.len() == state.spaces@.len() + 1
                &&& state_after.spaces@.drop_last() == state.spaces@
                &&& state_after.spaces@.last().display_name@ == display_name
                &&& state_after.spaces@.last() == (Space {
                    id: space_id,
                    device_id,
                    path,
                    name: None,
                    display_name: state_after.spaces@.last().display_name,
                    git_detected,
                    git_checked_at: None,
                    checkout_id: None,
                    created_at: now,
                })
            }
        },
        _ => false,
    }
}

/// Enter was taken.
pub open spec fn enter_taken(
    before: Shell,
    state: AppState,
    after: Shell,
    state_after: AppState,
    r: Submitted,
    display_name: Seq<char>,
    now: Timestamp,
) -> bool {
    exists|plan: SubmitPlan| #[trigger]
        plan_is(before, state, plan) && match plan {
            SubmitPlan::Nothing => r is Nothing && after == before && state_after == state,
            SubmitPlan::Switch(id) => r matches Submitted::Switched { send_seen } && activated(
                Shell { add_space: None, ..before },
                state,
                id,
                now,
                after,
                state_after,
                text_opt(send_seen),
            ),
            SubmitPlan::Create { device_id, path, git_detected } => r matches Submitted::Create { call }
                && space_asked(before, state, after, state_after, call, display_name, now) && (
            call matches Mutation::CreateSpace {
                space_id,
                device_id: d,
                path: p,
                git_detected: g,
            } && d == device_id && p == path && g == git_detected),
        }
}

impl Shell {
    // ---- opening and browsing ----

    /// Opens the palette on the tab of this device, or on the first one, and browses it.
    pub fn open_add_space(&mut self, state: &AppState) -> (call: Option<FolderCall>)
        ensures
            ({
                let here = AppState::first_device(state.devices@, text_opt(state.local_device_id));
                let flow = AddSpaceFlow {
                    device: here,
                    query: final(self).add_space->0.query,
                    browser: Loadable::Idle,
                    browser_path: None,
                    browser_repo: false,
                    active: 0,
                    submit_busy: false,
                    error: None,
                    focus_pending: true,
                };
                if here is Some {
                    loads(*old(self), flow, Seq::empty(), *state, None, *final(self), call)
                } else {
                    &&& call is None
                    &&& *final(self) == (Shell { add_space: Some(flow), ..*old(self) })
                    &&& flow.query@.len() == 0
                }
            }),
    {
        let device = match state.palette_device() {
            Some(d) => Some(d.clone()),
            None => None,
        };
        let has_device = device.is_some();
        self.add_space = Some(
            AddSpaceFlow {
                device,
                query: String::new(),
                browser: Loadable::Idle,
                browser_path: None,
                browser_repo: false,
                active: 0,
                submit_busy: false,
                error: None,
                focus_pending: true,
            },
        );
        proof {
            assert(self.add_space->0.query@ =~= Seq::<char>::empty());
        }
        if has_device {
            self.load_space_folders(state, None)
        } else {
            None
        }
    }

    /// Closes the palette.
    pub fn close_add_space(&mut self)
        ensures
            *final(self) == (Shell { add_space: None, ..*old(self) }),
    {
        self.add_space = None;
    }

    /// The search text changed: the highlight goes back to the first row.
    pub fn search_edited(&mut self, query: String)
        ensures
            *final(self) == (Shell {
                add_space: match old(self).add_space {
                    Some(flow) => Some(AddSpaceFlow { query, active: 0, ..flow }),
                    None => None,
                },
                ..*old(self)
            }),
    {
        if let Some(flow) = self.add_space.take() {
            self.add_space = Some(AddSpaceFlow { query, active: 0, ..flow });
        }
    }

    /// Asks for a folder of the palette's device.
    pub fn load_space_folders(&mut self, state: &AppState, path: Option<String>) -> (call: Option<
        FolderCall,
    >)
        ensures
            match old(self).add_space {
                Some(flow) => loads(
                    *old(self),
                    flow,
                    flow.query@,
                    *state,
                    text_opt(path),
                    *final(self),
                    call,
                ),
                None => *final(self) == *old(self) && call is None,
            },
    {
        if !state.engine_attached {
            return None;
        }
        match self.add_space.take() {
            Some(flow) => {
                let target_device = match &flow.device {
                    Some(d) => {
                        let here = match &state.local_device_id {
                            Some(id) => text::same(id.as_str(), d.id.as_str()),
                            None => false,
                        };
                        if here {
                            None
                        } else {
                            Some(d.id.clone())
                        }
                    },
                    None => None,
                };
                let call = FolderCall { path: text::copied(&path), target_device };
                self.add_space = Some(
                    AddSpaceFlow {
                        browser_path: path,
                        browser: Loadable::Loading,
                        active: 0,
                        ..flow
                    },
                );
                Some(call)
            },
            None => None,
        }
    }

    /// Takes a folder.
    pub fn folders_loaded(&mut self, result: Result<FolderListing, String>)
        ensures
            *final(self) == (Shell {
                add_space: match old(self).add_space {
                    Some(flow) => Some(
                        AddSpaceFlow {
                            browser: match result {
                                Ok(listing) => Loadable::Ready(listing),
                                Err(message) => Loadable::Error(message),
                            },
                            ..flow
                        },
                    ),
                    None => None,
                },
                ..*old(self)
            }),
    {
        if let Some(flow) = self.add_space.take() {
            let browser = match result {
                Ok(listing) => Loadable::Ready(listing),
                Err(message) => Loadable::Error(message),
            };
            self.add_space = Some(AddSpaceFlow { browser, ..flow });
        }
    }

    /// Takes a click on a device tab: another device is browsed from its home folder.
    pub fn add_space_pick_device(&mut self, state: &AppState, device: Device) -> (call: Option<FolderCall>)
        ensures
            match old(self).add_space {
                Some(flow) => if flow.device matches Some(d) && d.id@ == device.id@ {
                    *final(self) == *old(self) && call is None
                } else {
                    loads(
                        *old(self),
                        AddSpaceFlow {
                            device: Some(device),
                            browser: Loadable::Idle,
                            browser_path: None,
                            browser_repo: false,
                            active: 0,
                            error: None,
                            ..flow
                        },
                        Seq::empty(),
                        *state,
                        None,
                        *final(self),
                        call,
                    )
                },
                None => *final(self) == *old(self) && call is None,
            },
    {
        match self.add_space.take() {
            Some(flow) => {
                let same = match &flow.device {
                    Some(d) => text::same(d.id.as_str(), device.id.as_str()),
                    None => false,
                };
                if same {
                    self.add_space = Some(flow);
                    return None;
                }
                self.add_space = Some(
                    AddSpaceFlow {
                        device: Some(device),
                        query: String::new(),
                        browser: Loadable::Idle,
                        browser_path: None,
                        browser_repo: false,
                        active: 0,
                        error: None,
                        ..flow
                    },
                );
                proof {
                    assert(self.add_space->0.query@ =~= Seq::<char>::empty());
                }
                self.load_space_folders(state, None)
            },
            None => None,
        }
    }

    /// The folders that the palette lists.
    pub fn add_space_filtered(&self) -> (rows: Vec<&FolderEntry>)
        ensures
            pointees(rows@) == filtered_rows(self.add_space),
    {
        let none: Vec<&FolderEntry> = Vec::new();
        proof {
            assert(pointees(none@) =~= Seq::<FolderEntry>::empty());
        }
        match &self.add_space {
            Some(flow) => match &flow.browser {
                Loadable::Ready(listing) => filter_folders(listing, flow.query.as_str()),
                _ => none,
            },
            None => none,
        }
    }

    /// Opens a folder; `is_repo` says whether it is known to be a repository. The search text goes.
    pub fn add_space_descend(&mut self, state: &AppState, full: String, is_repo: bool) -> (call: Option<
        FolderCall,
    >)
        ensures
            match old(self).add_space {
                Some(flow) => loads(
                    *old(self),
                    AddSpaceFlow { browser_repo: is_repo, ..flow },
                    Seq::empty(),
                    *state,
                    Some(full@),
                    *final(self),
                    call,
                ),
                None => *final(self) == *old(self) && call is None,
            },
    {
        match self.add_space.take() {
            Some(flow) => {
                self.add_space = Some(
                    AddSpaceFlow { browser_repo: is_repo, query: String::new(), ..flow },
                );
                proof {
                    assert(self.add_space->0.query@ =~= Seq::<char>::empty());
                }
                self.load_space_folders(state, Some(full))
            },
            None => None,
        }
    }

    /// Opens the highlighted folder.
    pub fn add_space_open_active(&mut self, state: &AppState) -> (call: Option<FolderCall>)
        ensures
            active_opened(*old(self), *state, *final(self), call),
    {
        let choice: Option<(String, bool)>;
        {
            let rows = self.add_space_filtered();
            proof {
                assert(pointees(rows@).len() == rows@.len());
            }
            choice = match &self.add_space {
                Some(flow) => match &flow.browser {
                    Loadable::Ready(listing) => {
                        if flow.active < rows.len() {
                            let entry = rows[flow.active];
                            proof {
                                assert(pointees(rows@)[flow.active as int] == *entry);
                            }
                            Some(
                                (
                                    child_path(listing.path.as_str(), entry.name.as_str()),
                                    entry.is_repo,
                                ),
                            )
                        } else {
                            None
                        }
                    },
                    _ => None,
                },
                None => None,
            };
        }
        match choice {
            Some((full, is_repo)) => self.add_space_descend(state, full, is_repo),
            None => None,
        }
    }

    /// Opens a folder of the path line; whether it is a repository is not known.
    pub fn add_space_crumb(&mut self, state: &AppState, full: String) -> (call: Option<FolderCall>)
        ensures
            match old(self).add_space {
                Some(flow) => loads(
                    *old(self),
                    AddSpaceFlow { browser_repo: false, ..flow },
                    flow.query@,
                    *state,
                    Some(full@),
                    *final(self),
                    call,
                ),
                None => *final(self) == *old(self) && call is None,
            },
    {
        match self.add_space.take() {
            Some(flow) => {
                self.add_space = Some(AddSpaceFlow { browser_repo: false, ..flow });
                self.load_space_folders(state, Some(full))
            },
            None => None,
        }
    }

    /// Asks again for the folder that was asked for.
    pub fn add_space_retry(&mut self, state: &AppState) -> (call: Option<FolderCall>)
        ensures
            match old(self).add_space {
                Some(flow) => loads(
                    *old(self),
                    flow,
                    flow.query@,
                    *state,
                    text_opt(flow.browser_path),
                    *final(self),
                    call,
                ),
                None => *final(self) == *old(self) && call is None,
            },
    {
        let path = match &self.add_space {
            Some(flow) => text::copied(&flow.browser_path),
            None => None,
        };
        self.load_space_folders(state, path)
    }

    /// Opens the parent folder.
    pub fn add_space_go_up(&mut self, state: &AppState) -> (call: Option<FolderCall>)
        ensures
            went_up(*old(self), *state, *final(self), call),
    {
        let parent = match &self.add_space {
            Some(flow) => match &flow.browser {
                Loadable::Ready(listing) => parent_path(listing.path.as_str()),
                _ => None,
            },
            None => None,
        };
        match parent {
            Some(parent) => self.add_space_crumb(state, parent),
            None => None,
        }
    }

    // ---- creating a space ----

    /// What Enter means now.
    pub fn submit_plan(&self, state: &AppState) -> (plan: SubmitPlan)
        ensures
            plan_is(*self, *state, plan),
    {
        if !state.engine_attached {
            return SubmitPlan::Nothing;
        }
        match &self.add_space {
            Some(flow) => {
                if flow.submit_busy {
                    return SubmitPlan::Nothing;
                }
                match (&flow.device, &flow.browser) {
                    (Some(device), Loadable::Ready(listing)) => {
                        let ghost p = at_place(device.id@, listing.path@);
                        let here = |s: &Space| -> (b: bool)
                            ensures
                                b == p(*s),
                            {
                                text::same(s.device_id.as_str(), device.id.as_str()) && text::same(
                                    s.path.as_str(),
                                    listing.path.as_str(),
                                )
                            };
                        match lists::find(&state.spaces, here, Ghost(p)) {
                            Some(existing) => SubmitPlan::Switch(existing.id.clone()),
                            None => SubmitPlan::Create {
                                device_id: device.id.clone(),
                                path: listing.path.clone(),
                                git_detected: flow.browser_repo,
                            },
                        }
                    },
                    _ => SubmitPlan::Nothing,
                }
            },
            None => SubmitPlan::Nothing,
        }
    }

    /// Asks for a space under an id: its row shows at once, and the frame with the real row takes its
    /// place.
    pub fn ask_space(
        &mut self,
        state: &mut AppState,
        space_id: String,
        device_id: String,
        path: String,
        git_detected: bool,
        display_name: &str,
        now: Timestamp,
    ) -> (call: Mutation)
        requires
            old(self).add_space is Some,
        ensures
            call == (Mutation::CreateSpace { space_id, device_id, path, git_detected }),
            space_asked(
                *old(self),
                *old(state),
                *final(self),
                *final(state),
                call,
                display_name@,
                now,
            ),
    {
        if let Some(flow) = self.add_space.take() {
            self.add_space = Some(AddSpaceFlow { submit_busy: true, error: None, ..flow });
        }
        let ghost p = space_is(space_id@);
        let known = |s: &Space| -> (b: bool)
            ensures
                b == p(*s),
            { text::same(s.id.as_str(), space_id.as_str()) };
        if !lists::any(&state.spaces, known, Ghost(p)) {
            state.spaces.push(
                Space {
                    id: space_id.clone(),
                    device_id: device_id.clone(),
                    path: path.clone(),
                    name: None,
                    display_name: display_name.to_owned(),
                    git_detected,
                    git_checked_at: None,
                    checkout_id: None,
                    created_at: now,
                },
            );
            proof {
                assert(state.spaces@.drop_last() =~= old(state).spaces@);
            }
        }
        Mutation::CreateSpace { space_id, device_id, path, git_detected }
    }

    /// Takes Enter: the shown folder becomes a space, or is switched to where it is one. `display_name`
    /// is what stands for the folder until the real row comes.
    pub fn submit_add_space(&mut self, state: &mut AppState, display_name: &str, now: Timestamp) -> (r:
        Submitted)
        ensures
            enter_taken(
                *old(self),
                *old(state),
                *final(self),
                *final(state),
                r,
                display_name@,
                now,
            ),
    {
        let plan = self.submit_plan(state);
        let ghost was = plan;
        let r = match plan {
            SubmitPlan::Nothing => Submitted::Nothing,
            SubmitPlan::Switch(id) => {
                self.add_space = None;
                let send_seen = self.activate_space(state, id, now);
                Submitted::Switched { send_seen }
            },
            SubmitPlan::Create { device_id, path, git_detected } => {
                let space_id = new_space_id();
                let call = self.ask_space(
                    state,
                    space_id,
                    device_id,
                    path,
                    git_detected,
                    display_name,
                    now,
                );
                Submitted::Create { call }
            },
        };
        proof {
            assert(plan_is(*old(self), *old(state), was));
        }
        r
    }

    /// Takes the answer to making a space: on success it is switched to; on failure its row goes and the
    /// palette says why. Returns the chat that was not seen before.
    pub fn space_answered(
        &mut self,
        state: &mut AppState,
        space_id: String,
        result: Result<(), String>,
        now: Timestamp,
    ) -> (send_seen: Option<String>)
        ensures
            match result {
                Ok(_) => activated(
                    Shell { add_space: None, ..*old(self) },
                    *old(state),
                    space_id,
                    now,
                    *final(self),
                    *final(state),
                    text_opt(send_seen),
                ),
                Err(message) => {
                    &&& send_seen is None
                    &&& final(state).spaces@ == old(state).spaces@.filter(space_is_not(space_id@))
                    &&& *final(state) == (AppState { spaces: final(state).spaces, ..*old(state) })
                    &&& *final(self) == (Shell {
                        add_space: match old(self).add_space {
                            Some(flow) => Some(
                                AddSpaceFlow { submit_busy: false, error: Some(message), ..flow },
                            ),
                            None => None,
                        },
                        ..*old(self)
                    })
                },
            },
    {
        match result {
            Ok(_) => {
                self.add_space = None;
                self.activate_space(state, space_id, now)
            },
            Err(message) => {
                let ghost p = space_is_not(space_id@);
                let other = |s: &Space| -> (b: bool)
                    ensures
                        b == p(*s),
                    { !text::same(s.id.as_str(), space_id.as_str()) };
                lists::retain(&mut state.spaces, other, Ghost(p));
                if let Some(flow) = self.add_space.take() {
                    self.add_space = Some(
                        AddSpaceFlow { submit_busy: false, error: Some(message), ..flow },
                    );
                }
                None
            },
        }
    }

    // ---- keys ----

    /// Takes a key of the palette: right opens the highlighted folder, left and backspace on an empty
    /// search go up, up and down move the highlight and keep it in view, Enter takes the folder, Escape
    /// closes.
    pub fn add_space_key(
        &mut self,
        state: &mut AppState,
        key: &str,
        cmd: bool,
        ctrl: bool,
        display_name: &str,
        now: Timestamp,
    ) -> (r: PaletteOutcome)
        ensures
            ({
                let still = *final(state) == *old(state);
                let idle = *final(self) == *old(self) && still && r == PaletteOutcome::Nothing;
                if key@ == "right"@ {
                    still && (r matches PaletteOutcome::Browse(call) && active_opened(
                        *old(self),
                        *old(state),
                        *final(self),
                        call,
                    ))
                } else if key@ == "left"@ {
                    still && (r matches PaletteOutcome::Browse(call) && went_up(
                        *old(self),
                        *old(state),
                        *final(self),
                        call,
                    ))
                } else {
                    match menu_key(key@, cmd || ctrl) {
                        MenuKey::Escape => still && r == PaletteOutcome::Nothing && *final(self) == (
                        Shell { add_space: None, ..*old(self) }),
                        MenuKey::Up => still && highlight_moved(*old(self), -1, *final(self)) && r
                            == PaletteOutcome::Highlight(highlighted(final(self).add_space)),
                        MenuKey::Down => still && highlight_moved(*old(self), 1, *final(self)) && r
                            == PaletteOutcome::Highlight(highlighted(final(self).add_space)),
                        MenuKey::Enter => r matches PaletteOutcome::Submit(taken) && enter_taken(
                            *old(self),
                            *old(state),
                            *final(self),
                            *final(state),
                            taken,
                            display_name@,
                            now,
                        ),
                        MenuKey::ModEnter => r matches PaletteOutcome::Submit(taken) && enter_taken(
                            *old(self),
                            *old(state),
                            *final(self),
                            *final(state),
                            taken,
                            display_name@,
                            now,
                        ),
                        MenuKey::Backspace => if old(self).add_space matches Some(flow)
                            && flow.query@.len() == 0 {
                            still && (r matches PaletteOutcome::Browse(call) && went_up(
                                *old(self),
                                *old(state),
                                *final(self),
                                call,
                            ))
                        } else {
                            idle
                        },
                        MenuKey::Other => idle,
                    }
                }
            }),
    {
        if text::same(key, "right") {
            return PaletteOutcome::Browse(self.add_space_open_active(state));
        }
        if text::same(key, "left") {
            return PaletteOutcome::Browse(self.add_space_go_up(state));
        }
        match classify_key(key, cmd, ctrl) {
            MenuKey::Escape => {
                self.add_space = None;
                PaletteOutcome::Nothing
            },
            MenuKey::Up => PaletteOutcome::Highlight(self.move_highlight(-1)),
            MenuKey::Down => PaletteOutcome::Highlight(self.move_highlight(1)),
            MenuKey::Enter => PaletteOutcome::Submit(self.submit_add_space(state, display_name, now)),
            MenuKey::ModEnter => PaletteOutcome::Submit(
                self.submit_add_space(state, display_name, now),
            ),
            MenuKey::Backspace => {
                let empty = match &self.add_space {
                    Some(flow) => text::empty(flow.query.as_str()),
                    None => false,
                };
                if empty {
                    PaletteOutcome::Browse(self.add_space_go_up(state))
                } else {
                    PaletteOutcome::Nothing
                }
            },
            MenuKey::Other => PaletteOutcome::Nothing,
        }
    }

    fn move_highlight(&mut self, delta: isize) -> (row: Option<usize>)
        ensures
            highlight_moved(*old(self), delta as int, *final(self)),
            row == highlighted(final(self).add_space),
    {
        let count: usize;
        {
            let rows = self.add_space_filtered();
            proof {
                assert(pointees(rows@).len() == rows@.len());
            }
            count = rows.len();
        }
        if let Some(flow) = self.add_space.take() {
            let active: usize = match menu_step(Some(flow.active), count, delta) {
                Some(at) => at,
                None => 0,
            };
            self.add_space = Some(AddSpaceFlow { active, ..flow });
            Some(active)
        } else {
            None
        }
    }
}

/// What a key of the palette asks for.
#[derive(Debug, PartialEq, Eq)]
pub enum PaletteOutcome {
    Nothing,
    /// The highlight moved: its row has to be in view.
    Highlight(Option<usize>),
    /// A folder is asked for, where it can be.
    Browse(Option<FolderCall>),
    /// The folder was taken.
    Submit(Submitted),
}

/// The highlighted row of an open palette.
pub open spec fn highlighted(add_space: Option<AddSpaceFlow>) -> Option<usize> {
    match add_space {
        Some(flow) => Some(flow.active),
        None => None,
    }
}

/// The highlight moved over the filtered folders; it wraps, and an empty list has it at the start.
pub open spec fn highlight_moved(before: Shell, delta: int, after: Shell) -> bool {
    after == (Shell {
        add_space: match before.add_space {
            Some(flow) => Some(
                AddSpaceFlow {
                    active: match stepped(
                        Some(flow.active),
                        filtered_rows(before.add_space).len() as usize,
                        delta,
                    ) {
                        Some(at) => at,
                        None => 0,
                    },
                    ..flow
                },
            ),
            None => None,
        },
        ..before
    })
}

fn filter_folders<'a>(listing: &'a FolderListing, query: &str) -> (rows: Vec<&'a FolderEntry>)
    ensures
        pointees(rows@) == filtered_in(*listing, query@),
{
    let dirs = browser_rows(listing);
    let ghost all = folder_rows(*listing);
    proof {
        assert(pointees(dirs@).len() == dirs@.len());
    }
    let mut names: Vec<String> = Vec::new();
    let mut i: usize = 0;
    while i < dirs.len()
        invariant
            i <= dirs.len(),
            pointees(dirs@) == all,
            names.len() == i,
            forall|k: int| 0 <= k < i ==> #[trigger] names@[k] == all[k].name,
        decreases dirs.len() - i,
    {
        proof {
            assert(pointees(dirs@)[i as int] == *dirs@[i as int]);
        }
        names.push(dirs[i].name.clone());
        i = i + 1;
    }
    proof {
        assert(names@ =~= entry_names(all));
    }
    let order = popover::filter_indices(query, &names);
    let ghost ints = by_rank(ranks_for(query@, names@));
    proof {
        popover::ranks_are_small(query@, names@);
        popover::filter_lists_each_match_once(ranks_for(query@, names@));
    }
    let mut rows: Vec<&FolderEntry> = Vec::new();
    let mut k: usize = 0;
    while k < order.len()
        invariant
            k <= order.len(),
            pointees(dirs@) == all,
            dirs@.len() == all.len(),
            as_ints(order@) == ints,
            forall|m: int| ints.contains(m) ==> 0 <= m < all.len(),
            rows.len() == k,
            forall|m: int| 0 <= m < k ==> *(#[trigger] rows@[m]) == all[ints[m]],
        decreases order.len() - k,
    {
        proof {
            assert(ints[k as int] == order@[k as int] as int);
            assert(ints.contains(ints[k as int]));
            assert(pointees(dirs@)[ints[k as int]] == *dirs@[ints[k as int]]);
        }
        rows.push(dirs[order[k]]);
        k = k + 1;
    }
    proof {
        assert(ints.len() == order@.len());
        assert(pointees(rows@) =~= filtered_in(*listing, query@));
    }
    rows
}

/// A request to make a space that fails leaves the list of spaces as it was.
pub proof fn failed_create_undoes_the_row(spaces: Seq<Space>, space: Space)
    requires
        !lists::some_passes(spaces, space_is(space.id@)),
    ensures
        spaces.push(space).filter(space_is_not(space.id@)) == spaces,
{
    let p = space_is_not(space.id@);
    spaces.lemma_filter_push(space, p);
    lists::search_meaning(spaces, space_is(space.id@));
    assert forall|i: int| 0 <= i < spaces.len() implies p(#[trigger] spaces[i]) by {
        assert(!space_is(space.id@)(spaces[i]));
    }
    lists::filter_of_all(spaces, p);
}

/// A folder that has a space never gets a second one: Enter on it makes nothing.
pub proof fn a_folder_has_one_space(shell: Shell, state: AppState, plan: SubmitPlan)
    requires
        plan_is(shell, state, plan),
        shell.add_space matches Some(flow) && flow.device matches Some(device)
            && flow.browser matches Loadable::Ready(listing) && lists::some_passes(
            state.spaces@,
            at_place(device.id@, listing.path@),
        ),
    ensures
        !(plan is Create),
{
    let flow = shell.add_space->0;
    lists::search_meaning(state.spaces@, at_place(flow.device->0.id@, flow.browser->Ready_0.path@));
}

// ---------------------------------------------------------------------------
// What the palette shows
// ---------------------------------------------------------------------------

/// A device tab.
#[derive(Debug, PartialEq)]
pub struct DeviceTab {
    pub name: String,
    pub active: bool,
    /// Whether it is this device.
    pub local: bool,
}

/// A folder of the path line, after the root.
#[derive(Debug, PartialEq, Eq)]
pub struct Crumb {
    pub label: String,
    pub path: String,
    /// The shown folder itself, which cannot be clicked.
    pub last: bool,
}

/// A folder row.
#[derive(Debug, PartialEq, Eq)]
pub struct FolderRow {
    pub name: String,
    pub path: String,
    pub is_repo: bool,
    pub active: bool,
}

/// The list of the palette.
#[derive(Debug, PartialEq, Eq)]
pub enum PaletteList {
    Skeleton,
    /// The folder could not be loaded; a retry is offered.
    Failed(String),
    /// Nothing to list.
    Nothing(String),
    Rows(Vec<FolderRow>),
}

/// The palette.
#[derive(Debug, PartialEq)]
pub struct PaletteView {
    pub tabs: Vec<DeviceTab>,
    pub crumbs: Vec<Crumb>,
    pub list: PaletteList,
    pub error: Option<String>,
    pub submit_label: String,
    /// Whether the button looks as if it could be used.
    pub submit_ready: bool,
}

/// The tabs show the devices.
pub open spec fn tabs_show(tabs: Seq<DeviceTab>, flow: AddSpaceFlow, state: AppState) -> bool {
    tabs.len() == state.devices@.len() && forall|i: int|
        0 <= i < tabs.len() ==> {
            let d = state.devices@[i];
            &&& (#[trigger] tabs[i]).name == d.name
            &&& tabs[i].active == (flow.device matches Some(f) && f.id@ == d.id@)
            &&& tabs[i].local == (text_opt(state.local_device_id) == Some(d.id@))
        }
}

/// The path line shows a folder: everything after the root.
pub open spec fn crumbs_show(crumbs: Seq<Crumb>, path: Seq<char>) -> bool {
    let all = crumbs_of(segments(path));
    crumbs.len() == all.len() - 1 && forall|i: int|
        0 <= i < crumbs.len() ==> {
            &&& (#[trigger] crumbs[i]).label@ == all[i + 1].0
            &&& crumbs[i].path@ == all[i + 1].1
            &&& crumbs[i].last == (i + 1 == all.len() - 1)
        }
}

/// The list shows the browsed folder.
pub open spec fn list_shows(list: PaletteList, flow: AddSpaceFlow) -> bool {
    match flow.browser {
        Loadable::Idle => list is Skeleton,
        Loadable::Loading => list is Skeleton,
        Loadable::Error(message) => list matches PaletteList::Failed(line) && line@ == (
        match flow.device {
            Some(d) => d.name@ + " didn't respond — is it online?"@,
            None => message@,
        }),
        Loadable::Ready(listing) => {
            let rows = filtered_in(listing, flow.query@);
            if rows.len() == 0 {
                list matches PaletteList::Nothing(words) && words@ == (if flow.query@.len() == 0 {
                    "No folders here"@
                } else {
                    "No folders match"@
                })
            } else {
                list matches PaletteList::Rows(shown) && shown@.len() == rows.len() && forall|i: int|
                    0 <= i < shown@.len() ==> {
                        &&& (#[trigger] shown@[i]).name == rows[i].name
                        &&& shown@[i].path@ == child_of(listing.path@, rows[i].name@)
                        &&& shown@[i].is_repo == rows[i].is_repo
                        &&& shown@[i].active == (i == flow.active)
                    }
            }
        },
    }
}

fn device_tabs(flow: &AddSpaceFlow, state: &AppState) -> (tabs: Vec<DeviceTab>)
    ensures
        tabs_show(tabs@, *flow, *state),
{
    let mut tabs: Vec<DeviceTab> = Vec::new();
    let mut i: usize = 0;
    while i < state.devices.len()
        invariant
            i <= state.devices.len(),
            tabs.len() == i,
            forall|k: int|
                0 <= k < i ==> {
                    let d = state.devices@[k];
                    &&& (#[trigger] tabs@[k]).name == d.name
                    &&& tabs@[k].active == (flow.device matches Some(f) && f.id@ == d.id@)
                    &&& tabs@[k].local == (text_opt(state.local_device_id) == Some(d.id@))
                },
        decreases state.devices.len() - i,
    {
        let d = &state.devices[i];
        let active = match &flow.device {
            Some(f) => text::same(f.id.as_str(), d.id.as_str()),
            None => false,
        };
        let local = match &state.local_device_id {
            Some(id) => text::same(id.as_str(), d.id.as_str()),
            None => false,
        };
        tabs.push(DeviceTab { name: d.name.clone(), active, local });
        i = i + 1;
    }
    tabs
}

fn path_line(path: &str) -> (crumbs: Vec<Crumb>)
    ensures
        crumbs_show(crumbs@, path@),
{
    let all = breadcrumbs(path);
    let ghost views = crumbs_of(segments(path@));
    let mut crumbs: Vec<Crumb> = Vec::new();
    proof {
        assert(crumb_views(all@).len() == all@.len());
        crate::pickers::browse::trail_starts_at_root(segments(path@));
    }
    let mut i: usize = 1;
    while i < all.len()
        invariant
            1 <= i <= all.len(),
            crumb_views(all@) == views,
            all@.len() == views.len(),
            crumbs.len() == i - 1,
            forall|k: int|
                0 <= k < crumbs.len() ==> {
                    &&& (#[trigger] crumbs@[k]).label@ == views[k + 1].0
                    &&& crumbs@[k].path@ == views[k + 1].1
                    &&& crumbs@[k].last == (k + 1 == views.len() - 1)
                },
        decreases all.len() - i,
    {
        proof {
            assert(crumb_views(all@)[i as int] == (all@[i as int].0@, all@[i as int].1@));
        }
        crumbs.push(
            Crumb {
                label: all[i].0.clone(),
                path: all[i].1.clone(),
                last: i == all.len() - 1,
            },
        );
        i = i + 1;
    }
    crumbs
}

fn folder_list(flow: &AddSpaceFlow) -> (list: PaletteList)
    ensures
        list_shows(list, *flow),
{
    match &flow.browser {
        Loadable::Idle => PaletteList::Skeleton,
        Loadable::Loading => PaletteList::Skeleton,
        Loadable::Error(message) => {
            let line = match &flow.device {
                Some(d) => text::joined(d.name.as_str(), " didn't respond — is it online?"),
                None => message.clone(),
            };
            PaletteList::Failed(line)
        },
        Loadable::Ready(listing) => {
            let rows = filter_folders(listing, flow.query.as_str());
            let ghost all = filtered_in(*listing, flow.query@);
            proof {
                assert(pointees(rows@).len() == rows@.len());
            }
            if rows.len() == 0 {
                let words = if text::empty(flow.query.as_str()) {
                    "No folders here"
                } else {
                    "No folders match"
                };
                return PaletteList::Nothing(words.to_owned());
            }
            let mut shown: Vec<FolderRow> = Vec::new();
            let mut i: usize = 0;
            while i < rows.len()
                invariant
                    i <= rows.len(),
                    pointees(rows@) == all,
                    shown.len() == i,
                    forall|k: int|
                        0 <= k < i ==> {
                            &&& (#[trigger] shown@[k]).name == all[k].name
                            &&& shown@[k].path@ == child_of(listing.path@, all[k].name@)
                            &&& shown@[k].is_repo == all[k].is_repo
                            &&& shown@[k].active == (k == flow.active)
                        },
                decreases rows.len() - i,
            {
                let entry = rows[i];
                proof {
                    assert(pointees(rows@)[i as int] == *entry);
                }
                shown.push(
                    FolderRow {
                        name: entry.name.clone(),
                        path: child_path(listing.path.as_str(), entry.name.as_str()),
                        is_repo: entry.is_repo,
                        active: i == flow.active,
                    },
                );
                i = i + 1;
            }
            PaletteList::Rows(shown)
        },
    }
}

impl Shell {
    /// What the palette shows, while it is open, and whether its search input gets the focus: on the
    /// first drawing after the palette was opened, and on no other.
    pub fn add_space_overlay(&mut self, state: &AppState) -> (r: (Option<PaletteView>, bool))
        ensures
            r.1 == (old(self).add_space matches Some(flow) && flow.focus_pending),
            match old(self).add_space {
                Some(flow) => *final(self) == (Shell {
                    add_space: Some(AddSpaceFlow { focus_pending: false, ..flow }),
                    ..*old(self)
                }),
                None => *final(self) == *old(self),
            },
            match old(self).add_space {
                None => r.0 is None,
                Some(flow) => r.0 matches Some(v) && {
                    &&& tabs_show(v.tabs@, flow, *state)
                    &&& match flow.browser {
                        Loadable::Ready(listing) => crumbs_show(v.crumbs@, listing.path@),
                        _ => v.crumbs@.len() == 0,
                    }
                    &&& list_shows(v.list, flow)
                    &&& v.error == flow.error
                    &&& v.submit_label@ == (if flow.submit_busy {
                        "Adding…"@
                    } else {
                        "Enter"@
                    })
                    &&& v.submit_ready == (!flow.submit_busy && flow.browser is Ready)
                },
            },
    {
        match self.add_space.take() {
            None => (None, false),
            Some(flow) => {
                let crumbs = match &flow.browser {
                    Loadable::Ready(listing) => path_line(listing.path.as_str()),
                    _ => Vec::new(),
                };
                let ready = match &flow.browser {
                    Loadable::Ready(_) => true,
                    _ => false,
                };
                let label = if flow.submit_busy {
                    "Adding…"
                } else {
                    "Enter"
                };
                let view = PaletteView {
                    tabs: device_tabs(&flow, state),
                    crumbs,
                    list: folder_list(&flow),
                    error: text::copied(&flow.error),
                    submit_label: label.to_owned(),
                    submit_ready: !flow.submit_busy && ready,
                };
                let focus = flow.focus_pending;
                self.add_space = Some(AddSpaceFlow { focus_pending: false, ..flow });
                (Some(view), focus)
            },
        }
    }
}

} // verus!
