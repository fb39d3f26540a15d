//! Keyboard handling of the pickers.

use crate::model::{Chat, Repo};
use crate::pickers::browse::{
    browse_enter, browser_rows, entered, folder_rows, parent_of, parent_path, BrowseEnter,
};
use crate::pickers::draft::DraftConfig;
use crate::pickers::state::{repo_rows, PickerCall, PickerKind, Pickers, RepoPane};
use crate::popover;
use crate::popover::{stepped, Loadable, MenuKey};
use crate::text;
use vstd::prelude::*;

verus! {

/// Enter on a browser row: a plain directory is gone into, a repository is added.
pub open spec fn browser_activated(
    before: Pickers,
    after: Pickers,
    engine_attached: bool,
    call: Option<PickerCall>,
) -> bool {
    match before.browser {
        Loadable::Ready(listing) => exists|what: Option<BrowseEnter>| #[trigger]
            entered(listing, before.active as int, what) && (match what {
                Some(BrowseEnter::Descend(path)) => Pickers::folder_asked(
                    before,
                    after,
                    Some(path),
                    engine_attached,
                    call,
                ),
                Some(BrowseEnter::Pick(path)) => Pickers::form_sent(
                    before,
                    after,
                    engine_attached,
                    PickerCall::AddRepo(path),
                    call,
                ),
                None => after == before && call is None,
            }),
        _ => after == before && call is None,
    }
}

/// The rows of the repository list of pickers.
pub open spec fn listed(p: Pickers, chats: Seq<Chat>, rows: Seq<Repo>) -> bool {
    match p.repos {
        Loadable::Ready(repos) => repo_rows(repos@, chats, p.search@, rows),
        _ => rows.len() == 0,
    }
}

/// Submitting the search: a form is sent, or the highlighted repository or branch is picked.
pub open spec fn search_submitted(
    before: Pickers,
    after: Pickers,
    chats: Seq<Chat>,
    engine_attached: bool,
    call: Option<PickerCall>,
) -> bool {
    match before.open {
        Some(PickerKind::Repo) => match before.repo_pane {
            RepoPane::CloneUrl | RepoPane::CreateName => {
                &&& call is Some <==> before.form_ready() && engine_attached
                &&& call matches Some(sent) ==> before.form_call(sent) && after == (Pickers {
                    form_busy: true,
                    form_error: None,
                    ..before
                })
                &&& call is None ==> after == before
            },
            RepoPane::List => call is None && exists|rows: Seq<Repo>| #[trigger]
                listed(before, chats, rows) && after == (if before.active < rows.len() {
                    before.repo_picked(rows[before.active as int])
                } else {
                    before
                }),
            RepoPane::Browser => call is None && after == before,
        },
        Some(PickerKind::Branch) => call is None && after == (if before.active
            < before.branch_rows().len() {
            Pickers {
                config: DraftConfig {
                    branch: Some(before.branch_rows()[before.active as int]),
                    ..before.config
                },
                open: None,
                ..before
            }
        } else {
            before
        }),
        _ => call is None && after == before,
    }
}

/// How many rows the open list has.
pub open spec fn row_count(p: Pickers, chats: Seq<Chat>, count: nat) -> bool {
    match p.open {
        Some(PickerKind::Repo) => match p.repo_pane {
            RepoPane::List => exists|rows: Seq<Repo>| #[trigger]
                listed(p, chats, rows) && count == rows.len(),
            RepoPane::Browser => count == (match p.browser {
                Loadable::Ready(listing) => folder_rows(listing).len(),
                _ => 0,
            }),
            _ => count == 0,
        },
        Some(PickerKind::Branch) => count == p.branch_rows().len(),
        _ => count == 0,
    }
}

/// The highlighted row after a step in a list, 0 in an empty one.
pub open spec fn highlight_stepped(active: usize, count: nat, delta: int) -> usize {
    match stepped(Some(active), count as usize, delta) {
        Some(at) => at,
        None => 0,
    }
}

/// Escape leaves a pane of the repository popover, or closes the popover.
pub open spec fn escaped(p: Pickers) -> Pickers {
    if p.open == Some(PickerKind::Repo) && p.repo_pane != RepoPane::List {
        Pickers { repo_pane: RepoPane::List, form_error: None, active: 0, ..p }
    } else {
        Pickers { open: None, ..p }
    }
}

/// The folder browser is shown.
pub open spec fn browsing(p: Pickers) -> bool {
    p.open == Some(PickerKind::Repo) && p.repo_pane == RepoPane::Browser
}

impl Pickers {
    /// Takes Enter on the highlighted browser row.
    pub fn browser_activate(&mut self, engine_attached: bool) -> (call: Option<PickerCall>)
        ensures
            browser_activated(*old(self), *final(self), engine_attached, call),
    {
        let what = match &self.browser {
            Loadable::Ready(listing) => browse_enter(listing, self.active),
            _ => None,
        };
        match what {
            Some(BrowseEnter::Descend(path)) => self.load_folders(Some(path), engine_attached),
            Some(BrowseEnter::Pick(path)) => self.add_repo_path(path, engine_attached),
            None => None,
        }
    }

    /// Takes a submit of the search.
    pub fn on_search_submit(&mut self, chats: &[Chat], engine_attached: bool) -> (call: Option<
        PickerCall,
    >)
        ensures
            search_submitted(*old(self), *final(self), chats@, engine_attached, call),
    {
        match self.open {
            Some(PickerKind::Repo) => match self.repo_pane {
                RepoPane::CloneUrl | RepoPane::CreateName => self.submit_repo_form(engine_attached),
                RepoPane::List => {
                    let mut rows = self.filtered_repo_rows(chats);
                    proof {
                        assert(listed(*self, chats@, rows@));
                    }
                    if self.active < rows.len() {
                        let repo = rows.swap_remove(self.active);
                        self.pick_repo(repo);
                    }
                    None
                },
                RepoPane::Browser => None,
            },
            Some(PickerKind::Branch) => {
                let rows = self.filtered_branch_rows();
                if self.active < rows.len() {
                    let branch = rows[self.active].clone();
                    self.pick_branch(branch);
                }
                None
            },
            _ => None,
        }
    }

    fn count_rows(&self, chats: &[Chat]) -> (n: usize)
        ensures
            row_count(*self, chats@, n as nat),
    {
        match self.open {
            Some(PickerKind::Repo) => match self.repo_pane {
                RepoPane::List => {
                    let rows = self.filtered_repo_rows(chats);
                    proof {
                        assert(listed(*self, chats@, rows@));
                    }
                    rows.len()
                },
                RepoPane::Browser => match &self.browser {
                    Loadable::Ready(listing) => {
                        let rows = browser_rows(listing);
                        rows.len()
                    },
                    _ => 0,
                },
                _ => 0,
            },
            Some(PickerKind::Branch) => {
                let rows = self.filtered_branch_rows();
                rows.len()
            },
            _ => 0,
        }
    }

    /// Takes a key of the popover.
    pub fn on_key_down(
        &mut self,
        key: MenuKey,
        search_focused: bool,
        chats: &[Chat],
        engine_attached: bool,
    ) -> (call: Option<PickerCall>)
        ensures
            match key {
                MenuKey::Escape => call is None && *final(self) == escaped(*old(self)),
                MenuKey::Up | MenuKey::Down => call is None && exists|count: nat| #[trigger]
                    row_count(*old(self), chats@, count) && count <= usize::MAX && *final(self) == (
                    Pickers {
                        active: highlight_stepped(
                            old(self).active,
                            count,
                            if key == MenuKey::Up {
                                -1
                            } else {
                                1
                            },
                        ),
                        ..*old(self)
                    }),
                MenuKey::Enter => if search_focused {
                    call is None && *final(self) == *old(self)
                } else if browsing(*old(self)) {
                    browser_activated(*old(self), *final(self), engine_attached, call)
                } else {
                    search_submitted(*old(self), *final(self), chats@, engine_attached, call)
                },
                MenuKey::ModEnter => match old(self).browser {
                    Loadable::Ready(listing) if browsing(*old(self)) => Pickers::form_sent(
                        *old(self),
                        *final(self),
                        engine_attached,
                        PickerCall::AddRepo(listing.path),
                        call,
                    ),
                    _ => call is None && *final(self) == *old(self),
                },
                MenuKey::Backspace => match old(self).browser {
                    Loadable::Ready(listing) if browsing(*old(self)) && (!search_focused
                        || old(self).search@.len() == 0) && parent_of(listing.path@) is Some => exists|
                        parent: String,
                    |
                        parent@ == parent_of(listing.path@)->0 && #[trigger] Pickers::folder_asked(
                            *old(self),
                            *final(self),
                            Some(parent),
                            engine_attached,
                            call,
                        ),
                    _ => call is None && *final(self) == *old(self),
                },
                MenuKey::Other => call is None && *final(self) == *old(self),
            },
    {
        match key {
            MenuKey::Escape => {
                if self.open == Some(PickerKind::Repo) && self.repo_pane != RepoPane::List {
                    self.repo_pane = RepoPane::List;
                    self.form_error = None;
                    self.active = 0;
                } else {
                    self.open = None;
                }
                None
            },
            MenuKey::Up | MenuKey::Down => {
                let delta: isize = if key == MenuKey::Up {
                    -1
                } else {
                    1
                };
                let count: usize = self.count_rows(chats);
                self.active = match popover::menu_step(Some(self.active), count, delta) {
                    Some(at) => at,
                    None => 0,
                };
                None
            },
            MenuKey::Enter => {
                if search_focused {
                    None
                } else if self.open == Some(PickerKind::Repo) && self.repo_pane
                    == RepoPane::Browser {
                    self.browser_activate(engine_attached)
                } else {
                    self.on_search_submit(chats, engine_attached)
                }
            },
            MenuKey::ModEnter => {
                if self.open == Some(PickerKind::Repo) && self.repo_pane == RepoPane::Browser {
                    let path = match &self.browser {
                        Loadable::Ready(listing) => listing.path.clone(),
                        _ => {
                            return None;
                        },
                    };
                    self.add_repo_path(path, engine_attached)
                } else {
                    None
                }
            },
            MenuKey::Backspace => {
                if search_focused && !text::empty(self.search.as_str()) {
                    return None;
                }
                if self.open == Some(PickerKind::Repo) && self.repo_pane == RepoPane::Browser {
                    let parent = match &self.browser {
                        Loadable::Ready(listing) => parent_path(listing.path.as_str()),
                        _ => None,
                    };
                    match parent {
                        Some(parent) => self.load_folders(Some(parent), engine_attached),
                        None => None,
                    }
                } else {
                    None
                }
            },
            MenuKey::Other => None,
        }
    }
}

} // verus!
