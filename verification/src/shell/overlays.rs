//! What floats above the panes: context menus, dialogs, the user menu and the card at boot.

use crate::gate::GatePhase;
use crate::model::UserProfile;
use crate::shell::frame::{user_lines, RenameSpaceDialog, Shell};
use crate::shell::spaces::{removal_text, removal_warning};
use crate::state::AppState;
use crate::text::text_opt;
use vstd::prelude::*;

verus! {

/// A row of a context menu.
#[derive(Debug, Clone, Copy, PartialEq, Eq, Structural)]
pub enum MenuItem {
    Rename,
    Archive,
    Delete,
    Remove,
}

impl MenuItem {
    /// The words of a row.
    pub open spec fn words(self) -> Seq<char> {
        match self {
            MenuItem::Rename => "Rename…"@,
            MenuItem::Archive => "Archive"@,
            MenuItem::Delete => "Delete…"@,
            MenuItem::Remove => "Remove…"@,
        }
    }

    pub fn label(self) -> (r: &'static str)
        ensures
            r@ == self.words(),
    {
        match self {
            MenuItem::Rename => "Rename…",
            MenuItem::Archive => "Archive",
            MenuItem::Delete => "Delete…",
            MenuItem::Remove => "Remove…",
        }
    }
}

/// One layer above the panes.
#[derive(Debug, PartialEq, Eq)]
pub enum Overlay {
    /// The context menu of a chat.
    ChatMenu { chat_id: String, items: Vec<MenuItem> },
    /// The rename dialog of a chat.
    RenameChat { chat_id: String, title: String },
    /// The question before a chat is deleted.
    DeleteChat { chat_id: String, title: String, body: String },
    /// The context menu of a space.
    SpaceMenu { space_id: String, items: Vec<MenuItem> },
    /// The rename dialog of a space.
    RenameSpace { space_id: String, title: String },
    /// The question before a space is removed.
    RemoveSpace { space_id: String, title: String, body: String },
}

/// The layers of the chats, from the lowest up: menu, rename dialog, question.
pub open spec fn chat_layers_show(layers: Seq<Overlay>, shell: Shell) -> bool {
    let menu: int = if shell.chat_menu is Some {
        1
    } else {
        0
    };
    let rename: int = if shell.rename_dialog is Some {
        1
    } else {
        0
    };
    let delete: int = if shell.delete_confirm is Some {
        1
    } else {
        0
    };
    &&& layers.len() == menu + rename + delete
    &&& shell.chat_menu matches Some(id) ==> (layers[0] matches Overlay::ChatMenu { chat_id, items }
        && chat_id == id && items@ == seq![MenuItem::Rename, MenuItem::Archive, MenuItem::Delete])
    &&& shell.rename_dialog matches Some(id) ==> (layers[menu] matches Overlay::RenameChat {
        chat_id,
        title,
    } && chat_id == id && title@ == "Rename session"@)
    &&& shell.delete_confirm matches Some(id) ==> (layers[menu + rename] matches Overlay::DeleteChat {
        chat_id,
        title,
        body,
    } && chat_id == id && title@ == "Delete this session?"@ && body@
        == "The chat disappears from every device. The transcript doc is kept."@)
}

/// The layers of the spaces, from the lowest up: menu, rename dialog, question.
pub open spec fn space_layers_show(layers: Seq<Overlay>, shell: Shell, state: AppState) -> bool {
    let menu: int = if shell.space_menu is Some {
        1
    } else {
        0
    };
    let rename: int = if shell.rename_space_dialog is Some {
        1
    } else {
        0
    };
    let remove: int = if shell.delete_space_confirm is Some {
        1
    } else {
        0
    };
    &&& layers.len() == menu + rename + remove
    &&& shell.space_menu matches Some(id) ==> (layers[0] matches Overlay::SpaceMenu { space_id, items }
        && space_id == id && items@ == seq![MenuItem::Rename, MenuItem::Remove])
    &&& shell.rename_space_dialog matches Some(dialog) ==> (
    layers[menu] matches Overlay::RenameSpace { space_id, title } && space_id == dialog.space_id
        && title@ == "Rename space"@)
    &&& shell.delete_space_confirm matches Some(id) ==> (layers[menu
        + rename] matches Overlay::RemoveSpace { space_id, title, body } && space_id == id && title@
        == "Remove space?"@ && body@ == removal_text(state, id@))
}

fn chat_items() -> (items: Vec<MenuItem>)
    ensures
        items@ == seq![MenuItem::Rename, MenuItem::Archive, MenuItem::Delete],
{
    let mut items: Vec<MenuItem> = Vec::new();
    items.push(MenuItem::Rename);
    items.push(MenuItem::Archive);
    items.push(MenuItem::Delete);
    items
}

fn space_items() -> (items: Vec<MenuItem>)
    ensures
        items@ == seq![MenuItem::Rename, MenuItem::Remove],
{
    let mut items: Vec<MenuItem> = Vec::new();
    items.push(MenuItem::Rename);
    items.push(MenuItem::Remove);
    items
}

impl Shell {
    /// The context menu and the dialogs of the chats.
    pub fn chat_overlays(&self) -> (layers: Vec<Overlay>)
        ensures
            chat_layers_show(layers@, *self),
    {
        let mut layers: Vec<Overlay> = Vec::new();
        if let Some(id) = &self.chat_menu {
            layers.push(Overlay::ChatMenu { chat_id: id.clone(), items: chat_items() });
        }
        if let Some(id) = &self.rename_dialog {
            layers.push(
                Overlay::RenameChat { chat_id: id.clone(), title: "Rename session".to_owned() },
            );
        }
        if let Some(id) = &self.delete_confirm {
            layers.push(
                Overlay::DeleteChat {
                    chat_id: id.clone(),
                    title: "Delete this session?".to_owned(),
                    body: "The chat disappears from every device. The transcript doc is kept.".to_owned(),
                },
            );
        }
        layers
    }

    /// The context menu and the dialogs of the spaces, and whether the input of the rename dialog gets
    /// the focus: on the first drawing after the dialog was opened, and on no other.
    pub fn space_overlays(&mut self, state: &AppState) -> (r: (Vec<Overlay>, bool))
        ensures
            space_layers_show(r.0@, *old(self), *state),
            r.1 == (old(self).rename_space_dialog matches Some(dialog) && dialog.focus_pending),
            match old(self).rename_space_dialog {
                Some(dialog) => *final(self) == (Shell {
                    rename_space_dialog: Some(RenameSpaceDialog { focus_pending: false, ..dialog }),
                    ..*old(self)
                }),
                None => *final(self) == *old(self),
            },
    {
        let mut layers: Vec<Overlay> = Vec::new();
        if let Some(id) = &self.space_menu {
            layers.push(Overlay::SpaceMenu { space_id: id.clone(), items: space_items() });
        }
        let mut focus = false;
        if let Some(dialog) = self.rename_space_dialog.take() {
            focus = dialog.focus_pending;
            layers.push(
                Overlay::RenameSpace {
                    space_id: dialog.space_id.clone(),
                    title: "Rename space".to_owned(),
                },
            );
            self.rename_space_dialog = Some(RenameSpaceDialog { focus_pending: false, ..dialog });
        }
        if let Some(id) = &self.delete_space_confirm {
            layers.push(
                Overlay::RemoveSpace {
                    space_id: id.clone(),
                    title: "Remove space?".to_owned(),
                    body: removal_warning(state, id.as_str()),
                },
            );
        }
        (layers, focus)
    }
}

/// The user menu at the foot of the sidebar.
#[derive(Debug, PartialEq, Eq)]
pub struct UserMenu {
    pub line: String,
    pub email: Option<String>,
    pub badge: String,
    /// The line on the plan, while the menu is open.
    pub plan: Option<String>,
}

impl Shell {
    /// The user menu.
    pub fn user_menu(&self, user: Option<&UserProfile>) -> (menu: UserMenu)
        ensures
            match user {
                Some(u) => menu.line == (match u.name {
                    Some(name) => name,
                    None => u.email,
                }) && menu.email == Some(u.email),
                None => menu.line@ == "Not signed in"@ && menu.email is None,
            },
            menu.badge@ == "Alpha"@,
            text_opt(menu.plan) == (if self.user_menu_open {
                Some("Plan: Alpha"@)
            } else {
                None
            }),
    {
        let (line, email) = user_lines(user);
        let plan = if self.user_menu_open {
            Some("Plan: Alpha".to_owned())
        } else {
            None
        };
        UserMenu { line, email, badge: "Alpha".to_owned(), plan }
    }
}

/// The card in front of the shell.
#[derive(Debug, PartialEq, Eq)]
pub struct GateCard {
    pub title: String,
    pub body: String,
    pub action: String,
}

/// The card of a phase: the failure with a retry, or the way to sign in.
pub fn gate_card(phase: &GatePhase) -> (card: GateCard)
    ensures
        match *phase {
            GatePhase::Failed(error) => card.title@ == "Backend unreachable"@ && card.body == error
                && card.action@ == "Retry"@,
            _ => card.title@ == "Sign in"@ && card.body@
                == "Sign in with your browser to connect this device."@ && card.action@
                == "Sign in with browser"@,
        },
{
    match phase {
        GatePhase::Failed(error) => GateCard {
            title: "Backend unreachable".to_owned(),
            body: error.clone(),
            action: "Retry".to_owned(),
        },
        _ => GateCard {
            title: "Sign in".to_owned(),
            body: "Sign in with your browser to connect this device.".to_owned(),
            action: "Sign in with browser".to_owned(),
        },
    }
}

} // verus!
