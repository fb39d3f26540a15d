//! Archived chats, across devices, and bringing them back.

use crate::lists;
use crate::lists::pointees;
use crate::model::{recency, Chat, Device};
use crate::project::{age_text, chat_location, format_time_ago, location_of, seconds_between};
use crate::shell::frame::Mutation;
use crate::text;
use crate::text::text_opt;
use crate::time::Timestamp;
use vstd::prelude::*;

verus! {

/// The test for an archived chat.
pub open spec fn is_archived() -> spec_fn(Chat) -> bool {
    |c: Chat| c.archived
}

/// Archived rows in sidebar order.
pub fn archived_chats(chats: &[Chat]) -> (rows: Vec<&Chat>)
    ensures
        pointees(rows@) == chats@.filter(is_archived()),
{
    let ghost p = is_archived();
    let archived = |c: &Chat| -> (b: bool)
        ensures
            b == p(*c),
        { c.archived };
    lists::select(chats, archived, Ghost(p))
}

/// The archived page.
#[derive(Debug, PartialEq, Eq)]
pub struct ArchivedPage {
    pub error: Option<String>,
    /// Chat that is being brought back.
    pub busy: Option<String>,
}

/// One archived chat.
#[derive(Debug, PartialEq, Eq)]
pub struct ArchivedRow {
    pub chat_id: String,
    pub title: String,
    pub device: String,
    pub time_ago: String,
    pub location: Option<String>,
    pub busy: bool,
    pub action_label: String,
}

/// What the page shows.
#[derive(Debug, PartialEq, Eq)]
pub struct ArchivedView {
    pub rows: Vec<ArchivedRow>,
    /// The number beside the headline, where there is anything to count.
    pub count: Option<usize>,
    pub error: Option<String>,
}

/// The name of a device: the one that was listed last under its id, or the id itself.
pub open spec fn device_label(devices: Seq<Device>, id: Seq<char>) -> Seq<char>
    decreases devices.len(),
{
    if devices.len() == 0 {
        id
    } else if devices.last().id@ == id {
        devices.last().name@
    } else {
        device_label(devices.drop_last(), id)
    }
}

fn label_device(devices: &[Device], id: &String) -> (r: String)
    ensures
        r@ == device_label(devices@, id@),
{
    let mut i: usize = devices.len();
    proof {
        assert(devices@.take(i as int) =~= devices@);
    }
    while i > 0
        invariant
            i <= devices.len(),
            device_label(devices@, id@) == device_label(devices@.take(i as int), id@),
        decreases i,
    {
        if text::same(devices[i - 1].id.as_str(), id.as_str()) {
            return devices[i - 1].name.clone();
        }
        proof {
            assert(devices@.take(i as int).drop_last() =~= devices@.take(i - 1));
        }
        i = i - 1;
    }
    id.clone()
}

/// A row shows a chat.
pub open spec fn row_shows(
    row: ArchivedRow,
    chat: Chat,
    devices: Seq<Device>,
    busy: Option<Seq<char>>,
    now: Timestamp,
) -> bool {
    &&& row.chat_id == chat.id
    &&& row.title@ == (match chat.title {
        Some(title) => title@,
        None => "Untitled session"@,
    })
    &&& row.device@ == device_label(devices, chat.device_id@)
    &&& row.time_ago@ == age_text(seconds_between(recency(chat), now@))
    &&& text_opt(row.location) == location_of(chat)
    &&& row.busy == (busy == Some(chat.id@))
    &&& row.action_label@ == (if row.busy {
        "Unarchiving…"@
    } else {
        "Unarchive"@
    })
}

impl ArchivedPage {
    pub fn new() -> (p: Self)
        ensures
            p.error is None,
            p.busy is None,
    {
        ArchivedPage { error: None, busy: None }
    }

    /// Asks for a chat to be brought back.
    pub fn unarchive(&mut self, chat_id: String, engine_attached: bool) -> (call: Option<Mutation>)
        ensures
            !engine_attached ==> call is None && *final(self) == *old(self),
            engine_attached ==> call == Some(Mutation::SetChatArchived { chat_id, archived: false })
                && *final(self) == (ArchivedPage { busy: Some(chat_id), error: None }),
    {
        if !engine_attached {
            return None;
        }
        self.busy = Some(chat_id.clone());
        self.error = None;
        Some(Mutation::SetChatArchived { chat_id, archived: false })
    }

    /// Takes the answer.
    pub fn unarchive_answered(&mut self, result: Result<(), String>)
        ensures
            final(self).busy is None,
            match result {
                Ok(_) => final(self).error == old(self).error,
                Err(message) => text_opt(final(self).error) == Some("Unarchive failed: "@ + message@),
            },
    {
        self.busy = None;
        if let Err(message) = result {
            self.error = Some(text::joined("Unarchive failed: ", message.as_str()));
        }
    }

    /// Takes a click on the error.
    pub fn dismiss_error(&mut self)
        ensures
            *final(self) == (ArchivedPage { error: None, ..*old(self) }),
    {
        self.error = None;
    }

    /// What the page shows.
    pub fn view(&self, chats: &[Chat], devices: &[Device], now: Timestamp) -> (view: ArchivedView)
        ensures
            ({
                let archived = chats@.filter(is_archived());
                &&& view.error == self.error
                &&& view.count == (if archived.len() > 0 {
                    Some(archived.len() as usize)
                } else {
                    None
                })
                &&& view.rows@.len() == archived.len()
                &&& forall|i: int|
                    0 <= i < view.rows@.len() ==> row_shows(
                        #[trigger] view.rows@[i],
                        archived[i],
                        devices@,
                        text_opt(self.busy),
                        now,
                    )
            }),
    {
        let shown = archived_chats(chats);
        let ghost all = chats@.filter(is_archived());
        let mut rows: Vec<ArchivedRow> = Vec::new();
        let mut i: usize = 0;
        proof {
            assert(pointees(shown@).len() == shown@.len());
        }
        while i < shown.len()
            invariant
                i <= shown.len(),
                pointees(shown@) == all,
                shown@.len() == all.len(),
                rows.len() == i,
                forall|k: int|
                    0 <= k < i ==> row_shows(
                        #[trigger] rows@[k],
                        all[k],
                        devices@,
                        text_opt(self.busy),
                        now,
                    ),
            decreases shown.len() - i,
        {
            let chat = shown[i];
            proof {
                assert(pointees(shown@)[i as int] == *chat);
            }
            let busy = match &self.busy {
                Some(id) => text::same(id.as_str(), chat.id.as_str()),
                None => false,
            };
            let title = match &chat.title {
                Some(title) => title.clone(),
                None => "Untitled session".to_owned(),
            };
            let label = if busy {
                "Unarchiving…"
            } else {
                "Unarchive"
            };
            rows.push(
                ArchivedRow {
                    chat_id: chat.id.clone(),
                    title,
                    device: label_device(devices, &chat.device_id),
                    time_ago: format_time_ago(chat.recent_at(), now),
                    location: chat_location(chat),
                    busy,
                    action_label: label.to_owned(),
                },
            );
            i = i + 1;
        }
        let count = if rows.len() > 0 {
            Some(rows.len())
        } else {
            None
        };
        ArchivedView { rows, count, error: text::copied(&self.error) }
    }
}

} // verus!
