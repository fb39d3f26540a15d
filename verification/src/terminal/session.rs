//! The life of a tab's terminal: it is opened, then its stream is read, and a stream that drops is
//! subscribed to again from where it stopped, after a growing delay.

use crate::terminal::panel::{
    frame_taken, tab_at, with_tab, ChatTabs, StreamDisposition, TerminalEvent, TerminalPanel,
    TerminalSession, TerminalTab, TerminalWrite,
};
use crate::terminal::tabs;
use crate::terminal::tabs::{backoff_at, title_of_shell};
use crate::text;
use vstd::prelude::*;

verus! {

/// The session of one tab.
#[derive(Debug, PartialEq, Eq)]
pub struct SessionLoop {
    pub chat: String,
    pub key: u64,
    /// How often in a row the stream could not be had.
    pub attempt: u32,
    /// The terminal, once it is opened.
    pub terminal_id: Option<String>,
}

/// What follows an opened terminal.
#[derive(Debug, Clone, Copy, PartialEq, Eq, Structural)]
pub enum Opened {
    /// Read its stream.
    Stream,
    /// Its tab is gone: close it.
    Release,
}

/// The attempt after another failure; the count stops at its largest value.
pub open spec fn next_attempt(attempt: u32) -> u32 {
    if attempt < u32::MAX {
        (attempt + 1) as u32
    } else {
        attempt
    }
}

/// A tab is gone or its process has exited.
pub open spec fn is_done(panel: TerminalPanel, chat: Seq<char>, key: u64) -> bool {
    match tab_at(panel.chats@, chat, key) {
        Some((i, j)) => panel.chats@[i].tabs@[j].exited is Some,
        None => true,
    }
}

impl SessionLoop {
    /// The session of a tab whose terminal is not opened yet.
    pub fn new(chat: &str, key: u64) -> (s: Self)
        ensures
            s.chat@ == chat@,
            s.key == key,
            s.attempt == 0,
            s.terminal_id is None,
    {
        SessionLoop { chat: chat.to_owned(), key, attempt: 0, terminal_id: None }
    }

    /// Takes the opened terminal: the tab gets it and is named after its shell, or, where the tab was
    /// closed meanwhile, the terminal is released.
    pub fn opened(&mut self, panel: &mut TerminalPanel, session: &TerminalSession) -> (next: Opened)
        requires
            old(panel).wf(),
        ensures
            final(panel).wf(),
            *final(panel) == (TerminalPanel { chats: final(panel).chats, ..*old(panel) }),
            match tab_at(old(panel).chats@, old(self).chat@, old(self).key) {
                Some(at) => {
                    let tab = final(panel).chats@[at.0].tabs@[at.1];
                    &&& next == Opened::Stream
                    &&& *final(self) == (SessionLoop {
                        terminal_id: Some(session.id),
                        ..*old(self)
                    })
                    &&& with_tab(
                        old(panel).chats@,
                        final(panel).chats@,
                        at,
                        TerminalTab {
                            terminal_id: Some(session.id),
                            title: tab.title,
                            ..old(panel).chats@[at.0].tabs@[at.1]
                        },
                    )
                    &&& tab.title@ == title_of_shell(session.shell@)
                },
                None => next == Opened::Release && *final(self) == *old(self) && *final(panel)
                    == *old(panel),
            },
    {
        if panel.attach_session(self.chat.as_str(), self.key, session) {
            self.terminal_id = Some(session.id.clone());
            Opened::Stream
        } else {
            Opened::Release
        }
    }

    /// What to subscribe to: the terminal, from after the last frame that arrived; nothing once the tab is
    /// closed or while there is no terminal.
    pub fn subscription(&self, panel: &TerminalPanel) -> (r: Option<(String, u64)>)
        requires
            panel.wf(),
        ensures
            match (tab_at(panel.chats@, self.chat@, self.key), self.terminal_id) {
                (Some((i, j)), Some(id)) => r == Some((id, panel.chats@[i].tabs@[j].last_seq)),
                _ => r is None,
            },
    {
        match (panel.tab_seq_of(self.chat.as_str(), self.key), text::copied(&self.terminal_id)) {
            (Some(after), Some(id)) => Some((id, after)),
            _ => None,
        }
    }

    /// Takes a failed subscription. Returns the delay in milliseconds before the next one.
    pub fn subscribe_failed(&mut self) -> (wait_ms: u64)
        ensures
            wait_ms == backoff_at(old(self).attempt as nat),
            *final(self) == (SessionLoop {
                attempt: next_attempt(old(self).attempt),
                ..*old(self)
            }),
    {
        let wait_ms: u64 = tabs::backoff_ms(self.attempt);
        if self.attempt < u32::MAX {
            self.attempt = self.attempt + 1;
        }
        wait_ms
    }

    /// Takes a frame: the delay starts over, and the panel takes the frame.
    pub fn frame(&mut self, panel: &mut TerminalPanel, event: TerminalEvent) -> (r: (
        StreamDisposition,
        Option<TerminalWrite>,
    ))
        requires
            old(panel).wf(),
        ensures
            final(panel).wf(),
            *final(self) == (SessionLoop { attempt: 0, ..*old(self) }),
            *final(panel) == (TerminalPanel { chats: final(panel).chats, ..*old(panel) }),
            match tab_at(old(panel).chats@, old(self).chat@, old(self).key) {
                None => *final(panel) == *old(panel) && r.0 == StreamDisposition::Stop
                    && r.1 is None,
                Some(at) => frame_taken(
                    old(panel).chats@,
                    final(panel).chats@,
                    at,
                    event,
                    r.0,
                    r.1,
                ),
            },
    {
        self.attempt = 0;
        panel.apply_stream_event(self.chat.as_str(), self.key, event)
    }

    /// Takes the end of a stream. A tab that is gone or has exited ends the session; otherwise the delay in
    /// milliseconds before the next subscription comes back.
    pub fn stream_ended(&mut self, panel: &TerminalPanel) -> (wait_ms: Option<u64>)
        requires
            panel.wf(),
        ensures
            is_done(*panel, old(self).chat@, old(self).key) ==> wait_ms is None && *final(self)
                == *old(self),
            !is_done(*panel, old(self).chat@, old(self).key) ==> wait_ms == Some(
                backoff_at(old(self).attempt as nat) as u64,
            ) && *final(self) == (SessionLoop {
                attempt: next_attempt(old(self).attempt),
                ..*old(self)
            }),
    {
        if panel.tab_done(self.chat.as_str(), self.key) {
            return None;
        }
        proof {
            tabs::backoff_is_bounded(self.attempt as nat);
        }
        Some(self.subscribe_failed())
    }
}

/// Failures in a row double the delay up to its ceiling, and one frame starts over.
pub proof fn delay_grows_until_a_frame(attempt: u32)
    ensures
        backoff_at(next_attempt(attempt) as nat) == (if 2 * backoff_at(attempt as nat) <= 8_000 {
            2 * backoff_at(attempt as nat)
        } else {
            8_000
        }),
        backoff_at(0) == 500,
{
    tabs::backoff_is_bounded(attempt as nat);
}

/// A stream that drops is read on from the last frame that was taken: that frame's number is what the next
/// subscription starts after. Only an exit ends it.
pub proof fn streams_resume_after_the_last_frame(
    before: Seq<ChatTabs>,
    after: Seq<ChatTabs>,
    at: (int, int),
    event: TerminalEvent,
    goes_on: StreamDisposition,
    write: Option<TerminalWrite>,
)
    requires
        0 <= at.0 < before.len(),
        0 <= at.1 < before[at.0].tabs@.len(),
        frame_taken(before, after, at, event, goes_on, write),
    ensures
        after[at.0].tabs@[at.1].last_seq == (match event {
            TerminalEvent::Data { seq, .. } => seq,
            TerminalEvent::Exit { seq, .. } => seq,
        }),
        goes_on == StreamDisposition::Stop <==> event is Exit,
        event is Exit ==> after[at.0].tabs@[at.1].exited is Some,
        event is Data ==> after[at.0].tabs@[at.1].exited == before[at.0].tabs@[at.1].exited,
{
}

} // verus!
