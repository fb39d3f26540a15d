//! The rows that the engine synchronizes, as the views read them.

use crate::lists::pointee;
use crate::text;
use crate::time::Timestamp;
use vstd::prelude::*;

verus! {

/// The options of a model, `serde_json::Map`, are carried as they are.
#[verifier::external_type_specification]
#[verifier::external_body]
#[verifier::reject_recursive_types(K)]
#[verifier::reject_recursive_types(V)]
pub struct ExJsonMap<K, V>(serde_json::Map<K, V>);

/// A value of `serde_json`, opaque here.
#[verifier::external_type_specification]
#[verifier::external_body]
pub struct ExJsonValue(serde_json::Value);

/// Which coding agent runs a chat.
#[derive(Clone, Copy, Debug, PartialEq, Eq, Hash, Structural)]
pub enum HarnessId {
    ClaudeCode,
    Codex,
    Cursor,
    Mock,
}

/// How hard a model should think.
#[derive(Clone, Copy, Debug, PartialEq, Eq, Structural)]
pub enum ReasoningLevel {
    Minimal,
    Low,
    Medium,
    High,
    XHigh,
    Max,
    Ultra,
    Ultracode,
    Ultrathink,
}

/// What a run may touch.
#[derive(Clone, Copy, Debug, PartialEq, Eq, Structural)]
pub enum SandboxLevel {
    ReadOnly,
    WorkspaceWrite,
    FullAccess,
}

/// What a chat runs with.
#[derive(Debug, PartialEq)]
pub struct ChatConfig {
    pub harness: HarnessId,
    pub model: Option<String>,
    pub reasoning: Option<ReasoningLevel>,
    pub model_options: serde_json::Map<String, serde_json::Value>,
    pub sandbox: SandboxLevel,
}

/// `Clone::clone` of `serde_json::Map`: the copy is the same map.
#[verifier::external_body]
pub(crate) fn clone_options(
    options: &serde_json::Map<String, serde_json::Value>,
) -> (copy: serde_json::Map<String, serde_json::Value>)
    ensures
        copy == *options,
{
    options.clone()
}

impl Clone for ChatConfig {
    fn clone(&self) -> (copy: Self)
        ensures
            copy == *self,
    {
        ChatConfig {
            harness: self.harness,
            model: text::copied(&self.model),
            reasoning: self.reasoning,
            model_options: clone_options(&self.model_options),
            sandbox: self.sandbox,
        }
    }
}

/// A chat row.
#[derive(Debug, PartialEq)]
pub struct Chat {
    pub id: String,
    pub device_id: String,
    pub title: Option<String>,
    /// The title on one line, as rows and tabs show it. How the transcript folds a text into one line is
    /// decided where the row is read.
    pub title_line: Option<String>,
    pub archived: bool,
    pub cwd: Option<String>,
    pub branch: Option<String>,
    pub checkout_id: Option<String>,
    pub config: Option<ChatConfig>,
    pub last_message_preview: Option<String>,
    pub last_message_at: Option<Timestamp>,
    pub created_at: Timestamp,
    pub harness_session_id: Option<String>,
    pub harness_session_cwd: Option<String>,
    pub space_id: Option<String>,
    /// The synced marker of when somebody last looked at the chat.
    pub last_seen_at: Option<Timestamp>,
}

impl Clone for Chat {
    fn clone(&self) -> (copy: Self)
        ensures
            copy == *self,
    {
        Chat {
            id: self.id.clone(),
            device_id: self.device_id.clone(),
            title: text::copied(&self.title),
            title_line: text::copied(&self.title_line),
            archived: self.archived,
            cwd: text::copied(&self.cwd),
            branch: text::copied(&self.branch),
            checkout_id: text::copied(&self.checkout_id),
            config: match &self.config {
                Some(config) => Some(config.clone()),
                None => None,
            },
            last_message_preview: text::copied(&self.last_message_preview),
            last_message_at: self.last_message_at,
            created_at: self.created_at,
            harness_session_id: text::copied(&self.harness_session_id),
            harness_session_cwd: text::copied(&self.harness_session_cwd),
            space_id: text::copied(&self.space_id),
            last_seen_at: self.last_seen_at,
        }
    }
}

/// A folder of a device whose chats share a tab strip.
#[derive(Debug, PartialEq)]
pub struct Space {
    pub id: String,
    pub device_id: String,
    pub path: String,
    pub name: Option<String>,
    /// The words that stand for the space in lists.
    pub display_name: String,
    pub git_detected: bool,
    pub git_checked_at: Option<Timestamp>,
    pub checkout_id: Option<String>,
    pub created_at: Timestamp,
}

impl Clone for Space {
    fn clone(&self) -> (copy: Self)
        ensures
            copy == *self,
    {
        Space {
            id: self.id.clone(),
            device_id: self.device_id.clone(),
            path: self.path.clone(),
            name: text::copied(&self.name),
            display_name: self.display_name.clone(),
            git_detected: self.git_detected,
            git_checked_at: self.git_checked_at,
            checkout_id: text::copied(&self.checkout_id),
            created_at: self.created_at,
        }
    }
}

/// What a run is doing.
#[derive(Clone, Copy, Debug, PartialEq, Eq, Structural)]
pub enum SessionStatus {
    Idle,
    Working,
    AwaitingInput,
    Errored,
}

/// The run of a chat.
#[derive(Debug, PartialEq)]
pub struct Session {
    pub chat_id: String,
    pub device_id: String,
    pub status: SessionStatus,
    pub started_at: Option<Timestamp>,
    pub updated_at: Timestamp,
}

/// A machine that runs an engine.
#[derive(Debug, PartialEq)]
pub struct Device {
    pub id: String,
    pub name: String,
    pub last_seen_at: Option<Timestamp>,
}

impl Clone for Device {
    fn clone(&self) -> (copy: Self)
        ensures
            copy == *self,
    {
        Device {
            id: self.id.clone(),
            name: self.name.clone(),
            last_seen_at: self.last_seen_at,
        }
    }
}

/// Who is signed in.
#[derive(Debug, PartialEq, Eq)]
pub struct UserProfile {
    pub id: String,
    pub email: String,
    pub name: Option<String>,
}

impl Clone for UserProfile {
    fn clone(&self) -> (copy: Self)
        ensures
            copy == *self,
    {
        UserProfile {
            id: self.id.clone(),
            email: self.email.clone(),
            name: text::copied(&self.name),
        }
    }
}

/// Where the sign-in stands.
#[derive(Debug, PartialEq, Eq)]
pub enum AuthState {
    SignedOut,
    NeedsOrganization { user: UserProfile },
    SignedIn { user: UserProfile, org_id: Option<String> },
}

/// What a chat row or a tab shows.
#[derive(Clone, Copy, Debug, PartialEq, Eq, Structural)]
pub enum ChatIndicator {
    Working,
    AwaitingInput,
    Errored,
    Completed,
    Idle,
}

/// The instant by which a chat ranks as recent: its last message, or its creation.
pub open spec fn recency(chat: Chat) -> int {
    match chat.last_message_at {
        Some(t) => t@,
        None => chat.created_at@,
    }
}

/// A chat is unseen when it holds a message that is newer than the seen marker.
pub open spec fn is_unseen(chat: Chat) -> bool {
    match (chat.last_message_at, chat.last_seen_at) {
        (Some(message), Some(seen)) => seen@ < message@,
        (Some(_), None) => true,
        (None, _) => false,
    }
}

/// What a chat shows, given the session that counts as live: a run in progress wins, an error shows
/// until it is seen, and an unseen message shows as completed.
pub open spec fn indicator_of(chat: Chat, session: Option<Session>) -> ChatIndicator {
    match session {
        Some(s) if s.status == SessionStatus::Working => ChatIndicator::Working,
        Some(s) if s.status == SessionStatus::AwaitingInput => ChatIndicator::AwaitingInput,
        Some(s) if s.status == SessionStatus::Errored && is_unseen(chat) => ChatIndicator::Errored,
        Some(s) if s.status == SessionStatus::Errored => ChatIndicator::Idle,
        _ => if is_unseen(chat) {
            ChatIndicator::Completed
        } else {
            ChatIndicator::Idle
        },
    }
}

impl Chat {
    /// Whether a message came after the last look.
    pub fn unseen(&self) -> (r: bool)
        ensures
            r == is_unseen(*self),
    {
        match (&self.last_message_at, &self.last_seen_at) {
            (Some(message), Some(seen)) => seen.before(message),
            (Some(_), None) => true,
            (None, _) => false,
        }
    }

    /// The instant by which the chat ranks as recent.
    pub fn recent_at(&self) -> (t: Timestamp)
        ensures
            t@ == recency(*self),
    {
        match self.last_message_at {
            Some(t) => t,
            None => self.created_at,
        }
    }
}

/// What a chat shows, given the session that counts as live.
pub fn chat_indicator(chat: &Chat, session: Option<&Session>) -> (r: ChatIndicator)
    ensures
        r == indicator_of(*chat, pointee(session)),
{
    if let Some(s) = session {
        match s.status {
            SessionStatus::Working => {
                return ChatIndicator::Working;
            },
            SessionStatus::AwaitingInput => {
                return ChatIndicator::AwaitingInput;
            },
            SessionStatus::Errored => {
                return if chat.unseen() {
                    ChatIndicator::Errored
                } else {
                    ChatIndicator::Idle
                };
            },
            SessionStatus::Idle => {},
        }
    }
    if chat.unseen() {
        ChatIndicator::Completed
    } else {
        ChatIndicator::Idle
    }
}

/// Who wrote a message.
#[derive(Clone, Copy, Debug, PartialEq, Eq, Structural)]
pub enum MessageRole {
    User,
    Assistant,
    System,
}

/// A piece of a message; only its text is read here.
#[derive(Debug, PartialEq)]
pub enum MessagePart {
    Text { text: String },
    Other,
}

/// One entry of a transcript.
#[derive(Debug, PartialEq)]
pub struct SessionMessageEntry {
    pub id: String,
    pub role: MessageRole,
    pub parts: Vec<MessagePart>,
    pub created_at: i64,
    pub device_id: String,
    pub status: Option<String>,
    pub continuation_of: Option<String>,
}

// ---------------------------------------------------------------------------
// Repositories, folders and models
// ---------------------------------------------------------------------------

/// A repository.
#[derive(Debug, PartialEq, Eq)]
pub struct Repo {
    pub path: String,
    pub name: String,
    pub default_branch: Option<String>,
}

impl Clone for Repo {
    fn clone(&self) -> (copy: Self)
        ensures
            copy == *self,
    {
        Repo {
            path: self.path.clone(),
            name: self.name.clone(),
            default_branch: text::copied(&self.default_branch),
        }
    }
}

/// One entry of a folder.
#[derive(Debug, PartialEq, Eq)]
pub struct FolderEntry {
    pub name: String,
    pub is_dir: bool,
    pub is_repo: bool,
}

/// What a folder holds.
#[derive(Debug, PartialEq, Eq)]
pub struct FolderListing {
    pub path: String,
    pub entries: Vec<FolderEntry>,
    pub truncated: bool,
}

/// A choice of a model option.
#[derive(Debug, PartialEq, Eq)]
pub struct ModelOptionChoice {
    pub id: String,
    pub label: String,
}

/// An option that a model advertises.
#[derive(Debug, PartialEq, Eq)]
pub struct ModelOption {
    pub id: String,
    pub label: String,
    pub choices: Vec<ModelOptionChoice>,
    pub default_choice: String,
}

/// A model.
#[derive(Debug, PartialEq, Eq)]
pub struct Model {
    pub id: String,
    pub label: String,
    pub reasoning_levels: Vec<ReasoningLevel>,
    pub options: Vec<ModelOption>,
}

/// A coding agent as the engine describes it.
#[derive(Debug, PartialEq, Eq)]
pub struct HarnessDescriptor {
    pub id: HarnessId,
    pub name: String,
    pub supports_steering: bool,
    pub reasoning_levels: Vec<ReasoningLevel>,
}

} // verus!
