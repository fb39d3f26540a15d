//! Encryption: the states of the vault, what a person can do in each, and the page that shows them.
//!
//! No key material reaches the page but the recovery kit, which is shown once.

use crate::json::{array_member, flag_member, member, text_member, text_or_nothing, Json};
use crate::lists::pointee;
use crate::popover::Loadable;
use crate::text;
use crate::text::{decimal_text, text_opt, trimmed};
use vstd::prelude::*;

verus! {

// ---------------------------------------------------------------------------
// Phases
// ---------------------------------------------------------------------------

/// The phase that a status names.
pub open spec fn phase_in(status: Json) -> Seq<char> {
    text_or_nothing(status, "phase"@)
}

/// Whether an account already has a vault elsewhere.
pub open spec fn has_remote_vault(status: Json) -> bool {
    flag_member(status, "remoteVault"@)
}

/// The headline of a phase.
pub open spec fn phase_title(status: Json) -> Seq<char> {
    let phase = phase_in(status);
    if phase == "ready"@ {
        "Encrypted"@
    } else if phase == "notEnrolled"@ {
        if has_remote_vault(status) {
            "Approve this device"@
        } else {
            "Not set up"@
        }
    } else if phase == "pending"@ {
        "Waiting for approval"@
    } else if phase == "locked"@ {
        "Unlock this device"@
    } else if phase == "keyUpdateRequired"@ {
        "Waiting for encryption keys"@
    } else if phase == "verificationFailed"@ {
        "Sync paused"@
    } else if phase == "revoked"@ {
        "Removed"@
    } else if phase == "unavailable"@ {
        "Not available"@
    } else {
        "Unknown"@
    }
}

/// The explanation of a phase.
pub open spec fn phase_text(status: Json) -> Seq<char> {
    let phase = phase_in(status);
    let reason = text_or_nothing(status, "reason"@);
    if phase == "ready"@ {
        "Synced content is encrypted on your devices. Only approved devices, or someone with your recovery key, can read it."@
    } else if phase == "notEnrolled"@ {
        if has_remote_vault(status) {
            "This account already has an encrypted vault. Approve this device from another device, or use your recovery key."@
        } else {
            "Sessions, files and workspace details are sent to the sync backend in the clear until you set up encryption."@
        }
    } else if phase == "pending"@ {
        "Open Settings → Encryption on an approved device and compare the code below before approving."@
    } else if phase == "locked"@ {
        "Secure key storage is unavailable: "@ + reason
    } else if phase == "keyUpdateRequired"@ {
        "Another device changed the vault's keys; sync resumes once the new keys arrive."@
    } else if phase == "verificationFailed"@ {
        "Data could not be verified: "@ + reason
    } else if phase == "revoked"@ {
        "This device was removed from the vault. Approve it again from another device to resume."@
    } else if phase == "unavailable"@ {
        reason
    } else {
        Seq::empty()
    }
}

/// Human copy for each vault phase: a headline and an explanation.
pub fn phase_copy(status: &Json) -> (r: (&'static str, String))
    ensures
        r.0@ == phase_title(*status),
        r.1@ == phase_text(*status),
{
    let phase = status.get_text_or_empty("phase");
    let phase = phase.as_str();
    let reason = status.get_text_or_empty("reason");
    if text::same(phase, "ready") {
        (
            "Encrypted",
            "Synced content is encrypted on your devices. Only approved devices, or someone with your recovery key, can read it.".to_owned(),
        )
    } else if text::same(phase, "notEnrolled") {
        if status.get_flag("remoteVault") {
            (
                "Approve this device",
                "This account already has an encrypted vault. Approve this device from another device, or use your recovery key.".to_owned(),
            )
        } else {
            (
                "Not set up",
                "Sessions, files and workspace details are sent to the sync backend in the clear until you set up encryption.".to_owned(),
            )
        }
    } else if text::same(phase, "pending") {
        (
            "Waiting for approval",
            "Open Settings → Encryption on an approved device and compare the code below before approving.".to_owned(),
        )
    } else if text::same(phase, "locked") {
        ("Unlock this device", text::joined("Secure key storage is unavailable: ", reason.as_str()))
    } else if text::same(phase, "keyUpdateRequired") {
        (
            "Waiting for encryption keys",
            "Another device changed the vault's keys; sync resumes once the new keys arrive.".to_owned(),
        )
    } else if text::same(phase, "verificationFailed") {
        ("Sync paused", text::joined("Data could not be verified: ", reason.as_str()))
    } else if text::same(phase, "revoked") {
        (
            "Removed",
            "This device was removed from the vault. Approve it again from another device to resume.".to_owned(),
        )
    } else if text::same(phase, "unavailable") {
        ("Not available", reason)
    } else {
        ("Unknown", String::new())
    }
}

/// The page never promises encryption before the vault is ready: the headline says so in that phase and
/// in no other.
pub proof fn encrypted_means_ready(status: Json)
    ensures
        phase_title(status) == "Encrypted"@ <==> phase_in(status) == "ready"@,
{
    reveal_strlit("Encrypted");
    reveal_strlit("Approve this device");
    reveal_strlit("Not set up");
    reveal_strlit("Waiting for approval");
    reveal_strlit("Unlock this device");
    reveal_strlit("Waiting for encryption keys");
    reveal_strlit("Sync paused");
    reveal_strlit("Removed");
    reveal_strlit("Not available");
    reveal_strlit("Unknown");
    let title = phase_title(status);
    if phase_in(status) != "ready"@ {
        assert(title.len() != "Encrypted"@.len());
    }
}

// ---------------------------------------------------------------------------
// The page
// ---------------------------------------------------------------------------

/// What `to_string_pretty` of `serde_json` makes of a JSON value.
pub uninterp spec fn pretty_text(value: serde_json::Value) -> Seq<char>;

/// Calls `to_string_pretty` of `serde_json`: the value as indented JSON text, a fixed function of the
/// value.
#[verifier::external_body]
fn pretty(value: &serde_json::Value) -> (out: String)
    ensures
        out@ == pretty_text(*value),
{
    serde_json::to_string_pretty(value).unwrap_or_default()
}

/// What `Value::get` of `serde_json` finds in a JSON value under a name.
pub uninterp spec fn value_member(value: serde_json::Value, name: Seq<char>) -> Option<
    serde_json::Value,
>;

/// Calls `Value::get` of `serde_json`: the member of an object under a name, a fixed function of the
/// value and the name.
#[verifier::external_body]
fn member_of<'a>(value: &'a serde_json::Value, name: &str) -> (r: Option<&'a serde_json::Value>)
    ensures
        pointee(r) == value_member(*value, name@),
{
    value.get(name)
}

/// What `Value::as_str` of `serde_json` makes of a JSON value.
pub uninterp spec fn value_text(value: serde_json::Value) -> Option<Seq<char>>;

/// Calls `Value::as_str` of `serde_json`: the text, where the value is one, a fixed function of the
/// value.
#[verifier::external_body]
fn text_of(value: &serde_json::Value) -> (r: Option<String>)
    ensures
        text_opt(r) == value_text(*value),
{
    value.as_str().map(str::to_owned)
}

/// The recovery key that a reply to setup holds.
pub open spec fn key_in(reply: serde_json::Value) -> Option<Seq<char>> {
    match value_member(reply, "kit"@) {
        Some(value) => value_text(value),
        None => None,
    }
}

/// The recovery file that a reply to setup holds, as JSON text.
pub open spec fn file_in(reply: serde_json::Value) -> Option<Seq<char>> {
    match value_member(reply, "recoveryFile"@) {
        Some(value) => Some(pretty_text(value)),
        None => None,
    }
}

/// What a reply to setup holds, as far as it is there.
#[derive(Debug, PartialEq, Eq)]
pub struct SetupReply {
    pub kit: Option<String>,
    pub file: Option<String>,
}

/// A text, or nothing where there is none.
pub open spec fn or_nothing(text: Option<Seq<char>>) -> Seq<char> {
    match text {
        Some(s) => s,
        None => Seq::empty(),
    }
}

fn or_empty(text: Option<String>) -> (r: String)
    ensures
        r@ == or_nothing(text_opt(text)),
{
    match text {
        Some(s) => s,
        None => String::new(),
    }
}

/// A request to the vault.
#[derive(Debug, PartialEq, Eq)]
pub enum VaultCall {
    Setup,
    RequestEnrollment,
    CancelEnrollment,
    Approve { request_id: String, code: String },
    Reject { request_id: String },
    Revoke { device_id: String },
    Recover { kit: String },
}

/// Which text prompt is open; the page has one input at a time.
#[derive(Debug, Clone, Copy, PartialEq, Eq, Structural)]
pub enum Prompt {
    /// The recovery key is asked for.
    Recover,
}

/// The recovery kit, shown once after the vault was set up.
#[derive(Debug, PartialEq, Eq)]
pub struct RecoveryKit {
    /// The recovery key.
    pub kit: String,
    /// The recovery file as JSON text.
    pub file: String,
}

/// The encryption page.
pub struct EncryptionPage {
    pub status: Loadable<Json>,
    /// Requests that wait for approval.
    pub pending: Vec<Json>,
    pub kit: Option<RecoveryKit>,
    pub kit_copied: bool,
    pub prompt: Option<Prompt>,
    pub error: Option<String>,
    pub busy: bool,
}

/// Whether a loaded status lets this device see the requests of others.
pub open spec fn is_ready(status: Result<Json, String>) -> bool {
    match status {
        Ok(value) => text_member(value, "phase"@) == Some("ready"@),
        Err(_) => false,
    }
}

/// Whether to ask for the pending requests after a status came: only an approved member may.
pub fn wants_pending(status: &Result<Json, String>) -> (r: bool)
    ensures
        r == is_ready(*status),
{
    match status {
        Ok(value) => match value.get_text("phase") {
            Some(phase) => text::same(phase.as_str(), "ready"),
            None => false,
        },
        Err(_) => false,
    }
}

/// The requests in a reply; no reply, or one without a list, holds none.
pub open spec fn requests_in(reply: Option<Json>) -> Seq<Json> {
    match reply {
        Some(value) => match array_member(value, "requests"@) {
            Some(items) => items,
            None => Seq::empty(),
        },
        None => Seq::empty(),
    }
}

impl EncryptionPage {
    /// Opens the page and starts to load the status. Returns whether to ask.
    pub fn new(engine_attached: bool) -> (r: (Self, bool))
        ensures
            r.0.status == (if engine_attached {
                Loadable::<Json>::Loading
            } else {
                Loadable::<Json>::Idle
            }),
            r.0.pending@.len() == 0,
            r.0.kit is None,
            !r.0.kit_copied,
            r.0.prompt is None,
            r.0.error is None,
            !r.0.busy,
            r.1 == engine_attached,
    {
        let mut page = EncryptionPage {
            status: Loadable::Idle,
            pending: Vec::new(),
            kit: None,
            kit_copied: false,
            prompt: None,
            error: None,
            busy: false,
        };
        let ask = page.load(engine_attached);
        (page, ask)
    }

    /// Starts to load the status; what was shown stays until the answer. Returns whether to ask.
    pub fn load(&mut self, engine_attached: bool) -> (ask: bool)
        ensures
            ask == engine_attached,
            *final(self) == (if engine_attached && old(self).status is Idle {
                EncryptionPage { status: Loadable::Loading, ..*old(self) }
            } else {
                *old(self)
            }),
    {
        if !engine_attached {
            return false;
        }
        if let Loadable::Idle = self.status {
            self.status = Loadable::Loading;
        }
        true
    }

    /// Takes the status, and the reply about pending requests where one was asked for and came.
    pub fn loaded(&mut self, status: Result<Json, String>, reply: Option<Json>)
        ensures
            final(self).status == (match status {
                Ok(value) => Loadable::Ready(value),
                Err(message) => Loadable::Error(message),
            }),
            final(self).pending@ == (if is_ready(status) {
                requests_in(reply)
            } else {
                Seq::empty()
            }),
            *final(self) == (EncryptionPage {
                status: final(self).status,
                pending: final(self).pending,
                ..*old(self)
            }),
    {
        let mut pending: Vec<Json> = Vec::new();
        if wants_pending(&status) {
            if let Some(value) = reply {
                if let Some(items) = value.into_array("requests") {
                    pending = items;
                }
            }
        }
        self.pending = pending;
        self.status = match status {
            Ok(value) => Loadable::Ready(value),
            Err(message) => Loadable::Error(message),
        };
    }

    /// Starts an action.
    pub open spec fn acting(self) -> Self {
        EncryptionPage { error: None, busy: true, ..self }
    }

    fn start(&mut self, engine_attached: bool) -> (r: bool)
        ensures
            r == engine_attached,
            *final(self) == (if engine_attached {
                old(self).acting()
            } else {
                *old(self)
            }),
    {
        if !engine_attached {
            return false;
        }
        self.error = None;
        self.busy = true;
        true
    }

    /// Runs one action, where there is an engine to run it.
    pub fn action(&mut self, call: VaultCall, engine_attached: bool) -> (r: Option<VaultCall>)
        ensures
            r == (if engine_attached {
                Some(call)
            } else {
                None
            }),
            *final(self) == (if engine_attached {
                old(self).acting()
            } else {
                *old(self)
            }),
    {
        if self.start(engine_attached) {
            Some(call)
        } else {
            None
        }
    }

    /// Takes the answer to an action other than setup, and loads again. Returns whether to ask for the
    /// status.
    pub fn action_answered(&mut self, result: Result<(), String>, engine_attached: bool) -> (ask: bool)
        ensures
            ask == engine_attached,
            !final(self).busy,
            final(self).error == (match result {
                Ok(_) => old(self).error,
                Err(message) => Some(message),
            }),
            final(self).status == (if engine_attached && old(self).status is Idle {
                Loadable::Loading
            } else {
                old(self).status
            }),
            *final(self) == (EncryptionPage {
                busy: final(self).busy,
                error: final(self).error,
                status: final(self).status,
                ..*old(self)
            }),
    {
        self.busy = false;
        if let Err(message) = result {
            self.error = Some(message);
        }
        self.load(engine_attached)
    }

    /// The page after the answer to setup: it loads again, and shows the recovery kit or the error.
    pub open spec fn set_up(
        before: Self,
        reply: Result<(Option<Seq<char>>, Option<Seq<char>>), Seq<char>>,
        engine_attached: bool,
        after: Self,
    ) -> bool {
        &&& after == (EncryptionPage {
            busy: false,
            status: if engine_attached && before.status is Idle {
                Loadable::Loading
            } else {
                before.status
            },
            error: after.error,
            kit: after.kit,
            kit_copied: after.kit_copied,
            ..before
        })
        &&& match reply {
            Ok((kit, file)) => {
                &&& after.error == before.error
                &&& !after.kit_copied
                &&& after.kit matches Some(k) && k.kit@ == or_nothing(kit) && k.file@ == or_nothing(
                    file,
                )
            },
            Err(message) => {
                &&& text_opt(after.error) == Some(message)
                &&& after.kit == before.kit
                &&& after.kit_copied == before.kit_copied
            },
        }
    }

    /// Takes the answer to setup: the recovery kit in the reply is kept to be shown. Returns whether to ask
    /// for the status.
    pub fn setup_answered(
        &mut self,
        result: Result<serde_json::Value, String>,
        engine_attached: bool,
    ) -> (ask: bool)
        ensures
            ask == engine_attached,
            Self::set_up(
                *old(self),
                match result {
                    Ok(reply) => Ok((key_in(reply), file_in(reply))),
                    Err(message) => Err(message@),
                },
                engine_attached,
                *final(self),
            ),
    {
        let reply = match result {
            Ok(value) => {
                let kit = match member_of(&value, "kit") {
                    Some(member) => text_of(member),
                    None => None,
                };
                let file = match member_of(&value, "recoveryFile") {
                    Some(member) => Some(pretty(member)),
                    None => None,
                };
                Ok(SetupReply { kit, file })
            },
            Err(message) => Err(message),
        };
        self.setup_replied(reply, engine_attached)
    }

    /// The same, once it is known what the reply holds.
    pub fn setup_replied(&mut self, result: Result<SetupReply, String>, engine_attached: bool) -> (ask:
        bool)
        ensures
            ask == engine_attached,
            Self::set_up(
                *old(self),
                match result {
                    Ok(reply) => Ok((text_opt(reply.kit), text_opt(reply.file))),
                    Err(message) => Err(message@),
                },
                engine_attached,
                *final(self),
            ),
    {
        self.busy = false;
        match result {
            Ok(reply) => {
                self.kit = Some(
                    RecoveryKit { kit: or_empty(reply.kit), file: or_empty(reply.file) },
                );
                self.kit_copied = false;
            },
            Err(message) => {
                self.error = Some(message);
            },
        }
        self.load(engine_attached)
    }

    /// Asks for the recovery key.
    pub fn open_recover(&mut self)
        ensures
            *final(self) == (EncryptionPage { prompt: Some(Prompt::Recover), ..*old(self) }),
    {
        self.prompt = Some(Prompt::Recover);
    }

    /// Closes the prompt.
    pub fn cancel_prompt(&mut self)
        ensures
            *final(self) == (EncryptionPage { prompt: None, ..*old(self) }),
    {
        self.prompt = None;
    }

    /// Takes what was typed into the prompt: the prompt closes, and white space alone does nothing.
    pub fn submit_prompt(&mut self, typed: &str, engine_attached: bool) -> (call: Option<VaultCall>)
        ensures
            ({
                let asks = old(self).prompt is Some && trimmed(typed@).len() > 0 && engine_attached;
                let closed = EncryptionPage { prompt: None, ..*old(self) };
                &&& match call {
                    Some(VaultCall::Recover { kit }) => asks && kit@ == trimmed(typed@),
                    Some(_) => false,
                    None => !asks,
                }
                &&& *final(self) == (if asks {
                    closed.acting()
                } else {
                    closed
                })
            }),
    {
        let open = self.prompt;
        self.prompt = None;
        match open {
            None => None,
            Some(Prompt::Recover) => {
                let key = text::trim(typed);
                if text::empty(key.as_str()) {
                    return None;
                }
                self.action(VaultCall::Recover { kit: key }, engine_attached)
            },
        }
    }

    /// Copies the recovery kit. Returns the text for the clipboard.
    pub fn copy_kit(&mut self) -> (copied: Option<String>)
        ensures
            match old(self).kit {
                Some(k) => {
                    &&& text_opt(copied) == Some(
                        "Zeron recovery key: "@ + k.kit@ + "\n\nRecovery file:\n"@ + k.file@ + "\n"@,
                    )
                    &&& *final(self) == (EncryptionPage { kit_copied: true, ..*old(self) })
                },
                None => copied is None && *final(self) == *old(self),
            },
    {
        let copied = match &self.kit {
            Some(k) => {
                let head = text::joined3(
                    "Zeron recovery key: ",
                    k.kit.as_str(),
                    "\n\nRecovery file:\n",
                );
                Some(text::joined3(head.as_str(), k.file.as_str(), "\n"))
            },
            None => None,
        };
        if copied.is_some() {
            self.kit_copied = true;
        }
        copied
    }

    /// Ends the note that the kit was copied.
    pub fn copy_note_over(&mut self)
        ensures
            *final(self) == (EncryptionPage { kit_copied: false, ..*old(self) }),
    {
        self.kit_copied = false;
    }

    /// Puts the kit away once it was saved.
    pub fn kit_saved(&mut self)
        ensures
            *final(self) == (EncryptionPage { kit: None, ..*old(self) }),
    {
        self.kit = None;
    }
}

// ---------------------------------------------------------------------------
// What the page shows
// ---------------------------------------------------------------------------

/// What a button of the status card does.
#[derive(Debug, Clone, Copy, PartialEq, Eq, Structural)]
pub enum StatusAction {
    RequestEnrollment,
    OpenRecover,
    Setup,
    CancelEnrollment,
    Refresh,
}

impl StatusAction {
    /// The words on a button.
    pub open spec fn words(self) -> Seq<char> {
        match self {
            StatusAction::RequestEnrollment => "Approve from another device"@,
            StatusAction::OpenRecover => "Use recovery key"@,
            StatusAction::Setup => "Set up encryption"@,
            StatusAction::CancelEnrollment => "Cancel request"@,
            StatusAction::Refresh => "Refresh"@,
        }
    }

    pub fn label(self) -> (r: &'static str)
        ensures
            r@ == self.words(),
    {
        match self {
            StatusAction::RequestEnrollment => "Approve from another device",
            StatusAction::OpenRecover => "Use recovery key",
            StatusAction::Setup => "Set up encryption",
            StatusAction::CancelEnrollment => "Cancel request",
            StatusAction::Refresh => "Refresh",
        }
    }

    /// Whether a button stands out.
    pub fn is_primary(self) -> (r: bool)
        ensures
            r == (self == StatusAction::RequestEnrollment || self == StatusAction::Setup),
    {
        match self {
            StatusAction::RequestEnrollment => true,
            StatusAction::Setup => true,
            _ => false,
        }
    }
}

/// The actions that a phase offers. A refresh is always offered.
pub open spec fn actions_for(status: Json) -> Seq<StatusAction> {
    let phase = phase_in(status);
    if phase == "notEnrolled"@ {
        if has_remote_vault(status) {
            seq![StatusAction::RequestEnrollment, StatusAction::OpenRecover, StatusAction::Refresh]
        } else {
            seq![StatusAction::Setup, StatusAction::Refresh]
        }
    } else if phase == "pending"@ {
        seq![StatusAction::CancelEnrollment, StatusAction::Refresh]
    } else if phase == "revoked"@ {
        seq![StatusAction::RequestEnrollment, StatusAction::Refresh]
    } else {
        seq![StatusAction::Refresh]
    }
}

/// How the keys are protected, in words.
pub open spec fn protection_words(protection: Seq<char>) -> Seq<char> {
    if protection == "keychain"@ {
        "the macOS Keychain"@
    } else if protection == "systemdCredential"@ {
        "a systemd credential (unattended)"@
    } else if protection == "keyFile"@ {
        "an operator key file (unattended)"@
    } else {
        "this process only"@
    }
}

/// The line on the keys, where the status names an epoch.
pub open spec fn keys_text(status: Json) -> Option<Seq<char>> {
    match member(status, "epoch"@) {
        Some(Json::Natural(epoch)) => Some(
            "Key epoch "@ + decimal_text(epoch as nat) + " · keys protected by "@ + protection_words(
                text_or_nothing(status, "protection"@),
            ),
        ),
        _ => None,
    }
}

/// The status card.
#[derive(Debug, PartialEq, Eq)]
pub struct StatusCard {
    pub copy: String,
    pub keys: Option<String>,
    pub badge: String,
    /// Whether the badge says that encryption is on.
    pub on: bool,
    /// The code to compare, while this device waits for approval.
    pub code: Option<String>,
    pub actions: Vec<StatusAction>,
    /// Whether the buttons can be clicked.
    pub enabled: bool,
}

/// A card shows a status.
pub open spec fn card_shows(card: StatusCard, status: Json, busy: bool) -> bool {
    &&& card.copy@ == phase_text(status)
    &&& text_opt(card.keys) == keys_text(status)
    &&& card.on == (phase_in(status) == "ready"@)
    &&& card.badge@ == (if card.on {
        "On"@
    } else {
        phase_title(status)
    })
    &&& text_opt(card.code) == (if phase_in(status) == "pending"@ {
        text_member(status, "pairingCode"@)
    } else {
        None
    })
    &&& card.actions@ == actions_for(status)
    &&& card.enabled == !busy
}

fn offer_actions(status: &Json) -> (r: Vec<StatusAction>)
    ensures
        r@ == actions_for(*status),
{
    let phase = status.get_text_or_empty("phase");
    let phase = phase.as_str();
    let mut actions: Vec<StatusAction> = Vec::new();
    if text::same(phase, "notEnrolled") {
        if status.get_flag("remoteVault") {
            actions.push(StatusAction::RequestEnrollment);
            actions.push(StatusAction::OpenRecover);
        } else {
            actions.push(StatusAction::Setup);
        }
    } else if text::same(phase, "pending") {
        actions.push(StatusAction::CancelEnrollment);
    } else if text::same(phase, "revoked") {
        actions.push(StatusAction::RequestEnrollment);
    }
    actions.push(StatusAction::Refresh);
    proof {
        reveal_strlit("notEnrolled");
        reveal_strlit("pending");
        reveal_strlit("revoked");
    }
    actions
}

fn describe_keys(status: &Json) -> (r: Option<String>)
    ensures
        text_opt(r) == keys_text(*status),
{
    match status.get_natural("epoch") {
        Some(epoch) => {
            let protection = status.get_text_or_empty("protection");
            let protection = protection.as_str();
            let words = if text::same(protection, "keychain") {
                "the macOS Keychain"
            } else if text::same(protection, "systemdCredential") {
                "a systemd credential (unattended)"
            } else if text::same(protection, "keyFile") {
                "an operator key file (unattended)"
            } else {
                "this process only"
            };
            let number = text::decimal(epoch);
            let head = text::joined3("Key epoch ", number.as_str(), " · keys protected by ");
            Some(text::joined(head.as_str(), words))
        },
        None => None,
    }
}

/// A device that waits for approval.
#[derive(Debug, PartialEq, Eq)]
pub struct PendingRow {
    pub request_id: String,
    pub code: String,
    pub device_id: String,
}

/// A row shows a request; what it does not name is empty.
pub open spec fn pending_shows(row: PendingRow, request: Json) -> bool {
    &&& row.request_id@ == text_or_nothing(request, "requestId"@)
    &&& row.code@ == text_or_nothing(request, "pairingCode"@)
    &&& row.device_id@ == text_or_nothing(request, "deviceId"@)
}

impl PendingRow {
    /// The request to approve this device: it repeats the code that was compared.
    pub fn approve(&self) -> (r: VaultCall)
        ensures
            r == (VaultCall::Approve { request_id: self.request_id, code: self.code }),
    {
        VaultCall::Approve { request_id: self.request_id.clone(), code: self.code.clone() }
    }

    /// The request to reject this device.
    pub fn reject(&self) -> (r: VaultCall)
        ensures
            r == (VaultCall::Reject { request_id: self.request_id }),
    {
        VaultCall::Reject { request_id: self.request_id.clone() }
    }
}

/// A member of the vault.
#[derive(Debug, PartialEq, Eq)]
pub struct MemberRow {
    pub device_id: String,
    pub active: bool,
    pub this_device: bool,
    /// `Approved` or `Removed`.
    pub standing: String,
    /// Whether the row offers to remove the device.
    pub removable: bool,
}

/// A row shows a device. Only another device that is approved can be removed.
pub open spec fn member_shows(row: MemberRow, device: Json) -> bool {
    &&& row.device_id@ == text_or_nothing(device, "deviceId"@)
    &&& row.active == (text_member(device, "status"@) == Some("active"@))
    &&& row.this_device == flag_member(device, "thisDevice"@)
    &&& row.standing@ == (if row.active {
        "Approved"@
    } else {
        "Removed"@
    })
    &&& row.removable == (row.active && !row.this_device)
}

impl MemberRow {
    /// The request to remove this device.
    pub fn revoke(&self) -> (r: VaultCall)
        ensures
            r == (VaultCall::Revoke { device_id: self.device_id }),
    {
        VaultCall::Revoke { device_id: self.device_id.clone() }
    }
}

/// The title of a waiting device, by the short form of its id.
pub fn pending_title(short_id: &str) -> (r: String)
    ensures
        r@ == "Device "@ + short_id@,
{
    text::joined("Device ", short_id)
}

/// The title of a member, by the short form of its id.
pub fn member_title(short_id: &str) -> (r: String)
    ensures
        r@ == "Vault member "@ + short_id@,
{
    text::joined("Vault member ", short_id)
}

/// The line under the headline.
pub fn page_subtitle(local_workspace: bool) -> (r: &'static str)
    ensures
        r@ == (if local_workspace {
            "This workspace is local-only; nothing is sent to a sync backend."@
        } else {
            "Sessions, files and workspace details are encrypted before they reach our servers. Approved devices can read them; the sync backend stores ciphertext."@
        }),
{
    if local_workspace {
        "This workspace is local-only; nothing is sent to a sync backend."
    } else {
        "Sessions, files and workspace details are encrypted before they reach our servers. Approved devices can read them; the sync backend stores ciphertext."
    }
}

/// The devices that the page lists.
pub open spec fn members_in(status: Loadable<Json>) -> Seq<Json> {
    match status {
        Loadable::Ready(value) => match array_member(value, "devices"@) {
            Some(items) => items,
            None => Seq::empty(),
        },
        _ => Seq::empty(),
    }
}

impl EncryptionPage {
    /// The status card, once a status is there; until then there is a skeleton.
    pub fn status_card(&self) -> (card: Option<StatusCard>)
        ensures
            match self.status {
                Loadable::Ready(status) => card matches Some(c) && card_shows(c, status, self.busy),
                _ => card is None,
            },
    {
        match &self.status {
            Loadable::Ready(status) => {
                let (title, copy) = phase_copy(status);
                let phase = status.get_text_or_empty("phase");
                let on = text::same(phase.as_str(), "ready");
                let badge = if on {
                    "On"
                } else {
                    title
                };
                let code = if text::same(phase.as_str(), "pending") {
                    status.get_text("pairingCode")
                } else {
                    None
                };
                Some(
                    StatusCard {
                        copy,
                        keys: describe_keys(status),
                        badge: badge.to_owned(),
                        on,
                        code,
                        actions: offer_actions(status),
                        enabled: !self.busy,
                    },
                )
            },
            _ => None,
        }
    }

    /// The recovery key to show, with the words on the button that copies it.
    pub fn kit_card(&self) -> (card: Option<(String, &'static str)>)
        ensures
            match self.kit {
                Some(k) => card matches Some(c) && c.0 == k.kit && c.1@ == (if self.kit_copied {
                    "Copied"@
                } else {
                    "Copy key and file"@
                }),
                None => card is None,
            },
    {
        match &self.kit {
            Some(k) => Some(
                (
                    k.kit.clone(),
                    if self.kit_copied {
                        "Copied"
                    } else {
                        "Copy key and file"
                    },
                ),
            ),
            None => None,
        }
    }

    /// The devices that wait for approval.
    pub fn pending_rows(&self) -> (rows: Vec<PendingRow>)
        ensures
            rows@.len() == self.pending@.len(),
            forall|i: int|
                0 <= i < rows@.len() ==> pending_shows(#[trigger] rows@[i], self.pending@[i]),
    {
        let mut rows: Vec<PendingRow> = Vec::new();
        let mut i: usize = 0;
        while i < self.pending.len()
            invariant
                i <= self.pending.len(),
                rows.len() == i,
                forall|k: int| 0 <= k < i ==> pending_shows(#[trigger] rows@[k], self.pending@[k]),
            decreases self.pending.len() - i,
        {
            let request = &self.pending[i];
            rows.push(
                PendingRow {
                    request_id: request.get_text_or_empty("requestId"),
                    code: request.get_text_or_empty("pairingCode"),
                    device_id: request.get_text_or_empty("deviceId"),
                },
            );
            i = i + 1;
        }
        rows
    }

    /// The members of the vault.
    pub fn member_rows(&self) -> (rows: Vec<MemberRow>)
        ensures
            rows@.len() == members_in(self.status).len(),
            forall|i: int|
                0 <= i < rows@.len() ==> member_shows(
                    #[trigger] rows@[i],
                    members_in(self.status)[i],
                ),
    {
        let mut rows: Vec<MemberRow> = Vec::new();
        if let Loadable::Ready(status) = &self.status {
            if let Some(devices) = status.get_array("devices") {
                let mut i: usize = 0;
                while i < devices.len()
                    invariant
                        i <= devices.len(),
                        rows.len() == i,
                        forall|k: int|
                            0 <= k < i ==> member_shows(#[trigger] rows@[k], devices@[k]),
                    decreases devices.len() - i,
                {
                    let device = &devices[i];
                    let active = match device.get_text("status") {
                        Some(status) => text::same(status.as_str(), "active"),
                        None => false,
                    };
                    let this_device = device.get_flag("thisDevice");
                    let standing = if active {
                        "Approved"
                    } else {
                        "Removed"
                    };
                    rows.push(
                        MemberRow {
                            device_id: device.get_text_or_empty("deviceId"),
                            active,
                            this_device,
                            standing: standing.to_owned(),
                            removable: active && !this_device,
                        },
                    );
                    i = i + 1;
                }
            }
        }
        rows
    }

    /// What went wrong while the status was loaded.
    pub fn load_error(&self) -> (r: Option<String>)
        ensures
            r == (match self.status {
                Loadable::Error(message) => Some(message),
                _ => None,
            }),
    {
        match &self.status {
            Loadable::Error(message) => Some(message.clone()),
            _ => None,
        }
    }
}

} // verus!
