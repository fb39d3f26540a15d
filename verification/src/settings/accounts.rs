//! Agent accounts: provider cards, switching and forgetting accounts, and the two ways to add one.

use crate::lists;
use crate::lists::{find_first, pointees};
use crate::model::{Device, HarnessId};
use crate::popover::Loadable;
use crate::text;
use crate::text::{decimal_text, text_opt, trimmed};
use crate::time::{truncated_div, Timestamp};
use vstd::prelude::*;

verus! {

// ---------------------------------------------------------------------------
// Rows
// ---------------------------------------------------------------------------

/// How much of a usage window is spent.
#[derive(Debug, Clone, Copy, PartialEq, Eq, Structural)]
pub enum UsageLevel {
    /// Below the first threshold.
    Normal,
    /// At or above the first threshold.
    Warn,
    /// At or above the second threshold.
    Critical,
}

/// A usage window of an account, with the spent share as a whole percentage and its level.
#[derive(Debug, PartialEq, Eq)]
pub struct UsageWindow {
    pub label: String,
    pub percent: u32,
    pub level: UsageLevel,
    pub resets_at: Option<Timestamp>,
}

/// An account of a coding agent.
#[derive(Debug, PartialEq, Eq)]
pub struct AgentAccount {
    pub id: String,
    pub harness: HarnessId,
    pub email: Option<String>,
    pub plan_label: Option<String>,
    pub active: bool,
    pub usage_windows: Vec<UsageWindow>,
    pub display_name: Option<String>,
    pub organization: Option<String>,
    pub auth_kind: Option<String>,
    pub switchable: bool,
    pub saved_at: Option<Timestamp>,
}

/// What went wrong while the accounts of a provider were read.
#[derive(Debug, PartialEq, Eq)]
pub struct AccountWarning {
    pub harness: HarnessId,
    pub message: String,
}

/// The accounts of a device.
#[derive(Debug, PartialEq, Eq)]
pub struct AgentAccountsSnapshot {
    pub accounts: Vec<AgentAccount>,
    pub warnings: Vec<AccountWarning>,
}

/// How a login goes on.
#[derive(Debug, Clone, Copy, PartialEq, Eq, Structural)]
pub enum AgentLoginMode {
    /// Open an address and paste a code back.
    PasteCode,
    /// Open an address and wait.
    Browser,
}

/// A login that was started.
#[derive(Debug, PartialEq, Eq)]
pub struct AgentLoginStart {
    pub login_id: String,
    pub url: String,
    pub mode: AgentLoginMode,
}

/// Where a login stands.
#[derive(Debug, Clone, Copy, PartialEq, Eq, Structural)]
pub enum AgentLoginStatus {
    Pending,
    Done,
    Error,
}

/// The answer to a question about a login.
#[derive(Debug, PartialEq, Eq)]
pub struct AgentLoginPoll {
    pub status: AgentLoginStatus,
    pub message: Option<String>,
}

/// The names that stand on the provider cards.
#[derive(Debug, PartialEq, Eq)]
pub struct ProviderTitles {
    pub claude_code: String,
    pub codex: String,
}

impl ProviderTitles {
    /// The names on the cards, with the one that the engine describes its first harness by.
    pub fn new(claude_code: String) -> (titles: Self)
        ensures
            titles.claude_code == claude_code,
            titles.codex@ == "Codex"@,
    {
        ProviderTitles { claude_code, codex: "Codex".to_owned() }
    }
}

/// The provider cards, in display order.
pub open spec fn providers(titles: ProviderTitles) -> Seq<(HarnessId, Seq<char>)> {
    seq![(HarnessId::ClaudeCode, titles.claude_code@), (HarnessId::Codex, titles.codex@)]
}

/// Two digits at least.
pub open spec fn padded(n: nat) -> Seq<char> {
    if n < 10 {
        "0"@ + decimal_text(n)
    } else {
        decimal_text(n)
    }
}

/// The text of a reset that lies whole minutes ahead.
pub open spec fn reset_text(mins: int) -> Seq<char> {
    if mins <= 0 {
        "resets soon"@
    } else if mins < 60 {
        "resets in "@ + decimal_text(mins as nat) + "m"@
    } else {
        "resets in "@ + decimal_text((mins / 60) as nat) + "h "@ + padded((mins % 60) as nat) + "m"@
    }
}

/// Whole minutes from one instant to another.
pub open spec fn minutes_until(at: Timestamp, now: Timestamp) -> int {
    truncated_div(truncated_div(at@ - now@, 1_000_000_000), 60)
}

/// When a usage window resets.
pub fn format_reset(resets_at: Option<Timestamp>, now: Timestamp) -> (r: Option<String>)
    ensures
        text_opt(r) == (match resets_at {
            Some(at) => Some(reset_text(minutes_until(at, now))),
            None => None,
        }),
{
    let at = match resets_at {
        Some(at) => at,
        None => {
            return None;
        },
    };
    let secs: i128 = at.seconds_since(&now);
    if secs < 60 {
        return Some("resets soon".to_owned());
    }
    let mins: i128 = secs / 60;
    if mins < 60 {
        let n = text::decimal(mins as u64);
        return Some(text::joined3("resets in ", n.as_str(), "m"));
    }
    let h = text::decimal((mins / 60) as u64);
    let rest: i128 = mins % 60;
    let m = text::decimal(rest as u64);
    let m = if rest < 10 {
        text::joined("0", m.as_str())
    } else {
        m
    };
    let front = text::joined3("resets in ", h.as_str(), "h ");
    Some(text::joined3(front.as_str(), m.as_str(), "m"))
}

/// The line over a usage meter: the percentage, and when the window resets.
pub open spec fn usage_line(window: UsageWindow, now: Timestamp) -> Seq<char> {
    let percent = decimal_text(window.percent as nat) + "%"@;
    match window.resets_at {
        Some(at) => percent + " · "@ + reset_text(minutes_until(at, now)),
        None => percent,
    }
}

fn usage_label(window: &UsageWindow, now: Timestamp) -> (r: String)
    ensures
        r@ == usage_line(*window, now),
{
    let n = text::decimal(window.percent as u64);
    let percent = text::joined(n.as_str(), "%");
    match format_reset(window.resets_at, now) {
        Some(reset) => text::joined3(percent.as_str(), " · ", reset.as_str()),
        None => percent,
    }
}

/// The test for the accounts of a provider that are, or are not, active.
pub open spec fn of_provider(harness: HarnessId, active: bool) -> spec_fn(AgentAccount) -> bool {
    |a: AgentAccount| a.harness == harness && a.active == active
}

/// The accounts of a provider: the active ones first, otherwise in their order.
pub open spec fn accounts_of(accounts: Seq<AgentAccount>, harness: HarnessId) -> Seq<AgentAccount> {
    accounts.filter(of_provider(harness, true)) + accounts.filter(of_provider(harness, false))
}

/// Accounts of one provider, active first.
pub fn provider_accounts(snapshot: &AgentAccountsSnapshot, harness: HarnessId) -> (out: Vec<
    &AgentAccount,
>)
    ensures
        pointees(out@) == accounts_of(snapshot.accounts@, harness),
{
    let ghost p = of_provider(harness, true);
    let active = |a: &AgentAccount| -> (b: bool)
        ensures
            b == p(*a),
        { a.harness == harness && a.active };
    let ghost q = of_provider(harness, false);
    let resting = |a: &AgentAccount| -> (b: bool)
        ensures
            b == q(*a),
        { a.harness == harness && !a.active };
    let mut out = lists::select(&snapshot.accounts, active, Ghost(p));
    let mut rest = lists::select(&snapshot.accounts, resting, Ghost(q));
    let ghost front = out@;
    let ghost back = rest@;
    out.append(&mut rest);
    proof {
        assert(out@ =~= front + back);
        assert(pointees(out@) =~= pointees(front) + pointees(back));
    }
    out
}

/// A provider lists exactly its own accounts.
pub proof fn provider_lists_its_accounts(
    accounts: Seq<AgentAccount>,
    harness: HarnessId,
    a: AgentAccount,
)
    ensures
        accounts_of(accounts, harness).contains(a) <==> accounts.contains(a) && a.harness
            == harness,
{
    let p = of_provider(harness, true);
    let q = of_provider(harness, false);
    let front = accounts.filter(p);
    let back = accounts.filter(q);
    let all = accounts_of(accounts, harness);
    if all.contains(a) {
        let k = choose|k: int| 0 <= k < all.len() && all[k] == a;
        if k < front.len() {
            accounts.lemma_filter_pred(p, k);
            assert(front.contains(a));
            accounts.lemma_filter_contains_rev(p, a);
        } else {
            accounts.lemma_filter_pred(q, k - front.len());
            assert(back[k - front.len()] == a);
            assert(back.contains(a));
            accounts.lemma_filter_contains_rev(q, a);
        }
    }
    if accounts.contains(a) && a.harness == harness {
        let i = choose|i: int| 0 <= i < accounts.len() && accounts[i] == a;
        if a.active {
            accounts.lemma_filter_contains(p, i);
            let k = choose|k: int| 0 <= k < front.len() && front[k] == a;
            assert(all[k] == a);
        } else {
            accounts.lemma_filter_contains(q, i);
            let k = choose|k: int| 0 <= k < back.len() && back[k] == a;
            assert(all[front.len() + k] == a);
        }
    }
}

// ---------------------------------------------------------------------------
// The page
// ---------------------------------------------------------------------------

/// A login under way.
#[derive(Debug, PartialEq, Eq)]
pub enum LoginFlow {
    /// The start was asked for.
    Starting,
    /// The address is open and a code is to be pasted back.
    PasteCode { start: AgentLoginStart, submitting: bool, error: Option<String> },
    /// The address is open and the login is asked about until it lands.
    Browser { start: AgentLoginStart, message: Option<String>, error: Option<String> },
}

/// What can be done to an account.
#[derive(Debug, Clone, Copy, PartialEq, Eq, Structural)]
pub enum AccountAction {
    Activate,
    Forget,
}

/// What the page asks of the engine.
#[derive(Debug, PartialEq, Eq)]
pub enum AccountRequest {
    List { force_usage: bool },
    Act { action: AccountAction, id: String, harness: HarnessId },
    StartLogin { harness: HarnessId },
    CompleteLogin { login_id: String, code: String },
    PollLogin { login_id: String },
    CancelLogin { login_id: String },
}

/// A request and the device that it is for; none is this device.
#[derive(Debug, PartialEq, Eq)]
pub struct AccountCall {
    pub request: AccountRequest,
    pub target_device: Option<String>,
}

/// The answer to a question about a login.
#[derive(Debug, PartialEq, Eq)]
pub enum PollReply {
    Answer(AgentLoginPoll),
    Failed(String),
    Malformed,
}

/// What follows a started login.
#[derive(Debug, PartialEq, Eq)]
pub struct LoginStarted {
    /// The address to open.
    pub open_url: Option<String>,
    /// The question to ask until the login lands.
    pub poll: Option<AccountCall>,
}

/// The accounts page.
pub struct AccountsPage {
    /// Which device's logins are shown; none is this device.
    pub target_device: Option<String>,
    pub device_menu_open: bool,
    pub snapshot: Loadable<AgentAccountsSnapshot>,
    /// Account with a switch or forget under way.
    pub busy_account: Option<String>,
    pub login: Option<LoginFlow>,
    pub error: Option<String>,
    /// The pasted code.
    pub code: String,
    /// A login is asked about.
    pub polling: bool,
}

impl AccountsPage {
    /// A request for the shown device.
    pub open spec fn call_for(self, request: AccountRequest) -> AccountCall {
        AccountCall { request, target_device: self.target_device }
    }

    fn call(&self, request: AccountRequest) -> (call: AccountCall)
        ensures
            call == self.call_for(request),
    {
        AccountCall { request, target_device: text::copied(&self.target_device) }
    }

    /// The page after the accounts were asked for.
    pub open spec fn listing(
        before: AccountsPage,
        after: AccountsPage,
        force_usage: bool,
        engine_attached: bool,
        call: Option<AccountCall>,
    ) -> bool {
        if engine_attached {
            after == (AccountsPage { snapshot: Loadable::Loading, ..before }) && call == Some(
                before.call_for(AccountRequest::List { force_usage }),
            )
        } else {
            &&& after == (AccountsPage { snapshot: after.snapshot, ..before })
            &&& after.snapshot matches Loadable::Error(message)
            &&& message@ == "Engine not connected"@
            &&& call is None
        }
    }

    /// A page that shows nothing yet.
    pub open spec fn is_blank(self) -> bool {
        &&& self.target_device is None
        &&& !self.device_menu_open
        &&& self.snapshot is Idle
        &&& self.busy_account is None
        &&& self.login is None
        &&& self.error is None
        &&& self.code@.len() == 0
        &&& !self.polling
    }

    /// A page as it is opened: it shows nothing yet, and the accounts of this device are asked for, without
    /// forcing their usage.
    pub open spec fn just_opened(
        page: AccountsPage,
        engine_attached: bool,
        call: Option<AccountCall>,
    ) -> bool {
        let blank = AccountsPage { snapshot: Loadable::Idle, ..page };
        blank.is_blank() && Self::listing(blank, page, false, engine_attached, call)
    }

    /// Opens the page and asks for the accounts.
    pub fn new(engine_attached: bool) -> (r: (Self, Option<AccountCall>))
        ensures
            Self::just_opened(r.0, engine_attached, r.1),
    {
        let mut page = AccountsPage {
            target_device: None,
            device_menu_open: false,
            snapshot: Loadable::Idle,
            busy_account: None,
            login: None,
            error: None,
            code: String::new(),
            polling: false,
        };
        let call = page.load(false, engine_attached);
        (page, call)
    }

    /// Asks for the accounts.
    pub fn load(&mut self, force_usage: bool, engine_attached: bool) -> (call: Option<AccountCall>)
        ensures
            Self::listing(*old(self), *final(self), force_usage, engine_attached, call),
    {
        if !engine_attached {
            self.snapshot = Loadable::Error("Engine not connected".to_owned());
            return None;
        }
        self.snapshot = Loadable::Loading;
        Some(self.call(AccountRequest::List { force_usage }))
    }

    /// Takes the accounts.
    pub fn loaded(&mut self, result: Result<AgentAccountsSnapshot, String>)
        ensures
            *final(self) == (AccountsPage {
                snapshot: match result {
                    Ok(snapshot) => Loadable::Ready(snapshot),
                    Err(message) => Loadable::Error(message),
                },
                ..*old(self)
            }),
    {
        self.snapshot = match result {
            Ok(snapshot) => Loadable::Ready(snapshot),
            Err(message) => Loadable::Error(message),
        };
    }

    /// Shows the accounts of another device: a login under way ends, and its accounts are asked for.
    pub fn set_target_device(&mut self, target: Option<String>, engine_attached: bool) -> (call: Option<
        AccountCall,
    >)
        ensures
            text_opt(old(self).target_device) == text_opt(target) ==> call is None && *final(self)
                == (AccountsPage { device_menu_open: false, ..*old(self) }),
            text_opt(old(self).target_device) != text_opt(target) ==> Self::listing(
                AccountsPage {
                    target_device: target,
                    login: None,
                    polling: false,
                    device_menu_open: false,
                    ..*old(self)
                },
                *final(self),
                false,
                engine_attached,
                call,
            ),
    {
        let same = match (&self.target_device, &target) {
            (Some(a), Some(b)) => text::same(a.as_str(), b.as_str()),
            (None, None) => true,
            _ => false,
        };
        self.device_menu_open = false;
        if same {
            return None;
        }
        self.target_device = target;
        self.login = None;
        self.polling = false;
        self.load(false, engine_attached)
    }

    /// Opens or closes the device menu.
    pub fn toggle_device_menu(&mut self)
        ensures
            *final(self) == (AccountsPage {
                device_menu_open: !old(self).device_menu_open,
                ..*old(self)
            }),
    {
        self.device_menu_open = !self.device_menu_open;
    }

    /// Switches to an account or forgets it.
    pub fn account_action(
        &mut self,
        action: AccountAction,
        account_id: &String,
        harness: HarnessId,
        engine_attached: bool,
    ) -> (call: Option<AccountCall>)
        ensures
            !engine_attached ==> call is None && *final(self) == *old(self),
            engine_attached ==> *final(self) == (AccountsPage {
                busy_account: Some(*account_id),
                error: None,
                ..*old(self)
            }) && call == Some(
                old(self).call_for(
                    AccountRequest::Act { action, id: *account_id, harness },
                ),
            ),
    {
        if !engine_attached {
            return None;
        }
        self.busy_account = Some(account_id.clone());
        self.error = None;
        Some(self.call(AccountRequest::Act { action, id: account_id.clone(), harness }))
    }

    /// Takes the answer to a switch or forget: the accounts are asked for again, or the error is shown.
    pub fn action_answered(&mut self, result: Result<(), String>, engine_attached: bool) -> (call: Option<
        AccountCall,
    >)
        ensures
            match result {
                Ok(_) => Self::listing(
                    AccountsPage { busy_account: None, ..*old(self) },
                    *final(self),
                    false,
                    engine_attached,
                    call,
                ),
                Err(message) => call is None && *final(self) == (AccountsPage {
                    busy_account: None,
                    error: Some(message),
                    ..*old(self)
                }),
            },
    {
        self.busy_account = None;
        match result {
            Ok(_) => self.load(false, engine_attached),
            Err(message) => {
                self.error = Some(message);
                None
            },
        }
    }

    /// Takes a click on the error.
    pub fn dismiss_error(&mut self)
        ensures
            *final(self) == (AccountsPage { error: None, ..*old(self) }),
    {
        self.error = None;
    }

    // ---- logins ----

    /// Starts a login.
    pub fn start_login(&mut self, harness: HarnessId, engine_attached: bool) -> (call: Option<AccountCall>)
        ensures
            !engine_attached ==> call is None && *final(self) == *old(self),
            engine_attached ==> *final(self) == (AccountsPage {
                login: Some(LoginFlow::Starting),
                error: None,
                ..*old(self)
            }) && call == Some(old(self).call_for(AccountRequest::StartLogin { harness })),
    {
        if !engine_attached {
            return None;
        }
        self.login = Some(LoginFlow::Starting);
        self.error = None;
        Some(self.call(AccountRequest::StartLogin { harness }))
    }

    /// Takes the started login: its address is opened, and either a code is awaited or the login is asked
    /// about. A login that did not start shows why.
    pub fn login_started(&mut self, result: Result<AgentLoginStart, String>, engine_attached: bool) -> (next:
        LoginStarted)
        ensures
            match result {
                Ok(start) => {
                    &&& next.open_url == Some(start.url)
                    &&& match start.mode {
                        AgentLoginMode::PasteCode => {
                            &&& *final(self) == (AccountsPage {
                                login: Some(
                                    LoginFlow::PasteCode { start, submitting: false, error: None },
                                ),
                                code: final(self).code,
                                ..*old(self)
                            })
                            &&& final(self).code@.len() == 0
                            &&& next.poll is None
                        },
                        AgentLoginMode::Browser => {
                            &&& *final(self) == (AccountsPage {
                                login: Some(
                                    LoginFlow::Browser { start, message: None, error: None },
                                ),
                                polling: old(self).polling || engine_attached,
                                ..*old(self)
                            })
                            &&& next.poll == (if engine_attached {
                                Some(
                                    old(self).call_for(
                                        AccountRequest::PollLogin { login_id: start.login_id },
                                    ),
                                )
                            } else {
                                None
                            })
                        },
                    }
                },
                Err(message) => {
                    &&& next.open_url is None
                    &&& next.poll is None
                    &&& *final(self) == (AccountsPage {
                        login: None,
                        error: final(self).error,
                        ..*old(self)
                    })
                    &&& text_opt(final(self).error) == Some("Login failed to start: "@ + message@)
                },
            },
    {
        match result {
            Ok(start) => {
                let open_url = Some(start.url.clone());
                match start.mode {
                    AgentLoginMode::PasteCode => {
                        self.code = String::new();
                        self.login = Some(
                            LoginFlow::PasteCode { start, submitting: false, error: None },
                        );
                        LoginStarted { open_url, poll: None }
                    },
                    AgentLoginMode::Browser => {
                        let login_id = start.login_id.clone();
                        self.login = Some(LoginFlow::Browser { start, message: None, error: None });
                        if engine_attached {
                            self.polling = true;
                            let poll = Some(self.call(AccountRequest::PollLogin { login_id }));
                            LoginStarted { open_url, poll }
                        } else {
                            LoginStarted { open_url, poll: None }
                        }
                    },
                }
            },
            Err(message) => {
                self.login = None;
                self.error = Some(text::joined("Login failed to start: ", message.as_str()));
                LoginStarted { open_url: None, poll: None }
            },
        }
    }

    /// A pasted code can be sent.
    pub open spec fn code_ready(self) -> bool {
        self.login matches Some(LoginFlow::PasteCode { submitting, .. }) && !submitting && trimmed(
            self.code@,
        ).len() > 0
    }

    /// Sends the pasted code, once; a blank one is not sent.
    pub fn submit_code(&mut self, engine_attached: bool) -> (call: Option<AccountCall>)
        ensures
            call is Some <==> old(self).code_ready() && engine_attached,
            !old(self).code_ready() ==> *final(self) == *old(self),
            old(self).code_ready() ==> (old(self).login matches Some(
                LoginFlow::PasteCode { start, error, .. },
            ) && *final(self) == (AccountsPage {
                login: Some(LoginFlow::PasteCode { start, submitting: true, error }),
                ..*old(self)
            }) && (call matches Some(c) ==> c.target_device == old(self).target_device && (
            c.request matches AccountRequest::CompleteLogin { login_id, code } && login_id
                == start.login_id && code@ == trimmed(old(self).code@)))),
    {
        let code = text::trim(self.code.as_str());
        let mut id: Option<String> = None;
        match &mut self.login {
            Some(LoginFlow::PasteCode { start, submitting, .. }) => {
                if *submitting || text::empty(code.as_str()) {
                    return None;
                }
                id = Some(start.login_id.clone());
                *submitting = true;
            },
            _ => {
                return None;
            },
        }
        if !engine_attached {
            return None;
        }
        match id {
            Some(login_id) => Some(self.call(AccountRequest::CompleteLogin { login_id, code })),
            None => None,
        }
    }

    /// Takes the answer to a pasted code: the login is over and the accounts are asked for, or the error is
    /// shown and the code can be sent again.
    pub fn code_answered(&mut self, result: Result<(), String>, engine_attached: bool) -> (call: Option<
        AccountCall,
    >)
        ensures
            match result {
                Ok(_) => Self::listing(
                    AccountsPage { login: None, ..*old(self) },
                    *final(self),
                    true,
                    engine_attached,
                    call,
                ),
                Err(message) => {
                    &&& call is None
                    &&& match old(self).login {
                        Some(LoginFlow::PasteCode { start, .. }) => *final(self) == (AccountsPage {
                            login: Some(
                                LoginFlow::PasteCode {
                                    start,
                                    submitting: false,
                                    error: Some(message),
                                },
                            ),
                            ..*old(self)
                        }),
                        _ => *final(self) == *old(self),
                    }
                },
            },
    {
        match result {
            Ok(_) => {
                self.login = None;
                self.load(true, engine_attached)
            },
            Err(message) => {
                match &mut self.login {
                    Some(LoginFlow::PasteCode { submitting, error, .. }) => {
                        *submitting = false;
                        *error = Some(message);
                    },
                    _ => {},
                }
                None
            },
        }
    }

    /// The error that a poll leaves behind.
    pub open spec fn poll_error(reply: PollReply) -> Seq<char> {
        match reply {
            PollReply::Answer(poll) => match poll.message {
                Some(message) => message@,
                None => "Login failed"@,
            },
            PollReply::Failed(message) => "Poll failed: "@ + message@,
            PollReply::Malformed => "Poll failed: malformed reply"@,
        }
    }

    /// Whether a login is the one that is waited for in the browser. A question about any other one is
    /// dropped: its login was cancelled, or another one was started since.
    pub fn waits_for(&self, login_id: &str) -> (r: bool)
        ensures
            r == (self.login matches Some(LoginFlow::Browser { start, .. }) && start.login_id@
                == login_id@),
    {
        match &self.login {
            Some(LoginFlow::Browser { start, .. }) => text::same(start.login_id.as_str(), login_id),
            _ => false,
        }
    }

    /// Takes the answer to a question about a login. Returns whether asking is over, and what to ask next. A
    /// login that is no longer waited for, has landed or has failed is not asked about again.
    pub fn poll_answered(&mut self, reply: PollReply, engine_attached: bool) -> (r: (
        bool,
        Option<AccountCall>,
    ))
        ensures
            match old(self).login {
                Some(LoginFlow::Browser { start, message, error }) => match reply {
                    PollReply::Answer(poll) if poll.status == AgentLoginStatus::Done => r.0
                        && Self::listing(
                        AccountsPage { login: None, ..*old(self) },
                        *final(self),
                        true,
                        engine_attached,
                        r.1,
                    ),
                    PollReply::Answer(poll) if poll.status == AgentLoginStatus::Pending => !r.0
                        && r.1 is None && *final(self) == (AccountsPage {
                        login: Some(
                            LoginFlow::Browser {
                                start,
                                message: if poll.message is Some {
                                    poll.message
                                } else {
                                    message
                                },
                                error,
                            },
                        ),
                        ..*old(self)
                    }),
                    _ => r.0 && r.1 is None && (final(self).login matches Some(
                        LoginFlow::Browser { error: Some(shown), .. },
                    ) && shown@ == Self::poll_error(reply) && *final(self) == (AccountsPage {
                        login: Some(LoginFlow::Browser { start, message, error: Some(shown) }),
                        ..*old(self)
                    })),
                },
                _ => r.0 && r.1 is None && *final(self) == *old(self),
            },
    {
        let failed: String = match &mut self.login {
            Some(LoginFlow::Browser { message, .. }) => match reply {
                PollReply::Answer(poll) => match poll.status {
                    AgentLoginStatus::Done => {
                        self.login = None;
                        let call = self.load(true, engine_attached);
                        return (true, call);
                    },
                    AgentLoginStatus::Pending => {
                        if poll.message.is_some() {
                            *message = poll.message;
                        }
                        return (false, None);
                    },
                    AgentLoginStatus::Error => match poll.message {
                        Some(text) => text,
                        None => "Login failed".to_owned(),
                    },
                },
                PollReply::Failed(err) => text::joined("Poll failed: ", err.as_str()),
                PollReply::Malformed => "Poll failed: malformed reply".to_owned(),
            },
            _ => {
                return (true, None);
            },
        };
        match &mut self.login {
            Some(LoginFlow::Browser { error, .. }) => {
                *error = Some(failed);
            },
            _ => {},
        }
        (true, None)
    }

    /// The id of a login under way.
    pub open spec fn login_under_way(self) -> Option<String> {
        match self.login {
            Some(LoginFlow::PasteCode { start, .. }) => Some(start.login_id),
            Some(LoginFlow::Browser { start, .. }) => Some(start.login_id),
            _ => None,
        }
    }

    /// Ends a login.
    pub fn cancel_login(&mut self, engine_attached: bool) -> (call: Option<AccountCall>)
        ensures
            *final(self) == (AccountsPage { login: None, polling: false, ..*old(self) }),
            call == (match old(self).login_under_way() {
                Some(login_id) if engine_attached => Some(
                    old(self).call_for(AccountRequest::CancelLogin { login_id }),
                ),
                _ => None,
            }),
    {
        let id = match &self.login {
            Some(LoginFlow::PasteCode { start, .. }) => Some(start.login_id.clone()),
            Some(LoginFlow::Browser { start, .. }) => Some(start.login_id.clone()),
            _ => None,
        };
        self.login = None;
        self.polling = false;
        match id {
            Some(login_id) => if engine_attached {
                Some(self.call(AccountRequest::CancelLogin { login_id }))
            } else {
                None
            },
            None => None,
        }
    }
}

// ---------------------------------------------------------------------------
// What the page shows
// ---------------------------------------------------------------------------

/// The add-account dialog.
#[derive(Debug, PartialEq, Eq)]
pub enum LoginDialog {
    Starting,
    PasteCode { url: String, error: Option<String>, submitting: bool, submit_label: String },
    Browser { url: String, waiting: String, error: Option<String> },
}

/// The dialog shows a login.
pub open spec fn dialog_shows(dialog: LoginDialog, login: LoginFlow) -> bool {
    match login {
        LoginFlow::Starting => dialog is Starting,
        LoginFlow::PasteCode { start, submitting, error } => dialog matches LoginDialog::PasteCode {
            url,
            error: shown,
            submitting: busy,
            submit_label,
        } && url == start.url && shown == error && busy == submitting && submit_label@ == (
        if submitting {
            "Verifying…"@
        } else {
            "Continue"@
        }),
        LoginFlow::Browser { start, message, error } => dialog matches LoginDialog::Browser {
            url,
            waiting,
            error: shown,
        } && url == start.url && shown == error && waiting@ == (match message {
            Some(text) => text@,
            None => "Waiting…"@,
        }),
    }
}

/// A row of the device menu; no id is this device.
#[derive(Debug, PartialEq, Eq)]
pub struct DeviceChoice {
    pub id: Option<String>,
    pub name: String,
    pub selected: bool,
}

/// A usage meter.
#[derive(Debug, PartialEq, Eq)]
pub struct UsageMeter {
    pub label: String,
    pub line: String,
    pub percent: u32,
    pub level: UsageLevel,
}

/// An account row.
#[derive(Debug, PartialEq, Eq)]
pub struct AccountRow {
    pub id: String,
    pub harness: HarnessId,
    pub name: String,
    pub plan: Option<String>,
    pub active: bool,
    /// The account can be switched to.
    pub can_switch: bool,
    pub busy: bool,
    pub meters: Vec<UsageMeter>,
}

/// A provider card.
#[derive(Debug, PartialEq, Eq)]
pub struct ProviderCard {
    pub harness: HarnessId,
    pub name: String,
    pub warning: Option<String>,
    pub rows: Vec<AccountRow>,
}

/// The cards, or what stands in their place.
#[derive(Debug, PartialEq, Eq)]
pub enum AccountCards {
    Skeleton,
    Failed(String),
    Cards(Vec<ProviderCard>),
}

/// The name of an account: its address, or its display name.
pub open spec fn account_name(account: AgentAccount) -> Seq<char> {
    match account.email {
        Some(email) => email@,
        None => match account.display_name {
            Some(name) => name@,
            None => "Unknown account"@,
        },
    }
}

/// A meter shows a window.
pub open spec fn meter_shows(meter: UsageMeter, window: UsageWindow, now: Timestamp) -> bool {
    meter.label == window.label && meter.line@ == usage_line(window, now) && meter.percent
        == window.percent && meter.level == window.level
}

/// A row shows an account.
pub open spec fn row_shows(
    row: AccountRow,
    account: AgentAccount,
    busy: Option<Seq<char>>,
    now: Timestamp,
) -> bool {
    &&& row.id == account.id
    &&& row.harness == account.harness
    &&& row.name@ == account_name(account)
    &&& row.plan == account.plan_label
    &&& row.active == account.active
    &&& row.can_switch == (!account.active && account.switchable)
    &&& row.busy == (busy == Some(account.id@))
    &&& row.meters@.len() == account.usage_windows@.len()
    &&& forall|i: int|
        0 <= i < row.meters@.len() ==> meter_shows(
            #[trigger] row.meters@[i],
            account.usage_windows@[i],
            now,
        )
}

/// The test for a warning about a provider.
pub open spec fn warns_of(harness: HarnessId) -> spec_fn(AccountWarning) -> bool {
    |w: AccountWarning| w.harness == harness
}

/// A card shows a provider.
pub open spec fn card_shows(
    card: ProviderCard,
    provider: (HarnessId, Seq<char>),
    snapshot: AgentAccountsSnapshot,
    busy: Option<Seq<char>>,
    now: Timestamp,
) -> bool {
    let accounts = accounts_of(snapshot.accounts@, provider.0);
    &&& card.harness == provider.0
    &&& card.name@ == provider.1
    &&& card.warning == (match find_first(snapshot.warnings@, warns_of(provider.0)) {
        Some(w) => Some(w.message),
        None => None,
    })
    &&& card.rows@.len() == accounts.len()
    &&& forall|i: int|
        0 <= i < card.rows@.len() ==> row_shows(#[trigger] card.rows@[i], accounts[i], busy, now)
}

/// The row of an account.
pub fn account_row(account: &AgentAccount, busy: &Option<String>, now: Timestamp) -> (row: AccountRow)
    ensures
        row_shows(row, *account, text_opt(*busy), now),
{
    let name = match &account.email {
        Some(email) => email.clone(),
        None => match &account.display_name {
            Some(name) => name.clone(),
            None => "Unknown account".to_owned(),
        },
    };
    let is_busy = match busy {
        Some(id) => text::same(id.as_str(), account.id.as_str()),
        None => false,
    };
    let mut meters: Vec<UsageMeter> = Vec::new();
    let mut i: usize = 0;
    while i < account.usage_windows.len()
        invariant
            i <= account.usage_windows.len(),
            meters.len() == i,
            forall|k: int|
                0 <= k < i ==> meter_shows(
                    #[trigger] meters@[k],
                    account.usage_windows@[k],
                    now,
                ),
        decreases account.usage_windows.len() - i,
    {
        let window = &account.usage_windows[i];
        meters.push(
            UsageMeter {
                label: window.label.clone(),
                line: usage_label(window, now),
                percent: window.percent,
                level: window.level,
            },
        );
        i = i + 1;
    }
    AccountRow {
        id: account.id.clone(),
        harness: account.harness,
        name,
        plan: text::copied(&account.plan_label),
        active: account.active,
        can_switch: !account.active && account.switchable,
        busy: is_busy,
        meters,
    }
}

fn provider_card(
    harness: HarnessId,
    name: &str,
    snapshot: &AgentAccountsSnapshot,
    busy: &Option<String>,
    now: Timestamp,
) -> (card: ProviderCard)
    ensures
        card_shows(card, (harness, name@), *snapshot, text_opt(*busy), now),
{
    let ghost p = warns_of(harness);
    let about = |w: &AccountWarning| -> (b: bool)
        ensures
            b == p(*w),
        { w.harness == harness };
    let warning = match lists::find(&snapshot.warnings, about, Ghost(p)) {
        Some(w) => Some(w.message.clone()),
        None => None,
    };
    let accounts = provider_accounts(snapshot, harness);
    let ghost all = accounts_of(snapshot.accounts@, harness);
    let mut rows: Vec<AccountRow> = Vec::new();
    let mut i: usize = 0;
    proof {
        assert(pointees(accounts@).len() == accounts@.len());
    }
    while i < accounts.len()
        invariant
            i <= accounts.len(),
            pointees(accounts@) == all,
            accounts@.len() == all.len(),
            rows.len() == i,
            forall|k: int|
                0 <= k < i ==> row_shows(#[trigger] rows@[k], all[k], text_opt(*busy), now),
        decreases accounts.len() - i,
    {
        proof {
            assert(pointees(accounts@)[i as int] == *accounts@[i as int]);
        }
        rows.push(account_row(accounts[i], busy, now));
        i = i + 1;
    }
    ProviderCard { harness, name: name.to_owned(), warning, rows }
}

/// A row of the device menu shows a device.
pub open spec fn choice_shows(choice: DeviceChoice, device: Device, target: Option<Seq<char>>) -> bool {
    choice.id == Some(device.id) && choice.name == device.name && choice.selected == (target
        == Some(device.id@))
}

/// The test for the device with an id.
pub open spec fn device_is(id: Seq<char>) -> spec_fn(Device) -> bool {
    |d: Device| d.id@ == id
}

/// The name of the shown device: its own, or its id where it is not known.
pub open spec fn target_name(target: Option<String>, devices: Seq<Device>) -> Seq<char> {
    match target {
        None => "This device"@,
        Some(id) => match find_first(devices, device_is(id@)) {
            Some(d) => d.name@,
            None => id@,
        },
    }
}

impl AccountsPage {
    /// The add-account dialog.
    pub fn login_dialog(&self) -> (dialog: Option<LoginDialog>)
        ensures
            match (self.login, dialog) {
                (Some(login), Some(d)) => dialog_shows(d, login),
                (None, None) => true,
                _ => false,
            },
    {
        match &self.login {
            None => None,
            Some(LoginFlow::Starting) => Some(LoginDialog::Starting),
            Some(LoginFlow::PasteCode { start, submitting, error }) => {
                let label = if *submitting {
                    "Verifying…"
                } else {
                    "Continue"
                };
                Some(
                    LoginDialog::PasteCode {
                        url: start.url.clone(),
                        error: text::copied(error),
                        submitting: *submitting,
                        submit_label: label.to_owned(),
                    },
                )
            },
            Some(LoginFlow::Browser { start, message, error }) => {
                let waiting = match message {
                    Some(text) => text.clone(),
                    None => "Waiting…".to_owned(),
                };
                Some(
                    LoginDialog::Browser {
                        url: start.url.clone(),
                        waiting,
                        error: text::copied(error),
                    },
                )
            },
        }
    }

    /// The name of the device whose accounts are shown.
    pub fn device_label(&self, devices: &[Device]) -> (r: String)
        ensures
            r@ == target_name(self.target_device, devices@),
    {
        match &self.target_device {
            None => "This device".to_owned(),
            Some(id) => {
                let ghost p = device_is(id@);
                let same_id = |d: &Device| -> (b: bool)
                    ensures
                        b == p(*d),
                    { text::same(d.id.as_str(), id.as_str()) };
                match lists::find(devices, same_id, Ghost(p)) {
                    Some(d) => d.name.clone(),
                    None => id.clone(),
                }
            },
        }
    }

    /// The rows of the device menu: this device, then all devices.
    pub fn device_choices(&self, devices: &[Device]) -> (rows: Vec<DeviceChoice>)
        ensures
            rows@.len() == devices@.len() + 1,
            rows@[0].id is None,
            rows@[0].name@ == "This device"@,
            rows@[0].selected == self.target_device is None,
            forall|i: int|
                0 <= i < devices@.len() ==> choice_shows(
                    #[trigger] rows@[i + 1],
                    devices@[i],
                    text_opt(self.target_device),
                ),
    {
        let mut rows: Vec<DeviceChoice> = Vec::new();
        rows.push(
            DeviceChoice {
                id: None,
                name: "This device".to_owned(),
                selected: self.target_device.is_none(),
            },
        );
        let mut i: usize = 0;
        while i < devices.len()
            invariant
                i <= devices.len(),
                rows@.len() == i + 1,
                rows@[0].id is None,
                rows@[0].name@ == "This device"@,
                rows@[0].selected == self.target_device is None,
                forall|k: int|
                    0 <= k < i ==> choice_shows(
                        #[trigger] rows@[k + 1],
                        devices@[k],
                        text_opt(self.target_device),
                    ),
            decreases devices.len() - i,
        {
            let selected = match &self.target_device {
                Some(id) => text::same(id.as_str(), devices[i].id.as_str()),
                None => false,
            };
            let ghost before = rows@;
            rows.push(
                DeviceChoice {
                    id: Some(devices[i].id.clone()),
                    name: devices[i].name.clone(),
                    selected,
                },
            );
            proof {
                assert forall|k: int| 0 <= k < i + 1 implies choice_shows(
                    #[trigger] rows@[k + 1],
                    devices@[k],
                    text_opt(self.target_device),
                ) by {
                    if k < i {
                        assert(rows@[k + 1] == before[k + 1]);
                    }
                }
            }
            i = i + 1;
        }
        rows
    }

    /// The provider cards.
    pub fn cards(&self, titles: &ProviderTitles, now: Timestamp) -> (cards: AccountCards)
        ensures
            match self.snapshot {
                Loadable::Idle | Loadable::Loading => cards is Skeleton,
                Loadable::Error(message) => cards == AccountCards::Failed(message),
                Loadable::Ready(snapshot) => cards matches AccountCards::Cards(list) && list@.len()
                    == providers(*titles).len() && forall|i: int|
                    0 <= i < list@.len() ==> card_shows(
                        #[trigger] list@[i],
                        providers(*titles)[i],
                        snapshot,
                        text_opt(self.busy_account),
                        now,
                    ),
            },
    {
        match &self.snapshot {
            Loadable::Idle | Loadable::Loading => AccountCards::Skeleton,
            Loadable::Error(message) => AccountCards::Failed(message.clone()),
            Loadable::Ready(snapshot) => {
                let mut list: Vec<ProviderCard> = Vec::new();
                list.push(
                    provider_card(
                        HarnessId::ClaudeCode,
                        titles.claude_code.as_str(),
                        snapshot,
                        &self.busy_account,
                        now,
                    ),
                );
                list.push(
                    provider_card(
                        HarnessId::Codex,
                        titles.codex.as_str(),
                        snapshot,
                        &self.busy_account,
                        now,
                    ),
                );
                AccountCards::Cards(list)
            },
        }
    }
}

} // verus!
