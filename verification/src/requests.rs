//! The requests that go to the engine: which method, with which parameters.

use crate::json::Json;
use crate::model::HarnessId;
use crate::pickers::state::PickerCall;
use crate::settings::accounts::{AccountAction, AccountCall, AccountRequest};
use crate::settings::encryption::VaultCall;
use crate::shell::frame::Mutation;
use crate::shell::palette::FolderCall;
use crate::terminal::panel::TerminalWrite;
use crate::text::text_opt;
use vstd::prelude::*;

verus! {

/// What the engine is asked to do.
#[derive(Debug, Clone, Copy, PartialEq, Eq, Structural)]
pub enum Method {
    ListHarnesses,
    ListModels,
    ListRepos,
    ListBranches,
    ListFolders,
    AddRepo,
    CloneRepo,
    CreateRepo,
    Mutate,
    ListAgentAccounts,
    ActivateAgentAccount,
    ForgetAgentAccount,
    StartAgentLogin,
    CompleteAgentLogin,
    PollAgentLogin,
    CancelAgentLogin,
    VaultRefresh,
    VaultPendingRequests,
    VaultSetup,
    VaultRequestEnrollment,
    VaultCancelEnrollment,
    VaultApprove,
    VaultReject,
    VaultRevoke,
    VaultRecover,
    OpenTerminal,
    SubscribeTerminal,
    WriteTerminal,
    ResizeTerminal,
    CloseTerminal,
    SignIn,
    SignOut,
    ListOrgs,
    CreateOrg,
    SelectOrg,
    LocalDevice,
    WatchSessions,
    WatchChats,
    WatchDevices,
    WatchSpaces,
    AuthStatus,
    WatchDocMessages,
}

/// A method and its parameters, which are an object.
pub struct Request {
    pub method: Method,
    pub params: Json,
}

/// A parameter.
pub enum Field {
    Text(Seq<char>),
    Natural(u64),
    Flag(bool),
    Other,
}

/// A parameter as it stands in a value.
pub open spec fn field_of(value: Json) -> Field {
    match value {
        Json::Text(s) => Field::Text(s@),
        Json::Natural(n) => Field::Natural(n),
        Json::Bool(b) => Field::Flag(b),
        _ => Field::Other,
    }
}

/// The members of an object, by name.
pub open spec fn fields_of(members: Seq<(String, Json)>) -> Seq<(Seq<char>, Field)> {
    members.map_values(|m: (String, Json)| (m.0@, field_of(m.1)))
}

/// A request asks for a method with these parameters and no others.
pub open spec fn asks(request: Request, method: Method, fields: Seq<(Seq<char>, Field)>) -> bool {
    request.method == method && (request.params matches Json::Object(members) && fields_of(members@)
        == fields)
}

/// No two parameters share a name.
pub open spec fn names_differ(fields: Seq<(Seq<char>, Field)>) -> bool {
    forall|i: int, j: int|
        0 <= i < j < fields.len() ==> (#[trigger] fields[i]).0 != (#[trigger] fields[j]).0
}

/// Parameters under construction.
struct Params {
    members: Vec<(String, Json)>,
}

impl View for Params {
    type V = Seq<(Seq<char>, Field)>;

    closed spec fn view(&self) -> Seq<(Seq<char>, Field)> {
        fields_of(self.members@)
    }
}

impl Params {
    fn new() -> (p: Self)
        ensures
            p@ == Seq::<(Seq<char>, Field)>::empty(),
    {
        let p = Params { members: Vec::new() };
        assert(p@ =~= Seq::<(Seq<char>, Field)>::empty());
        p
    }

    fn put(self, name: &str, value: Json) -> (p: Self)
        ensures
            p@ == self@.push((name@, field_of(value))),
    {
        let mut members = self.members;
        members.push((name.to_owned(), value));
        let p = Params { members };
        assert(p@ =~= self@.push((name@, field_of(value))));
        p
    }

    fn text(self, name: &str, value: &str) -> (p: Self)
        ensures
            p@ == self@.push((name@, Field::Text(value@))),
    {
        self.put(name, Json::Text(value.to_owned()))
    }

    fn flag(self, name: &str, value: bool) -> (p: Self)
        ensures
            p@ == self@.push((name@, Field::Flag(value))),
    {
        self.put(name, Json::Bool(value))
    }

    fn natural(self, name: &str, value: u64) -> (p: Self)
        ensures
            p@ == self@.push((name@, Field::Natural(value))),
    {
        self.put(name, Json::Natural(value))
    }

    /// Adds the device that a request is for; none is this device.
    fn targeted(self, target: &Option<String>) -> (p: Self)
        ensures
            p@ == self@ + target_field(text_opt(*target)),
    {
        match target {
            Some(id) => {
                let p = self.text("targetDeviceId", id.as_str());
                assert(p@ =~= self@ + target_field(text_opt(*target)));
                p
            },
            None => {
                assert(self@ =~= self@ + target_field(text_opt(*target)));
                self
            },
        }
    }

    fn ask(self, method: Method) -> (r: Request)
        ensures
            asks(r, method, self@),
    {
        Request { method, params: Json::Object(self.members) }
    }
}

/// The parameter that names the device of a request.
pub open spec fn target_field(target: Option<Seq<char>>) -> Seq<(Seq<char>, Field)> {
    match target {
        Some(id) => seq![("targetDeviceId"@, Field::Text(id))],
        None => Seq::empty(),
    }
}

/// A request without parameters.
pub fn bare_request(method: Method) -> (r: Request)
    ensures
        asks(r, method, Seq::empty()),
{
    Params::new().ask(method)
}

// ---------------------------------------------------------------------------
// Synced rows
// ---------------------------------------------------------------------------

/// The parameters of a change to synced rows.
pub open spec fn mutation_fields(m: Mutation) -> Seq<(Seq<char>, Field)> {
    match m {
        Mutation::RenameChat { chat_id, title } => seq![
            ("op"@, Field::Text("renameChat"@)),
            ("chatId"@, Field::Text(chat_id@)),
            ("title"@, Field::Text(title@)),
        ],
        Mutation::SetChatArchived { chat_id, archived } => seq![
            ("op"@, Field::Text("setChatArchived"@)),
            ("chatId"@, Field::Text(chat_id@)),
            ("archived"@, Field::Flag(archived)),
        ],
        Mutation::DeleteChat { chat_id } => seq![
            ("op"@, Field::Text("deleteChat"@)),
            ("chatId"@, Field::Text(chat_id@)),
        ],
        Mutation::CreateSpace { space_id, device_id, path, git_detected } => seq![
            ("op"@, Field::Text("createSpace"@)),
            ("spaceId"@, Field::Text(space_id@)),
            ("deviceId"@, Field::Text(device_id@)),
            ("path"@, Field::Text(path@)),
            ("gitDetected"@, Field::Flag(git_detected)),
        ],
        Mutation::RenameSpace { space_id, name } => seq![
            ("op"@, Field::Text("renameSpace"@)),
            ("spaceId"@, Field::Text(space_id@)),
            ("name"@, Field::Text(name@)),
        ],
        Mutation::DeleteSpace { space_id } => seq![
            ("op"@, Field::Text("deleteSpace"@)),
            ("spaceId"@, Field::Text(space_id@)),
        ],
    }
}

/// The request for a change to synced rows.
pub fn mutation_request(m: &Mutation) -> (r: Request)
    ensures
        asks(r, Method::Mutate, mutation_fields(*m)),
{
    let p = match m {
        Mutation::RenameChat { chat_id, title } => Params::new().text("op", "renameChat").text(
            "chatId",
            chat_id.as_str(),
        ).text("title", title.as_str()),
        Mutation::SetChatArchived { chat_id, archived } => Params::new().text(
            "op",
            "setChatArchived",
        ).text("chatId", chat_id.as_str()).flag("archived", *archived),
        Mutation::DeleteChat { chat_id } => Params::new().text("op", "deleteChat").text(
            "chatId",
            chat_id.as_str(),
        ),
        Mutation::CreateSpace { space_id, device_id, path, git_detected } => Params::new().text(
            "op",
            "createSpace",
        ).text("spaceId", space_id.as_str()).text("deviceId", device_id.as_str()).text(
            "path",
            path.as_str(),
        ).flag("gitDetected", *git_detected),
        Mutation::RenameSpace { space_id, name } => Params::new().text("op", "renameSpace").text(
            "spaceId",
            space_id.as_str(),
        ).text("name", name.as_str()),
        Mutation::DeleteSpace { space_id } => Params::new().text("op", "deleteSpace").text(
            "spaceId",
            space_id.as_str(),
        ),
    };
    assert(p@ =~= mutation_fields(*m));
    p.ask(Method::Mutate)
}

/// The request that says that a chat was seen.
pub fn seen_request(chat_id: &str) -> (r: Request)
    ensures
        asks(
            r,
            Method::Mutate,
            seq![("op"@, Field::Text("markChatSeen"@)), ("chatId"@, Field::Text(chat_id@))],
        ),
{
    let p = Params::new().text("op", "markChatSeen").text("chatId", chat_id);
    assert(p@ =~= seq![("op"@, Field::Text("markChatSeen"@)), ("chatId"@, Field::Text(chat_id@))]);
    p.ask(Method::Mutate)
}

/// The subscription to the transcript of a chat.
pub fn transcript_request(chat_id: &str) -> (r: Request)
    ensures
        asks(r, Method::WatchDocMessages, seq![("chatId"@, Field::Text(chat_id@))]),
{
    let p = Params::new().text("chatId", chat_id);
    assert(p@ =~= seq![("chatId"@, Field::Text(chat_id@))]);
    p.ask(Method::WatchDocMessages)
}

// ---------------------------------------------------------------------------
// Pickers and folders
// ---------------------------------------------------------------------------

/// How requests name the harnesses.
#[derive(Debug, PartialEq, Eq)]
pub struct HarnessNames {
    pub claude_code: String,
    pub codex: String,
    pub cursor: String,
    pub mock: String,
}

impl HarnessNames {
    /// The name of a harness.
    pub open spec fn of(self, harness: HarnessId) -> Seq<char> {
        match harness {
            HarnessId::ClaudeCode => self.claude_code@,
            HarnessId::Codex => self.codex@,
            HarnessId::Cursor => self.cursor@,
            HarnessId::Mock => self.mock@,
        }
    }

    pub fn name(&self, harness: HarnessId) -> (r: &str)
        ensures
            r@ == self.of(harness),
    {
        match harness {
            HarnessId::ClaudeCode => self.claude_code.as_str(),
            HarnessId::Codex => self.codex.as_str(),
            HarnessId::Cursor => self.cursor.as_str(),
            HarnessId::Mock => self.mock.as_str(),
        }
    }
}

/// The parameter that names a folder; none is the home folder.
pub open spec fn path_field(path: Option<Seq<char>>) -> Seq<(Seq<char>, Field)> {
    match path {
        Some(p) => seq![("path"@, Field::Text(p))],
        None => Seq::empty(),
    }
}

/// A request is what the pickers ask for.
pub open spec fn picker_asks(r: Request, call: PickerCall, names: HarnessNames) -> bool {
    match call {
        PickerCall::ListHarnesses => asks(r, Method::ListHarnesses, Seq::empty()),
        PickerCall::ListModels(harness) => asks(
            r,
            Method::ListModels,
            seq![("harness"@, Field::Text(names.of(harness)))],
        ),
        PickerCall::ListRepos => asks(r, Method::ListRepos, Seq::empty()),
        PickerCall::ListBranches(repo) => asks(
            r,
            Method::ListBranches,
            seq![("repoPath"@, Field::Text(repo@))],
        ),
        PickerCall::ListFolders(path) => asks(r, Method::ListFolders, path_field(text_opt(path))),
        PickerCall::AddRepo(path) => asks(r, Method::AddRepo, seq![("path"@, Field::Text(path@))]),
        PickerCall::CloneRepo(url) => asks(r, Method::CloneRepo, seq![("url"@, Field::Text(url@))]),
        PickerCall::CreateRepo(name) => asks(
            r,
            Method::CreateRepo,
            seq![("name"@, Field::Text(name@))],
        ),
    }
}

fn one_text(method: Method, name: &str, value: &str) -> (r: Request)
    ensures
        asks(r, method, seq![(name@, Field::Text(value@))]),
{
    let p = Params::new().text(name, value);
    assert(p@ =~= seq![(name@, Field::Text(value@))]);
    p.ask(method)
}

fn folder_params(path: &Option<String>) -> (p: Params)
    ensures
        p@ == path_field(text_opt(*path)),
{
    match path {
        Some(path) => {
            let p = Params::new().text("path", path.as_str());
            assert(p@ =~= path_field(Some(path@)));
            p
        },
        None => Params::new(),
    }
}

/// The request for what the pickers ask.
pub fn picker_request(call: &PickerCall, names: &HarnessNames) -> (r: Request)
    ensures
        picker_asks(r, *call, *names),
{
    match call {
        PickerCall::ListHarnesses => bare_request(Method::ListHarnesses),
        PickerCall::ListModels(harness) => one_text(
            Method::ListModels,
            "harness",
            names.name(*harness),
        ),
        PickerCall::ListRepos => bare_request(Method::ListRepos),
        PickerCall::ListBranches(repo) => one_text(Method::ListBranches, "repoPath", repo.as_str()),
        PickerCall::ListFolders(path) => folder_params(path).ask(Method::ListFolders),
        PickerCall::AddRepo(path) => one_text(Method::AddRepo, "path", path.as_str()),
        PickerCall::CloneRepo(url) => one_text(Method::CloneRepo, "url", url.as_str()),
        PickerCall::CreateRepo(name) => one_text(Method::CreateRepo, "name", name.as_str()),
    }
}

/// The request for a folder of a device.
pub fn folder_request(call: &FolderCall) -> (r: Request)
    ensures
        asks(
            r,
            Method::ListFolders,
            path_field(text_opt(call.path)) + target_field(text_opt(call.target_device)),
        ),
{
    folder_params(&call.path).targeted(&call.target_device).ask(Method::ListFolders)
}

// ---------------------------------------------------------------------------
// Accounts
// ---------------------------------------------------------------------------

/// The method of a request about accounts.
pub open spec fn account_method(request: AccountRequest) -> Method {
    match request {
        AccountRequest::List { .. } => Method::ListAgentAccounts,
        AccountRequest::Act { action, .. } => match action {
            AccountAction::Activate => Method::ActivateAgentAccount,
            AccountAction::Forget => Method::ForgetAgentAccount,
        },
        AccountRequest::StartLogin { .. } => Method::StartAgentLogin,
        AccountRequest::CompleteLogin { .. } => Method::CompleteAgentLogin,
        AccountRequest::PollLogin { .. } => Method::PollAgentLogin,
        AccountRequest::CancelLogin { .. } => Method::CancelAgentLogin,
    }
}

/// The parameters of a request about accounts, without the device. An account goes under both names that
/// engines read.
pub open spec fn account_fields(request: AccountRequest, names: HarnessNames) -> Seq<
    (Seq<char>, Field),
> {
    match request {
        AccountRequest::List { force_usage } => seq![("forceUsage"@, Field::Flag(force_usage))],
        AccountRequest::Act { id, harness, .. } => seq![
            ("id"@, Field::Text(id@)),
            ("accountId"@, Field::Text(id@)),
            ("harness"@, Field::Text(names.of(harness))),
        ],
        AccountRequest::StartLogin { harness } => seq![
            ("harness"@, Field::Text(names.of(harness))),
        ],
        AccountRequest::CompleteLogin { login_id, code } => seq![
            ("loginId"@, Field::Text(login_id@)),
            ("code"@, Field::Text(code@)),
        ],
        AccountRequest::PollLogin { login_id } => seq![("loginId"@, Field::Text(login_id@))],
        AccountRequest::CancelLogin { login_id } => seq![("loginId"@, Field::Text(login_id@))],
    }
}

/// The request about accounts, for the device that it names.
pub fn account_request(call: &AccountCall, names: &HarnessNames) -> (r: Request)
    ensures
        asks(
            r,
            account_method(call.request),
            account_fields(call.request, *names) + target_field(text_opt(call.target_device)),
        ),
{
    let (method, p) = match &call.request {
        AccountRequest::List { force_usage } => (
            Method::ListAgentAccounts,
            Params::new().flag("forceUsage", *force_usage),
        ),
        AccountRequest::Act { action, id, harness } => (
            match action {
                AccountAction::Activate => Method::ActivateAgentAccount,
                AccountAction::Forget => Method::ForgetAgentAccount,
            },
            Params::new().text("id", id.as_str()).text("accountId", id.as_str()).text(
                "harness",
                names.name(*harness),
            ),
        ),
        AccountRequest::StartLogin { harness } => (
            Method::StartAgentLogin,
            Params::new().text("harness", names.name(*harness)),
        ),
        AccountRequest::CompleteLogin { login_id, code } => (
            Method::CompleteAgentLogin,
            Params::new().text("loginId", login_id.as_str()).text("code", code.as_str()),
        ),
        AccountRequest::PollLogin { login_id } => (
            Method::PollAgentLogin,
            Params::new().text("loginId", login_id.as_str()),
        ),
        AccountRequest::CancelLogin { login_id } => (
            Method::CancelAgentLogin,
            Params::new().text("loginId", login_id.as_str()),
        ),
    };
    assert(p@ =~= account_fields(call.request, *names));
    p.targeted(&call.target_device).ask(method)
}

// ---------------------------------------------------------------------------
// Vault and organizations
// ---------------------------------------------------------------------------

/// A request is what the vault is asked for.
pub open spec fn vault_asks(r: Request, call: VaultCall) -> bool {
    match call {
        VaultCall::Setup => asks(r, Method::VaultSetup, Seq::empty()),
        VaultCall::RequestEnrollment => asks(r, Method::VaultRequestEnrollment, Seq::empty()),
        VaultCall::CancelEnrollment => asks(r, Method::VaultCancelEnrollment, Seq::empty()),
        VaultCall::Approve { request_id, code } => asks(
            r,
            Method::VaultApprove,
            seq![("requestId"@, Field::Text(request_id@)), ("code"@, Field::Text(code@))],
        ),
        VaultCall::Reject { request_id } => asks(
            r,
            Method::VaultReject,
            seq![("requestId"@, Field::Text(request_id@))],
        ),
        VaultCall::Revoke { device_id } => asks(
            r,
            Method::VaultRevoke,
            seq![("deviceId"@, Field::Text(device_id@))],
        ),
        VaultCall::Recover { kit } => asks(
            r,
            Method::VaultRecover,
            seq![("kit"@, Field::Text(kit@))],
        ),
    }
}

/// The request to the vault.
pub fn vault_request(call: &VaultCall) -> (r: Request)
    ensures
        vault_asks(r, *call),
{
    match call {
        VaultCall::Setup => bare_request(Method::VaultSetup),
        VaultCall::RequestEnrollment => bare_request(Method::VaultRequestEnrollment),
        VaultCall::CancelEnrollment => bare_request(Method::VaultCancelEnrollment),
        VaultCall::Approve { request_id, code } => {
            let p = Params::new().text("requestId", request_id.as_str()).text("code", code.as_str());
            assert(p@ =~= seq![
                ("requestId"@, Field::Text(request_id@)),
                ("code"@, Field::Text(code@)),
            ]);
            p.ask(Method::VaultApprove)
        },
        VaultCall::Reject { request_id } => one_text(
            Method::VaultReject,
            "requestId",
            request_id.as_str(),
        ),
        VaultCall::Revoke { device_id } => one_text(
            Method::VaultRevoke,
            "deviceId",
            device_id.as_str(),
        ),
        VaultCall::Recover { kit } => one_text(Method::VaultRecover, "kit", kit.as_str()),
    }
}

/// The request to make a workspace.
pub fn create_org_request(name: &str) -> (r: Request)
    ensures
        asks(r, Method::CreateOrg, seq![("name"@, Field::Text(name@))]),
{
    one_text(Method::CreateOrg, "name", name)
}

/// The request to join a workspace.
pub fn select_org_request(organization_id: &str) -> (r: Request)
    ensures
        asks(r, Method::SelectOrg, seq![("organizationId"@, Field::Text(organization_id@))]),
{
    one_text(Method::SelectOrg, "organizationId", organization_id)
}

// ---------------------------------------------------------------------------
// Terminals
// ---------------------------------------------------------------------------

/// The request to open a terminal.
pub fn open_terminal_request(chat_id: &str, cols: u16, rows: u16) -> (r: Request)
    ensures
        asks(
            r,
            Method::OpenTerminal,
            seq![
                ("chatId"@, Field::Text(chat_id@)),
                ("cols"@, Field::Natural(cols as u64)),
                ("rows"@, Field::Natural(rows as u64)),
            ],
        ),
{
    let p = Params::new().text("chatId", chat_id).natural("cols", cols as u64).natural(
        "rows",
        rows as u64,
    );
    assert(p@ =~= seq![
        ("chatId"@, Field::Text(chat_id@)),
        ("cols"@, Field::Natural(cols as u64)),
        ("rows"@, Field::Natural(rows as u64)),
    ]);
    p.ask(Method::OpenTerminal)
}

/// The subscription to the stream of a terminal, after the last frame that was taken.
pub fn subscribe_terminal_request(terminal_id: &str, after_seq: u64) -> (r: Request)
    ensures
        asks(
            r,
            Method::SubscribeTerminal,
            seq![
                ("terminalId"@, Field::Text(terminal_id@)),
                ("afterSeq"@, Field::Natural(after_seq)),
            ],
        ),
{
    let p = Params::new().text("terminalId", terminal_id).natural("afterSeq", after_seq);
    assert(p@ =~= seq![
        ("terminalId"@, Field::Text(terminal_id@)),
        ("afterSeq"@, Field::Natural(after_seq)),
    ]);
    p.ask(Method::SubscribeTerminal)
}

/// The request to write to a terminal.
pub fn write_terminal_request(write: &TerminalWrite) -> (r: Request)
    ensures
        asks(
            r,
            Method::WriteTerminal,
            seq![
                ("terminalId"@, Field::Text(write.terminal_id@)),
                ("data"@, Field::Text(write.data@)),
            ],
        ),
{
    let p = Params::new().text("terminalId", write.terminal_id.as_str()).text(
        "data",
        write.data.as_str(),
    );
    assert(p@ =~= seq![
        ("terminalId"@, Field::Text(write.terminal_id@)),
        ("data"@, Field::Text(write.data@)),
    ]);
    p.ask(Method::WriteTerminal)
}

/// The request that tells a terminal its size.
pub fn resize_terminal_request(terminal_id: &str, cols: usize, rows: usize) -> (r: Request)
    ensures
        asks(
            r,
            Method::ResizeTerminal,
            seq![
                ("terminalId"@, Field::Text(terminal_id@)),
                ("cols"@, Field::Natural(cols as u64)),
                ("rows"@, Field::Natural(rows as u64)),
            ],
        ),
{
    let p = Params::new().text("terminalId", terminal_id).natural("cols", cols as u64).natural(
        "rows",
        rows as u64,
    );
    assert(p@ =~= seq![
        ("terminalId"@, Field::Text(terminal_id@)),
        ("cols"@, Field::Natural(cols as u64)),
        ("rows"@, Field::Natural(rows as u64)),
    ]);
    p.ask(Method::ResizeTerminal)
}

/// The request to close a terminal.
pub fn close_terminal_request(terminal_id: &str) -> (r: Request)
    ensures
        asks(r, Method::CloseTerminal, seq![("terminalId"@, Field::Text(terminal_id@))]),
{
    one_text(Method::CloseTerminal, "terminalId", terminal_id)
}

/// Every request names each of its parameters once, with or without the device that it is for.
pub proof fn parameters_are_named_once(
    m: Mutation,
    account: AccountRequest,
    names: HarnessNames,
    path: Option<Seq<char>>,
    target: Option<Seq<char>>,
)
    ensures
        names_differ(mutation_fields(m)),
        names_differ(account_fields(account, names) + target_field(target)),
        names_differ(path_field(path) + target_field(target)),
{
    parameters_of_a_mutation(m);
    reveal_strlit("forceUsage");
    reveal_strlit("id");
    reveal_strlit("accountId");
    reveal_strlit("harness");
    reveal_strlit("loginId");
    reveal_strlit("code");
    reveal_strlit("targetDeviceId");
    reveal_strlit("path");
    let fields = account_fields(account, names) + target_field(target);
    assert forall|i: int, j: int| 0 <= i < j < fields.len() implies (#[trigger] fields[i]).0.len() != (
    #[trigger] fields[j]).0.len() by {
    }
    let folder = path_field(path) + target_field(target);
    assert forall|i: int, j: int| 0 <= i < j < folder.len() implies (#[trigger] folder[i]).0.len() != (
    #[trigger] folder[j]).0.len() by {
    }
}

proof fn parameters_of_a_mutation(m: Mutation)
    ensures
        names_differ(mutation_fields(m)),
{
    reveal_strlit("op");
    reveal_strlit("chatId");
    reveal_strlit("title");
    reveal_strlit("archived");
    reveal_strlit("spaceId");
    reveal_strlit("deviceId");
    reveal_strlit("path");
    reveal_strlit("gitDetected");
    reveal_strlit("name");
    let fields = mutation_fields(m);
    assert forall|i: int, j: int| 0 <= i < j < fields.len() implies (#[trigger] fields[i]).0.len() != (
    #[trigger] fields[j]).0.len() by {
    }
}

} // verus!
