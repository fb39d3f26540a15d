use comet_ui::json::Json;
use comet_ui::model::HarnessId;
use comet_ui::pickers::state::PickerCall;
use comet_ui::requests::{
    account_request, bare_request, close_terminal_request, create_org_request, folder_request,
    mutation_request, open_terminal_request, picker_request, resize_terminal_request, seen_request,
    select_org_request, subscribe_terminal_request, transcript_request, vault_request,
    write_terminal_request, HarnessNames, Method, Request,
};
use comet_ui::settings::accounts::{AccountAction, AccountCall, AccountRequest};
use comet_ui::settings::encryption::VaultCall;
use comet_ui::shell::frame::Mutation;
use comet_ui::shell::palette::FolderCall;
use comet_ui::terminal::panel::TerminalWrite;

fn names() -> HarnessNames {
    HarnessNames {
        claude_code: "code".into(),
        codex: "codex".into(),
        cursor: "cursor".into(),
        mock: "mock".into(),
    }
}

/// The parameters as `name=value` words.
fn shown(request: &Request) -> Vec<String> {
    let Json::Object(members) = &request.params else {
        panic!("parameters are an object");
    };
    members
        .iter()
        .map(|(name, value)| match value {
            Json::Text(text) => format!("{name}={text}"),
            Json::Natural(n) => format!("{name}={n}"),
            Json::Bool(b) => format!("{name}={b}"),
            _ => panic!("unexpected value"),
        })
        .collect()
}

fn is(request: Request, method: Method, fields: &[&str]) {
    assert_eq!(request.method, method);
    assert_eq!(shown(&request), fields);
}

#[test]
fn mutations_name_their_operation() {
    is(
        mutation_request(&Mutation::RenameChat { chat_id: "c".into(), title: "T".into() }),
        Method::Mutate,
        &["op=renameChat", "chatId=c", "title=T"],
    );
    is(
        mutation_request(&Mutation::SetChatArchived { chat_id: "c".into(), archived: true }),
        Method::Mutate,
        &["op=setChatArchived", "chatId=c", "archived=true"],
    );
    is(
        mutation_request(&Mutation::DeleteChat { chat_id: "c".into() }),
        Method::Mutate,
        &["op=deleteChat", "chatId=c"],
    );
    is(
        mutation_request(&Mutation::CreateSpace {
            space_id: "s".into(),
            device_id: "d".into(),
            path: "/p".into(),
            git_detected: false,
        }),
        Method::Mutate,
        &["op=createSpace", "spaceId=s", "deviceId=d", "path=/p", "gitDetected=false"],
    );
    is(
        mutation_request(&Mutation::RenameSpace { space_id: "s".into(), name: "N".into() }),
        Method::Mutate,
        &["op=renameSpace", "spaceId=s", "name=N"],
    );
    is(
        mutation_request(&Mutation::DeleteSpace { space_id: "s".into() }),
        Method::Mutate,
        &["op=deleteSpace", "spaceId=s"],
    );
    is(seen_request("c"), Method::Mutate, &["op=markChatSeen", "chatId=c"]);
    is(transcript_request("c"), Method::WatchDocMessages, &["chatId=c"]);
    is(bare_request(Method::SignIn), Method::SignIn, &[]);
}

#[test]
fn pickers_ask_for_lists() {
    let ask = |call: PickerCall| picker_request(&call, &names());
    is(ask(PickerCall::ListHarnesses), Method::ListHarnesses, &[]);
    is(ask(PickerCall::ListModels(HarnessId::Mock)), Method::ListModels, &["harness=mock"]);
    is(ask(PickerCall::ListRepos), Method::ListRepos, &[]);
    is(ask(PickerCall::ListBranches("/r".into())), Method::ListBranches, &["repoPath=/r"]);
    is(ask(PickerCall::ListFolders(None)), Method::ListFolders, &[]);
    is(ask(PickerCall::ListFolders(Some("/f".into()))), Method::ListFolders, &["path=/f"]);
    is(ask(PickerCall::AddRepo("/r".into())), Method::AddRepo, &["path=/r"]);
    is(ask(PickerCall::CloneRepo("u".into())), Method::CloneRepo, &["url=u"]);
    is(ask(PickerCall::CreateRepo("n".into())), Method::CreateRepo, &["name=n"]);
}

#[test]
fn only_another_device_is_named() {
    let call = |path: Option<&str>, target: Option<&str>| {
        folder_request(&FolderCall {
            path: path.map(String::from),
            target_device: target.map(String::from),
        })
    };
    is(call(None, None), Method::ListFolders, &[]);
    is(call(Some("/f"), Some("d")), Method::ListFolders, &["path=/f", "targetDeviceId=d"]);
    let account = |request: AccountRequest, target: Option<&str>| {
        account_request(
            &AccountCall { request, target_device: target.map(String::from) },
            &names(),
        )
    };
    is(
        account(AccountRequest::List { force_usage: true }, None),
        Method::ListAgentAccounts,
        &["forceUsage=true"],
    );
    is(
        account(
            AccountRequest::Act {
                action: AccountAction::Forget,
                id: "a".into(),
                harness: HarnessId::Codex,
            },
            Some("d"),
        ),
        Method::ForgetAgentAccount,
        &["id=a", "accountId=a", "harness=codex", "targetDeviceId=d"],
    );
    is(
        account(AccountRequest::StartLogin { harness: HarnessId::ClaudeCode }, None),
        Method::StartAgentLogin,
        &["harness=code"],
    );
    is(
        account(
            AccountRequest::CompleteLogin { login_id: "l".into(), code: "42".into() },
            None,
        ),
        Method::CompleteAgentLogin,
        &["loginId=l", "code=42"],
    );
    is(
        account(AccountRequest::PollLogin { login_id: "l".into() }, Some("d")),
        Method::PollAgentLogin,
        &["loginId=l", "targetDeviceId=d"],
    );
    is(
        account(AccountRequest::CancelLogin { login_id: "l".into() }, None),
        Method::CancelAgentLogin,
        &["loginId=l"],
    );
}

#[test]
fn vault_and_workspace_requests() {
    is(vault_request(&VaultCall::Setup), Method::VaultSetup, &[]);
    is(vault_request(&VaultCall::RequestEnrollment), Method::VaultRequestEnrollment, &[]);
    is(vault_request(&VaultCall::CancelEnrollment), Method::VaultCancelEnrollment, &[]);
    is(
        vault_request(&VaultCall::Approve { request_id: "r".into(), code: "1".into() }),
        Method::VaultApprove,
        &["requestId=r", "code=1"],
    );
    is(
        vault_request(&VaultCall::Reject { request_id: "r".into() }),
        Method::VaultReject,
        &["requestId=r"],
    );
    is(
        vault_request(&VaultCall::Revoke { device_id: "d".into() }),
        Method::VaultRevoke,
        &["deviceId=d"],
    );
    is(vault_request(&VaultCall::Recover { kit: "k".into() }), Method::VaultRecover, &["kit=k"]);
    is(create_org_request("Acme"), Method::CreateOrg, &["name=Acme"]);
    is(select_org_request("o"), Method::SelectOrg, &["organizationId=o"]);
}

#[test]
fn terminal_requests() {
    is(
        open_terminal_request("c", 80, 24),
        Method::OpenTerminal,
        &["chatId=c", "cols=80", "rows=24"],
    );
    is(
        subscribe_terminal_request("t", 7),
        Method::SubscribeTerminal,
        &["terminalId=t", "afterSeq=7"],
    );
    is(
        write_terminal_request(&TerminalWrite { terminal_id: "t".into(), data: "YQ==".into() }),
        Method::WriteTerminal,
        &["terminalId=t", "data=YQ=="],
    );
    is(
        resize_terminal_request("t", 100, 30),
        Method::ResizeTerminal,
        &["terminalId=t", "cols=100", "rows=30"],
    );
    is(close_terminal_request("t"), Method::CloseTerminal, &["terminalId=t"]);
}
