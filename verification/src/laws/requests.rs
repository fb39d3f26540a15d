//! What goes to the engine.

use crate::json::Json;
use crate::pickers::state::PickerCall;
use crate::model::HarnessId;
use crate::requests;
use crate::requests::{fields_of, HarnessNames, Method, Request};
use crate::settings::accounts::{AccountAction, AccountCall, AccountRequest};
use crate::settings::encryption::VaultCall;
use crate::shell::frame::Mutation;
use crate::shell::palette::FolderCall;
use crate::terminal::panel::TerminalWrite;
use vstd::prelude::*;

verus! {

/// The parameters are an object with this many members.
pub open spec fn has_members(r: Request, n: int) -> bool {
    r.params matches Json::Object(members) && members@.len() == n
}

/// A member of the parameters is a text.
pub open spec fn says(r: Request, i: int, name: Seq<char>, value: Seq<char>) -> bool {
    r.params matches Json::Object(members) && 0 <= i < members@.len() && members@[i].0@ == name && (
    members@[i].1 matches Json::Text(t) && t@ == value)
}

/// A member of the parameters is a truth value.
pub open spec fn flags(r: Request, i: int, name: Seq<char>, value: bool) -> bool {
    r.params matches Json::Object(members) && 0 <= i < members@.len() && members@[i].0@ == name
        && members@[i].1 == Json::Bool(value)
}

/// A member of the parameters is a number.
pub open spec fn counts(r: Request, i: int, name: Seq<char>, value: int) -> bool {
    r.params matches Json::Object(members) && 0 <= i < members@.len() && members@[i].0@ == name && (
    members@[i].1 matches Json::Natural(n) && n == value)
}

/// The members of a request stand one by one behind its parameters.
proof fn one_by_one(r: Request)
    requires
        r.params is Object,
    ensures
        r.params matches Json::Object(members) && fields_of(members@).len() == members@.len() && (
        forall|i: int|
            0 <= i < members@.len() ==> {
                &&& (#[trigger] fields_of(members@)[i]).0 == members@[i].0@
                &&& fields_of(members@)[i].1 == requests::field_of(members@[i].1)
            }),
{
}

/// Switching to an account and forgetting one are two methods, each for its own action.
pub proof fn an_action_goes_to_its_own_method(call: &AccountCall, names: &HarnessNames, r: Request)
    requires
        call_ensures(requests::account_request, (call, names), r),
    ensures
        r.method == Method::ActivateAgentAccount <==> (call.request matches AccountRequest::Act {
            action,
            ..
        } && action == AccountAction::Activate),
        r.method == Method::ForgetAgentAccount <==> (call.request matches AccountRequest::Act {
            action,
            ..
        } && action == AccountAction::Forget),
        r.method == Method::ListAgentAccounts <==> call.request is List,
        r.method == Method::StartAgentLogin <==> call.request is StartLogin,
        r.method == Method::CompleteAgentLogin <==> call.request is CompleteLogin,
        r.method == Method::PollAgentLogin <==> call.request is PollLogin,
        r.method == Method::CancelAgentLogin <==> call.request is CancelLogin,
{
}

/// A request about accounts carries what it is about, and the device that it is for.
pub proof fn an_account_request_says_what_it_is_about(
    call: &AccountCall,
    names: &HarnessNames,
    r: Request,
)
    requires
        call_ensures(requests::account_request, (call, names), r),
    ensures
        ({
            let own: int = match call.request {
                AccountRequest::Act { .. } => 3,
                AccountRequest::CompleteLogin { .. } => 2,
                _ => 1,
            };
            match call.target_device {
                Some(id) => has_members(r, own + 1) && says(r, own, "targetDeviceId"@, id@),
                None => has_members(r, own),
            }
        }),
        match call.request {
            AccountRequest::List { force_usage } => flags(r, 0, "forceUsage"@, force_usage),
            AccountRequest::Act { id, harness, .. } => says(r, 0, "id"@, id@) && says(
                r,
                1,
                "accountId"@,
                id@,
            ) && says(r, 2, "harness"@, wire_name(*names, harness)),
            AccountRequest::StartLogin { harness } => says(
                r,
                0,
                "harness"@,
                wire_name(*names, harness),
            ),
            AccountRequest::CompleteLogin { login_id, code } => says(r, 0, "loginId"@, login_id@)
                && says(r, 1, "code"@, code@),
            AccountRequest::PollLogin { login_id } => says(r, 0, "loginId"@, login_id@),
            AccountRequest::CancelLogin { login_id } => says(r, 0, "loginId"@, login_id@),
        },
{
    one_by_one(r);
    assert(r.params matches Json::Object(m) && fields_of(m@)[0] == fields_of(m@)[0]);
    assert(r.params matches Json::Object(m) && fields_of(m@)[1] == fields_of(m@)[1]);
    assert(r.params matches Json::Object(m) && fields_of(m@)[2] == fields_of(m@)[2]);
    assert(r.params matches Json::Object(m) && fields_of(m@)[3] == fields_of(m@)[3]);
}

/// The name of a harness on the wire.
pub open spec fn wire_name(names: HarnessNames, harness: HarnessId) -> Seq<char> {
    if harness == HarnessId::Mock {
        names.mock@
    } else if harness == HarnessId::Cursor {
        names.cursor@
    } else if harness == HarnessId::Codex {
        names.codex@
    } else {
        names.claude_code@
    }
}

/// A change to synced rows says which change it is, of which row, and to what.
pub proof fn a_change_says_what_it_changes(m: &Mutation, r: Request)
    requires
        call_ensures(requests::mutation_request, (m,), r),
    ensures
        r.method == Method::Mutate,
        match *m {
            Mutation::RenameChat { chat_id, title } => has_members(r, 3) && says(
                r,
                0,
                "op"@,
                "renameChat"@,
            ) && says(r, 1, "chatId"@, chat_id@) && says(r, 2, "title"@, title@),
            Mutation::SetChatArchived { chat_id, archived } => has_members(r, 3) && says(
                r,
                0,
                "op"@,
                "setChatArchived"@,
            ) && says(r, 1, "chatId"@, chat_id@) && flags(r, 2, "archived"@, archived),
            Mutation::DeleteChat { chat_id } => has_members(r, 2) && says(
                r,
                0,
                "op"@,
                "deleteChat"@,
            ) && says(r, 1, "chatId"@, chat_id@),
            Mutation::CreateSpace { space_id, device_id, path, git_detected } => has_members(r, 5)
                && says(r, 0, "op"@, "createSpace"@) && says(r, 1, "spaceId"@, space_id@) && says(
                r,
                2,
                "deviceId"@,
                device_id@,
            ) && says(r, 3, "path"@, path@) && flags(r, 4, "gitDetected"@, git_detected),
            Mutation::RenameSpace { space_id, name } => has_members(r, 3) && says(
                r,
                0,
                "op"@,
                "renameSpace"@,
            ) && says(r, 1, "spaceId"@, space_id@) && says(r, 2, "name"@, name@),
            Mutation::DeleteSpace { space_id } => has_members(r, 2) && says(
                r,
                0,
                "op"@,
                "deleteSpace"@,
            ) && says(r, 1, "spaceId"@, space_id@),
        },
{
    one_by_one(r);
    assert(r.params matches Json::Object(m) && fields_of(m@)[0] == fields_of(m@)[0]);
    assert(r.params matches Json::Object(m) && fields_of(m@)[1] == fields_of(m@)[1]);
    assert(r.params matches Json::Object(m) && fields_of(m@)[2] == fields_of(m@)[2]);
    assert(r.params matches Json::Object(m) && fields_of(m@)[3] == fields_of(m@)[3]);
    assert(r.params matches Json::Object(m) && fields_of(m@)[4] == fields_of(m@)[4]);
}

/// Two changes that differ in any word are two requests: none is taken for another.
pub proof fn changes_are_told_apart(a: &Mutation, b: &Mutation, ra: Request, rb: Request)
    requires
        call_ensures(requests::mutation_request, (a,), ra),
        call_ensures(requests::mutation_request, (b,), rb),
        match (ra.params, rb.params) {
            (Json::Object(ma), Json::Object(mb)) => fields_of(ma@) == fields_of(mb@),
            _ => false,
        },
    ensures
        a is RenameChat <==> b is RenameChat,
        a is SetChatArchived <==> b is SetChatArchived,
        a is DeleteChat <==> b is DeleteChat,
        a is CreateSpace <==> b is CreateSpace,
        a is RenameSpace <==> b is RenameSpace,
        a is DeleteSpace <==> b is DeleteSpace,
{
    reveal_strlit("renameChat");
    reveal_strlit("setChatArchived");
    reveal_strlit("deleteChat");
    reveal_strlit("createSpace");
    reveal_strlit("renameSpace");
    reveal_strlit("deleteSpace");
    a_change_says_what_it_changes(a, ra);
    a_change_says_what_it_changes(b, rb);
    one_by_one(ra);
    one_by_one(rb);
    assert(ra.params matches Json::Object(m) && fields_of(m@)[0] == fields_of(m@)[0]);
    assert(rb.params matches Json::Object(m) && fields_of(m@)[0] == fields_of(m@)[0]);
    assert("renameChat"@[0] == 'r' && "renameChat"@[6] == 'C');
    assert("renameSpace"@[0] == 'r' && "renameSpace"@[6] == 'S');
    assert("deleteChat"@[0] == 'd' && "deleteChat"@[6] == 'C');
    assert("deleteSpace"@[0] == 'd' && "deleteSpace"@[6] == 'S');
    assert("createSpace"@[0] == 'c');
    assert("setChatArchived"@[0] == 's');
}

/// What the pickers ask goes to the method that answers it, with what is asked about.
pub proof fn a_picker_request_asks_its_question(call: &PickerCall, names: &HarnessNames, r: Request)
    requires
        call_ensures(requests::picker_request, (call, names), r),
    ensures
        match *call {
            PickerCall::ListHarnesses => r.method == Method::ListHarnesses && has_members(r, 0),
            PickerCall::ListModels(harness) => r.method == Method::ListModels && has_members(r, 1)
                && says(r, 0, "harness"@, wire_name(*names, harness)),
            PickerCall::ListRepos => r.method == Method::ListRepos && has_members(r, 0),
            PickerCall::ListBranches(repo) => r.method == Method::ListBranches && has_members(r, 1)
                && says(r, 0, "repoPath"@, repo@),
            PickerCall::ListFolders(None) => r.method == Method::ListFolders && has_members(r, 0),
            PickerCall::ListFolders(Some(path)) => r.method == Method::ListFolders && has_members(
                r,
                1,
            ) && says(r, 0, "path"@, path@),
            PickerCall::AddRepo(path) => r.method == Method::AddRepo && has_members(r, 1) && says(
                r,
                0,
                "path"@,
                path@,
            ),
            PickerCall::CloneRepo(url) => r.method == Method::CloneRepo && has_members(r, 1) && says(
                r,
                0,
                "url"@,
                url@,
            ),
            PickerCall::CreateRepo(name) => r.method == Method::CreateRepo && has_members(r, 1)
                && says(r, 0, "name"@, name@),
        },
{
    one_by_one(r);
    assert(r.params matches Json::Object(m) && fields_of(m@)[0] == fields_of(m@)[0]);
}

/// A folder of the palette is asked for by its path, of the device that it lies on.
pub proof fn a_folder_request_names_folder_and_device(call: &FolderCall, r: Request)
    requires
        call_ensures(requests::folder_request, (call,), r),
    ensures
        r.method == Method::ListFolders,
        match (call.path, call.target_device) {
            (None, None) => has_members(r, 0),
            (Some(path), None) => has_members(r, 1) && says(r, 0, "path"@, path@),
            (None, Some(id)) => has_members(r, 1) && says(r, 0, "targetDeviceId"@, id@),
            (Some(path), Some(id)) => has_members(r, 2) && says(r, 0, "path"@, path@) && says(
                r,
                1,
                "targetDeviceId"@,
                id@,
            ),
        },
{
    one_by_one(r);
    assert(r.params matches Json::Object(m) && fields_of(m@)[0] == fields_of(m@)[0]);
    assert(r.params matches Json::Object(m) && fields_of(m@)[1] == fields_of(m@)[1]);
}

/// A request to the vault goes to the method of its action, for the request or device that it is about.
pub proof fn a_vault_request_does_its_own_action(call: &VaultCall, r: Request)
    requires
        call_ensures(requests::vault_request, (call,), r),
    ensures
        match *call {
            VaultCall::Setup => r.method == Method::VaultSetup && has_members(r, 0),
            VaultCall::RequestEnrollment => r.method == Method::VaultRequestEnrollment
                && has_members(r, 0),
            VaultCall::CancelEnrollment => r.method == Method::VaultCancelEnrollment && has_members(
                r,
                0,
            ),
            VaultCall::Approve { request_id, code } => r.method == Method::VaultApprove
                && has_members(r, 2) && says(r, 0, "requestId"@, request_id@) && says(
                r,
                1,
                "code"@,
                code@,
            ),
            VaultCall::Reject { request_id } => r.method == Method::VaultReject && has_members(r, 1)
                && says(r, 0, "requestId"@, request_id@),
            VaultCall::Revoke { device_id } => r.method == Method::VaultRevoke && has_members(r, 1)
                && says(r, 0, "deviceId"@, device_id@),
            VaultCall::Recover { kit } => r.method == Method::VaultRecover && has_members(r, 1)
                && says(r, 0, "kit"@, kit@),
        },
{
    one_by_one(r);
    assert(r.params matches Json::Object(m) && fields_of(m@)[0] == fields_of(m@)[0]);
    assert(r.params matches Json::Object(m) && fields_of(m@)[1] == fields_of(m@)[1]);
}

/// A request without parameters has none.
pub proof fn a_bare_request_has_no_parameters(method: Method, r: Request)
    requires
        call_ensures(requests::bare_request, (method,), r),
    ensures
        r.method == method,
        has_members(r, 0),
{
    one_by_one(r);
}

/// That a chat was seen, and its transcript, are asked for by the id of the chat.
pub proof fn a_chat_is_asked_about_by_its_id(chat_id: &str, seen: Request, watch: Request)
    requires
        call_ensures(requests::seen_request, (chat_id,), seen),
        call_ensures(requests::transcript_request, (chat_id,), watch),
    ensures
        seen.method == Method::Mutate && has_members(seen, 2),
        says(seen, 0, "op"@, "markChatSeen"@) && says(seen, 1, "chatId"@, chat_id@),
        watch.method == Method::WatchDocMessages && has_members(watch, 1),
        says(watch, 0, "chatId"@, chat_id@),
{
    one_by_one(seen);
    one_by_one(watch);
    assert(seen.params matches Json::Object(m) && fields_of(m@)[0] == fields_of(m@)[0]);
    assert(seen.params matches Json::Object(m) && fields_of(m@)[1] == fields_of(m@)[1]);
    assert(watch.params matches Json::Object(m) && fields_of(m@)[0] == fields_of(m@)[0]);
}

/// A workspace is made by its name and joined by its id.
pub proof fn workspaces_are_made_and_joined(word: &str, made: Request, joined: Request)
    requires
        call_ensures(requests::create_org_request, (word,), made),
        call_ensures(requests::select_org_request, (word,), joined),
    ensures
        made.method == Method::CreateOrg && has_members(made, 1) && says(made, 0, "name"@, word@),
        joined.method == Method::SelectOrg && has_members(joined, 1) && says(
            joined,
            0,
            "organizationId"@,
            word@,
        ),
{
    one_by_one(made);
    one_by_one(joined);
    assert(made.params matches Json::Object(m) && fields_of(m@)[0] == fields_of(m@)[0]);
    assert(joined.params matches Json::Object(m) && fields_of(m@)[0] == fields_of(m@)[0]);
}

/// A terminal is opened for a chat with a size, told another size, and closed by its id.
pub proof fn a_terminal_is_opened_sized_and_closed(
    id: &str,
    cols: u16,
    rows: u16,
    c: usize,
    l: usize,
    opened: Request,
    sized: Request,
    closed: Request,
)
    requires
        call_ensures(requests::open_terminal_request, (id, cols, rows), opened),
        call_ensures(requests::resize_terminal_request, (id, c, l), sized),
        call_ensures(requests::close_terminal_request, (id,), closed),
    ensures
        opened.method == Method::OpenTerminal && has_members(opened, 3),
        says(opened, 0, "chatId"@, id@),
        counts(opened, 1, "cols"@, cols as int) && counts(opened, 2, "rows"@, rows as int),
        sized.method == Method::ResizeTerminal && has_members(sized, 3),
        says(sized, 0, "terminalId"@, id@),
        counts(sized, 1, "cols"@, c as int) && counts(sized, 2, "rows"@, l as int),
        closed.method == Method::CloseTerminal && has_members(closed, 1),
        says(closed, 0, "terminalId"@, id@),
{
    one_by_one(opened);
    one_by_one(sized);
    one_by_one(closed);
    assert(opened.params matches Json::Object(m) && fields_of(m@)[0] == fields_of(m@)[0]);
    assert(opened.params matches Json::Object(m) && fields_of(m@)[1] == fields_of(m@)[1]);
    assert(opened.params matches Json::Object(m) && fields_of(m@)[2] == fields_of(m@)[2]);
    assert(sized.params matches Json::Object(m) && fields_of(m@)[0] == fields_of(m@)[0]);
    assert(sized.params matches Json::Object(m) && fields_of(m@)[1] == fields_of(m@)[1]);
    assert(sized.params matches Json::Object(m) && fields_of(m@)[2] == fields_of(m@)[2]);
    assert(closed.params matches Json::Object(m) && fields_of(m@)[0] == fields_of(m@)[0]);
}

/// A terminal is read from behind the last frame, and written to as it is.
pub proof fn a_terminal_is_read_on_and_written_to(
    id: &str,
    after_seq: u64,
    write: &TerminalWrite,
    read: Request,
    written: Request,
)
    requires
        call_ensures(requests::subscribe_terminal_request, (id, after_seq), read),
        call_ensures(requests::write_terminal_request, (write,), written),
    ensures
        read.method == Method::SubscribeTerminal && has_members(read, 2),
        says(read, 0, "terminalId"@, id@) && counts(read, 1, "afterSeq"@, after_seq as int),
        written.method == Method::WriteTerminal && has_members(written, 2),
        says(written, 0, "terminalId"@, write.terminal_id@),
        says(written, 1, "data"@, write.data@),
{
    one_by_one(read);
    one_by_one(written);
    assert(read.params matches Json::Object(m) && fields_of(m@)[0] == fields_of(m@)[0]);
    assert(read.params matches Json::Object(m) && fields_of(m@)[1] == fields_of(m@)[1]);
    assert(written.params matches Json::Object(m) && fields_of(m@)[0] == fields_of(m@)[0]);
    assert(written.params matches Json::Object(m) && fields_of(m@)[1] == fields_of(m@)[1]);
}

} // verus!
