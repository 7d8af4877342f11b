//! What the launcher's page can ask for: plain commands, and calls with
//! parameters that are written in JSON.
use crate::text::same_text;
use vstd::prelude::*;

verus! {

/// A JSON value of the `serde_json` crate.
#[verifier::external_type_specification]
#[verifier::external_body]
pub struct ExValue(serde_json::Value);

/// The error of the `serde_json` crate.
#[verifier::external_type_specification]
#[verifier::external_body]
pub struct ExJsonError(serde_json::Error);

/// The value that a JSON text stands for; `None` where it is no JSON, or is
/// nested too deep to be read.
pub uninterp spec fn parsed_json(text: Seq<char>) -> Option<serde_json::Value>;

/// The members of a JSON object; of any other value, none.
pub uninterp spec fn json_members(value: serde_json::Value) -> Map<Seq<char>, serde_json::Value>;

/// The text of a JSON string; of any other value, `None`.
pub uninterp spec fn json_string(value: serde_json::Value) -> Option<Seq<char>>;

/// `serde_json::from_str` into a `serde_json::Value`: the value of the text, or
/// an error where the text is no JSON, or is nested too deep.
#[verifier::external_body]
fn json_from_str(text: &str) -> (value: Result<serde_json::Value, serde_json::Error>)
    ensures
        value matches Ok(value) ==> parsed_json(text@) == Some(value),
        value is Err ==> parsed_json(text@) is None,
{
    serde_json::from_str(text)
}

/// `serde_json::Value::get` with a text: the object's member of that name;
/// `None` where there is none, or where the value is no object.
#[verifier::external_body]
fn json_get<'a>(value: &'a serde_json::Value, name: &str) -> (member: Option<&'a serde_json::Value>)
    ensures
        member is Some == json_members(*value).contains_key(name@),
        member matches Some(member) ==> *member == json_members(*value)[name@],
{
    value.get(name)
}

/// `serde_json::Value::as_str`: the text of a string; `None` for any other
/// value.
#[verifier::external_body]
fn json_as_str(value: &serde_json::Value) -> (text: Option<&str>)
    ensures
        text is Some == json_string(*value) is Some,
        text matches Some(text) ==> text@ == json_string(*value)->0,
{
    value.as_str()
}

/// `serde_json::Value::clone`: the same value once more.
#[verifier::external_body]
fn json_clone(value: &serde_json::Value) -> (copy: serde_json::Value)
    ensures
        copy == *value,
{
    value.clone()
}

/// A request of the page.
#[derive(Clone, Copy, Debug, PartialEq, Eq, Structural)]
pub enum Invocation {
    Play,
    Setup,
    Exit,
    Relaunch,
    StartUpdate,
    CancelUpdate,
    ResetCache,
    ManualPatch,
    ListOptionalPacks,
    CancelPackDownload,
    GetActiveMode,
    CleanupHd,
    VerifyPlay,
    /// A call with parameters.
    Call,
}

/// The word by which the page asks for something; a call has none.
pub open spec fn command_word(invocation: Invocation) -> Option<Seq<char>> {
    match invocation {
        Invocation::Play => Some("play"@),
        Invocation::Setup => Some("setup"@),
        Invocation::Exit => Some("exit"@),
        Invocation::Relaunch => Some("relaunch"@),
        Invocation::StartUpdate => Some("start_update"@),
        Invocation::CancelUpdate => Some("cancel_update"@),
        Invocation::ResetCache => Some("reset_cache"@),
        Invocation::ManualPatch => Some("manual_patch"@),
        Invocation::ListOptionalPacks => Some("list_optional_packs"@),
        Invocation::CancelPackDownload => Some("cancel_pack_download"@),
        Invocation::GetActiveMode => Some("get_active_mode"@),
        Invocation::CleanupHd => Some("cleanup_hd"@),
        Invocation::VerifyPlay => Some("verify_play"@),
        Invocation::Call => None,
    }
}

/// Tells what the page asks for: the command whose word was sent, or else a
/// call.
pub fn parse_invocation(request: &str) -> (invocation: Invocation)
    ensures
        invocation != Invocation::Call ==> command_word(invocation) == Some(request@),
        invocation == Invocation::Call ==> forall|other: Invocation| #[trigger]
            command_word(other) != Some(request@),
{
    if same_text(request, "play") {
        Invocation::Play
    } else if same_text(request, "setup") {
        Invocation::Setup
    } else if same_text(request, "exit") {
        Invocation::Exit
    } else if same_text(request, "relaunch") {
        Invocation::Relaunch
    } else if same_text(request, "start_update") {
        Invocation::StartUpdate
    } else if same_text(request, "cancel_update") {
        Invocation::CancelUpdate
    } else if same_text(request, "reset_cache") {
        Invocation::ResetCache
    } else if same_text(request, "manual_patch") {
        Invocation::ManualPatch
    } else if same_text(request, "list_optional_packs") {
        Invocation::ListOptionalPacks
    } else if same_text(request, "cancel_pack_download") {
        Invocation::CancelPackDownload
    } else if same_text(request, "get_active_mode") {
        Invocation::GetActiveMode
    } else if same_text(request, "cleanup_hd") {
        Invocation::CleanupHd
    } else if same_text(request, "verify_play") {
        Invocation::VerifyPlay
    } else {
        Invocation::Call
    }
}

/// No two commands share a word: a word decides what is asked for.
pub proof fn law_command_words_differ(a: Invocation, b: Invocation)
    requires
        a != b,
        command_word(a) is Some,
    ensures
        command_word(a) != command_word(b),
{
    reveal_strlit("play");
    reveal_strlit("setup");
    reveal_strlit("exit");
    reveal_strlit("relaunch");
    reveal_strlit("start_update");
    reveal_strlit("cancel_update");
    reveal_strlit("reset_cache");
    reveal_strlit("manual_patch");
    reveal_strlit("list_optional_packs");
    reveal_strlit("cancel_pack_download");
    reveal_strlit("get_active_mode");
    reveal_strlit("cleanup_hd");
    reveal_strlit("verify_play");
    assert("play"@.len() == 4);
    assert("setup"@.len() == 5);
    assert("exit"@.len() == 4);
    assert("relaunch"@.len() == 8);
    assert("start_update"@.len() == 12);
    assert("cancel_update"@.len() == 13);
    assert("reset_cache"@.len() == 11);
    assert("manual_patch"@.len() == 12);
    assert("list_optional_packs"@.len() == 19);
    assert("cancel_pack_download"@.len() == 20);
    assert("get_active_mode"@.len() == 15);
    assert("cleanup_hd"@.len() == 10);
    assert("verify_play"@.len() == 11);
    assert("play"@[0] == 'p');
    assert("exit"@[0] == 'e');
    assert("reset_cache"@[0] == 'r');
    assert("verify_play"@[0] == 'v');
    assert("start_update"@[0] == 's');
    assert("manual_patch"@[0] == 'm');
}

/// A call of the page, with the parameters that came with it.
pub enum JsonCall {
    /// The request cannot be read as JSON.
    Invalid(serde_json::Error),
    /// The request names no function.
    Nameless,
    Login(Option<serde_json::Value>),
    OpenUrl(Option<serde_json::Value>),
    DownloadPack(Option<serde_json::Value>),
    ApplyMode(Option<serde_json::Value>),
    /// The request names a function that there is not.
    Unknown(String),
}

/// A member of a JSON object.
pub open spec fn json_member(value: serde_json::Value, name: Seq<char>) -> Option<
    serde_json::Value,
> {
    if json_members(value).contains_key(name) {
        Some(json_members(value)[name])
    } else {
        None
    }
}

/// The name of the function that a call asks for.
pub open spec fn called_function(value: serde_json::Value) -> Option<Seq<char>> {
    match json_member(value, "function"@) {
        Some(function) => json_string(function),
        None => None,
    }
}

/// Whether a call is the one that a JSON value asks for.
pub open spec fn is_call_of(call: JsonCall, value: serde_json::Value) -> bool {
    let parameters = json_member(value, "parameters"@);
    match called_function(value) {
        None => call is Nameless,
        Some(name) => if name == "login"@ {
            call == JsonCall::Login(parameters)
        } else if name == "open_url"@ {
            call == JsonCall::OpenUrl(parameters)
        } else if name == "download_pack"@ {
            call == JsonCall::DownloadPack(parameters)
        } else if name == "apply_mode"@ {
            call == JsonCall::ApplyMode(parameters)
        } else {
            call matches JsonCall::Unknown(unknown) && unknown@ == name
        },
    }
}

/// Tells which call a JSON value asks for.
pub fn route_call(value: &serde_json::Value) -> (call: JsonCall)
    ensures
        is_call_of(call, *value),
{
    let name = match json_get(value, "function") {
        Some(function) => match json_as_str(function) {
            Some(name) => name,
            None => {
                return JsonCall::Nameless;
            },
        },
        None => {
            return JsonCall::Nameless;
        },
    };
    let parameters = match json_get(value, "parameters") {
        Some(parameters) => Some(json_clone(parameters)),
        None => None,
    };
    if same_text(name, "login") {
        JsonCall::Login(parameters)
    } else if same_text(name, "open_url") {
        JsonCall::OpenUrl(parameters)
    } else if same_text(name, "download_pack") {
        JsonCall::DownloadPack(parameters)
    } else if same_text(name, "apply_mode") {
        JsonCall::ApplyMode(parameters)
    } else {
        JsonCall::Unknown(name.to_owned())
    }
}

/// Tells which call a request asks for.
pub fn parse_json_request(request: &str) -> (call: JsonCall)
    ensures
        parsed_json(request@) is None == call is Invalid,
        parsed_json(request@) matches Some(value) ==> is_call_of(call, value),
{
    match json_from_str(request) {
        Ok(value) => route_call(&value),
        Err(error) => JsonCall::Invalid(error),
    }
}

/// Every command is asked for by its own word, and a call by none.
pub proof fn law_commands_have_their_words()
    ensures
        command_word(Invocation::Play) == Some("play"@),
        command_word(Invocation::Setup) == Some("setup"@),
        command_word(Invocation::Exit) == Some("exit"@),
        command_word(Invocation::Relaunch) == Some("relaunch"@),
        command_word(Invocation::StartUpdate) == Some("start_update"@),
        command_word(Invocation::CancelUpdate) == Some("cancel_update"@),
        command_word(Invocation::ResetCache) == Some("reset_cache"@),
        command_word(Invocation::ManualPatch) == Some("manual_patch"@),
        command_word(Invocation::ListOptionalPacks) == Some("list_optional_packs"@),
        command_word(Invocation::CancelPackDownload) == Some("cancel_pack_download"@),
        command_word(Invocation::GetActiveMode) == Some("get_active_mode"@),
        command_word(Invocation::CleanupHd) == Some("cleanup_hd"@),
        command_word(Invocation::VerifyPlay) == Some("verify_play"@),
        command_word(Invocation::Call) is None,
{
}

/// A request that is no object, or whose member `function` is missing or no
/// string, names no function, and nothing is called for it.
pub proof fn law_call_needs_a_function_name(call: JsonCall, value: serde_json::Value)
    requires
        is_call_of(call, value),
    ensures
        call is Nameless <==> !(json_members(value).contains_key("function"@) && json_string(
            json_members(value)["function"@],
        ) is Some),
        !(call is Invalid),
{
}

/// The function that a request names is the one that is called, and no other,
/// with the request's own parameters where it has any.
pub proof fn law_named_function_is_called(
    call: JsonCall,
    value: serde_json::Value,
    name: Seq<char>,
    parameters: Option<serde_json::Value>,
)
    requires
        is_call_of(call, value),
        json_members(value).contains_key("function"@),
        json_string(json_members(value)["function"@]) == Some(name),
        parameters is Some <==> json_members(value).contains_key("parameters"@),
        parameters matches Some(p) ==> p == json_members(value)["parameters"@],
    ensures
        call is Login <==> name == "login"@,
        call is OpenUrl <==> name == "open_url"@,
        call is DownloadPack <==> name == "download_pack"@,
        call is ApplyMode <==> name == "apply_mode"@,
        call is Login ==> call == JsonCall::Login(parameters),
        call is OpenUrl ==> call == JsonCall::OpenUrl(parameters),
        call is DownloadPack ==> call == JsonCall::DownloadPack(parameters),
        call is ApplyMode ==> call == JsonCall::ApplyMode(parameters),
        call is Unknown <==> name != "login"@ && name != "open_url"@ && name != "download_pack"@
            && name != "apply_mode"@,
        call matches JsonCall::Unknown(unknown) ==> unknown@ == name,
{
    reveal_strlit("login");
    reveal_strlit("open_url");
    reveal_strlit("download_pack");
    reveal_strlit("apply_mode");
    assert("login"@.len() == 5);
    assert("open_url"@.len() == 8);
    assert("download_pack"@.len() == 13);
    assert("apply_mode"@.len() == 10);
}

} // verus!
