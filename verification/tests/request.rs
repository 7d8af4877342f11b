use rpatchur::request::{
    parse_invocation, parse_json_request, route_call, Invocation, JsonCall,
};
use serde_json::Value;

#[test]
fn commands_are_recognised() {
    for (word, invocation) in [
        ("play", Invocation::Play),
        ("setup", Invocation::Setup),
        ("exit", Invocation::Exit),
        ("relaunch", Invocation::Relaunch),
        ("start_update", Invocation::StartUpdate),
        ("cancel_update", Invocation::CancelUpdate),
        ("reset_cache", Invocation::ResetCache),
        ("manual_patch", Invocation::ManualPatch),
        ("list_optional_packs", Invocation::ListOptionalPacks),
        ("cancel_pack_download", Invocation::CancelPackDownload),
        ("get_active_mode", Invocation::GetActiveMode),
        ("cleanup_hd", Invocation::CleanupHd),
        ("verify_play", Invocation::VerifyPlay),
        ("", Invocation::Call),
        ("Play", Invocation::Call),
        ("{\"function\": \"login\"}", Invocation::Call),
    ] {
        assert_eq!(parse_invocation(word), invocation);
    }
}

fn parameters(call: JsonCall) -> (&'static str, Option<Value>) {
    match call {
        JsonCall::Login(parameters) => ("login", parameters),
        JsonCall::OpenUrl(parameters) => ("open_url", parameters),
        JsonCall::DownloadPack(parameters) => ("download_pack", parameters),
        JsonCall::ApplyMode(parameters) => ("apply_mode", parameters),
        _ => panic!("not a known call"),
    }
}

#[test]
fn known_calls_keep_their_parameters() {
    for name in ["login", "open_url", "download_pack", "apply_mode"] {
        let text = format!("{{\"function\": \"{}\", \"parameters\": {{\"x\": [1, null]}}}}", name);
        let (called, parameters) = parameters(parse_json_request(&text));
        assert_eq!(called, name);
        assert_eq!(parameters.unwrap()["x"][0], 1);
    }
}

#[test]
fn parameters_may_be_missing() {
    let (called, parameters) = parameters(parse_json_request("{\"function\": \"login\"}"));
    assert_eq!(called, "login");
    assert!(parameters.is_none());
}

#[test]
fn values_are_routed() {
    let mut inner = serde_json::Map::new();
    inner.insert("id".to_string(), Value::String("hd".to_string()));
    let mut outer = serde_json::Map::new();
    outer.insert("function".to_string(), Value::String("download_pack".to_string()));
    outer.insert("parameters".to_string(), Value::Object(inner.clone()));
    let (called, parameters) = parameters(route_call(&Value::Object(outer)));
    assert_eq!(called, "download_pack");
    assert_eq!(parameters, Some(Value::Object(inner)));
}

#[test]
fn other_requests() {
    assert!(matches!(parse_json_request("nonsense"), JsonCall::Invalid(_)));
    assert!(matches!(parse_json_request("{\"function\": "), JsonCall::Invalid(_)));
    assert!(matches!(parse_json_request("{}"), JsonCall::Nameless));
    assert!(matches!(parse_json_request("[\"function\"]"), JsonCall::Nameless));
    assert!(matches!(parse_json_request("{\"function\": 3}"), JsonCall::Nameless));
    assert!(matches!(parse_json_request("\"login\""), JsonCall::Nameless));
    match parse_json_request("{\"function\": \"format\"}") {
        JsonCall::Unknown(name) => assert_eq!(name, "format"),
        _ => panic!("not unknown"),
    }
}
