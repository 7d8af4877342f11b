use rpatchur::cancel::PackCancel;
use rpatchur::config::{
    ModeArtifacts, OptionalPack, PatcherConfiguration, ProgramConfiguration, WindowConfiguration,
};
use rpatchur::session::{
    manual_patch_command, optional_packs_script, ManualPatchRequest, PatcherCommand,
    UpdateRequest, WebViewUserData,
};

fn program(exit_on_success: Option<bool>) -> ProgramConfiguration {
    ProgramConfiguration {
        path: "game.exe".to_string(),
        arguments: vec!["1rag1".to_string(), "-x".to_string()],
        exit_on_success,
    }
}

fn data(exit_on_success: Option<bool>) -> WebViewUserData {
    WebViewUserData::new(PatcherConfiguration {
        index_url: "http://host/".to_string(),
        window: WindowConfiguration {
            title: "t".to_string(),
            width: 800,
            height: 600,
            resizable: false,
        },
        play: program(exit_on_success),
        setup: program(exit_on_success),
        optional_packs: vec![
            OptionalPack { id: "mood".to_string(), files: vec![] },
            OptionalPack { id: "hd".to_string(), files: vec![] },
        ],
        mode_artifacts: ModeArtifacts { vanilla: None, hd: None },
    })
}

#[test]
fn update_is_not_started_twice() {
    let mut data = data(None);
    assert!(!data.patching_in_progress);
    assert!(matches!(
        data.start_update(),
        UpdateRequest::Send(PatcherCommand::StartUpdate)
    ));
    data.set_patch_in_progress(true);
    match data.start_update() {
        UpdateRequest::Notify(script) => assert_eq!(script, "notificationInProgress()"),
        _ => panic!("started"),
    }
    data.set_patch_in_progress(false);
    assert!(matches!(data.start_update(), UpdateRequest::Send(_)));
}

#[test]
fn manual_patch_waits_for_patching() {
    let mut data = data(None);
    assert!(matches!(data.manual_patch(), ManualPatchRequest::AskForFile));
    data.set_patch_in_progress(true);
    match data.manual_patch() {
        ManualPatchRequest::Notify(script) => assert_eq!(script, "notificationInProgress()"),
        _ => panic!("asked"),
    }
    match manual_patch_command(Some("a.thor".to_string())) {
        Some(PatcherCommand::ApplyPatch(path)) => assert_eq!(path, "a.thor"),
        _ => panic!("no command"),
    }
    assert!(manual_patch_command(None).is_none());
}

#[test]
fn only_configured_packs_are_downloaded() {
    let data = data(None);
    match data.download_pack("hd".to_string()) {
        Some(PatcherCommand::DownloadPack(id)) => assert_eq!(id, "hd"),
        _ => panic!("no command"),
    }
    assert!(data.download_pack("skybox".to_string()).is_none());
    assert!(data.download_pack("".to_string()).is_none());
}

#[test]
fn credentials_come_first() {
    assert_eq!(
        data(None).login_arguments("user", "secret"),
        vec!["-t:secret", "user", "server", "1rag1", "-x"]
    );
}

#[test]
fn exits_after_programs() {
    for (configured, after_play, after_setup) in
        [(None, true, false), (Some(true), true, true), (Some(false), false, false)]
    {
        let data = data(configured);
        assert_eq!(data.exits_after_play(true), after_play);
        assert_eq!(data.exits_after_setup(true), after_setup);
        assert!(!data.exits_after_play(false));
        assert!(!data.exits_after_setup(false));
    }
}

#[test]
fn closing_stops_the_download() {
    let mut cancel = PackCancel { requested: false };
    assert!(matches!(data(None).close(&mut cancel), PatcherCommand::Quit));
    assert!(cancel.requested);
}

#[test]
fn packs_are_listed() {
    assert_eq!(
        optional_packs_script("[{\"id\":\"it's\\n\"}]"),
        "optionalPacksList('[{\"id\":\"it\\'s\\\\n\"}]')"
    );
}
