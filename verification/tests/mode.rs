use rpatchur::config::{ModeArtifacts, ModeDigests};
use rpatchur::mode::{
    active_mode_script, detect_active_mode, detected_mode_name, expected_digests,
    preflight_failed_script, preflight_integrity, verify_play, GameFile, Mode, PlayStatus,
    Preflight,
};

fn digests(ragexe: &str, data: &str) -> Option<ModeDigests> {
    Some(ModeDigests {
        ragexe_sha256: ragexe.to_string(),
        dataini_sha256: data.to_string(),
    })
}

fn both() -> ModeArtifacts {
    ModeArtifacts { vanilla: digests("rv", "dv"), hd: digests("rh", "dh") }
}

fn ok(s: &str) -> Result<String, String> {
    Ok(s.to_string())
}

fn err(s: &str) -> Result<String, String> {
    Err(s.to_string())
}

#[test]
fn mode_names() {
    assert_eq!(Mode::from_name("vanilla"), Some(Mode::Vanilla));
    assert_eq!(Mode::from_name("hd"), Some(Mode::Hd));
    assert_eq!(Mode::from_name("unknown"), None);
    assert_eq!(Mode::from_name("HD"), None);
    assert_eq!(Mode::Vanilla.name(), "vanilla");
    assert_eq!(Mode::Hd.name(), "hd");
    assert_eq!(Mode::Hd.other(), Mode::Vanilla);
    assert_eq!(Mode::Vanilla.other(), Mode::Hd);
    assert_eq!(detected_mode_name(None), "unknown");
    assert_eq!(detected_mode_name(Some(Mode::Hd)), "hd");
}

#[test]
fn game_file_names() {
    assert_eq!(GameFile::Ragexe.name(), "Ragexe.exe");
    assert_eq!(GameFile::DataIni.name(), "DATA.ini");
    assert_eq!(GameFile::StandbyRagexe(Mode::Vanilla).name(), "Ragexe-vanilla.dat");
    assert_eq!(GameFile::StandbyDataIni(Mode::Hd).name(), "DATA-hd.ini.bak");
}

#[test]
fn digest_decides_the_mode() {
    let cfg = both();
    for waits in [(false, false), (true, false), (false, true), (true, true)] {
        assert_eq!(
            detect_active_mode(Some(&cfg), Some("rv"), waits.0, waits.1),
            Some(Mode::Vanilla)
        );
        assert_eq!(
            detect_active_mode(Some(&cfg), Some("rh"), waits.0, waits.1),
            Some(Mode::Hd)
        );
    }
}

#[test]
fn waiting_files_decide_without_a_known_digest() {
    let cfg = both();
    for (artifacts, digest) in [
        (Some(&cfg), Some("other")),
        (Some(&cfg), None),
        (None, Some("rv")),
        (None, None),
    ] {
        assert_eq!(detect_active_mode(artifacts, digest, true, false), Some(Mode::Hd));
        assert_eq!(detect_active_mode(artifacts, digest, false, true), Some(Mode::Vanilla));
        assert_eq!(detect_active_mode(artifacts, digest, true, true), None);
        assert_eq!(detect_active_mode(artifacts, digest, false, false), None);
    }
}

#[test]
fn shared_executable_counts_as_vanilla() {
    let cfg = ModeArtifacts { vanilla: digests("r", "dv"), hd: digests("r", "dh") };
    assert_eq!(detect_active_mode(Some(&cfg), Some("r"), true, false), Some(Mode::Vanilla));
}

#[test]
fn digests_of_a_mode() {
    let cfg = ModeArtifacts { vanilla: None, hd: digests("rh", "dh") };
    assert!(expected_digests(&cfg, Mode::Vanilla).is_none());
    assert_eq!(expected_digests(&cfg, Mode::Hd).unwrap().dataini_sha256, "dh");
}

#[test]
fn active_mode_is_reported() {
    assert_eq!(active_mode_script(Some(Mode::Vanilla)), "activeModeResult(\"vanilla\")");
    assert_eq!(active_mode_script(None), "activeModeResult(\"unknown\")");
}

#[test]
fn verification_of_ready_files() {
    let report = verify_play(&both(), Some(Mode::Hd), &ok("rh"), &ok("dh"), None, None);
    assert_eq!(report.status, PlayStatus::Ready);
    assert_eq!(report.script(), "verifyPlayResult(\"hd\", \"ok\", \"\")");
}

#[test]
fn verification_without_configured_digests() {
    let cfg = ModeArtifacts { vanilla: None, hd: digests("rh", "dh") };
    let report = verify_play(&cfg, Some(Mode::Vanilla), &err("gone"), &err("gone"), None, None);
    assert_eq!(report.script(), "verifyPlayResult(\"vanilla\", \"ok\", \"\")");
}

#[test]
fn verification_of_unknown_mode() {
    let report = verify_play(&both(), None, &ok("rv"), &ok("dv"), None, None);
    assert_eq!(
        report.script(),
        "verifyPlayResult(\"unknown\", \"corrupt\", \"estado de arquivos inconsistente\")"
    );
}

#[test]
fn verification_of_inverted_files() {
    let report = verify_play(&both(), Some(Mode::Vanilla), &ok("rh"), &ok("dh"), None, None);
    assert_eq!(report.status, PlayStatus::NeedsSwap);
    assert_eq!(
        report.script(),
        "verifyPlayResult(\"vanilla\", \"needs_swap\", \"arquivos ativos sao do modo hd\")"
    );
}

#[test]
fn verification_of_damaged_files() {
    let hd = verify_play(&both(), Some(Mode::Hd), &ok("rh"), &ok("x"), None, None);
    assert_eq!(
        hd.script(),
        "verifyPlayResult(\"hd\", \"needs_repair_hd\", \"Ragexe.exe ou DATA.ini divergem do esperado. Reinstale o cliente.\")"
    );
    let vanilla = verify_play(&both(), Some(Mode::Vanilla), &ok("rv"), &ok("dh"), None, None);
    assert_eq!(
        vanilla.script(),
        "verifyPlayResult(\"vanilla\", \"corrupt\", \"Ragexe.exe ou DATA.ini divergem do esperado. Reinstale o cliente.\")"
    );
}

#[test]
fn waiting_files_mend_damaged_ones() {
    let report =
        verify_play(&both(), Some(Mode::Hd), &ok("rh"), &ok("x"), Some("rh"), Some("dh"));
    assert_eq!(
        report.script(),
        "verifyPlayResult(\"hd\", \"needs_swap\", \"arquivos em espera sao do modo hd\")"
    );
    let vanilla =
        verify_play(&both(), Some(Mode::Vanilla), &ok("x"), &ok("x"), Some("rv"), Some("dv"));
    assert_eq!(vanilla.status, PlayStatus::NeedsSwap);
    let damaged =
        verify_play(&both(), Some(Mode::Hd), &ok("rh"), &ok("x"), Some("rh"), Some("y"));
    assert_eq!(damaged.status, PlayStatus::NeedsRepairHd);
    let absent = verify_play(&both(), Some(Mode::Hd), &ok("rh"), &ok("x"), Some("rh"), None);
    assert_eq!(absent.status, PlayStatus::NeedsRepairHd);
    let ready =
        verify_play(&both(), Some(Mode::Hd), &ok("rh"), &ok("dh"), Some("rh"), Some("dh"));
    assert_eq!(ready.status, PlayStatus::Ready);
}

#[test]
fn verification_of_unreadable_files() {
    let ragexe = verify_play(&both(), Some(Mode::Hd), &err("no r"), &err("no d"), None, None);
    assert_eq!(
        ragexe.script(),
        "verifyPlayResult(\"hd\", \"corrupt\", \"hash Ragexe.exe falhou: no r\")"
    );
    let data = verify_play(&both(), Some(Mode::Hd), &ok("rh"), &err("no d"), None, None);
    assert_eq!(
        data.script(),
        "verifyPlayResult(\"hd\", \"corrupt\", \"hash DATA.ini falhou: no d\")"
    );
}

fn refusal(preflight: Preflight) -> String {
    match preflight {
        Preflight::Refuse(message) => message,
        _ => panic!("not refused"),
    }
}

#[test]
fn preflight_launches() {
    let cfg = both();
    assert!(matches!(
        preflight_integrity(&cfg, Some(Mode::Vanilla), &Ok(()), &ok("rv"), &ok("dv")),
        Preflight::Launch
    ));
    let unchecked = ModeArtifacts { vanilla: None, hd: None };
    assert!(matches!(
        preflight_integrity(
            &unchecked,
            Some(Mode::Hd),
            &Err("no dir".to_string()),
            &err("x"),
            &err("x")
        ),
        Preflight::Launch
    ));
}

#[test]
fn preflight_swaps_inverted_files() {
    let cfg = ModeArtifacts { vanilla: digests("r", "dv"), hd: digests("r", "dh") };
    let mode = detect_active_mode(Some(&cfg), Some("r"), true, false);
    assert!(matches!(
        preflight_integrity(&cfg, mode, &Ok(()), &ok("r"), &ok("dh")),
        Preflight::Swap { from: Mode::Hd, to: Mode::Vanilla }
    ));
}

#[test]
fn preflight_refusals() {
    let cfg = both();
    let dir: Result<(), String> = Ok(());
    assert_eq!(
        refusal(preflight_integrity(&cfg, None, &dir, &ok("rv"), &ok("dv"))),
        "estado dos arquivos inconsistente — reinstale o cliente"
    );
    assert_eq!(
        refusal(preflight_integrity(
            &cfg,
            Some(Mode::Hd),
            &Err("gone".to_string()),
            &ok("rh"),
            &ok("dh")
        )),
        "cwd: gone"
    );
    assert_eq!(
        refusal(preflight_integrity(&cfg, Some(Mode::Hd), &dir, &err("e1"), &err("e2"))),
        "hash Ragexe.exe: e1"
    );
    assert_eq!(
        refusal(preflight_integrity(&cfg, Some(Mode::Hd), &dir, &ok("rh"), &err("e2"))),
        "hash DATA.ini: e2"
    );
    assert_eq!(
        refusal(preflight_integrity(&cfg, Some(Mode::Hd), &dir, &ok("rh"), &ok("dv"))),
        "Ragexe.exe ou DATA.ini divergem do esperado para o modo hd — reinstale o cliente"
    );
}

#[test]
fn preflight_failure_is_escaped() {
    assert_eq!(
        preflight_failed_script("C:\\x \"y\""),
        "playPreflightFailed(\"C:\\\\x \\\"y\\\"\")"
    );
}
