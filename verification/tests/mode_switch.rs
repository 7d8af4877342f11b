use std::collections::HashMap;

use rpatchur::config::{ModeArtifacts, ModeDigests};
use rpatchur::digest::FileHasher;
use rpatchur::mode::{detect_active_mode, GameFile, Mode};
use rpatchur::mode_switch::{
    apply_mode_script, start_apply_mode, start_mode_swap, DiskAction, DiskReply, ModeSwitch,
    SwitchStart,
};

type Directory = HashMap<String, String>;

fn sha(content: &str) -> String {
    let mut hasher = FileHasher::new();
    hasher.absorb(content.as_bytes(), content.len());
    hasher.finish()
}

fn directory(files: &[(&str, &str)]) -> Directory {
    files.iter().map(|(name, content)| (name.to_string(), content.to_string())).collect()
}

fn in_vanilla() -> Directory {
    directory(&[
        ("Ragexe.exe", "rv"),
        ("DATA.ini", "dv"),
        ("Ragexe-hd.dat", "rh"),
        ("DATA-hd.ini.bak", "dh"),
    ])
}

fn in_hd() -> Directory {
    directory(&[
        ("Ragexe.exe", "rh"),
        ("DATA.ini", "dh"),
        ("Ragexe-vanilla.dat", "rv"),
        ("DATA-vanilla.ini.bak", "dv"),
    ])
}

fn digests(ragexe: &str, data: &str) -> Option<ModeDigests> {
    Some(ModeDigests { ragexe_sha256: sha(ragexe), dataini_sha256: sha(data) })
}

fn configured() -> ModeArtifacts {
    ModeArtifacts { vanilla: digests("rv", "dv"), hd: digests("rh", "dh") }
}

fn unchecked() -> ModeArtifacts {
    ModeArtifacts { vanilla: None, hd: None }
}

/// Runs a change of mode; renames of the files named in `stuck` fail.
fn run(mut switch: ModeSwitch, dir: &mut Directory, stuck: &[&str]) -> Result<(), String> {
    let fail = |file: GameFile| DiskReply::Failed {
        path: format!("/game/{}", file.name()),
        error: "busy".to_string(),
    };
    loop {
        let reply = match switch.action() {
            DiskAction::Locate => DiskReply::Located,
            DiskAction::Look(file) => DiskReply::Found(dir.contains_key(&file.name())),
            DiskAction::Digest(file) => match dir.get(&file.name()) {
                Some(content) => DiskReply::Digested(sha(content)),
                None => fail(file),
            },
            DiskAction::Rename(file, name) => {
                if stuck.contains(&file.name().as_str()) || !dir.contains_key(&file.name()) {
                    fail(file)
                } else {
                    let content = dir.remove(&file.name()).unwrap();
                    dir.insert(name.name(), content);
                    DiskReply::Renamed
                }
            }
            DiskAction::Finish(result) => return result,
        };
        switch = switch.advance(&reply);
    }
}

fn started(start: SwitchStart) -> ModeSwitch {
    match start {
        SwitchStart::Run(switch) => switch,
        SwitchStart::Settled(_) => panic!("settled"),
    }
}

fn settled(start: SwitchStart) -> Result<(), String> {
    match start {
        SwitchStart::Run(_) => panic!("running"),
        SwitchStart::Settled(result) => result,
    }
}

fn message(s: &str) -> Result<(), String> {
    Err(s.to_string())
}

#[test]
fn switches_and_switches_back() {
    let mut dir = in_vanilla();
    let cfg = configured();
    let there = started(start_apply_mode("hd", Some(Mode::Vanilla), &cfg));
    assert_eq!(run(there, &mut dir, &[]), Ok(()));
    assert_eq!(dir, in_hd());
    let back = started(start_apply_mode("vanilla", Some(Mode::Hd), &cfg));
    assert_eq!(run(back, &mut dir, &[]), Ok(()));
    assert_eq!(dir, in_vanilla());
}

#[test]
fn applied_mode_is_detected() {
    let mut dir = in_vanilla();
    let cfg = configured();
    let switch = started(start_apply_mode("hd", Some(Mode::Vanilla), &cfg));
    assert_eq!(run(switch, &mut dir, &[]), Ok(()));
    let digest = sha(&dir["Ragexe.exe"]);
    assert_eq!(
        detect_active_mode(Some(&cfg), Some(&digest), false, false),
        Some(Mode::Hd)
    );
    let vanilla_waits = dir.contains_key("Ragexe-vanilla.dat");
    let hd_waits = dir.contains_key("Ragexe-hd.dat");
    assert_eq!(detect_active_mode(None, None, vanilla_waits, hd_waits), Some(Mode::Hd));
}

#[test]
fn refused_and_settled_changes() {
    let cfg = configured();
    assert_eq!(
        settled(start_apply_mode("ultra", Some(Mode::Hd), &cfg)),
        message("modo invalido")
    );
    assert_eq!(settled(start_apply_mode("ultra", None, &cfg)), message("modo invalido"));
    assert_eq!(settled(start_apply_mode("hd", Some(Mode::Hd), &cfg)), Ok(()));
    assert_eq!(
        settled(start_apply_mode("hd", None, &cfg)),
        message("estado dos arquivos inconsistente — reinstale o cliente")
    );
    assert_eq!(settled(start_mode_swap(Mode::Hd, Some(Mode::Hd))), Ok(()));
    assert_eq!(
        settled(start_mode_swap(Mode::Hd, None)),
        message("estado dos arquivos inconsistente")
    );
}

#[test]
fn missing_files_stop_the_change() {
    let cfg = unchecked();
    let mut dir = in_vanilla();
    dir.remove("Ragexe-hd.dat");
    let before = dir.clone();
    let switch = started(start_apply_mode("hd", Some(Mode::Vanilla), &cfg));
    assert_eq!(run(switch, &mut dir, &[]), message("faltando Ragexe-hd.dat"));
    assert_eq!(dir, before);

    let mut dir = in_vanilla();
    dir.remove("DATA-hd.ini.bak");
    let before = dir.clone();
    let switch = started(start_apply_mode("hd", Some(Mode::Vanilla), &cfg));
    assert_eq!(run(switch, &mut dir, &[]), message("faltando DATA-hd.ini.bak"));
    assert_eq!(dir, before);
}

#[test]
fn tampered_files_are_never_activated() {
    let cfg = configured();
    for (name, error) in [
        ("Ragexe-hd.dat", "Ragexe-hd.dat sha256 invalido — reinstale o cliente"),
        ("DATA-hd.ini.bak", "DATA-hd.ini.bak sha256 invalido — reinstale o cliente"),
    ] {
        let mut dir = in_vanilla();
        dir.insert(name.to_string(), "evil".to_string());
        let before = dir.clone();
        let switch = started(start_apply_mode("hd", Some(Mode::Vanilla), &cfg));
        assert_eq!(run(switch, &mut dir, &[]), message(error));
        assert_eq!(dir, before);
    }
}

#[test]
fn own_swap_takes_the_files_as_they_are() {
    let mut dir = in_vanilla();
    dir.insert("Ragexe-hd.dat".to_string(), "other".to_string());
    let switch = started(start_mode_swap(Mode::Hd, Some(Mode::Vanilla)));
    assert_eq!(run(switch, &mut dir, &[]), Ok(()));
    assert_eq!(dir["Ragexe.exe"], "other");
    assert_eq!(dir["Ragexe-vanilla.dat"], "rv");
}

#[test]
fn unreadable_files_stop_the_change() {
    let cfg = configured();
    let failed = DiskReply::Failed { path: "p".to_string(), error: "denied".to_string() };
    let at_ragexe = started(start_apply_mode("hd", Some(Mode::Vanilla), &cfg))
        .advance(&DiskReply::Located)
        .advance(&DiskReply::Found(true))
        .advance(&DiskReply::Found(true));
    assert!(matches!(
        at_ragexe.action(),
        DiskAction::Digest(GameFile::StandbyRagexe(Mode::Hd))
    ));
    match at_ragexe.advance(&failed).action() {
        DiskAction::Finish(result) => assert_eq!(result, message("hash Ragexe-hd.dat: denied")),
        _ => panic!("not finished"),
    }
    let at_data = started(start_apply_mode("hd", Some(Mode::Vanilla), &cfg))
        .advance(&DiskReply::Located)
        .advance(&DiskReply::Found(true))
        .advance(&DiskReply::Found(true))
        .advance(&DiskReply::Digested(sha("rh")));
    match at_data.advance(&failed).action() {
        DiskAction::Finish(result) => assert_eq!(result, message("hash DATA-hd.ini.bak: denied")),
        _ => panic!("not finished"),
    }
}

#[test]
fn unknown_directory_stops_the_change() {
    let switch = started(start_apply_mode("hd", Some(Mode::Vanilla), &unchecked()));
    let failed = DiskReply::Failed { path: "".to_string(), error: "gone".to_string() };
    match switch.advance(&failed).action() {
        DiskAction::Finish(result) => assert_eq!(result, message("cwd: gone")),
        _ => panic!("not finished"),
    }
}

#[test]
fn failed_parking_is_undone() {
    let mut dir = in_vanilla();
    let switch = started(start_apply_mode("hd", Some(Mode::Vanilla), &configured()));
    assert_eq!(run(switch, &mut dir, &["DATA.ini"]), message("rename DATA.ini: busy"));
    assert_eq!(dir, in_vanilla());

    let switch = started(start_apply_mode("hd", Some(Mode::Vanilla), &configured()));
    assert_eq!(run(switch, &mut dir, &["Ragexe.exe"]), message("rename Ragexe.exe: busy"));
    assert_eq!(dir, in_vanilla());
}

#[test]
fn failed_activation_keeps_every_content() {
    for (stuck, by_user, by_itself) in [
        (
            "Ragexe-hd.dat",
            "rename /game/Ragexe-hd.dat->Ragexe.exe: busy",
            "rename act ragexe: busy",
        ),
        (
            "DATA-hd.ini.bak",
            "rename /game/DATA-hd.ini.bak->DATA.ini: busy",
            "rename act data: busy",
        ),
    ] {
        let mut dir = in_vanilla();
        let switch = started(start_apply_mode("hd", Some(Mode::Vanilla), &configured()));
        assert_eq!(run(switch, &mut dir, &[stuck]), message(by_user));
        let mut contents: Vec<&str> = dir.values().map(|s| s.as_str()).collect();
        contents.sort();
        assert_eq!(contents, vec!["dh", "dv", "rh", "rv"]);

        let mut dir = in_vanilla();
        let switch = started(start_mode_swap(Mode::Hd, Some(Mode::Vanilla)));
        assert_eq!(run(switch, &mut dir, &[stuck]), message(by_itself));
    }
}

#[test]
fn active_files_may_be_missing() {
    let mut dir = directory(&[("Ragexe-hd.dat", "rh"), ("DATA-hd.ini.bak", "dh")]);
    let switch = started(start_apply_mode("hd", Some(Mode::Vanilla), &configured()));
    assert_eq!(run(switch, &mut dir, &[]), Ok(()));
    assert_eq!(dir, directory(&[("Ragexe.exe", "rh"), ("DATA.ini", "dh")]));
}

#[test]
fn a_reply_to_another_question_changes_nothing() {
    let switch = started(start_apply_mode("hd", Some(Mode::Vanilla), &configured()));
    let switch = switch.advance(&DiskReply::Renamed).advance(&DiskReply::Found(true));
    assert!(matches!(switch.action(), DiskAction::Locate));
}

#[test]
fn apply_mode_is_reported() {
    assert_eq!(apply_mode_script("hd", &Ok(())), "applyModeResult(\"hd\", true, \"\")");
    assert_eq!(
        apply_mode_script("hd", &message("rename C:\\x: \"y\"")),
        "applyModeResult(\"hd\", false, \"rename C:\\\\x: \\\"y\\\"\")"
    );
}

#[test]
fn failed_parking_is_undone_over_a_redundant_data_file() {
    let mut dir = in_vanilla();
    dir.insert("DATA-vanilla.ini.bak".to_string(), "old".to_string());
    let before = dir.clone();
    let switch = started(start_apply_mode("hd", Some(Mode::Vanilla), &configured()));
    assert_eq!(run(switch, &mut dir, &["DATA.ini"]), message("rename DATA.ini: busy"));
    assert_eq!(dir, before);
}
