use rpatchur::config::{OptionalPack, OptionalPackFile};
use rpatchur::hd_cleanup::{find_pack, CleanupAction, CleanupReply, HdCleanup};
use rpatchur::mode::Mode;

fn pack(id: &str, names: &[&str]) -> OptionalPack {
    OptionalPack {
        id: id.to_string(),
        files: names
            .iter()
            .map(|name| OptionalPackFile {
                name: name.to_string(),
                url: String::new(),
                size: 1,
                sha256: String::new(),
            })
            .collect(),
    }
}

fn packs() -> Vec<OptionalPack> {
    vec![pack("mood", &["m"]), pack("hd", &["a", "b", "c"]), pack("hd", &["z"])]
}

/// Runs a cleanup: `outcomes` says what becomes of each file in turn.
fn run(mut cleanup: HdCleanup, outcomes: Vec<CleanupReply<String>>) -> (Vec<String>, String) {
    let mut removed = Vec::new();
    let mut outcomes = outcomes.into_iter();
    loop {
        let reply = match cleanup.action() {
            CleanupAction::SwitchToVanilla => {
                removed.push("<switch>".to_string());
                CleanupReply::Ready
            }
            CleanupAction::Locate => CleanupReply::Ready,
            CleanupAction::Remove(name) => {
                removed.push(name);
                outcomes.next().unwrap()
            }
            CleanupAction::Report(script) => return (removed, script),
        };
        assert!(cleanup.fits(&reply));
        cleanup.advance(&reply);
    }
}

fn failed(message: &str) -> CleanupReply<String> {
    CleanupReply::Failed(message.to_string())
}

#[test]
fn packs_are_found_by_id() {
    assert_eq!(find_pack(&packs(), "hd"), Some(1));
    assert_eq!(find_pack(&packs(), "mood"), Some(0));
    assert_eq!(find_pack(&packs(), "skybox"), None);
    assert_eq!(find_pack(&vec![], "hd"), None);
}

#[test]
fn cleanup_removes_every_file_once() {
    let cleanup = HdCleanup::start(Some(Mode::Vanilla), &packs());
    let (removed, script) = run(
        cleanup,
        vec![CleanupReply::Removed(10), CleanupReply::Missing, CleanupReply::Removed(32)],
    );
    assert_eq!(removed, vec!["a", "b", "c"]);
    assert_eq!(script, "cleanupHdResult(true, 42, \"\")");
}

#[test]
fn cleanup_leaves_hd_mode_first() {
    let cleanup = HdCleanup::start(Some(Mode::Hd), &packs());
    let (removed, _) = run(
        cleanup,
        vec![CleanupReply::Missing, CleanupReply::Missing, CleanupReply::Missing],
    );
    assert_eq!(removed, vec!["<switch>", "a", "b", "c"]);
}

#[test]
fn cleanup_in_unknown_mode_does_not_switch() {
    let cleanup = HdCleanup::start(None, &packs());
    assert!(matches!(cleanup.action(), CleanupAction::Locate));
}

#[test]
fn failed_switch_removes_nothing() {
    let mut cleanup = HdCleanup::start(Some(Mode::Hd), &packs());
    cleanup.advance(&failed("rename \"x\"\\"));
    match cleanup.action() {
        CleanupAction::Report(script) => {
            assert_eq!(script, "cleanupHdResult(false, 0, \"rename \\\"x\\\"\\\\\")")
        }
        _ => panic!("not finished"),
    }
}

#[test]
fn missing_pack_is_reported() {
    let cleanup = HdCleanup::start(Some(Mode::Vanilla), &vec![pack("mood", &["m"])]);
    let (removed, script) = run(cleanup, vec![]);
    assert!(removed.is_empty());
    assert_eq!(
        script,
        "cleanupHdResult(false, 0, \"pack hd nao configurado em optional_packs\")"
    );
}

#[test]
fn missing_directory_is_reported() {
    let mut cleanup = HdCleanup::start(Some(Mode::Vanilla), &packs());
    cleanup.advance(&failed("gone"));
    match cleanup.action() {
        CleanupAction::Report(script) => {
            assert_eq!(script, "cleanupHdResult(false, 0, \"cwd: gone\")")
        }
        _ => panic!("not finished"),
    }
}

#[test]
fn failed_removals_are_listed() {
    let cleanup = HdCleanup::start(Some(Mode::Vanilla), &packs());
    let (removed, script) = run(
        cleanup,
        vec![failed("busy"), CleanupReply::Removed(5), failed("\"no\"")],
    );
    assert_eq!(removed, vec!["a", "b", "c"]);
    assert_eq!(script, "cleanupHdResult(false, 5, \"a: busy; c: \\\"no\\\"\")");
}

#[test]
fn empty_pack_frees_nothing() {
    let cleanup = HdCleanup::start(Some(Mode::Vanilla), &vec![pack("hd", &[])]);
    let (removed, script) = run(cleanup, vec![]);
    assert!(removed.is_empty());
    assert_eq!(script, "cleanupHdResult(true, 0, \"\")");
}

#[test]
fn freed_bytes_have_a_limit() {
    let mut cleanup = HdCleanup::start(Some(Mode::Vanilla), &packs());
    cleanup.advance(&CleanupReply::Ready);
    cleanup.advance(&CleanupReply::Removed(u64::MAX));
    assert!(!cleanup.fits(&CleanupReply::Removed(1)));
    assert!(cleanup.fits(&CleanupReply::Removed(0)));
}

#[test]
fn cleanup_leaves_no_file_of_the_pack_and_no_other_touched() {
    let mut folder: Vec<(String, u64)> = vec![
        ("a".to_string(), 3),
        ("other".to_string(), 9),
        ("c".to_string(), 4),
    ];
    let mut cleanup = HdCleanup::start(Some(Mode::Vanilla), &packs());
    let script = loop {
        let reply = match cleanup.action() {
            CleanupAction::SwitchToVanilla | CleanupAction::Locate => CleanupReply::Ready,
            CleanupAction::Remove(name) => {
                match folder.iter().position(|(present, _)| *present == name) {
                    Some(place) => CleanupReply::Removed(folder.remove(place).1),
                    None => CleanupReply::Missing,
                }
            }
            CleanupAction::Report(script) => break script,
        };
        cleanup.advance(&reply);
    };
    assert_eq!(folder, vec![("other".to_string(), 9)]);
    assert_eq!(script, "cleanupHdResult(true, 7, \"\")");
}

#[test]
fn files_that_could_not_be_removed_are_left_and_listed() {
    let mut folder: Vec<(String, u64)> = vec![
        ("c".to_string(), 4),
        ("b".to_string(), 5),
        ("a".to_string(), 3),
        ("other".to_string(), 9),
    ];
    let mut cleanup = HdCleanup::start(Some(Mode::Vanilla), &packs());
    let script = loop {
        let reply = match cleanup.action() {
            CleanupAction::SwitchToVanilla | CleanupAction::Locate => CleanupReply::Ready,
            CleanupAction::Remove(name) if name == "b" => {
                let place = folder.iter().position(|(present, _)| *present == name).unwrap();
                CleanupReply::Removed(folder.remove(place).1)
            }
            CleanupAction::Remove(_) => failed("busy"),
            CleanupAction::Report(script) => break script,
        };
        cleanup.advance(&reply);
    };
    let left: Vec<&str> = folder.iter().map(|(name, _)| name.as_str()).collect();
    assert_eq!(left, vec!["c", "a", "other"]);
    assert_eq!(script, "cleanupHdResult(false, 5, \"a: busy; c: busy\")");
}
