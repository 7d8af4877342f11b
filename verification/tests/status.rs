use rpatchur::status::{patching_status_script, PatchingStatus};

fn script(status: PatchingStatus) -> String {
    patching_status_script(&status)
}

#[test]
fn ready_statuses() {
    assert_eq!(script(PatchingStatus::Ready), "patchingStatusReady()");
    assert_eq!(
        script(PatchingStatus::ReadyAfterUpdate),
        "patchingStatusReadyAfterUpdate()"
    );
}

#[test]
fn error_status_is_not_escaped() {
    assert_eq!(
        script(PatchingStatus::Error("a \"b\"".to_string())),
        "patchingStatusError(\"a \"b\"\")"
    );
}

#[test]
fn progress_statuses() {
    assert_eq!(
        script(PatchingStatus::DownloadInProgress(1, 20, 3000)),
        "patchingStatusDownloading(1, 20, 3000)"
    );
    assert_eq!(
        script(PatchingStatus::InstallationInProgress(2, 3)),
        "patchingStatusInstalling(2, 3)"
    );
    assert_eq!(
        script(PatchingStatus::ManualPatchApplied("x.thor".to_string())),
        "patchingStatusPatchApplied(\"x.thor\")"
    );
}

#[test]
fn pack_statuses() {
    let id = || "hd".to_string();
    assert_eq!(
        script(PatchingStatus::PackDownload(id(), 0, 2, 10, 5_000_000_000, 7)),
        "packDownloadProgress(\"hd\", 0, 2, 10, 5000000000, 7)"
    );
    assert_eq!(
        script(PatchingStatus::PackVerifying(id(), "hd.grf".to_string())),
        "packDownloadVerifying(\"hd\", \"hd.grf\")"
    );
    assert_eq!(script(PatchingStatus::PackComplete(id())), "packDownloadComplete(\"hd\")");
    assert_eq!(script(PatchingStatus::PackCancelled(id())), "packDownloadCancelled(\"hd\")");
}

#[test]
fn pack_error_has_its_quotes_escaped() {
    assert_eq!(
        script(PatchingStatus::PackFailed("hd".to_string(), "no \"x\" \\".to_string())),
        "packDownloadFailed(\"hd\", \"no \\\"x\\\" \\\")"
    );
}
