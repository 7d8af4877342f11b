//! What the launcher tells its page about the state of its work.
use crate::text::{
    decimal, joined, law_quoted_literal_reads_back, push_decimal, read_literal, replace_char,
    replaced,
};
use vstd::prelude::*;

verus! {

/// Used to indicate the current status of the patching process.
pub enum PatchingStatus {
    Ready,
    /// Like `Ready`, but the launcher's own configuration was just patched, so
    /// it must start anew to read it.
    ReadyAfterUpdate,
    /// Error message.
    Error(String),
    /// Downloaded files, total number, bytes per second.
    DownloadInProgress(usize, usize, u64),
    /// Installed patches, total number.
    InstallationInProgress(usize, usize),
    /// Patch file name.
    ManualPatchApplied(String),
    /// Pack id, current file index, total files, downloaded bytes, total bytes,
    /// bytes per second.
    PackDownload(String, usize, usize, u64, u64, u64),
    /// Pack id, file name.
    PackVerifying(String, String),
    /// Pack id.
    PackComplete(String),
    /// Pack id.
    PackCancelled(String),
    /// Pack id, error message.
    PackFailed(String, String),
}

/// A number of the page's call and the separator before the next one.
pub open spec fn argument(n: nat) -> Seq<char> {
    decimal(n) + ", "@
}

/// The page's call that shows a status. The texts stand in it as they are,
/// except that the quotes of a pack's error are escaped.
pub open spec fn status_call(status: PatchingStatus) -> Seq<char> {
    match status {
        PatchingStatus::Ready => "patchingStatusReady()"@,
        PatchingStatus::ReadyAfterUpdate => "patchingStatusReadyAfterUpdate()"@,
        PatchingStatus::Error(message) => "patchingStatusError(\""@ + message@ + "\")"@,
        PatchingStatus::DownloadInProgress(downloaded, total, rate) => "patchingStatusDownloading("@
            + argument(downloaded as nat) + argument(total as nat) + decimal(rate as nat) + ")"@,
        PatchingStatus::InstallationInProgress(installed, total) => "patchingStatusInstalling("@
            + argument(installed as nat) + decimal(total as nat) + ")"@,
        PatchingStatus::ManualPatchApplied(name) => "patchingStatusPatchApplied(\""@ + name@
            + "\")"@,
        PatchingStatus::PackDownload(id, index, count, downloaded, total, rate) => {
            "packDownloadProgress(\""@ + id@ + "\", "@ + argument(index as nat) + argument(
                count as nat,
            ) + argument(downloaded as nat) + argument(total as nat) + decimal(rate as nat) + ")"@
        },
        PatchingStatus::PackVerifying(id, name) => "packDownloadVerifying(\""@ + id@ + "\", \""@
            + name@ + "\")"@,
        PatchingStatus::PackComplete(id) => "packDownloadComplete(\""@ + id@ + "\")"@,
        PatchingStatus::PackCancelled(id) => "packDownloadCancelled(\""@ + id@ + "\")"@,
        PatchingStatus::PackFailed(id, error) => "packDownloadFailed(\""@ + id@ + "\", \""@
            + replaced(error@, '"', "\\\""@) + "\")"@,
    }
}

/// Appends a number and the separator before the next one.
fn push_argument(script: &mut String, n: u64)
    ensures
        final(script)@ == old(script)@ + argument(n as nat),
{
    push_decimal(script, n);
    script.append(", ");
    assert(script@ =~= old(script)@ + argument(n as nat));
}

/// The page's call that shows a status.
pub fn patching_status_script(status: &PatchingStatus) -> (script: String)
    ensures
        script@ == status_call(*status),
{
    match status {
        PatchingStatus::Ready => "patchingStatusReady()".to_owned(),
        PatchingStatus::ReadyAfterUpdate => "patchingStatusReadyAfterUpdate()".to_owned(),
        PatchingStatus::Error(message) => {
            let mut script = "patchingStatusError(\"".to_owned();
            script.append(message.as_str());
            script.append("\")");
            script
        },
        PatchingStatus::DownloadInProgress(downloaded, total, rate) => {
            let mut script = "patchingStatusDownloading(".to_owned();
            push_argument(&mut script, *downloaded as u64);
            push_argument(&mut script, *total as u64);
            push_decimal(&mut script, *rate);
            script.append(")");
            script
        },
        PatchingStatus::InstallationInProgress(installed, total) => {
            let mut script = "patchingStatusInstalling(".to_owned();
            push_argument(&mut script, *installed as u64);
            push_decimal(&mut script, *total as u64);
            script.append(")");
            script
        },
        PatchingStatus::ManualPatchApplied(name) => {
            let mut script = "patchingStatusPatchApplied(\"".to_owned();
            script.append(name.as_str());
            script.append("\")");
            script
        },
        PatchingStatus::PackDownload(id, index, count, downloaded, total, rate) => {
            let mut script = "packDownloadProgress(\"".to_owned();
            script.append(id.as_str());
            script.append("\", ");
            push_argument(&mut script, *index as u64);
            push_argument(&mut script, *count as u64);
            push_argument(&mut script, *downloaded);
            push_argument(&mut script, *total);
            push_decimal(&mut script, *rate);
            script.append(")");
            script
        },
        PatchingStatus::PackVerifying(id, name) => {
            let mut script = "packDownloadVerifying(\"".to_owned();
            script.append(id.as_str());
            script.append("\", \"");
            script.append(name.as_str());
            script.append("\")");
            script
        },
        PatchingStatus::PackComplete(id) => {
            let mut script = "packDownloadComplete(\"".to_owned();
            script.append(id.as_str());
            script.append("\")");
            script
        },
        PatchingStatus::PackCancelled(id) => {
            let mut script = "packDownloadCancelled(\"".to_owned();
            script.append(id.as_str());
            script.append("\")");
            script
        },
        PatchingStatus::PackFailed(id, error) => {
            let mut script = "packDownloadFailed(\"".to_owned();
            script.append(id.as_str());
            script.append("\", \"");
            script.append(replace_char(error.as_str(), '"', "\\\"").as_str());
            script.append("\")");
            script
        },
    }
}

/// A pack's error that holds no backslash reads back from the page's call: its
/// quotes do not end the literal that it stands in.
pub proof fn law_pack_error_reads_back(id: String, error: String)
    requires
        !error@.contains('\\'),
    ensures
        ({
            let opening = "packDownloadFailed(\""@ + id@ + "\", \""@;
            let call = status_call(PatchingStatus::PackFailed(id, error));
            read_literal(call.skip(opening.len() as int), '"') == Some((error@, seq![')']))
        }),
{
    reveal_strlit("\\\"");
    reveal_strlit("\")");
    let opening = "packDownloadFailed(\""@ + id@ + "\", \""@;
    let call = status_call(PatchingStatus::PackFailed(id, error));
    let text = replaced(error@, '"', seq!['\\', '"']);
    assert("\\\""@ =~= seq!['\\', '"']);
    assert("\")"@ =~= seq!['"', ')']);
    assert(call.skip(opening.len() as int) =~= text.push('"') + seq![')']);
    law_quoted_literal_reads_back(error@, '"', seq![')']);
}

/// A call of the page's script: a function's name and its arguments.
pub open spec fn script_call(name: Seq<char>, arguments: Seq<Seq<char>>) -> Seq<char> {
    name + "("@ + joined(arguments, ", "@) + ")"@
}

/// A string literal of the page's script.
pub open spec fn literal(text: Seq<char>) -> Seq<char> {
    "\""@ + text + "\""@
}

/// Every status is shown by a call of its own, with all that it holds as
/// arguments, in its order: numbers in decimal, texts as string literals.
pub proof fn law_status_is_told_in_full(status: PatchingStatus)
    ensures
        status_call(status) == match status {
            PatchingStatus::Ready => script_call("patchingStatusReady"@, seq![]),
            PatchingStatus::ReadyAfterUpdate => script_call(
                "patchingStatusReadyAfterUpdate"@,
                seq![],
            ),
            PatchingStatus::Error(message) => script_call(
                "patchingStatusError"@,
                seq![literal(message@)],
            ),
            PatchingStatus::DownloadInProgress(downloaded, total, rate) => script_call(
                "patchingStatusDownloading"@,
                seq![decimal(downloaded as nat), decimal(total as nat), decimal(rate as nat)],
            ),
            PatchingStatus::InstallationInProgress(installed, total) => script_call(
                "patchingStatusInstalling"@,
                seq![decimal(installed as nat), decimal(total as nat)],
            ),
            PatchingStatus::ManualPatchApplied(name) => script_call(
                "patchingStatusPatchApplied"@,
                seq![literal(name@)],
            ),
            PatchingStatus::PackDownload(id, index, count, downloaded, total, rate) => script_call(
                "packDownloadProgress"@,
                seq![
                    literal(id@),
                    decimal(index as nat),
                    decimal(count as nat),
                    decimal(downloaded as nat),
                    decimal(total as nat),
                    decimal(rate as nat),
                ],
            ),
            PatchingStatus::PackVerifying(id, name) => script_call(
                "packDownloadVerifying"@,
                seq![literal(id@), literal(name@)],
            ),
            PatchingStatus::PackComplete(id) => script_call(
                "packDownloadComplete"@,
                seq![literal(id@)],
            ),
            PatchingStatus::PackCancelled(id) => script_call(
                "packDownloadCancelled"@,
                seq![literal(id@)],
            ),
            PatchingStatus::PackFailed(id, error) => script_call(
                "packDownloadFailed"@,
                seq![literal(id@), literal(replaced(error@, '"', seq!['\\', '"']))],
            ),
        },
{
    reveal_strlit("(");
    reveal_strlit(")");
    reveal_strlit(", ");
    reveal_strlit("\"");
    reveal_strlit("\")");
    reveal_strlit("\", ");
    reveal_strlit("\", \"");
    reveal_strlit("\\\"");
    reveal_strlit("patchingStatusReady()");
    reveal_strlit("patchingStatusReady");
    reveal_strlit("patchingStatusReadyAfterUpdate()");
    reveal_strlit("patchingStatusReadyAfterUpdate");
    reveal_strlit("patchingStatusError(\"");
    reveal_strlit("patchingStatusError");
    reveal_strlit("patchingStatusDownloading(");
    reveal_strlit("patchingStatusDownloading");
    reveal_strlit("patchingStatusInstalling(");
    reveal_strlit("patchingStatusInstalling");
    reveal_strlit("patchingStatusPatchApplied(\"");
    reveal_strlit("patchingStatusPatchApplied");
    reveal_strlit("packDownloadProgress(\"");
    reveal_strlit("packDownloadProgress");
    reveal_strlit("packDownloadVerifying(\"");
    reveal_strlit("packDownloadVerifying");
    reveal_strlit("packDownloadComplete(\"");
    reveal_strlit("packDownloadComplete");
    reveal_strlit("packDownloadCancelled(\"");
    reveal_strlit("packDownloadCancelled");
    reveal_strlit("packDownloadFailed(\"");
    reveal_strlit("packDownloadFailed");
    let sep = ", "@;
    match status {
        PatchingStatus::Ready => {
            assert(status_call(status) =~= script_call("patchingStatusReady"@, seq![]));
        },
        PatchingStatus::ReadyAfterUpdate => {
            assert(status_call(status) =~= script_call("patchingStatusReadyAfterUpdate"@, seq![]));
        },
        PatchingStatus::Error(message) => {
            assert(status_call(status) =~= script_call(
                "patchingStatusError"@,
                seq![literal(message@)],
            ));
        },
        PatchingStatus::DownloadInProgress(downloaded, total, rate) => {
            let a = decimal(downloaded as nat);
            let b = decimal(total as nat);
            let c = decimal(rate as nat);
            lemma_joined_three(a, b, c, sep);
            assert(status_call(status) =~= script_call(
                "patchingStatusDownloading"@,
                seq![a, b, c],
            ));
        },
        PatchingStatus::InstallationInProgress(installed, total) => {
            let a = decimal(installed as nat);
            let b = decimal(total as nat);
            lemma_joined_two(a, b, sep);
            assert(status_call(status) =~= script_call("patchingStatusInstalling"@, seq![a, b]));
        },
        PatchingStatus::ManualPatchApplied(name) => {
            assert(status_call(status) =~= script_call(
                "patchingStatusPatchApplied"@,
                seq![literal(name@)],
            ));
        },
        PatchingStatus::PackDownload(id, index, count, downloaded, total, rate) => {
            let i = literal(id@);
            let a = decimal(index as nat);
            let b = decimal(count as nat);
            let c = decimal(downloaded as nat);
            let d = decimal(total as nat);
            let e = decimal(rate as nat);
            lemma_joined_six(i, a, b, c, d, e, sep);
            assert(status_call(status) =~= script_call(
                "packDownloadProgress"@,
                seq![i, a, b, c, d, e],
            ));
        },
        PatchingStatus::PackVerifying(id, name) => {
            lemma_joined_two(literal(id@), literal(name@), sep);
            assert(status_call(status) =~= script_call(
                "packDownloadVerifying"@,
                seq![literal(id@), literal(name@)],
            ));
        },
        PatchingStatus::PackComplete(id) => {
            assert(status_call(status) =~= script_call(
                "packDownloadComplete"@,
                seq![literal(id@)],
            ));
        },
        PatchingStatus::PackCancelled(id) => {
            assert(status_call(status) =~= script_call(
                "packDownloadCancelled"@,
                seq![literal(id@)],
            ));
        },
        PatchingStatus::PackFailed(id, error) => {
            assert("\\\""@ =~= seq!['\\', '"']);
            let text = replaced(error@, '"', seq!['\\', '"']);
            lemma_joined_two(literal(id@), literal(text), sep);
            assert(status_call(status) =~= script_call(
                "packDownloadFailed"@,
                seq![literal(id@), literal(text)],
            ));
        },
    }
}

proof fn lemma_joined_two(a: Seq<char>, b: Seq<char>, sep: Seq<char>)
    ensures
        joined(seq![a, b], sep) == a + sep + b,
{
    assert(seq![a, b].drop_last() =~= seq![a]);
    assert(joined(seq![a], sep) == a);
}

proof fn lemma_joined_three(a: Seq<char>, b: Seq<char>, c: Seq<char>, sep: Seq<char>)
    ensures
        joined(seq![a, b, c], sep) == a + sep + b + sep + c,
{
    lemma_joined_two(a, b, sep);
    assert(seq![a, b, c].drop_last() =~= seq![a, b]);
}

proof fn lemma_joined_six(
    a: Seq<char>,
    b: Seq<char>,
    c: Seq<char>,
    d: Seq<char>,
    e: Seq<char>,
    f: Seq<char>,
    sep: Seq<char>,
)
    ensures
        joined(seq![a, b, c, d, e, f], sep) == a + sep + b + sep + c + sep + d + sep + e + sep + f,
{
    lemma_joined_three(a, b, c, sep);
    assert(seq![a, b, c, d].drop_last() =~= seq![a, b, c]);
    assert(joined(seq![a, b, c, d], sep) == joined(seq![a, b, c], sep) + sep + d);
    assert(seq![a, b, c, d, e].drop_last() =~= seq![a, b, c, d]);
    assert(joined(seq![a, b, c, d, e], sep) == joined(seq![a, b, c, d], sep) + sep + e);
    assert(seq![a, b, c, d, e, f].drop_last() =~= seq![a, b, c, d, e]);
}

} // verus!
