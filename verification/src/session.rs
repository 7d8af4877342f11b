//! The state behind the launcher's window, and what the window's requests lead
//! to.
use crate::cancel::{request_pack_cancel, PackCancel};
use crate::config::{OptionalPack, PatcherConfiguration};
use crate::hd_cleanup::{find_pack, pack_place};
use crate::text::{escape_literal, escaped, texts};
use vstd::prelude::*;

verus! {

/// A command for the thread that patches and downloads.
pub enum PatcherCommand {
    StartUpdate,
    CancelUpdate,
    /// Apply the patch file at this path.
    ApplyPatch(String),
    /// Download the pack with this id.
    DownloadPack(String),
    Quit,
}

/// What a request for an update leads to.
pub enum UpdateRequest {
    /// Run the page's call: the request comes at a wrong time.
    Notify(String),
    Send(PatcherCommand),
}

/// What a request for a manual patch leads to.
pub enum ManualPatchRequest {
    /// Run the page's call: the request comes at a wrong time.
    Notify(String),
    /// Ask the user for the patch file.
    AskForFile,
}

/// The state behind the window.
pub struct WebViewUserData {
    pub patcher_config: PatcherConfiguration,
    pub patching_in_progress: bool,
}

/// The arguments that log a user in: the credentials first, then what is
/// configured.
pub open spec fn login_call(
    login: Seq<char>,
    password: Seq<char>,
    configured: Seq<Seq<char>>,
) -> Seq<Seq<char>> {
    seq!["-t:"@ + password, login, "server"@] + configured
}

impl WebViewUserData {
    /// The state of a new window: no patching is in progress.
    pub fn new(patcher_config: PatcherConfiguration) -> (data: WebViewUserData)
        ensures
            data.patcher_config == patcher_config,
            !data.patching_in_progress,
    {
        WebViewUserData { patcher_config, patching_in_progress: false }
    }

    /// Records whether patching is in progress.
    pub fn set_patch_in_progress(&mut self, value: bool)
        ensures
            final(self).patching_in_progress == value,
            final(self).patcher_config == old(self).patcher_config,
    {
        self.patching_in_progress = value;
    }

    /// The user asks for an update; while one is in progress there is no
    /// second.
    pub fn start_update(&self) -> (request: UpdateRequest)
        ensures
            self.patching_in_progress ==> (request matches UpdateRequest::Notify(script) && script@
                == "notificationInProgress()"@),
            !self.patching_in_progress ==> request == UpdateRequest::Send(
                PatcherCommand::StartUpdate,
            ),
    {
        if self.patching_in_progress {
            UpdateRequest::Notify("notificationInProgress()".to_owned())
        } else {
            UpdateRequest::Send(PatcherCommand::StartUpdate)
        }
    }

    /// The user asks to apply a patch file; not while patching is in progress.
    pub fn manual_patch(&self) -> (request: ManualPatchRequest)
        ensures
            self.patching_in_progress ==> (request matches ManualPatchRequest::Notify(script)
                && script@ == "notificationInProgress()"@),
            !self.patching_in_progress ==> request is AskForFile,
    {
        if self.patching_in_progress {
            ManualPatchRequest::Notify("notificationInProgress()".to_owned())
        } else {
            ManualPatchRequest::AskForFile
        }
    }

    /// The user asks for a pack; only one that is configured can be downloaded.
    pub fn download_pack(&self, id: String) -> (command: Option<PatcherCommand>)
        ensures
            command == if pack_place(self.patcher_config.optional_packs@, id@)
                < self.patcher_config.optional_packs@.len() {
                Some(PatcherCommand::DownloadPack(id))
            } else {
                None
            },
    {
        if find_pack(&self.patcher_config.optional_packs, id.as_str()).is_some() {
            Some(PatcherCommand::DownloadPack(id))
        } else {
            None
        }
    }

    /// The arguments with which the game logs a user in.
    pub fn login_arguments(&self, login: &str, password: &str) -> (arguments: Vec<String>)
        ensures
            texts(arguments@) == login_call(
                login@,
                password@,
                texts(self.patcher_config.play.arguments@),
            ),
    {
        let mut secret = "-t:".to_owned();
        secret.append(password);
        let mut arguments: Vec<String> = Vec::new();
        arguments.push(secret);
        arguments.push(login.to_owned());
        arguments.push("server".to_owned());
        let configured = &self.patcher_config.play.arguments;
        let ghost credentials = arguments@;
        let mut i: usize = 0;
        while i < configured.len()
            invariant
                *configured == self.patcher_config.play.arguments,
                i <= configured.len(),
                credentials.len() == 3,
                arguments@ == credentials + configured@.take(i as int),
            decreases configured.len() - i,
        {
            arguments.push(configured[i].clone());
            i = i + 1;
            assert(arguments@ =~= credentials + configured@.take(i as int));
        }
        assert(texts(arguments@) =~= login_call(
            login@,
            password@,
            texts(self.patcher_config.play.arguments@),
        ));
        arguments
    }

    /// Whether the launcher exits after it tried to start the game, given
    /// whether the game started; it does unless configured otherwise.
    pub fn exits_after_play(&self, started: bool) -> (exits: bool)
        ensures
            exits == (started && self.patcher_config.play.exit_on_success != Some(false)),
    {
        started && self.patcher_config.play.exit_on_success.unwrap_or(true)
    }

    /// Whether the launcher exits after it tried to start the setup program,
    /// given whether that started; it does only if so configured.
    pub fn exits_after_setup(&self, started: bool) -> (exits: bool)
        ensures
            exits == (started && self.patcher_config.setup.exit_on_success == Some(true)),
    {
        started && self.patcher_config.setup.exit_on_success.unwrap_or(false)
    }

    /// The window closes: a running download is asked to stop, and the command
    /// tells the patching thread to end.
    pub fn close(&self, cancel: &mut PackCancel) -> (command: PatcherCommand)
        ensures
            final(cancel).requested,
            command == PatcherCommand::Quit,
    {
        request_pack_cancel(cancel);
        PatcherCommand::Quit
    }
}

/// The command that applies the file that the user chose, if one was chosen.
pub fn manual_patch_command(chosen: Option<String>) -> (command: Option<PatcherCommand>)
    ensures
        command == match chosen {
            Some(path) => Some(PatcherCommand::ApplyPatch(path)),
            None => None,
        },
{
    match chosen {
        Some(path) => Some(PatcherCommand::ApplyPatch(path)),
        None => None,
    }
}

/// The page's call that lists the optional packs, given their list in JSON.
pub fn optional_packs_script(json: &str) -> (script: String)
    ensures
        script@ == "optionalPacksList('"@ + escaped(json@, '\'') + "')"@,
{
    let mut script = "optionalPacksList('".to_owned();
    script.append(escape_literal(json, '\'').as_str());
    script.append("')");
    script
}

/// A pack can be downloaded exactly if its id is configured.
pub proof fn law_configured_packs_are_found(packs: Seq<OptionalPack>, id: Seq<char>)
    ensures
        0 <= pack_place(packs, id) <= packs.len(),
        (pack_place(packs, id) < packs.len()) == (exists|i: int|
            0 <= i < packs.len() && (#[trigger] packs[i]).id@ == id),
        pack_place(packs, id) < packs.len() ==> packs[pack_place(packs, id)].id@ == id,
        forall|i: int| 0 <= i < pack_place(packs, id) ==> (#[trigger] packs[i]).id@ != id,
    decreases packs.len(),
{
    if packs.len() > 0 && packs[0].id@ != id {
        let tail = packs.skip(1);
        law_configured_packs_are_found(tail, id);
        let place = pack_place(tail, id);
        assert forall|i: int| 0 <= i < place + 1 implies (#[trigger] packs[i]).id@ != id by {
            if i > 0 {
                assert(packs[i] == tail[i - 1]);
            }
        }
        if place < tail.len() {
            assert(packs[place + 1] == tail[place]);
        } else {
            assert forall|i: int| 0 <= i < packs.len() implies (#[trigger] packs[i]).id@ != id by {
                if i > 0 {
                    assert(packs[i] == tail[i - 1]);
                }
            }
        }
    }
}

/// The game is given the password, the login and the server's name, and after
/// them every configured argument in its place.
pub proof fn law_login_keeps_configured_arguments(
    login: Seq<char>,
    password: Seq<char>,
    configured: Seq<Seq<char>>,
)
    ensures
        ({
            let arguments = login_call(login, password, configured);
            &&& arguments.len() == configured.len() + 3
            &&& arguments[0] == "-t:"@ + password
            &&& arguments[1] == login
            &&& arguments[2] == "server"@
            &&& forall|k: int|
                0 <= k < configured.len() ==> arguments[k + 3] == #[trigger] configured[k]
        }),
{
}

} // verus!
