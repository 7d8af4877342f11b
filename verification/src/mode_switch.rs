//! Changing the active mode: the active game files are parked under the names
//! of their mode and those of the other mode take their place. The change runs
//! as a state machine that names one file operation at a time and is told what
//! came of it.
use crate::config::ModeArtifacts;
use crate::mode::{expected, expected_digests, game_file_name, mode_name, GameFile, Mode};
use crate::text::{boolean, concatenated, escape_literal, escaped, push_boolean};
use vstd::prelude::*;

verus! {

/// An operation on the game's directory.
pub enum DiskAction<T> {
    /// Find the game's directory.
    Locate,
    /// Look whether a file exists.
    Look(GameFile),
    /// Compute a file's digest.
    Digest(GameFile),
    /// Give a file another name.
    Rename(GameFile, GameFile),
    /// Nothing is left to do; an error carries its message.
    Finish(Result<(), T>),
}

/// What came of an operation.
pub enum DiskReply<T> {
    Located,
    Found(bool),
    Digested(T),
    Renamed,
    /// The operation on the file at `path` failed.
    Failed { path: T, error: T },
}

/// Digests that the waiting files must have before they may become active.
pub struct RequiredDigests<T> {
    pub ragexe: T,
    pub data: T,
}

/// What a change of mode sets out to do.
pub struct SwitchPlan<T> {
    /// The mode whose files are active.
    pub from: Mode,
    /// The mode whose files are to become active.
    pub to: Mode,
    /// The digests that the executable and the data file of `to` must have.
    pub required: Option<RequiredDigests<T>>,
    /// Whether the user asked for the change; it is otherwise a repair of the
    /// launcher's own, with shorter messages.
    pub requested: bool,
}

/// How far a change of mode has come: the next operation.
pub enum SwitchState<T> {
    LocateDirectory,
    SeekRagexe,
    SeekDataIni,
    CheckRagexe,
    CheckDataIni,
    SeekActiveRagexe,
    ParkRagexe,
    SeekActiveDataIni,
    ParkDataIni,
    /// Parking the data file failed, for the reason given: take the executable
    /// back.
    RestoreRagexe(T),
    ActivateRagexe,
    ActivateDataIni,
    Finished(Result<(), T>),
}

/// A change of mode under way.
pub struct ModeSwitch {
    pub plan: SwitchPlan<String>,
    pub state: SwitchState<String>,
}

/// How a change of mode begins.
pub enum SwitchStart {
    /// There is work to do.
    Run(ModeSwitch),
    /// There is not: the mode is active already, or the change is refused.
    Settled(Result<(), String>),
}

impl View for DiskReply<String> {
    type V = DiskReply<Seq<char>>;

    open spec fn view(&self) -> DiskReply<Seq<char>> {
        match *self {
            DiskReply::Located => DiskReply::Located,
            DiskReply::Found(found) => DiskReply::Found(found),
            DiskReply::Digested(digest) => DiskReply::Digested(digest@),
            DiskReply::Renamed => DiskReply::Renamed,
            DiskReply::Failed { path, error } => DiskReply::Failed { path: path@, error: error@ },
        }
    }
}

/// An outcome with its message as plain text.
pub open spec fn outcome(result: Result<(), String>) -> Result<(), Seq<char>> {
    match result {
        Ok(()) => Ok(()),
        Err(message) => Err(message@),
    }
}

impl View for DiskAction<String> {
    type V = DiskAction<Seq<char>>;

    open spec fn view(&self) -> DiskAction<Seq<char>> {
        match *self {
            DiskAction::Locate => DiskAction::Locate,
            DiskAction::Look(file) => DiskAction::Look(file),
            DiskAction::Digest(file) => DiskAction::Digest(file),
            DiskAction::Rename(file, name) => DiskAction::Rename(file, name),
            DiskAction::Finish(result) => DiskAction::Finish(outcome(result)),
        }
    }
}

impl View for SwitchPlan<String> {
    type V = SwitchPlan<Seq<char>>;

    open spec fn view(&self) -> SwitchPlan<Seq<char>> {
        SwitchPlan {
            from: self.from,
            to: self.to,
            required: match self.required {
                Some(required) => Some(
                    RequiredDigests { ragexe: required.ragexe@, data: required.data@ },
                ),
                None => None,
            },
            requested: self.requested,
        }
    }
}

impl View for SwitchState<String> {
    type V = SwitchState<Seq<char>>;

    open spec fn view(&self) -> SwitchState<Seq<char>> {
        match *self {
            SwitchState::LocateDirectory => SwitchState::LocateDirectory,
            SwitchState::SeekRagexe => SwitchState::SeekRagexe,
            SwitchState::SeekDataIni => SwitchState::SeekDataIni,
            SwitchState::CheckRagexe => SwitchState::CheckRagexe,
            SwitchState::CheckDataIni => SwitchState::CheckDataIni,
            SwitchState::SeekActiveRagexe => SwitchState::SeekActiveRagexe,
            SwitchState::ParkRagexe => SwitchState::ParkRagexe,
            SwitchState::SeekActiveDataIni => SwitchState::SeekActiveDataIni,
            SwitchState::ParkDataIni => SwitchState::ParkDataIni,
            SwitchState::RestoreRagexe(error) => SwitchState::RestoreRagexe(error@),
            SwitchState::ActivateRagexe => SwitchState::ActivateRagexe,
            SwitchState::ActivateDataIni => SwitchState::ActivateDataIni,
            SwitchState::Finished(result) => SwitchState::Finished(outcome(result)),
        }
    }
}

/// The operation that a state calls for.
pub open spec fn switch_action(
    plan: SwitchPlan<Seq<char>>,
    state: SwitchState<Seq<char>>,
) -> DiskAction<Seq<char>> {
    match state {
        SwitchState::LocateDirectory => DiskAction::Locate,
        SwitchState::SeekRagexe => DiskAction::Look(GameFile::StandbyRagexe(plan.to)),
        SwitchState::SeekDataIni => DiskAction::Look(GameFile::StandbyDataIni(plan.to)),
        SwitchState::CheckRagexe => DiskAction::Digest(GameFile::StandbyRagexe(plan.to)),
        SwitchState::CheckDataIni => DiskAction::Digest(GameFile::StandbyDataIni(plan.to)),
        SwitchState::SeekActiveRagexe => DiskAction::Look(GameFile::Ragexe),
        SwitchState::ParkRagexe => DiskAction::Rename(
            GameFile::Ragexe,
            GameFile::StandbyRagexe(plan.from),
        ),
        SwitchState::SeekActiveDataIni => DiskAction::Look(GameFile::DataIni),
        SwitchState::ParkDataIni => DiskAction::Rename(
            GameFile::DataIni,
            GameFile::StandbyDataIni(plan.from),
        ),
        SwitchState::RestoreRagexe(_) => DiskAction::Rename(
            GameFile::StandbyRagexe(plan.from),
            GameFile::Ragexe,
        ),
        SwitchState::ActivateRagexe => DiskAction::Rename(
            GameFile::StandbyRagexe(plan.to),
            GameFile::Ragexe,
        ),
        SwitchState::ActivateDataIni => DiskAction::Rename(
            GameFile::StandbyDataIni(plan.to),
            GameFile::DataIni,
        ),
        SwitchState::Finished(result) => DiskAction::Finish(result),
    }
}

/// The message for a waiting file that is not there.
pub open spec fn missing_message(file: GameFile) -> Seq<char> {
    "faltando "@ + game_file_name(file)
}

/// The message for a waiting file that has not the digest it must have.
pub open spec fn tampered_message(file: GameFile) -> Seq<char> {
    game_file_name(file) + " sha256 invalido — reinstale o cliente"@
}

/// The message for a waiting file whose digest could not be computed.
pub open spec fn unreadable_message(file: GameFile, error: Seq<char>) -> Seq<char> {
    "hash "@ + game_file_name(file) + ": "@ + error
}

/// The message for a waiting file that could not be made active.
pub open spec fn activation_message(
    requested: bool,
    active: GameFile,
    path: Seq<char>,
    error: Seq<char>,
) -> Seq<char> {
    if requested {
        "rename "@ + path + "->"@ + game_file_name(active) + ": "@ + error
    } else if active == GameFile::Ragexe {
        "rename act ragexe: "@ + error
    } else {
        "rename act data: "@ + error
    }
}

/// The state after a reply. A reply that does not answer the state's operation
/// changes nothing.
pub open spec fn switch_next(
    plan: SwitchPlan<Seq<char>>,
    state: SwitchState<Seq<char>>,
    reply: DiskReply<Seq<char>>,
) -> SwitchState<Seq<char>> {
    let waiting_ragexe = GameFile::StandbyRagexe(plan.to);
    let waiting_data = GameFile::StandbyDataIni(plan.to);
    match (state, reply) {
        (SwitchState::LocateDirectory, DiskReply::Located) => SwitchState::SeekRagexe,
        (SwitchState::LocateDirectory, DiskReply::Failed { path, error }) => SwitchState::Finished(
            Err("cwd: "@ + error),
        ),
        (SwitchState::SeekRagexe, DiskReply::Found(found)) => if found {
            SwitchState::SeekDataIni
        } else {
            SwitchState::Finished(Err(missing_message(waiting_ragexe)))
        },
        (SwitchState::SeekDataIni, DiskReply::Found(found)) => if !found {
            SwitchState::Finished(Err(missing_message(waiting_data)))
        } else if plan.required is Some {
            SwitchState::CheckRagexe
        } else {
            SwitchState::SeekActiveRagexe
        },
        (SwitchState::CheckRagexe, DiskReply::Digested(digest)) => if plan.required is Some
            && digest == plan.required->0.ragexe {
            SwitchState::CheckDataIni
        } else {
            SwitchState::Finished(Err(tampered_message(waiting_ragexe)))
        },
        (SwitchState::CheckRagexe, DiskReply::Failed { path, error }) => SwitchState::Finished(
            Err(unreadable_message(waiting_ragexe, error)),
        ),
        (SwitchState::CheckDataIni, DiskReply::Digested(digest)) => if plan.required is Some
            && digest == plan.required->0.data {
            SwitchState::SeekActiveRagexe
        } else {
            SwitchState::Finished(Err(tampered_message(waiting_data)))
        },
        (SwitchState::CheckDataIni, DiskReply::Failed { path, error }) => SwitchState::Finished(
            Err(unreadable_message(waiting_data, error)),
        ),
        (SwitchState::SeekActiveRagexe, DiskReply::Found(found)) => if found {
            SwitchState::ParkRagexe
        } else {
            SwitchState::SeekActiveDataIni
        },
        (SwitchState::ParkRagexe, DiskReply::Renamed) => SwitchState::SeekActiveDataIni,
        (SwitchState::ParkRagexe, DiskReply::Failed { path, error }) => SwitchState::Finished(
            Err("rename Ragexe.exe: "@ + error),
        ),
        (SwitchState::SeekActiveDataIni, DiskReply::Found(found)) => if found {
            SwitchState::ParkDataIni
        } else {
            SwitchState::ActivateRagexe
        },
        (SwitchState::ParkDataIni, DiskReply::Renamed) => SwitchState::ActivateRagexe,
        (SwitchState::ParkDataIni, DiskReply::Failed { path, error }) => SwitchState::RestoreRagexe(
            error,
        ),
        (SwitchState::RestoreRagexe(error), DiskReply::Renamed) => SwitchState::Finished(
            Err("rename DATA.ini: "@ + error),
        ),
        (
            SwitchState::RestoreRagexe(error),
            DiskReply::Failed { path, error: second },
        ) => SwitchState::Finished(Err("rename DATA.ini: "@ + error)),
        (SwitchState::ActivateRagexe, DiskReply::Renamed) => SwitchState::ActivateDataIni,
        (SwitchState::ActivateRagexe, DiskReply::Failed { path, error }) => SwitchState::Finished(
            Err(activation_message(plan.requested, GameFile::Ragexe, path, error)),
        ),
        (SwitchState::ActivateDataIni, DiskReply::Renamed) => SwitchState::Finished(Ok(())),
        (SwitchState::ActivateDataIni, DiskReply::Failed { path, error }) => SwitchState::Finished(
            Err(activation_message(plan.requested, GameFile::DataIni, path, error)),
        ),
        (state, _) => state,
    }
}

/// Copies an outcome.
fn copy_outcome(result: &Result<(), String>) -> (copy: Result<(), String>)
    ensures
        outcome(copy) == outcome(*result),
{
    match result {
        Ok(()) => Ok(()),
        Err(message) => Err(message.clone()),
    }
}

/// The end of a change that a waiting file's absence stops.
fn missing(file: GameFile) -> (state: SwitchState<String>)
    ensures
        state@ == SwitchState::Finished(Err(missing_message(file))),
{
    SwitchState::Finished(Err(concatenated("faltando ", file.name().as_str())))
}

/// The end of a change that a waiting file's digest stops.
fn tampered(file: GameFile) -> (state: SwitchState<String>)
    ensures
        state@ == SwitchState::Finished(Err(tampered_message(file))),
{
    SwitchState::Finished(
        Err(concatenated(file.name().as_str(), " sha256 invalido — reinstale o cliente")),
    )
}

/// The end of a change that a waiting file could not be read for.
fn unreadable(file: GameFile, error: &str) -> (state: SwitchState<String>)
    ensures
        state@ == SwitchState::Finished(Err(unreadable_message(file, error@))),
{
    let mut message = concatenated("hash ", file.name().as_str());
    message.append(": ");
    message.append(error);
    SwitchState::Finished(Err(message))
}

/// The end of a change whose waiting file could not be made active.
fn not_activated(requested: bool, active: GameFile, path: &str, error: &str) -> (state: SwitchState<
    String,
>)
    ensures
        state@ == SwitchState::Finished(Err(activation_message(requested, active, path@, error@))),
{
    if requested {
        let mut message = concatenated("rename ", path);
        message.append("->");
        message.append(active.name().as_str());
        message.append(": ");
        message.append(error);
        SwitchState::Finished(Err(message))
    } else {
        match active {
            GameFile::Ragexe => SwitchState::Finished(Err(concatenated("rename act ragexe: ", error))),
            _ => SwitchState::Finished(Err(concatenated("rename act data: ", error))),
        }
    }
}

impl ModeSwitch {
    /// The operation to perform next.
    pub fn action(&self) -> (action: DiskAction<String>)
        ensures
            action@ == switch_action(self.plan@, self.state@),
    {
        let from = self.plan.from;
        let to = self.plan.to;
        match &self.state {
            SwitchState::LocateDirectory => DiskAction::Locate,
            SwitchState::SeekRagexe => DiskAction::Look(GameFile::StandbyRagexe(to)),
            SwitchState::SeekDataIni => DiskAction::Look(GameFile::StandbyDataIni(to)),
            SwitchState::CheckRagexe => DiskAction::Digest(GameFile::StandbyRagexe(to)),
            SwitchState::CheckDataIni => DiskAction::Digest(GameFile::StandbyDataIni(to)),
            SwitchState::SeekActiveRagexe => DiskAction::Look(GameFile::Ragexe),
            SwitchState::ParkRagexe => DiskAction::Rename(
                GameFile::Ragexe,
                GameFile::StandbyRagexe(from),
            ),
            SwitchState::SeekActiveDataIni => DiskAction::Look(GameFile::DataIni),
            SwitchState::ParkDataIni => DiskAction::Rename(
                GameFile::DataIni,
                GameFile::StandbyDataIni(from),
            ),
            SwitchState::RestoreRagexe(_) => DiskAction::Rename(
                GameFile::StandbyRagexe(from),
                GameFile::Ragexe,
            ),
            SwitchState::ActivateRagexe => DiskAction::Rename(
                GameFile::StandbyRagexe(to),
                GameFile::Ragexe,
            ),
            SwitchState::ActivateDataIni => DiskAction::Rename(
                GameFile::StandbyDataIni(to),
                GameFile::DataIni,
            ),
            SwitchState::Finished(result) => DiskAction::Finish(copy_outcome(result)),
        }
    }

    /// Takes in what came of the operation.
    pub fn advance(self, reply: &DiskReply<String>) -> (next: ModeSwitch)
        ensures
            next.plan == self.plan,
            next.state@ == switch_next(self.plan@, self.state@, reply@),
    {
        let plan = self.plan;
        let to = plan.to;
        let waiting_ragexe = GameFile::StandbyRagexe(to);
        let waiting_data = GameFile::StandbyDataIni(to);
        let requested = plan.requested;
        let state = match (self.state, reply) {
            (SwitchState::LocateDirectory, DiskReply::Located) => SwitchState::SeekRagexe,
            (SwitchState::LocateDirectory, DiskReply::Failed { path: _, error }) => {
                SwitchState::Finished(Err(concatenated("cwd: ", error.as_str())))
            },
            (SwitchState::SeekRagexe, DiskReply::Found(found)) => {
                if *found {
                    SwitchState::SeekDataIni
                } else {
                    missing(waiting_ragexe)
                }
            },
            (SwitchState::SeekDataIni, DiskReply::Found(found)) => {
                if !*found {
                    missing(waiting_data)
                } else if plan.required.is_some() {
                    SwitchState::CheckRagexe
                } else {
                    SwitchState::SeekActiveRagexe
                }
            },
            (SwitchState::CheckRagexe, DiskReply::Digested(digest)) => match &plan.required {
                Some(required) => {
                    if *digest == required.ragexe {
                        SwitchState::CheckDataIni
                    } else {
                        tampered(waiting_ragexe)
                    }
                },
                None => tampered(waiting_ragexe),
            },
            (SwitchState::CheckRagexe, DiskReply::Failed { path: _, error }) => {
                unreadable(waiting_ragexe, error.as_str())
            },
            (SwitchState::CheckDataIni, DiskReply::Digested(digest)) => match &plan.required {
                Some(required) => {
                    if *digest == required.data {
                        SwitchState::SeekActiveRagexe
                    } else {
                        tampered(waiting_data)
                    }
                },
                None => tampered(waiting_data),
            },
            (SwitchState::CheckDataIni, DiskReply::Failed { path: _, error }) => {
                unreadable(waiting_data, error.as_str())
            },
            (SwitchState::SeekActiveRagexe, DiskReply::Found(found)) => {
                if *found {
                    SwitchState::ParkRagexe
                } else {
                    SwitchState::SeekActiveDataIni
                }
            },
            (SwitchState::ParkRagexe, DiskReply::Renamed) => SwitchState::SeekActiveDataIni,
            (SwitchState::ParkRagexe, DiskReply::Failed { path: _, error }) => {
                SwitchState::Finished(Err(concatenated("rename Ragexe.exe: ", error.as_str())))
            },
            (SwitchState::SeekActiveDataIni, DiskReply::Found(found)) => {
                if *found {
                    SwitchState::ParkDataIni
                } else {
                    SwitchState::ActivateRagexe
                }
            },
            (SwitchState::ParkDataIni, DiskReply::Renamed) => SwitchState::ActivateRagexe,
            (SwitchState::ParkDataIni, DiskReply::Failed { path: _, error }) => {
                SwitchState::RestoreRagexe(error.clone())
            },
            (SwitchState::RestoreRagexe(error), DiskReply::Renamed) => {
                SwitchState::Finished(Err(concatenated("rename DATA.ini: ", error.as_str())))
            },
            (SwitchState::RestoreRagexe(error), DiskReply::Failed { path: _, error: _ }) => {
                SwitchState::Finished(Err(concatenated("rename DATA.ini: ", error.as_str())))
            },
            (SwitchState::ActivateRagexe, DiskReply::Renamed) => SwitchState::ActivateDataIni,
            (SwitchState::ActivateRagexe, DiskReply::Failed { path, error }) => {
                not_activated(requested, GameFile::Ragexe, path.as_str(), error.as_str())
            },
            (SwitchState::ActivateDataIni, DiskReply::Renamed) => SwitchState::Finished(Ok(())),
            (SwitchState::ActivateDataIni, DiskReply::Failed { path, error }) => {
                not_activated(requested, GameFile::DataIni, path.as_str(), error.as_str())
            },
            (state, _) => state,
        };
        ModeSwitch { plan, state }
    }
}

/// The mode that a name stands for.
pub open spec fn named_mode(name: Seq<char>) -> Option<Mode> {
    if name == mode_name(Mode::Vanilla) {
        Some(Mode::Vanilla)
    } else if name == mode_name(Mode::Hd) {
        Some(Mode::Hd)
    } else {
        None
    }
}

/// The digests that the user's change of mode requires: those configured for
/// its mode.
pub open spec fn required_for(artifacts: ModeArtifacts, mode: Mode) -> Option<
    RequiredDigests<Seq<char>>,
> {
    match expected(artifacts, mode) {
        Some(digests) => Some(
            RequiredDigests { ragexe: digests.ragexe_sha256@, data: digests.dataini_sha256@ },
        ),
        None => None,
    }
}

/// Begins the change of mode that the user asked for, given the mode that is
/// active now.
pub fn start_apply_mode(target: &str, current: Option<Mode>, artifacts: &ModeArtifacts) -> (start:
    SwitchStart)
    ensures
        start matches SwitchStart::Settled(result) ==> outcome(result) == (if named_mode(target@)
            is None {
            Err("modo invalido"@)
        } else if current is None {
            Err("estado dos arquivos inconsistente — reinstale o cliente"@)
        } else {
            Ok(())
        }),
        start is Run == (named_mode(target@) is Some && current is Some && current != named_mode(
            target@,
        )),
        start matches SwitchStart::Run(switch) ==> {
            &&& switch.state@ == SwitchState::<Seq<char>>::LocateDirectory
            &&& switch.plan@ == (SwitchPlan {
                from: current->0,
                to: named_mode(target@)->0,
                required: required_for(*artifacts, named_mode(target@)->0),
                requested: true,
            })
        },
{
    let to = match Mode::from_name(target) {
        None => {
            return SwitchStart::Settled(Err("modo invalido".to_owned()));
        },
        Some(to) => to,
    };
    let from = match current {
        None => {
            return SwitchStart::Settled(
                Err("estado dos arquivos inconsistente — reinstale o cliente".to_owned()),
            );
        },
        Some(from) => from,
    };
    if from == to {
        return SwitchStart::Settled(Ok(()));
    }
    let required = match expected_digests(artifacts, to) {
        Some(digests) => Some(
            RequiredDigests {
                ragexe: digests.ragexe_sha256.clone(),
                data: digests.dataini_sha256.clone(),
            },
        ),
        None => None,
    };
    let plan = SwitchPlan { from, to, required, requested: true };
    SwitchStart::Run(ModeSwitch { plan, state: SwitchState::LocateDirectory })
}

/// Begins a change of mode that the launcher makes by itself. It checks no
/// digests: the waiting files are taken as they are.
pub fn start_mode_swap(target: Mode, current: Option<Mode>) -> (start: SwitchStart)
    ensures
        start matches SwitchStart::Settled(result) ==> outcome(result) == (if current is None {
            Err("estado dos arquivos inconsistente"@)
        } else {
            Ok(())
        }),
        start is Run == (current is Some && current != Some(target)),
        start matches SwitchStart::Run(switch) ==> {
            &&& switch.state@ == SwitchState::<Seq<char>>::LocateDirectory
            &&& switch.plan@ == (SwitchPlan::<Seq<char>> {
                from: current->0,
                to: target,
                required: None,
                requested: false,
            })
        },
{
    let from = match current {
        None => {
            return SwitchStart::Settled(Err("estado dos arquivos inconsistente".to_owned()));
        },
        Some(from) => from,
    };
    if from == target {
        return SwitchStart::Settled(Ok(()));
    }
    let plan = SwitchPlan { from, to: target, required: None, requested: false };
    SwitchStart::Run(ModeSwitch { plan, state: SwitchState::LocateDirectory })
}

/// The error message of an outcome; empty for a success.
pub open spec fn outcome_message(result: Result<(), String>) -> Seq<char> {
    match result {
        Ok(()) => ""@,
        Err(message) => message@,
    }
}

/// The page's call that reports how a change of mode ended.
pub fn apply_mode_script(target: &str, result: &Result<(), String>) -> (script: String)
    ensures
        script@ == "applyModeResult(\""@ + target@ + "\", "@ + boolean(*result is Ok) + ", \""@
            + escaped(outcome_message(*result), '"') + "\")"@,
{
    let mut script = "applyModeResult(\"".to_owned();
    script.append(target);
    script.append("\", ");
    push_boolean(&mut script, result.is_ok());
    script.append(", \"");
    match result {
        Ok(()) => script.append(escape_literal("", '"').as_str()),
        Err(message) => script.append(escape_literal(message.as_str(), '"').as_str()),
    }
    script.append("\")");
    script
}

} // verus!
