//! The two modes of the game client, and how the launcher tells which one is
//! active and whether its files can be trusted.
use crate::config::{ModeArtifacts, ModeDigests};
use crate::text::{escape_literal, escaped, same_text};
use vstd::prelude::*;

verus! {

/// The two sets of game files; one of them is active at a time.
#[derive(Clone, Copy, Debug, PartialEq, Eq, Structural)]
pub enum Mode {
    Vanilla,
    Hd,
}

/// The files that a change of mode renames. The active pair is what the game
/// starts from; the other mode's pair waits under names of its own.
#[derive(Clone, Copy, Debug, PartialEq, Eq, Structural)]
pub enum GameFile {
    Ragexe,
    DataIni,
    StandbyRagexe(Mode),
    StandbyDataIni(Mode),
}

/// A mode's name.
pub open spec fn mode_name(mode: Mode) -> Seq<char> {
    match mode {
        Mode::Vanilla => "vanilla"@,
        Mode::Hd => "hd"@,
    }
}

/// The name of what was detected.
pub open spec fn detected_name(mode: Option<Mode>) -> Seq<char> {
    match mode {
        Some(mode) => mode_name(mode),
        None => "unknown"@,
    }
}

/// A file's name in the game's directory.
pub open spec fn game_file_name(file: GameFile) -> Seq<char> {
    match file {
        GameFile::Ragexe => "Ragexe.exe"@,
        GameFile::DataIni => "DATA.ini"@,
        GameFile::StandbyRagexe(mode) => "Ragexe-"@ + mode_name(mode) + ".dat"@,
        GameFile::StandbyDataIni(mode) => "DATA-"@ + mode_name(mode) + ".ini.bak"@,
    }
}

/// The other one of the two modes.
pub open spec fn other_mode(mode: Mode) -> Mode {
    match mode {
        Mode::Vanilla => Mode::Hd,
        Mode::Hd => Mode::Vanilla,
    }
}

/// The digests configured for a mode.
pub open spec fn expected(artifacts: ModeArtifacts, mode: Mode) -> Option<ModeDigests> {
    match mode {
        Mode::Vanilla => artifacts.vanilla,
        Mode::Hd => artifacts.hd,
    }
}

/// Whether a mode is configured with this digest of its executable.
pub open spec fn has_ragexe(artifacts: ModeArtifacts, mode: Mode, digest: Seq<char>) -> bool {
    expected(artifacts, mode) matches Some(d) && d.ragexe_sha256@ == digest
}

/// Whether a mode is configured with exactly these digests.
pub open spec fn has_digests(
    artifacts: ModeArtifacts,
    mode: Mode,
    ragexe: Seq<char>,
    data: Seq<char>,
) -> bool {
    expected(artifacts, mode) matches Some(d) && d.ragexe_sha256@ == ragexe && d.dataini_sha256@
        == data
}

/// The mode that an executable's digest belongs to; vanilla where it belongs
/// to both.
pub open spec fn mode_of_digest(artifacts: ModeArtifacts, digest: Seq<char>) -> Option<Mode> {
    if has_ragexe(artifacts, Mode::Vanilla, digest) {
        Some(Mode::Vanilla)
    } else if has_ragexe(artifacts, Mode::Hd, digest) {
        Some(Mode::Hd)
    } else {
        None
    }
}

/// The mode that the waiting files leave: the active one is the one whose
/// executable does not wait.
pub open spec fn mode_of_standby(vanilla_waits: bool, hd_waits: bool) -> Option<Mode> {
    if vanilla_waits && !hd_waits {
        Some(Mode::Hd)
    } else if hd_waits && !vanilla_waits {
        Some(Mode::Vanilla)
    } else {
        None
    }
}

/// The active mode: by the digest of the executable where it is configured,
/// else by which executable waits.
pub open spec fn active_mode(
    artifacts: Option<ModeArtifacts>,
    ragexe: Option<Seq<char>>,
    vanilla_waits: bool,
    hd_waits: bool,
) -> Option<Mode> {
    if artifacts is Some && ragexe is Some && mode_of_digest(artifacts->0, ragexe->0) is Some {
        mode_of_digest(artifacts->0, ragexe->0)
    } else {
        mode_of_standby(vanilla_waits, hd_waits)
    }
}

/// The text that an optional text holds.
pub open spec fn opt_text(s: Option<&str>) -> Option<Seq<char>> {
    match s {
        Some(s) => Some(s@),
        None => None,
    }
}

/// The configuration behind an optional reference.
pub open spec fn opt_artifacts(a: Option<&ModeArtifacts>) -> Option<ModeArtifacts> {
    match a {
        Some(a) => Some(*a),
        None => None,
    }
}

impl Mode {
    /// The mode's name.
    pub fn name(self) -> (name: &'static str)
        ensures
            name@ == mode_name(self),
    {
        match self {
            Mode::Vanilla => "vanilla",
            Mode::Hd => "hd",
        }
    }

    /// The other mode.
    pub fn other(self) -> (other: Mode)
        ensures
            other == other_mode(self),
    {
        match self {
            Mode::Vanilla => Mode::Hd,
            Mode::Hd => Mode::Vanilla,
        }
    }

    /// The mode of a name; there is no other name than the two.
    pub fn from_name(name: &str) -> (mode: Option<Mode>)
        ensures
            mode == if name@ == mode_name(Mode::Vanilla) {
                Some(Mode::Vanilla)
            } else if name@ == mode_name(Mode::Hd) {
                Some(Mode::Hd)
            } else {
                None
            },
    {
        if same_text(name, "vanilla") {
            Some(Mode::Vanilla)
        } else if same_text(name, "hd") {
            Some(Mode::Hd)
        } else {
            None
        }
    }
}

/// The name under which a detected mode is reported.
pub fn detected_mode_name(mode: Option<Mode>) -> (name: &'static str)
    ensures
        name@ == detected_name(mode),
{
    match mode {
        Some(mode) => mode.name(),
        None => "unknown",
    }
}

impl GameFile {
    /// The file's name in the game's directory.
    pub fn name(self) -> (name: String)
        ensures
            name@ == game_file_name(self),
    {
        match self {
            GameFile::Ragexe => "Ragexe.exe".to_owned(),
            GameFile::DataIni => "DATA.ini".to_owned(),
            GameFile::StandbyRagexe(mode) => {
                let mut name = "Ragexe-".to_owned();
                name.append(mode.name());
                name.append(".dat");
                name
            },
            GameFile::StandbyDataIni(mode) => {
                let mut name = "DATA-".to_owned();
                name.append(mode.name());
                name.append(".ini.bak");
                name
            },
        }
    }
}

/// The digests configured for a mode.
pub fn expected_digests(artifacts: &ModeArtifacts, mode: Mode) -> (digests: Option<&ModeDigests>)
    ensures
        digests is Some == expected(*artifacts, mode) is Some,
        digests matches Some(d) ==> *d == expected(*artifacts, mode)->0,
{
    match mode {
        Mode::Vanilla => artifacts.vanilla.as_ref(),
        Mode::Hd => artifacts.hd.as_ref(),
    }
}

/// Tells which mode is active, from the digest of `Ragexe.exe` (`None` where
/// it could not be read) and from whether each mode's executable waits.
pub fn detect_active_mode(
    artifacts: Option<&ModeArtifacts>,
    ragexe: Option<&str>,
    vanilla_waits: bool,
    hd_waits: bool,
) -> (mode: Option<Mode>)
    ensures
        mode == active_mode(opt_artifacts(artifacts), opt_text(ragexe), vanilla_waits, hd_waits),
{
    if let Some(artifacts) = artifacts {
        if let Some(digest) = ragexe {
            if let Some(vanilla) = &artifacts.vanilla {
                if same_text(digest, vanilla.ragexe_sha256.as_str()) {
                    return Some(Mode::Vanilla);
                }
            }
            if let Some(hd) = &artifacts.hd {
                if same_text(digest, hd.ragexe_sha256.as_str()) {
                    return Some(Mode::Hd);
                }
            }
        }
    }
    if vanilla_waits && !hd_waits {
        Some(Mode::Hd)
    } else if hd_waits && !vanilla_waits {
        Some(Mode::Vanilla)
    } else {
        None
    }
}

/// The page's call that reports the active mode.
pub fn active_mode_script(mode: Option<Mode>) -> (script: String)
    ensures
        script@ == "activeModeResult(\""@ + detected_name(mode) + "\")"@,
{
    let mut script = "activeModeResult(\"".to_owned();
    script.append(detected_mode_name(mode));
    script.append("\")");
    script
}

/// The outcome of a check of the active files.
#[derive(Clone, Copy, Debug, PartialEq, Eq, Structural)]
pub enum PlayStatus {
    /// The game can start.
    Ready,
    /// The active files are the other mode's, or the files that wait are the
    /// active mode's; a swap mends it.
    NeedsSwap,
    /// The files of the high-definition mode are damaged, and those that wait
    /// cannot mend it; downloading the pack again does.
    NeedsRepairHd,
    /// Nothing matches; the client must be installed again.
    Corrupt,
}

/// A status as the page knows it.
pub open spec fn play_status_name(status: PlayStatus) -> Seq<char> {
    match status {
        PlayStatus::Ready => "ok"@,
        PlayStatus::NeedsSwap => "needs_swap"@,
        PlayStatus::NeedsRepairHd => "needs_repair_hd"@,
        PlayStatus::Corrupt => "corrupt"@,
    }
}

/// Whether the files that wait under a mode's names, given their digests
/// (`None` where they could not be had), are those that the mode is configured
/// with.
pub open spec fn standby_mends(
    artifacts: ModeArtifacts,
    mode: Mode,
    standby_ragexe: Option<Seq<char>>,
    standby_data: Option<Seq<char>>,
) -> bool {
    &&& standby_ragexe is Some
    &&& standby_data is Some
    &&& has_digests(artifacts, mode, standby_ragexe->0, standby_data->0)
}

/// The status of the active files, given the detected mode, the digests of the
/// active files (or why they could not be had) and those of the files that wait
/// under the mode's names.
pub open spec fn play_status(
    artifacts: ModeArtifacts,
    mode: Option<Mode>,
    ragexe: Result<String, String>,
    data: Result<String, String>,
    standby_ragexe: Option<Seq<char>>,
    standby_data: Option<Seq<char>>,
) -> PlayStatus {
    match mode {
        None => PlayStatus::Corrupt,
        Some(mode) => {
            if expected(artifacts, mode) is None {
                PlayStatus::Ready
            } else if !(ragexe is Ok && data is Ok) {
                PlayStatus::Corrupt
            } else if has_digests(artifacts, mode, ragexe->Ok_0@, data->Ok_0@) {
                PlayStatus::Ready
            } else if has_digests(artifacts, other_mode(mode), ragexe->Ok_0@, data->Ok_0@) {
                PlayStatus::NeedsSwap
            } else if standby_mends(artifacts, mode, standby_ragexe, standby_data) {
                PlayStatus::NeedsSwap
            } else if mode == Mode::Hd {
                PlayStatus::NeedsRepairHd
            } else {
                PlayStatus::Corrupt
            }
        },
    }
}

/// The message that goes with the status.
pub open spec fn play_message(
    artifacts: ModeArtifacts,
    mode: Option<Mode>,
    ragexe: Result<String, String>,
    data: Result<String, String>,
    standby_ragexe: Option<Seq<char>>,
    standby_data: Option<Seq<char>>,
) -> Seq<char> {
    if mode is None {
        "estado de arquivos inconsistente"@
    } else {
        match play_status(artifacts, mode, ragexe, data, standby_ragexe, standby_data) {
            PlayStatus::Ready => ""@,
            PlayStatus::NeedsSwap => if has_digests(
                artifacts,
                other_mode(mode->0),
                ragexe->Ok_0@,
                data->Ok_0@,
            ) {
                "arquivos ativos sao do modo "@ + mode_name(other_mode(mode->0))
            } else {
                "arquivos em espera sao do modo "@ + mode_name(mode->0)
            },
            _ => if ragexe is Err {
                "hash Ragexe.exe falhou: "@ + ragexe->Err_0@
            } else if data is Err {
                "hash DATA.ini falhou: "@ + data->Err_0@
            } else {
                "Ragexe.exe ou DATA.ini divergem do esperado. Reinstale o cliente."@
            },
        }
    }
}

/// A finished check of the active files.
pub struct PlayReport {
    pub mode: Option<Mode>,
    pub status: PlayStatus,
    pub message: String,
}

/// Checks the active files against what is configured for the active mode.
/// Where they are damaged, the files that wait under the mode's names may mend
/// it; their digests are `None` where they could not be had.
pub fn verify_play(
    artifacts: &ModeArtifacts,
    mode: Option<Mode>,
    ragexe: &Result<String, String>,
    data: &Result<String, String>,
    standby_ragexe: Option<&str>,
    standby_data: Option<&str>,
) -> (report: PlayReport)
    ensures
        report.mode == mode,
        report.status == play_status(
            *artifacts,
            mode,
            *ragexe,
            *data,
            opt_text(standby_ragexe),
            opt_text(standby_data),
        ),
        report.message@ == play_message(
            *artifacts,
            mode,
            *ragexe,
            *data,
            opt_text(standby_ragexe),
            opt_text(standby_data),
        ),
{
    let active = match mode {
        None => {
            return PlayReport {
                mode,
                status: PlayStatus::Corrupt,
                message: "estado de arquivos inconsistente".to_owned(),
            };
        },
        Some(active) => active,
    };
    let own = match expected_digests(artifacts, active) {
        None => {
            return PlayReport { mode, status: PlayStatus::Ready, message: "".to_owned() };
        },
        Some(own) => own,
    };
    let ragexe_digest = match ragexe {
        Ok(digest) => digest,
        Err(error) => {
            let mut message = "hash Ragexe.exe falhou: ".to_owned();
            message.append(error.as_str());
            return PlayReport { mode, status: PlayStatus::Corrupt, message };
        },
    };
    let data_digest = match data {
        Ok(digest) => digest,
        Err(error) => {
            let mut message = "hash DATA.ini falhou: ".to_owned();
            message.append(error.as_str());
            return PlayReport { mode, status: PlayStatus::Corrupt, message };
        },
    };
    if *ragexe_digest == own.ragexe_sha256 && *data_digest == own.dataini_sha256 {
        return PlayReport { mode, status: PlayStatus::Ready, message: "".to_owned() };
    }
    if let Some(others) = expected_digests(artifacts, active.other()) {
        if *ragexe_digest == others.ragexe_sha256 && *data_digest == others.dataini_sha256 {
            let mut message = "arquivos ativos sao do modo ".to_owned();
            message.append(active.other().name());
            return PlayReport { mode, status: PlayStatus::NeedsSwap, message };
        }
    }
    if let Some(waiting_ragexe) = standby_ragexe {
        if let Some(waiting_data) = standby_data {
            if same_text(waiting_ragexe, own.ragexe_sha256.as_str()) && same_text(
                waiting_data,
                own.dataini_sha256.as_str(),
            ) {
                let mut message = "arquivos em espera sao do modo ".to_owned();
                message.append(active.name());
                return PlayReport { mode, status: PlayStatus::NeedsSwap, message };
            }
        }
    }
    let message = "Ragexe.exe ou DATA.ini divergem do esperado. Reinstale o cliente.".to_owned();
    match active {
        Mode::Hd => PlayReport { mode, status: PlayStatus::NeedsRepairHd, message },
        Mode::Vanilla => PlayReport { mode, status: PlayStatus::Corrupt, message },
    }
}

impl PlayReport {
    /// The page's call that reports the check.
    pub fn script(&self) -> (script: String)
        ensures
            script@ == "verifyPlayResult(\""@ + detected_name(self.mode) + "\", \""@
                + play_status_name(self.status) + "\", \""@ + self.message@ + "\")"@,
    {
        let status = match self.status {
            PlayStatus::Ready => "ok",
            PlayStatus::NeedsSwap => "needs_swap",
            PlayStatus::NeedsRepairHd => "needs_repair_hd",
            PlayStatus::Corrupt => "corrupt",
        };
        let mut script = "verifyPlayResult(\"".to_owned();
        script.append(detected_mode_name(self.mode));
        script.append("\", \"");
        script.append(status);
        script.append("\", \"");
        script.append(self.message.as_str());
        script.append("\")");
        script
    }
}

/// What is to be done before the game starts.
pub enum Preflight {
    /// Start it.
    Launch,
    /// First make `to` the active mode; the active files are those of `from`.
    Swap { from: Mode, to: Mode },
    /// Do not start it, and say why.
    Refuse(String),
}

/// Whether the files let the game start.
pub open spec fn preflight_launches(
    artifacts: ModeArtifacts,
    mode: Option<Mode>,
    directory: Result<(), String>,
    ragexe: Result<String, String>,
    data: Result<String, String>,
) -> bool {
    &&& mode is Some
    &&& expected(artifacts, mode->0) is Some ==> {
        &&& directory is Ok
        &&& ragexe is Ok
        &&& data is Ok
        &&& has_digests(artifacts, mode->0, ragexe->Ok_0@, data->Ok_0@)
    }
}

/// Whether the active files are the other mode's.
pub open spec fn preflight_swaps(
    artifacts: ModeArtifacts,
    mode: Option<Mode>,
    directory: Result<(), String>,
    ragexe: Result<String, String>,
    data: Result<String, String>,
) -> bool {
    &&& mode is Some
    &&& expected(artifacts, mode->0) is Some
    &&& directory is Ok
    &&& ragexe is Ok
    &&& data is Ok
    &&& !has_digests(artifacts, mode->0, ragexe->Ok_0@, data->Ok_0@)
    &&& has_digests(artifacts, other_mode(mode->0), ragexe->Ok_0@, data->Ok_0@)
}

/// Why the game is not started, where it is neither started nor mended.
pub open spec fn preflight_refusal(
    mode: Option<Mode>,
    directory: Result<(), String>,
    ragexe: Result<String, String>,
    data: Result<String, String>,
) -> Seq<char> {
    if mode is None {
        "estado dos arquivos inconsistente — reinstale o cliente"@
    } else if directory is Err {
        "cwd: "@ + directory->Err_0@
    } else if ragexe is Err {
        "hash Ragexe.exe: "@ + ragexe->Err_0@
    } else if data is Err {
        "hash DATA.ini: "@ + data->Err_0@
    } else {
        "Ragexe.exe ou DATA.ini divergem do esperado para o modo "@ + mode_name(mode->0)
            + " — reinstale o cliente"@
    }
}

/// Decides whether the game may start, from the detected mode, the game's
/// directory and the digests of the active files.
pub fn preflight_integrity(
    artifacts: &ModeArtifacts,
    mode: Option<Mode>,
    directory: &Result<(), String>,
    ragexe: &Result<String, String>,
    data: &Result<String, String>,
) -> (preflight: Preflight)
    ensures
        preflight is Launch == preflight_launches(*artifacts, mode, *directory, *ragexe, *data),
        preflight is Swap == preflight_swaps(*artifacts, mode, *directory, *ragexe, *data),
        preflight matches Preflight::Swap { from, to } ==> mode == Some(to) && from == other_mode(
            to,
        ),
        preflight matches Preflight::Refuse(message) ==> message@ == preflight_refusal(
            mode,
            *directory,
            *ragexe,
            *data,
        ),
{
    let active = match mode {
        None => {
            return Preflight::Refuse(
                "estado dos arquivos inconsistente — reinstale o cliente".to_owned(),
            );
        },
        Some(active) => active,
    };
    let own = match expected_digests(artifacts, active) {
        None => {
            return Preflight::Launch;
        },
        Some(own) => own,
    };
    if let Err(error) = directory {
        let mut message = "cwd: ".to_owned();
        message.append(error.as_str());
        return Preflight::Refuse(message);
    }
    let ragexe_digest = match ragexe {
        Ok(digest) => digest,
        Err(error) => {
            let mut message = "hash Ragexe.exe: ".to_owned();
            message.append(error.as_str());
            return Preflight::Refuse(message);
        },
    };
    let data_digest = match data {
        Ok(digest) => digest,
        Err(error) => {
            let mut message = "hash DATA.ini: ".to_owned();
            message.append(error.as_str());
            return Preflight::Refuse(message);
        },
    };
    if *ragexe_digest == own.ragexe_sha256 && *data_digest == own.dataini_sha256 {
        return Preflight::Launch;
    }
    if let Some(others) = expected_digests(artifacts, active.other()) {
        if *ragexe_digest == others.ragexe_sha256 && *data_digest == others.dataini_sha256 {
            return Preflight::Swap { from: active.other(), to: active };
        }
    }
    let mut message = "Ragexe.exe ou DATA.ini divergem do esperado para o modo ".to_owned();
    message.append(active.name());
    message.append(" — reinstale o cliente");
    Preflight::Refuse(message)
}

/// The page's call that reports why the game was not started.
pub fn preflight_failed_script(message: &str) -> (script: String)
    ensures
        script@ == "playPreflightFailed(\""@ + escaped(message@, '"') + "\")"@,
{
    let mut script = "playPreflightFailed(\"".to_owned();
    script.append(escape_literal(message, '"').as_str());
    script.append("\")");
    script
}

/// The two modes' names are told apart, and each names its mode.
pub proof fn law_mode_names_differ(mode: Mode)
    ensures
        mode_name(mode) != mode_name(other_mode(mode)),
        mode_name(mode) != detected_name(None),
        other_mode(other_mode(mode)) == mode,
{
    reveal_strlit("vanilla");
    reveal_strlit("hd");
    reveal_strlit("unknown");
    assert("vanilla"@[0] == 'v');
    assert("unknown"@[0] == 'u');
    assert("hd"@.len() == 2);
}

/// The check that the page asks for and the check before the game starts agree:
/// where the game's directory is found, one reports the files ready exactly
/// where the other lets the game start, and where the other swaps, it asks for a
/// swap. It asks for one besides only where the files that wait mend the active
/// ones.
pub proof fn law_verification_agrees_with_preflight(
    artifacts: ModeArtifacts,
    mode: Option<Mode>,
    ragexe: Result<String, String>,
    data: Result<String, String>,
    standby_ragexe: Option<Seq<char>>,
    standby_data: Option<Seq<char>>,
)
    ensures
        ({
            let status = play_status(artifacts, mode, ragexe, data, standby_ragexe, standby_data);
            let launches = preflight_launches(artifacts, mode, Ok(()), ragexe, data);
            let swaps = preflight_swaps(artifacts, mode, Ok(()), ragexe, data);
            &&& (status == PlayStatus::Ready) == launches
            &&& swaps ==> status == PlayStatus::NeedsSwap
            &&& status == PlayStatus::NeedsSwap ==> swaps || standby_mends(
                artifacts,
                mode->0,
                standby_ragexe,
                standby_data,
            )
        }),
{
}

/// Damaged files of a known mode that could be read are never reported as
/// needing a download or a new installation where the files that wait mend
/// them.
pub proof fn law_waiting_files_mend(
    artifacts: ModeArtifacts,
    mode: Mode,
    ragexe: String,
    data: String,
    standby_ragexe: Option<Seq<char>>,
    standby_data: Option<Seq<char>>,
)
    requires
        standby_mends(artifacts, mode, standby_ragexe, standby_data),
        !has_digests(artifacts, mode, ragexe@, data@),
    ensures
        play_status(artifacts, Some(mode), Ok(ragexe), Ok(data), standby_ragexe, standby_data)
            == PlayStatus::NeedsSwap,
{
}

/// A digest that is configured for one mode alone decides the active mode,
/// whatever files wait.
pub proof fn law_digest_decides_mode(
    artifacts: ModeArtifacts,
    mode: Mode,
    digest: Seq<char>,
    vanilla_waits: bool,
    hd_waits: bool,
)
    requires
        has_ragexe(artifacts, mode, digest),
        !has_ragexe(artifacts, other_mode(mode), digest),
    ensures
        active_mode(Some(artifacts), Some(digest), vanilla_waits, hd_waits) == Some(mode),
{
}

/// Where the active mode was detected and the files were checked by the same
/// digest of the executable, a swap is only ever ordered from the
/// high-definition files to the vanilla ones, and only where both modes share
/// their executable: any other inversion is detected as the other mode.
pub proof fn law_swap_only_with_shared_executable(
    artifacts: ModeArtifacts,
    ragexe: String,
    data: String,
    vanilla_waits: bool,
    hd_waits: bool,
)
    requires
        preflight_swaps(
            artifacts,
            active_mode(Some(artifacts), Some(ragexe@), vanilla_waits, hd_waits),
            Ok(()),
            Ok(ragexe),
            Ok(data),
        ),
    ensures
        active_mode(Some(artifacts), Some(ragexe@), vanilla_waits, hd_waits) == Some(
            Mode::Vanilla,
        ),
        has_ragexe(artifacts, Mode::Vanilla, ragexe@),
        has_ragexe(artifacts, Mode::Hd, ragexe@),
{
}

/// The two modes, and what was not recognised, go by these names, and each
/// mode's digests are those configured for it.
pub proof fn law_modes_are_told_apart(artifacts: ModeArtifacts)
    ensures
        mode_name(Mode::Vanilla) == "vanilla"@,
        mode_name(Mode::Hd) == "hd"@,
        detected_name(Some(Mode::Vanilla)) == "vanilla"@,
        detected_name(Some(Mode::Hd)) == "hd"@,
        detected_name(None) == "unknown"@,
        other_mode(Mode::Vanilla) == Mode::Hd,
        other_mode(Mode::Hd) == Mode::Vanilla,
        expected(artifacts, Mode::Vanilla) == artifacts.vanilla,
        expected(artifacts, Mode::Hd) == artifacts.hd,
{
}

/// No two game files share a name, so no rename of one touches another.
pub proof fn law_game_files_have_different_names(a: GameFile, b: GameFile)
    requires
        a != b,
    ensures
        game_file_name(a) != game_file_name(b),
{
    reveal_strlit("vanilla");
    reveal_strlit("hd");
    reveal_strlit("Ragexe.exe");
    reveal_strlit("DATA.ini");
    reveal_strlit("Ragexe-");
    reveal_strlit("DATA-");
    reveal_strlit(".dat");
    reveal_strlit(".ini.bak");
    assert(game_file_name(GameFile::Ragexe).len() == 10);
    assert(game_file_name(GameFile::DataIni).len() == 8);
    assert(game_file_name(GameFile::StandbyRagexe(Mode::Vanilla)).len() == 18);
    assert(game_file_name(GameFile::StandbyRagexe(Mode::Hd)).len() == 13);
    assert(game_file_name(GameFile::StandbyDataIni(Mode::Vanilla)).len() == 20);
    assert(game_file_name(GameFile::StandbyDataIni(Mode::Hd)).len() == 15);
}

/// The active files have their fixed names, and a waiting file's name tells
/// which file of which mode it is.
pub proof fn law_waiting_files_are_named_by_mode(mode: Mode)
    ensures
        game_file_name(GameFile::Ragexe) == "Ragexe.exe"@,
        game_file_name(GameFile::DataIni) == "DATA.ini"@,
        mode == Mode::Vanilla ==> game_file_name(GameFile::StandbyRagexe(mode))
            == "Ragexe-vanilla.dat"@,
        mode == Mode::Vanilla ==> game_file_name(GameFile::StandbyDataIni(mode))
            == "DATA-vanilla.ini.bak"@,
        mode == Mode::Hd ==> game_file_name(GameFile::StandbyRagexe(mode)) == "Ragexe-hd.dat"@,
        mode == Mode::Hd ==> game_file_name(GameFile::StandbyDataIni(mode)) == "DATA-hd.ini.bak"@,
{
    reveal_strlit("vanilla");
    reveal_strlit("hd");
    reveal_strlit("Ragexe-");
    reveal_strlit("DATA-");
    reveal_strlit(".dat");
    reveal_strlit(".ini.bak");
    reveal_strlit("Ragexe-vanilla.dat");
    reveal_strlit("DATA-vanilla.ini.bak");
    reveal_strlit("Ragexe-hd.dat");
    reveal_strlit("DATA-hd.ini.bak");
    assert("Ragexe-"@ + "vanilla"@ + ".dat"@ =~= "Ragexe-vanilla.dat"@);
    assert("DATA-"@ + "vanilla"@ + ".ini.bak"@ =~= "DATA-vanilla.ini.bak"@);
    assert("Ragexe-"@ + "hd"@ + ".dat"@ =~= "Ragexe-hd.dat"@);
    assert("DATA-"@ + "hd"@ + ".ini.bak"@ =~= "DATA-hd.ini.bak"@);
}

/// The digest of the executable decides the mode wherever it is configured, for
/// vanilla first. Wherever it is not, in particular where nothing is configured
/// or it could not be read, the waiting executables alone decide: the mode whose
/// executable does not wait is active, where just one waits, and none is
/// recognised where both wait or none does.
pub proof fn law_waiting_executables_decide_without_a_digest(
    artifacts: Option<ModeArtifacts>,
    ragexe: Option<Seq<char>>,
    vanilla_waits: bool,
    hd_waits: bool,
)
    ensures
        ({
            let mode = active_mode(artifacts, ragexe, vanilla_waits, hd_waits);
            let is_vanilla = artifacts is Some && ragexe is Some && artifacts->0.vanilla is Some
                && artifacts->0.vanilla->0.ragexe_sha256@ == ragexe->0;
            let is_hd = artifacts is Some && ragexe is Some && artifacts->0.hd is Some
                && artifacts->0.hd->0.ragexe_sha256@ == ragexe->0;
            &&& is_vanilla ==> mode == Some(Mode::Vanilla)
            &&& is_hd && !is_vanilla ==> mode == Some(Mode::Hd)
            &&& !is_vanilla && !is_hd ==> {
                &&& mode == Some(Mode::Hd) <==> vanilla_waits && !hd_waits
                &&& mode == Some(Mode::Vanilla) <==> hd_waits && !vanilla_waits
                &&& mode is None <==> vanilla_waits == hd_waits
                &&& mode == active_mode(None, None, vanilla_waits, hd_waits)
            }
        }),
{
}

/// What is handed over for detection is what is looked at.
pub proof fn law_optional_values_are_kept(text: &str, artifacts: &ModeArtifacts)
    ensures
        opt_text(Some(text)) == Some(text@),
        opt_text(None) == None::<Seq<char>>,
        opt_artifacts(Some(artifacts)) == Some(*artifacts),
        opt_artifacts(None) == None::<ModeArtifacts>,
{
}

/// Whether digests are those of a mode's two files.
pub open spec fn are_digests(
    configured: Option<ModeDigests>,
    ragexe: Seq<char>,
    data: Seq<char>,
) -> bool {
    configured is Some && configured->0.ragexe_sha256@ == ragexe && configured->0.dataini_sha256@
        == data
}

/// What the page is told of the active files: they are ready exactly where the
/// mode is known and they are those configured for it, or none are; a swap mends
/// them exactly where they are not, and are the other mode's, or the waiting
/// ones are the mode's; a download is asked for exactly in the high-definition
/// mode where nothing matches. Everything else is corrupt.
pub proof fn law_status_follows_the_digests(
    artifacts: ModeArtifacts,
    mode: Option<Mode>,
    ragexe: Result<String, String>,
    data: Result<String, String>,
    standby_ragexe: Option<Seq<char>>,
    standby_data: Option<Seq<char>>,
)
    ensures
        ({
            let status = play_status(artifacts, mode, ragexe, data, standby_ragexe, standby_data);
            let own = if mode == Some(Mode::Hd) {
                artifacts.hd
            } else {
                artifacts.vanilla
            };
            let other = if mode == Some(Mode::Hd) {
                artifacts.vanilla
            } else {
                artifacts.hd
            };
            let read = ragexe is Ok && data is Ok;
            let good = read && are_digests(own, ragexe->Ok_0@, data->Ok_0@);
            let inverted = read && are_digests(other, ragexe->Ok_0@, data->Ok_0@);
            let waiting = standby_ragexe is Some && standby_data is Some && are_digests(
                own,
                standby_ragexe->0,
                standby_data->0,
            );
            &&& status == PlayStatus::Ready <==> mode is Some && (own is None || good)
            &&& status == PlayStatus::NeedsSwap <==> mode is Some && own is Some && read && !good
                && (inverted || waiting)
            &&& status == PlayStatus::NeedsRepairHd <==> mode == Some(Mode::Hd) && own is Some
                && read && !good && !inverted && !waiting
        }),
{
}

/// The message that goes with a status: none for files that are ready; which
/// mode's files were found, where a swap mends it; else why the state is not
/// known, which file could not be read and why, or that the files differ.
pub proof fn law_message_says_why(
    artifacts: ModeArtifacts,
    mode: Option<Mode>,
    ragexe: Result<String, String>,
    data: Result<String, String>,
    standby_ragexe: Option<Seq<char>>,
    standby_data: Option<Seq<char>>,
)
    ensures
        ({
            let status = play_status(artifacts, mode, ragexe, data, standby_ragexe, standby_data);
            let message = play_message(
                artifacts,
                mode,
                ragexe,
                data,
                standby_ragexe,
                standby_data,
            );
            &&& mode is None ==> message == "estado de arquivos inconsistente"@
            &&& mode is Some && status == PlayStatus::Ready ==> message == ""@
            &&& mode == Some(Mode::Vanilla) && status == PlayStatus::NeedsSwap ==> message == if (
            are_digests(artifacts.hd, ragexe->Ok_0@, data->Ok_0@)) {
                "arquivos ativos sao do modo "@ + "hd"@
            } else {
                "arquivos em espera sao do modo "@ + "vanilla"@
            }
            &&& mode == Some(Mode::Hd) && status == PlayStatus::NeedsSwap ==> message == if (
            are_digests(artifacts.vanilla, ragexe->Ok_0@, data->Ok_0@)) {
                "arquivos ativos sao do modo "@ + "vanilla"@
            } else {
                "arquivos em espera sao do modo "@ + "hd"@
            }
            &&& mode is Some && (status == PlayStatus::Corrupt || status
                == PlayStatus::NeedsRepairHd) ==> message == if ragexe is Err {
                "hash Ragexe.exe falhou: "@ + ragexe->Err_0@
            } else if data is Err {
                "hash DATA.ini falhou: "@ + data->Err_0@
            } else {
                "Ragexe.exe ou DATA.ini divergem do esperado. Reinstale o cliente."@
            }
        }),
{
}

/// Each status goes by a word of its own.
pub proof fn law_status_words()
    ensures
        play_status_name(PlayStatus::Ready) == "ok"@,
        play_status_name(PlayStatus::NeedsSwap) == "needs_swap"@,
        play_status_name(PlayStatus::NeedsRepairHd) == "needs_repair_hd"@,
        play_status_name(PlayStatus::Corrupt) == "corrupt"@,
{
}

/// The game is started exactly where the mode is known and either no digests
/// are configured for it, or the directory was found and both files were read
/// and are the mode's. It is started after a swap exactly where they are the
/// other mode's and not the mode's own. Else the refusal names the first thing
/// that went wrong.
pub proof fn law_game_starts_only_from_its_files(
    artifacts: ModeArtifacts,
    mode: Option<Mode>,
    directory: Result<(), String>,
    ragexe: Result<String, String>,
    data: Result<String, String>,
)
    ensures
        ({
            let own = if mode == Some(Mode::Hd) {
                artifacts.hd
            } else {
                artifacts.vanilla
            };
            let other = if mode == Some(Mode::Hd) {
                artifacts.vanilla
            } else {
                artifacts.hd
            };
            let read = directory is Ok && ragexe is Ok && data is Ok;
            let good = are_digests(own, ragexe->Ok_0@, data->Ok_0@);
            let inverted = are_digests(other, ragexe->Ok_0@, data->Ok_0@);
            let refusal = preflight_refusal(mode, directory, ragexe, data);
            &&& preflight_launches(artifacts, mode, directory, ragexe, data) <==> mode is Some && (
            own is None || (read && good))
            &&& preflight_swaps(artifacts, mode, directory, ragexe, data) <==> mode is Some && own
                is Some && read && !good && inverted
            &&& mode is None ==> refusal
                == "estado dos arquivos inconsistente — reinstale o cliente"@
            &&& mode is Some && directory is Err ==> refusal == "cwd: "@ + directory->Err_0@
            &&& mode is Some && directory is Ok && ragexe is Err ==> refusal
                == "hash Ragexe.exe: "@ + ragexe->Err_0@
            &&& mode is Some && directory is Ok && ragexe is Ok && data is Err ==> refusal
                == "hash DATA.ini: "@ + data->Err_0@
            &&& mode == Some(Mode::Vanilla) && read ==> refusal
                == "Ragexe.exe ou DATA.ini divergem do esperado para o modo "@ + "vanilla"@
                + " — reinstale o cliente"@
            &&& mode == Some(Mode::Hd) && read ==> refusal
                == "Ragexe.exe ou DATA.ini divergem do esperado para o modo "@ + "hd"@
                + " — reinstale o cliente"@
        }),
{
}

} // verus!
