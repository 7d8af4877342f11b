//! Freeing the disk space of the high-definition files: the launcher makes the
//! vanilla mode active where needed, then removes every file of the pack. The
//! cleanup runs as a state machine that names one operation at a time and is
//! told what came of it.
use crate::config::{OptionalPack, OptionalPackFile};
use crate::mode::Mode;
use crate::text::{
    decimal, escape_literal, escaped, join, joined, push_decimal, same_text, texts,
};
use vstd::prelude::*;

verus! {

/// An operation of a cleanup.
pub enum CleanupAction<T> {
    /// Make the vanilla mode active.
    SwitchToVanilla,
    /// Find the game's directory.
    Locate,
    /// Remove a file, if it exists.
    Remove(T),
    /// Run the page's call that reports the end.
    Report(T),
}

/// What came of an operation.
pub enum CleanupReply<T> {
    /// It was done.
    Ready,
    /// It failed.
    Failed(T),
    /// The file to remove does not exist.
    Missing,
    /// The file had so many bytes, and is removed.
    Removed(u64),
}

/// How far a cleanup has come: the next operation.
pub enum CleanupState<T> {
    SwitchToVanilla,
    Locate,
    Remove,
    Finished(T),
}

/// A cleanup under way.
pub struct HdCleanup {
    /// The names of the pack's files; `None` where the pack is not configured.
    pub files: Option<Vec<String>>,
    /// The place of the file to remove next.
    pub index: usize,
    /// The bytes freed so far.
    pub freed: u64,
    /// What could not be removed, and why.
    pub errors: Vec<String>,
    pub state: CleanupState<String>,
}

/// The plain values of a cleanup.
pub struct CleanupView {
    pub files: Option<Seq<Seq<char>>>,
    pub index: int,
    pub freed: int,
    pub errors: Seq<Seq<char>>,
    pub state: CleanupState<Seq<char>>,
}

impl View for CleanupState<String> {
    type V = CleanupState<Seq<char>>;

    open spec fn view(&self) -> CleanupState<Seq<char>> {
        match *self {
            CleanupState::SwitchToVanilla => CleanupState::SwitchToVanilla,
            CleanupState::Locate => CleanupState::Locate,
            CleanupState::Remove => CleanupState::Remove,
            CleanupState::Finished(script) => CleanupState::Finished(script@),
        }
    }
}

impl View for CleanupReply<String> {
    type V = CleanupReply<Seq<char>>;

    open spec fn view(&self) -> CleanupReply<Seq<char>> {
        match *self {
            CleanupReply::Ready => CleanupReply::Ready,
            CleanupReply::Failed(error) => CleanupReply::Failed(error@),
            CleanupReply::Missing => CleanupReply::Missing,
            CleanupReply::Removed(size) => CleanupReply::Removed(size),
        }
    }
}

impl View for CleanupAction<String> {
    type V = CleanupAction<Seq<char>>;

    open spec fn view(&self) -> CleanupAction<Seq<char>> {
        match *self {
            CleanupAction::SwitchToVanilla => CleanupAction::SwitchToVanilla,
            CleanupAction::Locate => CleanupAction::Locate,
            CleanupAction::Remove(name) => CleanupAction::Remove(name@),
            CleanupAction::Report(script) => CleanupAction::Report(script@),
        }
    }
}

impl View for HdCleanup {
    type V = CleanupView;

    open spec fn view(&self) -> CleanupView {
        CleanupView {
            files: match self.files {
                Some(files) => Some(texts(files@)),
                None => None,
            },
            index: self.index as int,
            freed: self.freed as int,
            errors: texts(self.errors@),
            state: self.state@,
        }
    }
}

/// The names of a pack's files.
pub open spec fn file_names(files: Seq<OptionalPackFile>) -> Seq<Seq<char>> {
    Seq::new(files.len(), |i: int| files[i].name@)
}

/// The place of the first pack with an id; the number of packs where there is
/// none.
pub open spec fn pack_place(packs: Seq<OptionalPack>, id: Seq<char>) -> int
    decreases packs.len(),
{
    if packs.len() == 0 {
        0
    } else if packs[0].id@ == id {
        0
    } else {
        1 + pack_place(packs.skip(1), id)
    }
}

/// The names of the files of the first pack with an id.
pub open spec fn pack_files(packs: Seq<OptionalPack>, id: Seq<char>) -> Option<Seq<Seq<char>>> {
    let place = pack_place(packs, id);
    if place < packs.len() {
        Some(file_names(packs[place].files@))
    } else {
        None
    }
}

/// The page's call for a cleanup that stopped before it removed anything.
pub open spec fn stopped_script(message: Seq<char>) -> Seq<char> {
    "cleanupHdResult(false, 0, \""@ + message + "\")"@
}

/// The page's call for a cleanup that went through the files.
pub open spec fn done_script(freed: int, errors: Seq<Seq<char>>) -> Seq<char> {
    if errors.len() == 0 {
        "cleanupHdResult(true, "@ + decimal(freed as nat) + ", \"\")"@
    } else {
        "cleanupHdResult(false, "@ + decimal(freed as nat) + ", \""@ + escaped(
            joined(errors, "; "@),
            '"',
        ) + "\")"@
    }
}

/// The cleanup at a file's place, or past the last file.
pub open spec fn cleanup_at(cleanup: CleanupView, index: int) -> CleanupView {
    CleanupView {
        index,
        state: if cleanup.files is Some && index < cleanup.files->0.len() {
            CleanupState::Remove
        } else {
            CleanupState::Finished(done_script(cleanup.freed, cleanup.errors))
        },
        ..cleanup
    }
}

/// The state of a cleanup once the vanilla mode is active.
pub open spec fn cleanup_ready(files: Option<Seq<Seq<char>>>) -> CleanupState<Seq<char>> {
    if files is Some {
        CleanupState::Locate
    } else {
        CleanupState::Finished(stopped_script("pack hd nao configurado em optional_packs"@))
    }
}

/// The operation that a state calls for.
pub open spec fn cleanup_action(cleanup: CleanupView) -> CleanupAction<Seq<char>> {
    match cleanup.state {
        CleanupState::SwitchToVanilla => CleanupAction::SwitchToVanilla,
        CleanupState::Locate => CleanupAction::Locate,
        CleanupState::Remove => CleanupAction::Remove(cleanup.files->0[cleanup.index]),
        CleanupState::Finished(script) => CleanupAction::Report(script),
    }
}

/// The cleanup after a reply. A reply that does not answer the state's
/// operation changes nothing.
pub open spec fn cleanup_next(cleanup: CleanupView, reply: CleanupReply<Seq<char>>) -> CleanupView {
    match (cleanup.state, reply) {
        (CleanupState::SwitchToVanilla, CleanupReply::Ready) => CleanupView {
            state: cleanup_ready(cleanup.files),
            ..cleanup
        },
        (CleanupState::SwitchToVanilla, CleanupReply::Failed(error)) => CleanupView {
            state: CleanupState::Finished(stopped_script(escaped(error, '"'))),
            ..cleanup
        },
        (CleanupState::Locate, CleanupReply::Ready) => cleanup_at(cleanup, cleanup.index),
        (CleanupState::Locate, CleanupReply::Failed(error)) => CleanupView {
            state: CleanupState::Finished(stopped_script("cwd: "@ + error)),
            ..cleanup
        },
        (CleanupState::Remove, CleanupReply::Missing) => cleanup_at(cleanup, cleanup.index + 1),
        (CleanupState::Remove, CleanupReply::Removed(size)) => cleanup_at(
            CleanupView { freed: cleanup.freed + size, ..cleanup },
            cleanup.index + 1,
        ),
        (CleanupState::Remove, CleanupReply::Failed(error)) => cleanup_at(
            CleanupView {
                errors: cleanup.errors.push(cleanup.files->0[cleanup.index] + ": "@ + error),
                ..cleanup
            },
            cleanup.index + 1,
        ),
        _ => cleanup,
    }
}

/// Whether the bytes freed still fit in 64 bits after a reply.
pub open spec fn cleanup_fits(cleanup: CleanupView, reply: CleanupReply<Seq<char>>) -> bool {
    cleanup.state is Remove && reply is Removed ==> cleanup.freed + reply->Removed_0 <= u64::MAX
}

/// Whether the file to remove next is one of the pack.
pub open spec fn cleanup_wf(cleanup: CleanupView) -> bool {
    &&& cleanup.state is SwitchToVanilla ==> cleanup.index == 0
    &&& cleanup.state is Locate ==> cleanup.files is Some && cleanup.index == 0
    &&& cleanup.state is Remove ==> cleanup.files is Some && 0 <= cleanup.index
        < cleanup.files->0.len()
}

/// The place of the first pack with an id.
pub fn find_pack(packs: &Vec<OptionalPack>, id: &str) -> (place: Option<usize>)
    ensures
        place is Some == (pack_place(packs@, id@) < packs@.len()),
        place matches Some(place) ==> place == pack_place(packs@, id@),
{
    let mut i: usize = 0;
    assert(packs@.skip(0) =~= packs@);
    while i < packs.len()
        invariant
            i <= packs.len(),
            pack_place(packs@, id@) == i + pack_place(packs@.skip(i as int), id@),
        decreases packs.len() - i,
    {
        assert(packs@.skip(i as int)[0] == packs@[i as int]);
        assert(packs@.skip(i as int).skip(1) =~= packs@.skip(i + 1));
        if same_text(packs[i].id.as_str(), id) {
            return Some(i);
        }
        i = i + 1;
    }
    None
}

/// Copies the names of a pack's files.
fn copy_names(files: &Vec<OptionalPackFile>) -> (names: Vec<String>)
    ensures
        texts(names@) == file_names(files@),
{
    let mut names: Vec<String> = Vec::new();
    let mut i: usize = 0;
    while i < files.len()
        invariant
            i <= files.len(),
            names@.len() == i,
            forall|j: int| 0 <= j < i ==> (#[trigger] names@[j])@ == files@[j].name@,
        decreases files.len() - i,
    {
        names.push(files[i].name.clone());
        i = i + 1;
    }
    assert(texts(names@) =~= file_names(files@));
    names
}

/// The page's call for a cleanup that stopped before it removed anything.
fn stopped(message: &str) -> (script: String)
    ensures
        script@ == stopped_script(message@),
{
    let mut script = "cleanupHdResult(false, 0, \"".to_owned();
    script.append(message);
    script.append("\")");
    script
}

/// The page's call for a cleanup that went through the files.
fn done(freed: u64, errors: &Vec<String>) -> (script: String)
    ensures
        script@ == done_script(freed as int, texts(errors@)),
{
    if errors.len() == 0 {
        let mut script = "cleanupHdResult(true, ".to_owned();
        push_decimal(&mut script, freed);
        script.append(", \"\")");
        script
    } else {
        let mut script = "cleanupHdResult(false, ".to_owned();
        push_decimal(&mut script, freed);
        script.append(", \"");
        let message = join(errors, "; ");
        script.append(escape_literal(message.as_str(), '"').as_str());
        script.append("\")");
        script
    }
}

/// The state of a cleanup once the vanilla mode is active.
fn ready_state(files: &Option<Vec<String>>) -> (state: CleanupState<String>)
    ensures
        state@ == cleanup_ready(
            match *files {
                Some(files) => Some(texts(files@)),
                None => None,
            },
        ),
{
    if files.is_some() {
        CleanupState::Locate
    } else {
        CleanupState::Finished(stopped("pack hd nao configurado em optional_packs"))
    }
}

impl HdCleanup {
    /// Begins a cleanup, given the active mode and the configured packs.
    pub fn start(mode: Option<Mode>, packs: &Vec<OptionalPack>) -> (cleanup: HdCleanup)
        ensures
            cleanup_wf(cleanup@),
            cleanup@ == (CleanupView {
                files: pack_files(packs@, "hd"@),
                index: 0,
                freed: 0,
                errors: seq![],
                state: if mode == Some(Mode::Hd) {
                    CleanupState::SwitchToVanilla
                } else {
                    cleanup_ready(pack_files(packs@, "hd"@))
                },
            }),
    {
        let files = match find_pack(packs, "hd") {
            Some(place) => Some(copy_names(&packs[place].files)),
            None => None,
        };
        let in_hd = match mode {
            Some(Mode::Hd) => true,
            _ => false,
        };
        let state = if in_hd {
            CleanupState::SwitchToVanilla
        } else {
            ready_state(&files)
        };
        let errors: Vec<String> = Vec::new();
        assert(texts(errors@) =~= seq![]);
        HdCleanup { files, index: 0, freed: 0, errors, state }
    }

    /// The operation to perform next.
    pub fn action(&self) -> (action: CleanupAction<String>)
        requires
            cleanup_wf(self@),
        ensures
            action@ == cleanup_action(self@),
    {
        match &self.state {
            CleanupState::SwitchToVanilla => CleanupAction::SwitchToVanilla,
            CleanupState::Locate => CleanupAction::Locate,
            CleanupState::Remove => {
                let files = self.files.as_ref().unwrap();
                CleanupAction::Remove(files[self.index].clone())
            },
            CleanupState::Finished(script) => CleanupAction::Report(script.clone()),
        }
    }

    /// Whether the bytes freed still fit in 64 bits after a reply.
    pub fn fits(&self, reply: &CleanupReply<String>) -> (fits: bool)
        ensures
            fits == cleanup_fits(self@, reply@),
    {
        match (&self.state, reply) {
            (CleanupState::Remove, CleanupReply::Removed(size)) => *size <= u64::MAX - self.freed,
            _ => true,
        }
    }

    /// Goes to a file's place, or past the last file.
    fn to_place(&mut self, index: usize)
        ensures
            final(self)@ == cleanup_at(old(self)@, index as int),
    {
        let more = match &self.files {
            Some(files) => index < files.len(),
            None => false,
        };
        self.index = index;
        if more {
            self.state = CleanupState::Remove;
        } else {
            self.state = CleanupState::Finished(done(self.freed, &self.errors));
        }
    }

    /// Takes in what came of the operation.
    pub fn advance(&mut self, reply: &CleanupReply<String>)
        requires
            cleanup_wf(old(self)@),
            cleanup_fits(old(self)@, reply@),
        ensures
            final(self)@ == cleanup_next(old(self)@, reply@),
            cleanup_wf(final(self)@),
    {
        match (&self.state, reply) {
            (CleanupState::SwitchToVanilla, CleanupReply::Ready) => {
                self.state = ready_state(&self.files);
            },
            (CleanupState::SwitchToVanilla, CleanupReply::Failed(error)) => {
                let message = escape_literal(error.as_str(), '"');
                self.state = CleanupState::Finished(stopped(message.as_str()));
            },
            (CleanupState::Locate, CleanupReply::Ready) => {
                self.to_place(self.index);
            },
            (CleanupState::Locate, CleanupReply::Failed(error)) => {
                let mut message = "cwd: ".to_owned();
                message.append(error.as_str());
                self.state = CleanupState::Finished(stopped(message.as_str()));
            },
            (CleanupState::Remove, CleanupReply::Missing) => {
                let count = self.files.as_ref().unwrap().len();
                assert(self.index < count);
                self.to_place(self.index + 1);
            },
            (CleanupState::Remove, CleanupReply::Removed(size)) => {
                let count = self.files.as_ref().unwrap().len();
                assert(self.index < count);
                self.freed = self.freed + *size;
                self.to_place(self.index + 1);
            },
            (CleanupState::Remove, CleanupReply::Failed(error)) => {
                let files = self.files.as_ref().unwrap();
                let count = files.len();
                assert(self.index < count);
                let mut message = files[self.index].clone();
                message.append(": ");
                message.append(error.as_str());
                self.errors.push(message);
                assert(texts(self.errors@) =~= texts(old(self).errors@).push(message@));
                self.to_place(self.index + 1);
            },
            _ => {},
        }
    }
}

} // verus!
