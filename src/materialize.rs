use vstd::prelude::*;

use crate::privilege::{effective_uid, is_elevated, is_root_uid};
use crate::status::MaterializeError;
use crate::target::{staging_path, staging_path_of, DownloadTarget, TargetType};

verus! {

/// What the directory holding a path is, as `std::path::Path::parent` gives it.
pub uninterp spec fn path_parent(path: Seq<char>) -> Option<Seq<char>>;

/// Relies on std::path::Path::parent: the path without its final component,
/// or none where the path ends in a root or is empty.
#[verifier::external_body]
fn parent_of(path: &str) -> (r: Option<String>)
    ensures
        r.is_some() == path_parent(path@).is_some(),
        r.is_some() ==> r.unwrap()@ == path_parent(path@).unwrap(),
{
    match std::path::Path::new(path).parent() {
        Some(p) => Some(p.to_string_lossy().into_owned()),
        None => None,
    }
}

/// Where a materialization stands.
#[derive(Debug, Clone, Copy, PartialEq, Eq, Structural)]
pub enum Phase {
    /// Asking whether anything exists at the destination.
    CheckExists,
    /// Creating the destination directory.
    CreateDir,
    /// Creating the parent directories of a destination file.
    CreateParents,
    /// Creating the staging file afresh.
    CreateStaging,
    /// Streaming the source into the staging file.
    Fetch,
    /// Asking whether the process holds administrative rights.
    CheckPrivilege,
    /// Handing the created entry to the owning user.
    SetOwner,
    /// Renaming the staging file to the destination.
    Publish,
    /// Finished: the target exists.
    Finished,
    /// Finished with a failure.
    Failed(MaterializeError),
}

/// What the caller reports after performing an action.
#[derive(Debug, Clone, Copy, PartialEq, Eq, Structural)]
pub enum Event {
    /// Whether an entry of any kind exists at the path asked about.
    Exists(bool),
    /// The operation completed.
    Succeeded,
    /// The operation failed.
    Failed,
    /// The effective user id of the process.
    EffectiveUid(u32),
}

/// The operation the caller is to perform next.
#[derive(Debug)]
pub enum Action {
    CheckExists { path: String },
    CreateDir { path: String },
    CreateDirAll { path: String },
    CreateStaging { path: String },
    Fetch { url: String, staging: String },
    QueryPrivilege,
    SetOwner { path: String, uid: u32 },
    Rename { from: String, to: String },
    Finish { result: Result<(), MaterializeError> },
}

/// An action with its paths and URL as character sequences.
pub enum ActionView {
    CheckExists { path: Seq<char> },
    CreateDir { path: Seq<char> },
    CreateDirAll { path: Seq<char> },
    CreateStaging { path: Seq<char> },
    Fetch { url: Seq<char>, staging: Seq<char> },
    QueryPrivilege,
    SetOwner { path: Seq<char>, uid: u32 },
    Rename { from: Seq<char>, to: Seq<char> },
    Finish { result: Result<(), MaterializeError> },
}

impl View for Action {
    type V = ActionView;

    open spec fn view(&self) -> ActionView {
        match self {
            Action::CheckExists { path } => ActionView::CheckExists { path: path@ },
            Action::CreateDir { path } => ActionView::CreateDir { path: path@ },
            Action::CreateDirAll { path } => ActionView::CreateDirAll { path: path@ },
            Action::CreateStaging { path } => ActionView::CreateStaging { path: path@ },
            Action::Fetch { url, staging } => ActionView::Fetch { url: url@, staging: staging@ },
            Action::QueryPrivilege => ActionView::QueryPrivilege,
            Action::SetOwner { path, uid } => ActionView::SetOwner { path: path@, uid: *uid },
            Action::Rename { from, to } => ActionView::Rename { from: from@, to: to@ },
            Action::Finish { result } => ActionView::Finish { result: *result },
        }
    }
}

/// What a materialization is about, as plain values.
pub struct Job {
    pub target_type: TargetType,
    pub to: Seq<char>,
    pub from: Option<Seq<char>>,
    pub uid: u32,
}

impl Job {
    pub open spec fn has_parent(self) -> bool {
        path_parent(self.to).is_some()
    }

    /// The phase after the destination was found absent.
    pub open spec fn after_absent(self) -> Phase {
        match self.target_type {
            TargetType::Directory => Phase::CreateDir,
            TargetType::File => if self.has_parent() {
                Phase::CreateParents
            } else {
                self.after_parents()
            },
        }
    }

    /// The phase once the parents of a destination file exist.
    pub open spec fn after_parents(self) -> Phase {
        if self.from.is_some() {
            Phase::CreateStaging
        } else {
            Phase::Failed(MaterializeError::MissingSource)
        }
    }

    /// The phase once the created entry has its owner.
    pub open spec fn after_owned(self) -> Phase {
        match self.target_type {
            TargetType::Directory => Phase::Finished,
            TargetType::File => Phase::Publish,
        }
    }

    /// The path whose owner is changed: the directory, or the staging file.
    pub open spec fn owned_path(self) -> Seq<char> {
        match self.target_type {
            TargetType::Directory => self.to,
            TargetType::File => staging_path_of(self.to),
        }
    }

    /// The phase that follows `p` on event `e`. An event that does not
    /// answer the action of `p` leaves the phase as it is.
    pub open spec fn next(self, p: Phase, e: Event) -> Phase {
        match (p, e) {
            (Phase::CheckExists, Event::Exists(present)) => if present {
                Phase::Finished
            } else {
                self.after_absent()
            },
            (Phase::CreateDir, Event::Succeeded) => Phase::CheckPrivilege,
            (Phase::CreateDir, Event::Failed) => Phase::Failed(MaterializeError::Filesystem),
            (Phase::CreateParents, Event::Succeeded) => self.after_parents(),
            (Phase::CreateParents, Event::Failed) => Phase::Failed(MaterializeError::Filesystem),
            (Phase::CreateStaging, Event::Succeeded) => Phase::Fetch,
            (Phase::CreateStaging, Event::Failed) => Phase::Failed(MaterializeError::Filesystem),
            (Phase::Fetch, Event::Succeeded) => Phase::CheckPrivilege,
            (Phase::Fetch, Event::Failed) => Phase::Failed(MaterializeError::Transport),
            (Phase::CheckPrivilege, Event::EffectiveUid(euid)) => if is_root_uid(euid) {
                Phase::SetOwner
            } else {
                self.after_owned()
            },
            (Phase::SetOwner, Event::Succeeded) => self.after_owned(),
            (Phase::SetOwner, Event::Failed) => Phase::Failed(MaterializeError::Ownership),
            (Phase::Publish, Event::Succeeded) => Phase::Finished,
            (Phase::Publish, Event::Failed) => Phase::Failed(MaterializeError::Filesystem),
            _ => p,
        }
    }

    /// The action asked for in phase `p`.
    pub open spec fn action(self, p: Phase) -> ActionView {
        match p {
            Phase::CheckExists => ActionView::CheckExists { path: self.to },
            Phase::CreateDir => ActionView::CreateDir { path: self.to },
            Phase::CreateParents => ActionView::CreateDirAll {
                path: path_parent(self.to).unwrap(),
            },
            Phase::CreateStaging => ActionView::CreateStaging { path: staging_path_of(self.to) },
            Phase::Fetch => ActionView::Fetch {
                url: self.from.unwrap(),
                staging: staging_path_of(self.to),
            },
            Phase::CheckPrivilege => ActionView::QueryPrivilege,
            Phase::SetOwner => ActionView::SetOwner { path: self.owned_path(), uid: self.uid },
            Phase::Publish => ActionView::Rename { from: staging_path_of(self.to), to: self.to },
            Phase::Finished => ActionView::Finish { result: Ok(()) },
            Phase::Failed(err) => ActionView::Finish { result: Err(err) },
        }
    }

    /// The phases a run can be in: each asks for an action it can name.
    pub open spec fn phase_ok(self, p: Phase) -> bool {
        &&& p == Phase::CreateDir ==> self.target_type == TargetType::Directory
        &&& p == Phase::CreateParents ==> self.target_type == TargetType::File && self.has_parent()
        &&& (p == Phase::CreateStaging || p == Phase::Fetch || p == Phase::Publish) ==> (
        self.target_type == TargetType::File && self.from.is_some())
        &&& (p == Phase::CheckPrivilege || p == Phase::SetOwner) ==> (self.target_type
            == TargetType::File ==> self.from.is_some())
    }

    pub proof fn lemma_next_phase_ok(self, p: Phase, e: Event)
        requires
            self.phase_ok(p),
        ensures
            self.phase_ok(self.next(p, e)),
    {
    }

    /// The phase reached from `p` after the events in order.
    pub open spec fn run(self, p: Phase, events: Seq<Event>) -> Phase
        decreases events.len(),
    {
        if events.len() == 0 {
            p
        } else {
            self.next(self.run(p, events.drop_last()), events.last())
        }
    }
}

/// The outcome a phase holds, once finished.
pub open spec fn outcome_of(p: Phase) -> Option<Result<(), MaterializeError>> {
    match p {
        Phase::Finished => Some(Ok(())),
        Phase::Failed(err) => Some(Err(err)),
        _ => None,
    }
}

/// The materialization of one target, step by step.
pub struct Materializer {
    target: DownloadTarget,
    uid: u32,
    phase: Phase,
}

impl Materializer {
    /// What this materialization is about.
    pub open spec fn job(&self) -> Job {
        Job {
            target_type: self.target_spec().target_type,
            to: self.target_spec().to@,
            from: match self.target_spec().from {
                Some(s) => Some(s@),
                None => None,
            },
            uid: self.uid_spec(),
        }
    }

    pub closed spec fn uid_spec(&self) -> u32 {
        self.uid
    }

    pub closed spec fn phase_spec(&self) -> Phase {
        self.phase
    }

    pub closed spec fn target_spec(&self) -> DownloadTarget {
        self.target
    }

    pub open spec fn inv(&self) -> bool {
        self.job().phase_ok(self.phase_spec())
    }

    /// Starts the materialization of `target`, whose created entries go to
    /// user `uid` when the process is elevated.
    pub fn new(target: DownloadTarget, uid: u32) -> (m: Materializer)
        ensures
            m.target_spec() == target,
            m.uid_spec() == uid,
            m.phase_spec() == Phase::CheckExists,
            m.inv(),
    {
        Materializer { target, uid, phase: Phase::CheckExists }
    }

    pub fn phase(&self) -> (p: Phase)
        ensures
            p == self.phase_spec(),
    {
        self.phase
    }

    /// The outcome, once there is one.
    pub fn outcome(&self) -> (r: Option<Result<(), MaterializeError>>)
        ensures
            r == outcome_of(self.phase_spec()),
    {
        match self.phase {
            Phase::Finished => Some(Ok(())),
            Phase::Failed(err) => Some(Err(err)),
            _ => None,
        }
    }

    /// The action the current phase asks for.
    pub fn action(&self) -> (a: Action)
        requires
            self.inv(),
        ensures
            a@ == self.job().action(self.phase_spec()),
    {
        let to = &self.target.to;
        match self.phase {
            Phase::CheckExists => Action::CheckExists { path: to.clone() },
            Phase::CreateDir => Action::CreateDir { path: to.clone() },
            Phase::CreateParents => {
                let p = parent_of(to.as_str());
                match p {
                    Some(path) => Action::CreateDirAll { path },
                    None => Action::CreateDirAll { path: to.clone() },
                }
            },
            Phase::CreateStaging => Action::CreateStaging { path: staging_path(to) },
            Phase::Fetch => {
                let url = match &self.target.from {
                    Some(u) => u.clone(),
                    None => to.clone(),
                };
                Action::Fetch { url, staging: staging_path(to) }
            },
            Phase::CheckPrivilege => Action::QueryPrivilege,
            Phase::SetOwner => {
                let path = match self.target.target_type {
                    TargetType::Directory => to.clone(),
                    TargetType::File => staging_path(to),
                };
                Action::SetOwner { path, uid: self.uid }
            },
            Phase::Publish => Action::Rename { from: staging_path(to), to: to.clone() },
            Phase::Finished => Action::Finish { result: Ok(()) },
            Phase::Failed(err) => Action::Finish { result: Err(err) },
        }
    }

    /// Takes the report on the last action and moves to the next phase.
    pub fn step(&mut self, e: Event)
        requires
            old(self).inv(),
        ensures
            final(self).inv(),
            final(self).target_spec() == old(self).target_spec(),
            final(self).job() == old(self).job(),
            final(self).phase_spec() == old(self).job().next(old(self).phase_spec(), e),
    {
        proof {
            self.job().lemma_next_phase_ok(self.phase, e);
        }
        let next = match (self.phase, e) {
            (Phase::CheckExists, Event::Exists(present)) => {
                if present {
                    Phase::Finished
                } else {
                    match self.target.target_type {
                        TargetType::Directory => Phase::CreateDir,
                        TargetType::File => {
                            if parent_of(self.target.to.as_str()).is_some() {
                                Phase::CreateParents
                            } else {
                                self.after_parents()
                            }
                        },
                    }
                }
            },
            (Phase::CreateDir, Event::Succeeded) => Phase::CheckPrivilege,
            (Phase::CreateParents, Event::Succeeded) => self.after_parents(),
            (Phase::CreateStaging, Event::Succeeded) => Phase::Fetch,
            (Phase::Fetch, Event::Succeeded) => Phase::CheckPrivilege,
            (Phase::Fetch, Event::Failed) => Phase::Failed(MaterializeError::Transport),
            (Phase::CheckPrivilege, Event::EffectiveUid(euid)) => {
                if is_elevated(euid) {
                    Phase::SetOwner
                } else {
                    self.after_owned()
                }
            },
            (Phase::SetOwner, Event::Succeeded) => self.after_owned(),
            (Phase::SetOwner, Event::Failed) => Phase::Failed(MaterializeError::Ownership),
            (Phase::Publish, Event::Succeeded) => Phase::Finished,
            (Phase::CreateDir, Event::Failed)
            | (Phase::CreateParents, Event::Failed)
            | (Phase::CreateStaging, Event::Failed)
            | (Phase::Publish, Event::Failed) => Phase::Failed(MaterializeError::Filesystem),
            _ => self.phase,
        };
        self.phase = next;
    }

    fn after_parents(&self) -> (p: Phase)
        ensures
            p == self.job().after_parents(),
    {
        if self.target.from.is_some() {
            Phase::CreateStaging
        } else {
            Phase::Failed(MaterializeError::MissingSource)
        }
    }

    fn after_owned(&self) -> (p: Phase)
        ensures
            p == self.job().after_owned(),
    {
        match self.target.target_type {
            TargetType::Directory => Phase::Finished,
            TargetType::File => Phase::Publish,
        }
    }
}

/// The answer to `Action::QueryPrivilege`: the effective user id of this
/// process now.
pub fn privilege_event() -> (e: Event)
    ensures
        e is EffectiveUid,
{
    Event::EffectiveUid(effective_uid())
}

} // verus!
