use vstd::prelude::*;

verus! {

/// Why an apply-proposal call failed, with the platform's error text
/// where a filesystem step supplied one.
#[derive(Debug)]
pub enum ApplyError {
    SourceMissing,
    DirCreateFailed(String),
    MoveFailed(String),
}

impl ApplyError {
    /// The error string handed back to the caller.
    pub fn message(&self) -> (r: String)
        ensures
            match *self {
                ApplyError::SourceMissing => r@ == "Source file no longer exists"@,
                ApplyError::DirCreateFailed(m) => r@ == m@,
                ApplyError::MoveFailed(m) => r@ == m@,
            },
    {
        match self {
            ApplyError::SourceMissing => "Source file no longer exists".to_owned(),
            ApplyError::DirCreateFailed(m) => m.clone(),
            ApplyError::MoveFailed(m) => m.clone(),
        }
    }
}

/// The filesystem step the shell must perform next for the machine.
#[derive(PartialEq, Eq, Structural, Clone, Copy, Debug)]
pub enum ApplyAction {
    StatSource,
    CreateDirs,
    MoveFile,
}

/// Where one apply-proposal call stands.
#[derive(PartialEq, Eq, Structural, Clone, Copy, Debug)]
pub enum ApplyPhase {
    CheckSource,
    MakeDirs,
    Move,
    Succeeded,
    Failed,
}

/// Drives one apply-proposal call as a sequence of checked steps: first
/// the source file is confirmed to exist, then the missing destination
/// directories are created, and only then is the move performed, as one
/// atomic rename. The machine decides; the shell observes and reports.
pub struct ApplyMachine {
    pub phase: ApplyPhase,
    pub error: Option<ApplyError>,
    pub source_seen: bool,
    pub dirs_ok: bool,
}

impl ApplyMachine {
    /// The machine invariant: an error is recorded exactly in the failed
    /// phase, and a phase is reached only after every earlier step
    /// succeeded — in particular the move phase only after the
    /// destination directories were created.
    pub open spec fn wf(&self) -> bool {
        &&& (self.phase is Failed <==> self.error is Some)
        &&& (self.phase is MakeDirs ==> self.source_seen)
        &&& (self.phase is Move ==> self.source_seen && self.dirs_ok)
        &&& (self.phase is Succeeded ==> self.source_seen && self.dirs_ok)
    }

    /// Starts one apply-proposal call.
    pub fn new() -> (m: ApplyMachine)
        ensures
            m.wf(),
            m.phase == ApplyPhase::CheckSource,
            !m.source_seen,
            !m.dirs_ok,
    {
        ApplyMachine { phase: ApplyPhase::CheckSource, error: None, source_seen: false, dirs_ok: false }
    }

    /// The step owed in each phase: what `next_action` returns.
    pub open spec fn spec_next_action(&self) -> Option<ApplyAction> {
        match self.phase {
            ApplyPhase::CheckSource => Some(ApplyAction::StatSource),
            ApplyPhase::MakeDirs => Some(ApplyAction::CreateDirs),
            ApplyPhase::Move => Some(ApplyAction::MoveFile),
            ApplyPhase::Succeeded => None,
            ApplyPhase::Failed => None,
        }
    }

    /// The step the shell must perform next; `None` once the call is over.
    /// The move is requested only in the move phase, which is reached
    /// only after the directory step succeeded.
    pub fn next_action(&self) -> (r: Option<ApplyAction>)
        ensures
            r == self.spec_next_action(),
    {
        match self.phase {
            ApplyPhase::CheckSource => Some(ApplyAction::StatSource),
            ApplyPhase::MakeDirs => Some(ApplyAction::CreateDirs),
            ApplyPhase::Move => Some(ApplyAction::MoveFile),
            ApplyPhase::Succeeded => None,
            ApplyPhase::Failed => None,
        }
    }

    /// Records whether the source file exists. A missing source ends the
    /// call at once with the fixed error, before any filesystem mutation.
    pub fn source_checked(&mut self, exists: bool)
        requires
            old(self).wf(),
            old(self).phase == ApplyPhase::CheckSource,
        ensures
            final(self).wf(),
            final(self).dirs_ok == old(self).dirs_ok,
            exists ==> final(self).phase == ApplyPhase::MakeDirs && final(self).source_seen,
            !exists ==> final(self).phase == ApplyPhase::Failed && final(self).source_seen
                == old(self).source_seen,
            !exists ==> (final(self).error matches Some(e) && e is SourceMissing),
    {
        if exists {
            self.source_seen = true;
            self.phase = ApplyPhase::MakeDirs;
        } else {
            self.error = Some(ApplyError::SourceMissing);
            self.phase = ApplyPhase::Failed;
        }
    }

    /// Records the outcome of creating the destination directories. On
    /// failure the call ends with the directory error and the move is
    /// never requested, leaving the source untouched.
    pub fn dirs_made(&mut self, outcome: Result<(), String>)
        requires
            old(self).wf(),
            old(self).phase == ApplyPhase::MakeDirs,
        ensures
            final(self).wf(),
            final(self).source_seen == old(self).source_seen,
            outcome is Ok ==> final(self).phase == ApplyPhase::Move && final(self).dirs_ok,
            outcome is Err ==> final(self).phase == ApplyPhase::Failed && final(self).dirs_ok
                == old(self).dirs_ok,
            outcome matches Err(msg) ==> (final(self).error matches Some(
                ApplyError::DirCreateFailed(m),
            ) && m == msg),
    {
        match outcome {
            Ok(()) => {
                self.dirs_ok = true;
                self.phase = ApplyPhase::Move;
            },
            Err(msg) => {
                self.error = Some(ApplyError::DirCreateFailed(msg));
                self.phase = ApplyPhase::Failed;
            },
        }
    }

    /// Records the outcome of the atomic move itself. A failed move ends
    /// the call with the platform's error; the machine never retries.
    pub fn move_done(&mut self, outcome: Result<(), String>)
        requires
            old(self).wf(),
            old(self).phase == ApplyPhase::Move,
        ensures
            final(self).wf(),
            final(self).source_seen == old(self).source_seen,
            final(self).dirs_ok == old(self).dirs_ok,
            outcome is Ok ==> final(self).phase == ApplyPhase::Succeeded,
            outcome is Err ==> final(self).phase == ApplyPhase::Failed,
            outcome matches Err(msg) ==> (final(self).error matches Some(
                ApplyError::MoveFailed(m),
            ) && m == msg),
    {
        match outcome {
            Ok(()) => {
                self.phase = ApplyPhase::Succeeded;
            },
            Err(msg) => {
                self.error = Some(ApplyError::MoveFailed(msg));
                self.phase = ApplyPhase::Failed;
            },
        }
    }

    /// The acknowledgment string a successful call returns.
    pub fn success_message(&self) -> (r: String)
        requires
            self.phase == ApplyPhase::Succeeded,
        ensures
            r@ == "Success"@,
    {
        "Success".to_owned()
    }
}

/// Apply-proposal is atomic with respect to partial states: the machine
/// requests the move only after the destination directories were created,
/// so when directory creation fails — or the source was missing — no move
/// is ever requested and the source file is left untouched.
pub proof fn lemma_move_gated(m: ApplyMachine)
    requires
        m.wf(),
        m.phase == ApplyPhase::Move,
    ensures
        m.source_seen,
        m.dirs_ok,
{
}

/// A failed or finished call is terminal: the machine requests no further
/// filesystem step of any kind.
pub proof fn lemma_failure_terminal(m: ApplyMachine)
    requires
        m.phase == ApplyPhase::Failed || m.phase == ApplyPhase::Succeeded,
    ensures
        m.spec_next_action() is None,
{
}

} // verus!
