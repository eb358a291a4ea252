use vstd::prelude::*;

use crate::stage::Stage;

verus! {

/// How many times module creation is tried for one stage before giving up.
pub const MODULE_ATTEMPTS: u32 = 3;

/// A cached artifact may be used when it is no older than the running executable.
pub open spec fn spec_cache_valid(artifact_modified: u128, exe_modified: u128) -> bool {
    artifact_modified >= exe_modified
}

/// Whether a cached artifact, modified at `artifact_modified`, may stand for the
/// stage; times are in nanoseconds since the epoch.
pub fn cache_valid(artifact_modified: u128, exe_modified: u128) -> (r: bool)
    ensures
        r == spec_cache_valid(artifact_modified, exe_modified),
{
    artifact_modified >= exe_modified
}

/// What the outside world reported for the last action.
#[derive(Debug, Clone, PartialEq, Eq)]
pub enum StageEvent {
    /// The cache was looked at: the artifact's time, if there is one, and the executable's.
    CacheChecked { artifact_modified: Option<u128>, exe_modified: u128 },
    CacheCheckFailed,
    CacheRead(Vec<u8>),
    CacheReadFailed,
    Compiled(Vec<u8>),
    CompileFailed,
    ModuleCreated(u64),
    ModuleCreationFailed,
    /// The bytecode is not a whole number of aligned 32-bit words, so no module
    /// can be made from it.
    BytecodeMisaligned,
}

/// Why a stage could not be turned into a shader module.
#[derive(Debug, Copy, Clone, PartialEq, Eq, Structural)]
pub enum ShaderError {
    CacheUnreadable,
    CompileFailed,
    ModuleCreationFailed,
    InvalidBytecode,
    /// An event that the current step did not ask for.
    OutOfOrder,
}

/// What to do next for the stage.
#[derive(Debug, Copy, Clone, PartialEq, Eq, Structural)]
pub enum StageAction {
    ReadCache,
    /// Compile the stage's source, optimizing or not.
    Compile { optimize: bool },
    /// Create a module from the held bytecode; with `persist`, first write that
    /// bytecode to the cache, where a failure to write is only reported.
    CreateModule { persist: bool },
    Finish(u64),
    Fail(ShaderError),
}

#[derive(Debug, Copy, Clone, PartialEq, Eq, Structural)]
pub enum StagePhase {
    CheckingCache,
    ReadingCache,
    Compiling,
    CreatingModule,
    Recompiling,
    Done,
    Failed,
}

/// The way from a stage's source or cached artifact to its shader module.
#[derive(Debug, Clone, PartialEq, Eq)]
pub struct StageBuild {
    pub stage: Stage,
    pub optimize: bool,
    pub phase: StagePhase,
    /// The bytecode that module creation is given.
    pub bytecode: Vec<u8>,
    /// Module creations that have failed so far.
    pub failures: u32,
}

impl StageBuild {
    pub open spec fn wf(self) -> bool {
        self.failures < MODULE_ATTEMPTS
    }

    /// The step function: the build and the action that follow `e`.
    pub open spec fn next(self, e: StageEvent) -> (StageBuild, StageAction) {
        let fail = |err: ShaderError| (StageBuild { phase: StagePhase::Failed, ..self }, StageAction::Fail(err));
        match self.phase {
            StagePhase::CheckingCache => match e {
                StageEvent::CacheChecked { artifact_modified, exe_modified } => {
                    if artifact_modified matches Some(t) && spec_cache_valid(t, exe_modified) {
                        (StageBuild { phase: StagePhase::ReadingCache, ..self }, StageAction::ReadCache)
                    } else {
                        (
                            StageBuild { phase: StagePhase::Compiling, ..self },
                            StageAction::Compile { optimize: self.optimize },
                        )
                    }
                },
                StageEvent::CacheCheckFailed => fail(ShaderError::CacheUnreadable),
                _ => fail(ShaderError::OutOfOrder),
            },
            StagePhase::ReadingCache => match e {
                StageEvent::CacheRead(b) => (
                    StageBuild { phase: StagePhase::CreatingModule, bytecode: b, ..self },
                    StageAction::CreateModule { persist: false },
                ),
                StageEvent::CacheReadFailed => fail(ShaderError::CacheUnreadable),
                _ => fail(ShaderError::OutOfOrder),
            },
            StagePhase::Compiling => match e {
                StageEvent::Compiled(b) => (
                    StageBuild { phase: StagePhase::CreatingModule, bytecode: b, ..self },
                    StageAction::CreateModule { persist: true },
                ),
                StageEvent::CompileFailed => fail(ShaderError::CompileFailed),
                _ => fail(ShaderError::OutOfOrder),
            },
            StagePhase::CreatingModule => match e {
                StageEvent::ModuleCreated(h) => (
                    StageBuild { phase: StagePhase::Done, ..self },
                    StageAction::Finish(h),
                ),
                StageEvent::ModuleCreationFailed => {
                    if self.failures + 1 < MODULE_ATTEMPTS {
                        (
                            StageBuild {
                                phase: StagePhase::Recompiling,
                                failures: (self.failures + 1) as u32,
                                ..self
                            },
                            StageAction::Compile { optimize: self.optimize },
                        )
                    } else {
                        fail(ShaderError::ModuleCreationFailed)
                    }
                },
                StageEvent::BytecodeMisaligned => fail(ShaderError::InvalidBytecode),
                _ => fail(ShaderError::OutOfOrder),
            },
            // A recompile that fails leaves the bytecode as it was and tries again.
            StagePhase::Recompiling => match e {
                StageEvent::Compiled(b) => (
                    StageBuild { phase: StagePhase::CreatingModule, bytecode: b, ..self },
                    StageAction::CreateModule { persist: true },
                ),
                StageEvent::CompileFailed => (
                    StageBuild { phase: StagePhase::CreatingModule, ..self },
                    StageAction::CreateModule { persist: false },
                ),
                _ => fail(ShaderError::OutOfOrder),
            },
            StagePhase::Done | StagePhase::Failed => fail(ShaderError::OutOfOrder),
        }
    }

    /// A build that asks first for the cache to be checked.
    pub fn new(stage: Stage, optimize: bool) -> (r: StageBuild)
        ensures
            r.wf(),
            r.stage == stage,
            r.optimize == optimize,
            r.phase == StagePhase::CheckingCache,
            r.failures == 0,
            r.bytecode@.len() == 0,
    {
        StageBuild {
            stage,
            optimize,
            phase: StagePhase::CheckingCache,
            bytecode: Vec::new(),
            failures: 0,
        }
    }

    fn fail(&mut self, err: ShaderError) -> (r: StageAction)
        ensures
            *final(self) == (StageBuild { phase: StagePhase::Failed, ..*old(self) }),
            r == StageAction::Fail(err),
    {
        self.phase = StagePhase::Failed;
        StageAction::Fail(err)
    }

    /// Takes the outcome of the last action and returns the next action.
    pub fn step(&mut self, e: StageEvent) -> (r: StageAction)
        requires
            old(self).wf(),
        ensures
            final(self).wf(),
            (*final(self), r) == old(self).next(e),
    {
        match self.phase {
            StagePhase::CheckingCache => match e {
                StageEvent::CacheChecked { artifact_modified, exe_modified } => {
                    let hit = match artifact_modified {
                        Some(t) => cache_valid(t, exe_modified),
                        None => false,
                    };
                    if hit {
                        self.phase = StagePhase::ReadingCache;
                        StageAction::ReadCache
                    } else {
                        self.phase = StagePhase::Compiling;
                        StageAction::Compile { optimize: self.optimize }
                    }
                },
                StageEvent::CacheCheckFailed => self.fail(ShaderError::CacheUnreadable),
                _ => self.fail(ShaderError::OutOfOrder),
            },
            StagePhase::ReadingCache => match e {
                StageEvent::CacheRead(b) => {
                    self.phase = StagePhase::CreatingModule;
                    self.bytecode = b;
                    StageAction::CreateModule { persist: false }
                },
                StageEvent::CacheReadFailed => self.fail(ShaderError::CacheUnreadable),
                _ => self.fail(ShaderError::OutOfOrder),
            },
            StagePhase::Compiling => match e {
                StageEvent::Compiled(b) => {
                    self.phase = StagePhase::CreatingModule;
                    self.bytecode = b;
                    StageAction::CreateModule { persist: true }
                },
                StageEvent::CompileFailed => self.fail(ShaderError::CompileFailed),
                _ => self.fail(ShaderError::OutOfOrder),
            },
            StagePhase::CreatingModule => match e {
                StageEvent::ModuleCreated(h) => {
                    self.phase = StagePhase::Done;
                    StageAction::Finish(h)
                },
                StageEvent::ModuleCreationFailed => {
                    if self.failures + 1 < MODULE_ATTEMPTS {
                        self.phase = StagePhase::Recompiling;
                        self.failures = self.failures + 1;
                        StageAction::Compile { optimize: self.optimize }
                    } else {
                        self.fail(ShaderError::ModuleCreationFailed)
                    }
                },
                StageEvent::BytecodeMisaligned => self.fail(ShaderError::InvalidBytecode),
                _ => self.fail(ShaderError::OutOfOrder),
            },
            StagePhase::Recompiling => match e {
                StageEvent::Compiled(b) => {
                    self.phase = StagePhase::CreatingModule;
                    self.bytecode = b;
                    StageAction::CreateModule { persist: true }
                },
                StageEvent::CompileFailed => {
                    self.phase = StagePhase::CreatingModule;
                    StageAction::CreateModule { persist: false }
                },
                _ => self.fail(ShaderError::OutOfOrder),
            },
            StagePhase::Done | StagePhase::Failed => self.fail(ShaderError::OutOfOrder),
        }
    }
}

/// A recompile reports either new bytecode or a failure.
pub open spec fn is_recompile_outcome(e: StageEvent) -> bool {
    e is Compiled || e is CompileFailed
}

/// A stage compiled once is served from the cache afterwards. On a first build that
/// finds no usable artifact the compiler runs and its bytecode is both persisted and
/// handed to module creation. A later build that finds an artifact no older than the
/// executable does not compile: it reads the artifact, and module creation gets
/// exactly the bytes read back.
pub proof fn lemma_cache_round_trip(
    first: StageBuild,
    second: StageBuild,
    missing: Option<u128>,
    artifact_modified: u128,
    exe_modified: u128,
    bytecode: Vec<u8>,
)
    requires
        first.phase == StagePhase::CheckingCache,
        second.phase == StagePhase::CheckingCache,
        missing matches Some(t) ==> t < exe_modified,
        artifact_modified >= exe_modified,
    ensures
        ({
            let (f1, a1) = first.next(
                StageEvent::CacheChecked { artifact_modified: missing, exe_modified },
            );
            let (f2, a2) = f1.next(StageEvent::Compiled(bytecode));
            &&& a1 == StageAction::Compile { optimize: first.optimize }
            &&& a2 == StageAction::CreateModule { persist: true }
            &&& f2.bytecode == bytecode
        }),
        ({
            let (s1, a1) = second.next(
                StageEvent::CacheChecked { artifact_modified: Some(artifact_modified), exe_modified },
            );
            let (s2, a2) = s1.next(StageEvent::CacheRead(bytecode));
            &&& a1 == StageAction::ReadCache
            &&& a2 == StageAction::CreateModule { persist: false }
            &&& s2.bytecode == bytecode
        }),
{
}

/// An artifact older than the executable is never used: the stage is compiled again.
pub proof fn lemma_stale_cache_recompiles(s: StageBuild, artifact_modified: u128, exe_modified: u128)
    requires
        s.phase == StagePhase::CheckingCache,
        artifact_modified < exe_modified,
    ensures
        ({
            let e = StageEvent::CacheChecked {
                artifact_modified: Some(artifact_modified),
                exe_modified,
            };
            s.next(e).1 == StageAction::Compile { optimize: s.optimize }
        }),
{
}

/// Module creation that fails twice and then succeeds: each failure leads to a
/// recompile, whatever the recompile reports, and the third attempt finishes the stage.
pub proof fn lemma_retry_recovers(s: StageBuild, r1: StageEvent, r2: StageEvent, module: u64)
    requires
        s.phase == StagePhase::CreatingModule,
        s.failures == 0,
        is_recompile_outcome(r1),
        is_recompile_outcome(r2),
    ensures
        ({
            let (s1, a1) = s.next(StageEvent::ModuleCreationFailed);
            let (s2, a2) = s1.next(r1);
            let (s3, a3) = s2.next(StageEvent::ModuleCreationFailed);
            let (s4, a4) = s3.next(r2);
            let (s5, a5) = s4.next(StageEvent::ModuleCreated(module));
            &&& a1 == StageAction::Compile { optimize: s.optimize }
            &&& a2 is CreateModule
            &&& a3 == StageAction::Compile { optimize: s.optimize }
            &&& a4 is CreateModule
            &&& a5 == StageAction::Finish(module)
            &&& s5.phase == StagePhase::Done
        }),
{
}

/// Module creation that always fails: after the third failed attempt the stage fails
/// for good, having been recompiled twice, and asks for nothing more.
pub proof fn lemma_retry_gives_up(s: StageBuild, r1: StageEvent, r2: StageEvent, later: StageEvent)
    requires
        s.phase == StagePhase::CreatingModule,
        s.failures == 0,
        is_recompile_outcome(r1),
        is_recompile_outcome(r2),
    ensures
        ({
            let (s1, a1) = s.next(StageEvent::ModuleCreationFailed);
            let (s2, a2) = s1.next(r1);
            let (s3, a3) = s2.next(StageEvent::ModuleCreationFailed);
            let (s4, a4) = s3.next(r2);
            let (s5, a5) = s4.next(StageEvent::ModuleCreationFailed);
            &&& a1 == StageAction::Compile { optimize: s.optimize }
            &&& a2 is CreateModule
            &&& a3 == StageAction::Compile { optimize: s.optimize }
            &&& a4 is CreateModule
            &&& a5 == StageAction::Fail(ShaderError::ModuleCreationFailed)
            &&& s5.phase == StagePhase::Failed
            &&& s5.next(later).1 == StageAction::Fail(ShaderError::OutOfOrder)
        }),
{
}

} // verus!
