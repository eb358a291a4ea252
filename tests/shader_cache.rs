use koyote::compile::{
    cache_valid, ShaderError, StageAction, StageBuild, StageEvent, StagePhase, MODULE_ATTEMPTS,
};
use koyote::stage::Stage;

/// A fake world: a cache file, a compiler that counts its runs, and a module
/// creator whose results are given in advance.
struct World {
    cache: Option<(u128, Vec<u8>)>,
    exe_modified: u128,
    now: u128,
    compiles: u32,
    module_results: Vec<bool>,
    module_attempts: u32,
    module_inputs: Vec<Vec<u8>>,
}

impl World {
    fn new(exe_modified: u128) -> Self {
        World {
            cache: None,
            exe_modified,
            now: exe_modified + 10,
            compiles: 0,
            module_results: vec![],
            module_attempts: 0,
            module_inputs: vec![],
        }
    }

    fn compile(&mut self, stage: Stage) -> Vec<u8> {
        self.compiles += 1;
        let mut code = vec![0x03, 0x02, 0x23, 0x07];
        code.extend_from_slice(stage.as_str().as_bytes());
        code
    }

    fn run(&mut self, stage: Stage) -> Result<u64, ShaderError> {
        let mut build = StageBuild::new(stage, false);
        let checked = StageEvent::CacheChecked {
            artifact_modified: self.cache.as_ref().map(|c| c.0),
            exe_modified: self.exe_modified,
        };
        let mut action = build.step(checked);
        loop {
            action = match action {
                StageAction::ReadCache => {
                    let bytes = self.cache.as_ref().unwrap().1.clone();
                    build.step(StageEvent::CacheRead(bytes))
                }
                StageAction::Compile { .. } => {
                    let code = self.compile(stage);
                    build.step(StageEvent::Compiled(code))
                }
                StageAction::CreateModule { persist } => {
                    if persist {
                        self.now += 1;
                        self.cache = Some((self.now, build.bytecode.clone()));
                    }
                    self.module_inputs.push(build.bytecode.clone());
                    let i = self.module_attempts as usize;
                    self.module_attempts += 1;
                    let ok = self.module_results.get(i).copied().unwrap_or(true);
                    if ok {
                        build.step(StageEvent::ModuleCreated(100 + i as u64))
                    } else {
                        build.step(StageEvent::ModuleCreationFailed)
                    }
                }
                StageAction::Finish(h) => return Ok(h),
                StageAction::Fail(e) => return Err(e),
            }
        }
    }
}

#[test]
fn cache_validity_rule() {
    assert!(cache_valid(10, 10));
    assert!(cache_valid(11, 10));
    assert!(!cache_valid(9, 10));
}

#[test]
fn cache_round_trip_skips_compiler() {
    let mut world = World::new(1_000);
    assert!(world.run(Stage::Vertex).is_ok());
    assert_eq!(world.compiles, 1);
    assert!(world.run(Stage::Vertex).is_ok());
    assert_eq!(world.compiles, 1);
    assert_eq!(world.module_inputs[0], world.module_inputs[1]);
}

#[test]
fn newer_executable_forces_recompile() {
    let mut world = World::new(1_000);
    assert!(world.run(Stage::Fragment).is_ok());
    world.exe_modified = world.now + 5;
    assert!(world.run(Stage::Fragment).is_ok());
    assert_eq!(world.compiles, 2);
}

#[test]
fn module_retry_recovers_on_third_attempt() {
    let mut world = World::new(1_000);
    world.cache = Some((2_000, vec![1, 2, 3, 4]));
    world.module_results = vec![false, false, true];
    assert_eq!(world.run(Stage::Compute), Ok(102));
    assert_eq!(world.module_attempts, 3);
    assert_eq!(world.compiles, 2);
}

#[test]
fn module_retry_gives_up_after_three_attempts() {
    let mut world = World::new(1_000);
    world.cache = Some((2_000, vec![1, 2, 3, 4]));
    world.module_results = vec![false; 10];
    assert_eq!(world.run(Stage::Geometry), Err(ShaderError::ModuleCreationFailed));
    assert_eq!(world.module_attempts, MODULE_ATTEMPTS);
    assert_eq!(world.compiles, 2);
}

#[test]
fn failed_recompile_retries_with_old_bytes() {
    let mut build = StageBuild::new(Stage::Vertex, true);
    build.step(StageEvent::CacheChecked { artifact_modified: None, exe_modified: 5 });
    assert_eq!(build.step(StageEvent::Compiled(vec![9, 9])), StageAction::CreateModule { persist: true });
    assert_eq!(build.step(StageEvent::ModuleCreationFailed), StageAction::Compile { optimize: true });
    assert_eq!(build.step(StageEvent::CompileFailed), StageAction::CreateModule { persist: false });
    assert_eq!(build.bytecode, vec![9, 9]);
    assert_eq!(build.failures, 1);
}

#[test]
fn first_compile_failure_is_fatal() {
    let mut build = StageBuild::new(Stage::Vertex, false);
    assert_eq!(
        build.step(StageEvent::CacheChecked { artifact_modified: Some(1), exe_modified: 5 }),
        StageAction::Compile { optimize: false }
    );
    assert_eq!(build.step(StageEvent::CompileFailed), StageAction::Fail(ShaderError::CompileFailed));
    assert_eq!(build.phase, StagePhase::Failed);
}

#[test]
fn unreadable_cache_is_an_error() {
    let mut build = StageBuild::new(Stage::Vertex, false);
    assert_eq!(build.step(StageEvent::CacheCheckFailed), StageAction::Fail(ShaderError::CacheUnreadable));
    let mut build = StageBuild::new(Stage::Vertex, false);
    build.step(StageEvent::CacheChecked { artifact_modified: Some(9), exe_modified: 5 });
    assert_eq!(build.step(StageEvent::CacheReadFailed), StageAction::Fail(ShaderError::CacheUnreadable));
}

#[test]
fn unexpected_event_fails() {
    let mut build = StageBuild::new(Stage::Vertex, false);
    assert_eq!(build.step(StageEvent::ModuleCreated(1)), StageAction::Fail(ShaderError::OutOfOrder));
}

#[test]
fn misaligned_bytecode_fails_without_retry() {
    let mut build = StageBuild::new(Stage::Fragment, false);
    build.step(StageEvent::CacheChecked { artifact_modified: Some(9), exe_modified: 5 });
    assert_eq!(build.step(StageEvent::CacheRead(vec![1, 2, 3])), StageAction::CreateModule { persist: false });
    assert_eq!(build.step(StageEvent::BytecodeMisaligned), StageAction::Fail(ShaderError::InvalidBytecode));
    assert_eq!(build.failures, 0);
    assert_eq!(build.phase, StagePhase::Failed);
}
