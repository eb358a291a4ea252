use std::marker::PhantomData;
use std::path::PathBuf;

use vstd::prelude::*;

use crate::release::Release;
use crate::stage::{Stage, StageMap, StageSet};

verus! {

#[verifier::external_type_specification]
#[verifier::external_body]
pub struct ExPathBuf(PathBuf);

/// Relies on `PathBuf::clone`, which copies the path; nothing is claimed of the copy.
pub assume_specification[ <PathBuf as Clone>::clone ](p: &PathBuf) -> PathBuf;

/// A stage's source text, in one of the languages that the compiler reads.
#[derive(Debug, Clone, PartialEq, Eq)]
#[allow(non_camel_case_types, clippy::upper_case_acronyms)]
pub enum Source {
    GLSL(String),
    HLSL(String),
    SPIRV(String),
}

impl Source {
    pub open spec fn spec_text(&self) -> Seq<char> {
        match self {
            Source::GLSL(s) => s@,
            Source::HLSL(s) => s@,
            Source::SPIRV(s) => s@,
        }
    }

    pub fn as_str(&self) -> (r: &str)
        ensures
            r@ == self.spec_text(),
    {
        match self {
            Source::GLSL(source) => source.as_str(),
            Source::HLSL(source) => source.as_str(),
            Source::SPIRV(source) => source.as_str(),
        }
    }

    /// The text's UTF-8 encoding.
    pub fn into_bytes(self) -> (r: Vec<u8>)
        ensures
            r@ == vstd::utf8::encode_utf8(self.spec_text()),
    {
        let text = self.as_str();
        vstd::slice::slice_to_vec(text.as_bytes())
    }
}

impl Default for Source {
    fn default() -> (r: Source)
        ensures
            r matches Source::HLSL(s) && s@.len() == 0,
    {
        Source::HLSL(String::new())
    }
}

/// Where a shader's source lies and which stages it must provide.
#[derive(Debug, Clone)]
pub struct ShaderCreateInfo {
    pub path: PathBuf,
    pub stages: StageSet,
}

impl ShaderCreateInfo {
    pub fn has_stage(&self, stage: Stage) -> (r: bool)
        ensures
            r == self.stages.has(stage),
    {
        self.stages.contains(stage)
    }
}

/// A shader's path and the source text of each of its stages.
#[derive(Debug, Clone)]
pub struct ShaderSource {
    pub path: PathBuf,
    pub stages: StageMap<Source>,
}

impl ShaderSource {
    pub fn has_stage(&self, stage: Stage) -> (r: bool)
        ensures
            r == self.stages.spec_get(stage) is Some,
    {
        self.stages.contains_key(stage)
    }
}

/// Marks a shader builder to which no stage has been given yet.
#[derive(Debug, Default, Clone)]
pub struct ShaderStagesMissing;

/// Marks a shader builder that has at least one stage.
#[derive(Debug, Default, Clone)]
pub struct ShaderStagesSpecified;

/// Why a shader's sources could not be gathered.
#[derive(Debug, Copy, Clone, PartialEq, Eq, Structural)]
pub enum SourceError {
    /// The stage was asked for but no source text was found for it.
    Missing(Stage),
}

/// Gathers a shader's stages; `build_hlsl` exists only once a stage was given.
pub struct ShaderBuilder<S> {
    stage_specified: PhantomData<S>,
    path: PathBuf,
    stages: StageSet,
}

impl<S> ShaderBuilder<S> {
    /// Where the shader's source lies.
    pub closed spec fn spec_path(&self) -> PathBuf {
        self.path
    }

    /// The stages given so far.
    pub closed spec fn spec_stages(&self) -> StageSet {
        self.stages
    }
}

impl ShaderBuilder<ShaderStagesMissing> {
    pub fn new(path: PathBuf) -> (r: ShaderBuilder<ShaderStagesMissing>)
        ensures
            r.spec_path() == path,
            forall|s: Stage| !r.spec_stages().has(s),
    {
        ShaderBuilder { stage_specified: PhantomData, path, stages: StageSet::new() }
    }
}

/// The source of one stage, if the stage is wanted.
fn pick_source(stage: Stage, wanted: bool, text: Option<String>) -> (r: Result<
    Option<Source>,
    SourceError,
>)
    ensures
        !wanted ==> r == Ok::<Option<Source>, SourceError>(None),
        wanted ==> match text {
            Some(t) => r == Ok::<Option<Source>, SourceError>(Some(Source::HLSL(t))),
            None => r == Err::<Option<Source>, SourceError>(SourceError::Missing(stage)),
        },
{
    if !wanted {
        Ok(None)
    } else {
        match text {
            Some(t) => Ok(Some(Source::HLSL(t))),
            None => Err(SourceError::Missing(stage)),
        }
    }
}

impl<S> ShaderBuilder<S> {
    pub fn with_stage(self, stage: Stage) -> (r: ShaderBuilder<ShaderStagesSpecified>)
        ensures
            r.spec_path() == self.spec_path(),
            forall|t: Stage| r.spec_stages().has(t) == (self.spec_stages().has(t) || t == stage),
    {
        let mut stages = self.stages;
        stages.insert(stage);
        ShaderBuilder { stage_specified: PhantomData, path: self.path, stages }
    }

    pub fn with_stages(self, stages: &[Stage]) -> (r: ShaderBuilder<ShaderStagesSpecified>)
        ensures
            r.spec_path() == self.spec_path(),
            forall|t: Stage| r.spec_stages().has(t) == (self.spec_stages().has(t) || stages@.contains(t)),
    {
        let mut set = self.stages;
        set.extend(stages);
        ShaderBuilder { stage_specified: PhantomData, path: self.path, stages: set }
    }
}

/// The stage's slot of the gathered sources: HLSL text where the stage is wanted.
pub open spec fn gathered(wanted: bool, text: Option<String>) -> Option<Source> {
    if wanted {
        match text {
            Some(t) => Some(Source::HLSL(t)),
            None => None,
        }
    } else {
        None
    }
}

/// The first wanted stage, in stage order, that has no text.
pub open spec fn first_missing(wanted: StageSet, texts: StageMap<String>) -> Option<Stage> {
    if wanted.vertex && texts.vertex is None {
        Some(Stage::Vertex)
    } else if wanted.fragment && texts.fragment is None {
        Some(Stage::Fragment)
    } else if wanted.compute && texts.compute is None {
        Some(Stage::Compute)
    } else if wanted.geometry && texts.geometry is None {
        Some(Stage::Geometry)
    } else {
        None
    }
}

impl ShaderBuilder<ShaderStagesSpecified> {
    /// Pairs each wanted stage with its HLSL text, as read from `texts`.
    pub fn build_hlsl(self, texts: StageMap<String>) -> (r: Result<ShaderSource, SourceError>)
        ensures
            first_missing(self.spec_stages(), texts) matches Some(s) ==> r == Err::<
                ShaderSource,
                SourceError,
            >(SourceError::Missing(s)),
            first_missing(self.spec_stages(), texts) is None ==> r is Ok,
            r matches Ok(src) ==> src.path == self.spec_path() && forall|s: Stage|
                src.stages.spec_get(s) == gathered(self.spec_stages().has(s), texts.spec_get(s)),
    {
        let vertex = match pick_source(Stage::Vertex, self.stages.vertex, texts.vertex) {
            Ok(v) => v,
            Err(e) => return Err(e),
        };
        let fragment = match pick_source(Stage::Fragment, self.stages.fragment, texts.fragment) {
            Ok(v) => v,
            Err(e) => return Err(e),
        };
        let compute = match pick_source(Stage::Compute, self.stages.compute, texts.compute) {
            Ok(v) => v,
            Err(e) => return Err(e),
        };
        let geometry = match pick_source(Stage::Geometry, self.stages.geometry, texts.geometry) {
            Ok(v) => v,
            Err(e) => return Err(e),
        };
        Ok(ShaderSource { path: self.path, stages: StageMap { vertex, fragment, compute, geometry } })
    }
}

/// A compiled shader: one native module per requested stage.
#[derive(Debug)]
pub struct Shader {
    pub modules: StageMap<u64>,
}

impl Shader {
    /// Assembles a shader from the modules built for `info`; there must be exactly
    /// one module per requested stage.
    pub fn from_modules(info: &ShaderCreateInfo, modules: StageMap<u64>) -> (r: Option<Shader>)
        ensures
            r is Some <==> modules.spec_keys() == info.stages,
            r matches Some(sh) ==> sh.modules == modules,
    {
        let keys = modules.keys();
        if keys == info.stages {
            Some(Shader { modules })
        } else {
            None
        }
    }

    pub fn has_stage(&self, stage: Stage) -> (r: bool)
        ensures
            r == self.modules.spec_get(stage) is Some,
    {
        self.modules.contains_key(stage)
    }

    pub fn shader_modules(&self) -> (r: &StageMap<u64>)
        ensures
            *r == self.modules,
    {
        &self.modules
    }

    /// The stages with their modules, in stage order: what a pipeline's stage list is made of.
    pub fn pipeline_stages(&self) -> (r: Vec<(Stage, u64)>)
        ensures
            r@.len() == self.modules.spec_keys().spec_len(),
            forall|i: int|
                0 <= i < r@.len() ==> self.modules.spec_get(#[trigger] r@[i].0) == Some(r@[i].1)
                    && r@[i].0 == self.modules.spec_keys().spec_members()[i],
    {
        let keys = self.modules.keys();
        let members = keys.members();
        let mut out: Vec<(Stage, u64)> = Vec::new();
        let mut i: usize = 0;
        while i < members.len()
            invariant
                members@ == keys.spec_members(),
                keys == self.modules.spec_keys(),
                i <= members@.len(),
                out@.len() == i,
                forall|j: int|
                    0 <= j < i ==> self.modules.spec_get(#[trigger] out@[j].0) == Some(out@[j].1)
                        && out@[j].0 == members@[j],
            decreases members@.len() - i,
        {
            let stage = members[i];
            proof {
                assert(keys.has(stage)) by {
                    assert(keys.spec_members().contains(stage) ==> keys.has(stage));
                    assert(members@[i as int] == stage);
                }
            }
            let module = *self.modules.get(stage).unwrap();
            out.push((stage, module));
            i = i + 1;
        }
        out
    }

    /// What tearing the shader down releases: each module, once, in stage order.
    pub fn releases(&self) -> (r: Vec<Release>)
        ensures
            r@.len() == self.modules.spec_keys().spec_len(),
            forall|i: int|
                0 <= i < r@.len() ==> (#[trigger] r@[i]) is DestroyShaderModule && self.modules.spec_get(
                    self.modules.spec_keys().spec_members()[i],
                ) == Some(r@[i]->DestroyShaderModule_0),
    {
        let stages = self.pipeline_stages();
        let mut out: Vec<Release> = Vec::new();
        let mut i: usize = 0;
        while i < stages.len()
            invariant
                i <= stages@.len(),
                stages@.len() == self.modules.spec_keys().spec_len(),
                forall|j: int|
                    0 <= j < stages@.len() ==> self.modules.spec_get(#[trigger] stages@[j].0) == Some(
                        stages@[j].1,
                    ) && stages@[j].0 == self.modules.spec_keys().spec_members()[j],
                out@.len() == i,
                forall|j: int|
                    0 <= j < i ==> (#[trigger] out@[j]) == Release::DestroyShaderModule(
                        stages@[j].1,
                    ),
            decreases stages@.len() - i,
        {
            out.push(Release::DestroyShaderModule(stages[i].1));
            i = i + 1;
        }
        proof {
            assert forall|j: int| 0 <= j < out@.len() implies (#[trigger] out@[j]) is DestroyShaderModule
                && self.modules.spec_get(self.modules.spec_keys().spec_members()[j]) == Some(
                out@[j]->DestroyShaderModule_0,
            ) by {
                assert(self.modules.spec_get(stages@[j].0) == Some(stages@[j].1));
            }
        }
        out
    }
}

/// The first wanted stage, in stage order, that has no module yet.
pub open spec fn next_unbuilt(wanted: StageSet, modules: StageMap<u64>) -> Option<Stage> {
    if wanted.vertex && modules.vertex is None {
        Some(Stage::Vertex)
    } else if wanted.fragment && modules.fragment is None {
        Some(Stage::Fragment)
    } else if wanted.compute && modules.compute is None {
        Some(Stage::Compute)
    } else if wanted.geometry && modules.geometry is None {
        Some(Stage::Geometry)
    } else {
        None
    }
}

/// A shader being built stage by stage: either every wanted stage gets its module
/// and the shader is finished, or the modules built so far are all released.
#[derive(Debug)]
pub struct ShaderAssembly {
    pub wanted: StageSet,
    pub modules: StageMap<u64>,
}

impl ShaderAssembly {
    /// Only wanted stages hold modules.
    pub open spec fn wf(&self) -> bool {
        forall|s: Stage| #[trigger] self.modules.spec_get(s) is Some ==> self.wanted.has(s)
    }

    pub fn new(info: &ShaderCreateInfo) -> (r: ShaderAssembly)
        ensures
            r.wf(),
            r.wanted == info.stages,
            forall|s: Stage| r.modules.spec_get(s) is None,
    {
        ShaderAssembly { wanted: info.stages, modules: StageMap::new() }
    }

    /// The stage to build next, in stage order; `None` once every wanted stage is built.
    pub fn next_stage(&self) -> (r: Option<Stage>)
        ensures
            r == next_unbuilt(self.wanted, self.modules),
    {
        if self.wanted.vertex && self.modules.vertex.is_none() {
            Some(Stage::Vertex)
        } else if self.wanted.fragment && self.modules.fragment.is_none() {
            Some(Stage::Fragment)
        } else if self.wanted.compute && self.modules.compute.is_none() {
            Some(Stage::Compute)
        } else if self.wanted.geometry && self.modules.geometry.is_none() {
            Some(Stage::Geometry)
        } else {
            None
        }
    }

    /// Records the module built for `stage`.
    pub fn record(&mut self, stage: Stage, module: u64)
        requires
            old(self).wf(),
            old(self).wanted.has(stage),
        ensures
            final(self).wf(),
            final(self).wanted == old(self).wanted,
            final(self).modules.spec_get(stage) == Some(module),
            forall|t: Stage| t != stage ==> final(self).modules.spec_get(t) == old(self).modules.spec_get(t),
    {
        self.modules.insert(stage, module);
    }

    /// Gives up after a stage failed: the modules built so far, to be destroyed.
    pub fn abandon(self) -> (r: Vec<Release>)
        ensures
            r@.len() == self.modules.spec_keys().spec_len(),
            forall|i: int|
                0 <= i < r@.len() ==> (#[trigger] r@[i]) is DestroyShaderModule && self.modules.spec_get(
                    self.modules.spec_keys().spec_members()[i],
                ) == Some(r@[i]->DestroyShaderModule_0),
    {
        let partial = Shader { modules: self.modules };
        partial.releases()
    }

    /// The shader, once every wanted stage has its module.
    pub fn finish(self) -> (r: Result<Shader, ShaderAssembly>)
        requires
            self.wf(),
        ensures
            next_unbuilt(self.wanted, self.modules) is None ==> (r matches Ok(sh) && sh.modules
                == self.modules && sh.modules.spec_keys() == self.wanted),
            next_unbuilt(self.wanted, self.modules) is Some ==> (r matches Err(a) && a.wanted
                == self.wanted && a.modules == self.modules),
    {
        if self.next_stage().is_some() {
            Err(self)
        } else {
            proof {
                assert(self.modules.spec_keys() == self.wanted) by {
                    assert(self.modules.spec_get(Stage::Vertex) is Some ==> self.wanted.has(Stage::Vertex));
                    assert(self.modules.spec_get(Stage::Fragment) is Some ==> self.wanted.has(Stage::Fragment));
                    assert(self.modules.spec_get(Stage::Compute) is Some ==> self.wanted.has(Stage::Compute));
                    assert(self.modules.spec_get(Stage::Geometry) is Some ==> self.wanted.has(Stage::Geometry));
                }
            }
            Ok(Shader { modules: self.modules })
        }
    }
}

} // verus!
