use vstd::prelude::*;
use vstd::string::StringExecFns;

verus! {

/// A programmable point of the graphics pipeline.
#[derive(Debug, Copy, Clone, PartialEq, Eq, Hash, Structural)]
pub enum Stage {
    Vertex,
    Fragment,
    Compute,
    Geometry,
}

impl Stage {
    /// The stage's name in snake case; it names the stage's cached artifact.
    pub open spec fn spec_name(self) -> Seq<char> {
        match self {
            Stage::Vertex => "vertex"@,
            Stage::Fragment => "fragment"@,
            Stage::Compute => "compute"@,
            Stage::Geometry => "geometry"@,
        }
    }

    /// The name of the function that a stage's source must define.
    pub open spec fn spec_entry_point(self) -> Seq<char> {
        self.spec_name() + "_main"@
    }

    pub fn as_str(self) -> (r: &'static str)
        ensures
            r@ == self.spec_name(),
    {
        match self {
            Stage::Vertex => "vertex",
            Stage::Fragment => "fragment",
            Stage::Compute => "compute",
            Stage::Geometry => "geometry",
        }
    }

    pub fn into_entry_point_string(self) -> (r: String)
        ensures
            r@ == self.spec_entry_point(),
    {
        let mut s = String::from_str(self.as_str());
        s.append("_main");
        s
    }
}

/// A set of stages, held as one flag per stage.
#[derive(Debug, Copy, Clone, PartialEq, Eq, Structural)]
pub struct StageSet {
    pub vertex: bool,
    pub fragment: bool,
    pub compute: bool,
    pub geometry: bool,
}

impl StageSet {
    pub open spec fn has(self, s: Stage) -> bool {
        match s {
            Stage::Vertex => self.vertex,
            Stage::Fragment => self.fragment,
            Stage::Compute => self.compute,
            Stage::Geometry => self.geometry,
        }
    }

    /// The members in stage order: Vertex, Fragment, Compute, Geometry.
    pub open spec fn spec_members(self) -> Seq<Stage> {
        (if self.vertex { seq![Stage::Vertex] } else { Seq::empty() })
            + (if self.fragment { seq![Stage::Fragment] } else { Seq::empty() })
            + (if self.compute { seq![Stage::Compute] } else { Seq::empty() })
            + (if self.geometry { seq![Stage::Geometry] } else { Seq::empty() })
    }

    pub open spec fn spec_len(self) -> nat {
        self.spec_members().len()
    }

    pub fn new() -> (r: StageSet)
        ensures
            forall|s: Stage| !r.has(s),
    {
        StageSet { vertex: false, fragment: false, compute: false, geometry: false }
    }

    pub fn contains(&self, s: Stage) -> (r: bool)
        ensures
            r == self.has(s),
    {
        match s {
            Stage::Vertex => self.vertex,
            Stage::Fragment => self.fragment,
            Stage::Compute => self.compute,
            Stage::Geometry => self.geometry,
        }
    }

    pub fn insert(&mut self, s: Stage)
        ensures
            forall|t: Stage| final(self).has(t) == (old(self).has(t) || t == s),
    {
        match s {
            Stage::Vertex => self.vertex = true,
            Stage::Fragment => self.fragment = true,
            Stage::Compute => self.compute = true,
            Stage::Geometry => self.geometry = true,
        }
    }

    pub fn extend(&mut self, stages: &[Stage])
        ensures
            forall|t: Stage| #[trigger]
                final(self).has(t) == (old(self).has(t) || stages@.contains(t)),
    {
        let mut i: usize = 0;
        while i < stages.len()
            invariant
                i <= stages@.len(),
                forall|t: Stage| #[trigger]
                    self.has(t) == (old(self).has(t) || exists|k: int|
                        0 <= k < i && stages@[k] == t),
            decreases stages@.len() - i,
        {
            self.insert(stages[i]);
            i = i + 1;
        }
    }

    /// The members in the fixed stage order: Vertex, Fragment, Compute, Geometry.
    pub fn members(&self) -> (r: Vec<Stage>)
        ensures
            r@ == self.spec_members(),
    {
        let mut v: Vec<Stage> = Vec::new();
        if self.vertex {
            v.push(Stage::Vertex);
        }
        if self.fragment {
            v.push(Stage::Fragment);
        }
        if self.compute {
            v.push(Stage::Compute);
        }
        if self.geometry {
            v.push(Stage::Geometry);
        }
        assert(v@ =~= self.spec_members());
        v
    }
}

/// A map from stage to value, with one slot per stage.
#[derive(Debug, Clone)]
pub struct StageMap<T> {
    pub vertex: Option<T>,
    pub fragment: Option<T>,
    pub compute: Option<T>,
    pub geometry: Option<T>,
}

impl<T> StageMap<T> {
    pub open spec fn spec_get(&self, s: Stage) -> Option<T> {
        match s {
            Stage::Vertex => self.vertex,
            Stage::Fragment => self.fragment,
            Stage::Compute => self.compute,
            Stage::Geometry => self.geometry,
        }
    }

    /// The set of stages that hold a value.
    pub open spec fn spec_keys(&self) -> StageSet {
        StageSet {
            vertex: self.vertex is Some,
            fragment: self.fragment is Some,
            compute: self.compute is Some,
            geometry: self.geometry is Some,
        }
    }

    pub fn new() -> (r: StageMap<T>)
        ensures
            forall|s: Stage| r.spec_get(s) is None,
    {
        StageMap { vertex: None, fragment: None, compute: None, geometry: None }
    }

    pub fn get(&self, s: Stage) -> (r: Option<&T>)
        ensures
            r == match self.spec_get(s) {
                Some(v) => Some(&v),
                None => None,
            },
    {
        match s {
            Stage::Vertex => self.vertex.as_ref(),
            Stage::Fragment => self.fragment.as_ref(),
            Stage::Compute => self.compute.as_ref(),
            Stage::Geometry => self.geometry.as_ref(),
        }
    }

    pub fn contains_key(&self, s: Stage) -> (r: bool)
        ensures
            r == self.spec_get(s) is Some,
    {
        match s {
            Stage::Vertex => self.vertex.is_some(),
            Stage::Fragment => self.fragment.is_some(),
            Stage::Compute => self.compute.is_some(),
            Stage::Geometry => self.geometry.is_some(),
        }
    }

    pub fn insert(&mut self, s: Stage, v: T)
        ensures
            final(self).spec_get(s) == Some(v),
            forall|t: Stage| t != s ==> final(self).spec_get(t) == old(self).spec_get(t),
    {
        match s {
            Stage::Vertex => self.vertex = Some(v),
            Stage::Fragment => self.fragment = Some(v),
            Stage::Compute => self.compute = Some(v),
            Stage::Geometry => self.geometry = Some(v),
        }
    }

    /// The stages that hold a value.
    pub fn keys(&self) -> (r: StageSet)
        ensures
            r == self.spec_keys(),
    {
        StageSet {
            vertex: self.vertex.is_some(),
            fragment: self.fragment.is_some(),
            compute: self.compute.is_some(),
            geometry: self.geometry.is_some(),
        }
    }

    /// The number of stages that hold a value.
    pub fn len(&self) -> (r: usize)
        ensures
            r == self.spec_keys().spec_len(),
    {
        let keys = self.keys();
        let members = keys.members();
        members.len()
    }
}

} // verus!
