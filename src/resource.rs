use vstd::prelude::*;

use crate::release::Release;

verus! {

/// One entry of an adapter's memory-type list, as raw driver values.
#[derive(Debug, Copy, Clone, PartialEq, Eq, Structural)]
pub struct MemoryType {
    pub property_flags: u32,
    pub heap_index: u32,
}

/// Bit `i` of a resource's memory-type mask is set.
pub open spec fn type_allowed(type_filter: u32, i: int) -> bool {
    0 <= i < 32 && (type_filter >> (i as u32)) & 1u32 == 1u32
}

/// Every flag of `wanted` is among `flags`.
pub open spec fn flags_contain(flags: u32, wanted: u32) -> bool {
    flags & wanted == wanted
}

pub open spec fn type_matches(types: Seq<MemoryType>, type_filter: u32, wanted: u32, i: int) -> bool {
    &&& 0 <= i < types.len()
    &&& type_allowed(type_filter, i)
    &&& flags_contain(types[i].property_flags, wanted)
}

/// The first memory type that the resource allows and that has every wanted property.
pub fn find_memory_type(types: &Vec<MemoryType>, type_filter: u32, properties: u32) -> (r: Option<
    usize,
>)
    ensures
        r matches Some(i) ==> type_matches(types@, type_filter, properties, i as int) && forall|
            j: int,
        | 0 <= j < i ==> !type_matches(types@, type_filter, properties, j),
        r is None ==> forall|j: int| !type_matches(types@, type_filter, properties, j),
{
    let mut i: usize = 0;
    while i < types.len() && i < 32
        invariant
            i <= types@.len(),
            i <= 32,
            forall|j: int| 0 <= j < i ==> !type_matches(types@, type_filter, properties, j),
        decreases types@.len() - i,
    {
        let t = types[i];
        if (type_filter >> (i as u32)) & 1u32 == 1u32 && t.property_flags & properties == properties {
            return Some(i);
        }
        i = i + 1;
    }
    None
}

/// The native object that a memory-backed resource wraps.
#[derive(Debug, Copy, Clone, PartialEq, Eq, Structural)]
pub enum ResourceKind {
    Buffer,
    Image,
}

/// Why a buffer or an image could not be created.
#[derive(Debug, Copy, Clone, PartialEq, Eq, Structural)]
pub enum ResourceError {
    CreateFailed,
    NoSuitableMemoryType,
    AllocateFailed,
    BindFailed,
    /// An event that the current step did not ask for.
    OutOfOrder,
}

/// What the driver reported for the last action.
#[derive(Debug, Copy, Clone, PartialEq, Eq, Structural)]
pub enum SetupEvent {
    Created(u64),
    CreateFailed,
    Requirements { size: u64, memory_type_bits: u32 },
    Allocated(u64),
    AllocateFailed,
    Bound,
    BindFailed,
}

/// What the driver is asked to do next.
#[derive(Debug, Clone, PartialEq, Eq)]
pub enum SetupAction {
    QueryRequirements(u64),
    Allocate { size: u64, memory_type_index: usize },
    Bind { object: u64, memory: u64 },
    /// The resource is complete and owns both handles.
    Finish { object: u64, memory: u64 },
    /// Creation failed: perform the releases, in order, and report the error.
    RollBack { releases: Vec<Release>, error: ResourceError },
}

#[derive(Debug, Copy, Clone, PartialEq, Eq, Structural)]
pub enum SetupPhase {
    Creating,
    Querying,
    Allocating,
    Binding,
    Done,
    Failed,
}

/// The creation of one buffer or image: create the object, find a memory type,
/// allocate, bind (images only). A failure releases exactly what was acquired.
#[derive(Debug, Clone)]
pub struct ResourceSetup {
    pub kind: ResourceKind,
    pub properties: u32,
    pub memory_types: Vec<MemoryType>,
    pub phase: SetupPhase,
    pub object: Option<u64>,
    pub memory: Option<u64>,
}

/// What an action takes off the setup's hands: the releases of a roll-back, or the
/// handles that a finished resource now owns.
pub open spec fn given_up(kind: ResourceKind, a: SetupAction) -> Seq<Release> {
    match a {
        SetupAction::RollBack { releases, .. } => releases@,
        SetupAction::Finish { object, memory } => seq![
            destroy_object(kind, object),
            Release::FreeMemory(memory),
        ],
        _ => Seq::empty(),
    }
}

pub open spec fn destroy_object(kind: ResourceKind, h: u64) -> Release {
    match kind {
        ResourceKind::Buffer => Release::DestroyBuffer(h),
        ResourceKind::Image => Release::DestroyImage(h),
    }
}

impl ResourceSetup {
    /// What the setup holds and would have to release: the object, then its memory.
    pub open spec fn outstanding(&self) -> Seq<Release> {
        (match self.object {
            Some(h) => seq![destroy_object(self.kind, h)],
            None => Seq::empty(),
        }) + (match self.memory {
            Some(m) => seq![Release::FreeMemory(m)],
            None => Seq::empty(),
        })
    }

    /// What `e` hands to the setup: the object when it was asked to be created,
    /// the memory when it was asked to be allocated.
    pub open spec fn acquired(&self, e: SetupEvent) -> Seq<Release> {
        match (self.phase, e) {
            (SetupPhase::Creating, SetupEvent::Created(h)) => seq![destroy_object(self.kind, h)],
            (SetupPhase::Allocating, SetupEvent::Allocated(m)) => seq![Release::FreeMemory(m)],
            _ => Seq::empty(),
        }
    }

    pub open spec fn wf(&self) -> bool {
        match self.phase {
            SetupPhase::Creating => self.object is None && self.memory is None,
            SetupPhase::Querying | SetupPhase::Allocating => self.object is Some
                && self.memory is None,
            SetupPhase::Binding => self.object is Some && self.memory is Some,
            SetupPhase::Done | SetupPhase::Failed => self.object is None && self.memory is None,
        }
    }

    /// A setup that asks first for the native object to be created.
    pub fn new(kind: ResourceKind, properties: u32, memory_types: Vec<MemoryType>) -> (r:
        ResourceSetup)
        ensures
            r.wf(),
            r.phase == SetupPhase::Creating,
            r.kind == kind,
            r.properties == properties,
            r.memory_types@ == memory_types@,
            r.outstanding().len() == 0,
    {
        ResourceSetup {
            kind,
            properties,
            memory_types,
            phase: SetupPhase::Creating,
            object: None,
            memory: None,
        }
    }

    fn destroy_object_release(&self, h: u64) -> (r: Release)
        ensures
            r == destroy_object(self.kind, h),
    {
        match self.kind {
            ResourceKind::Buffer => Release::DestroyBuffer(h),
            ResourceKind::Image => Release::DestroyImage(h),
        }
    }

    /// Gives up: every outstanding handle is released and nothing stays held.
    fn roll_back(&mut self, error: ResourceError) -> (r: SetupAction)
        requires
            old(self).wf(),
        ensures
            r matches SetupAction::RollBack { releases, error: e } && releases@ == old(self).outstanding() && e == error,
            final(self).phase == SetupPhase::Failed,
            final(self).wf(),
            final(self).outstanding().len() == 0,
            final(self).kind == old(self).kind,
            final(self).memory_types == old(self).memory_types,
            final(self).properties == old(self).properties,
    {
        let mut releases: Vec<Release> = Vec::new();
        if let Some(h) = self.object {
            releases.push(self.destroy_object_release(h));
        }
        if let Some(m) = self.memory {
            releases.push(Release::FreeMemory(m));
        }
        assert(releases@ =~= self.outstanding());
        self.object = None;
        self.memory = None;
        self.phase = SetupPhase::Failed;
        SetupAction::RollBack { releases, error }
    }

    /// Takes the driver's answer to the last action and returns the next one.
    pub fn step(&mut self, event: SetupEvent) -> (r: SetupAction)
        requires
            old(self).wf(),
        ensures
            final(self).wf(),
            final(self).kind == old(self).kind,
            final(self).memory_types == old(self).memory_types,
            final(self).properties == old(self).properties,
            // A failure hands back exactly what was held, and leaves nothing held.
            r matches SetupAction::RollBack { releases, .. } ==> releases@ == old(self).outstanding() && final(self).phase == SetupPhase::Failed && final(self).outstanding().len() == 0,
            // Nothing is lost: what was held, plus what the event brought, is still
            // held, released by a roll-back, or owned by the finished resource.
            old(self).outstanding() + old(self).acquired(event) == final(self).outstanding()
                + given_up(old(self).kind, r),
            // A completed resource owns its handles: the setup holds nothing more.
            r is Finish ==> final(self).phase == SetupPhase::Done && final(self).outstanding().len()
                == 0,
            old(self).phase == SetupPhase::Creating ==> match event {
                SetupEvent::Created(h) => r == SetupAction::QueryRequirements(h) && final(self).object == Some(h) && final(self).phase == SetupPhase::Querying,
                SetupEvent::CreateFailed => r matches SetupAction::RollBack { error, .. } && error
                    == ResourceError::CreateFailed,
                _ => r matches SetupAction::RollBack { error, .. } && error
                    == ResourceError::OutOfOrder,
            },
            old(self).phase == SetupPhase::Querying ==> match event {
                SetupEvent::Requirements { size, memory_type_bits } => {
                    if exists|i: int|
                        type_matches(
                            old(self).memory_types@,
                            memory_type_bits,
                            old(self).properties,
                            i,
                        ) {
                        r matches SetupAction::Allocate { size: s, memory_type_index: i } && s
                            == size && type_matches(
                            old(self).memory_types@,
                            memory_type_bits,
                            old(self).properties,
                            i as int,
                        ) && (forall|j: int|
                            0 <= j < i ==> !type_matches(
                                old(self).memory_types@,
                                memory_type_bits,
                                old(self).properties,
                                j,
                            )) && final(self).phase == SetupPhase::Allocating
                    } else {
                        r matches SetupAction::RollBack { error, .. } && error
                            == ResourceError::NoSuitableMemoryType
                    }
                },
                _ => r matches SetupAction::RollBack { error, .. } && error
                    == ResourceError::OutOfOrder,
            },
            old(self).phase == SetupPhase::Allocating ==> match event {
                SetupEvent::Allocated(m) => match old(self).kind {
                    ResourceKind::Buffer => r == SetupAction::Finish {
                        object: old(self).object->Some_0,
                        memory: m,
                    } && final(self).phase == SetupPhase::Done,
                    ResourceKind::Image => r == SetupAction::Bind {
                        object: old(self).object->Some_0,
                        memory: m,
                    } && final(self).phase == SetupPhase::Binding && final(self).object == old(self).object && final(self).memory == Some(m),
                },
                SetupEvent::AllocateFailed => r matches SetupAction::RollBack { error, .. }
                    && error == ResourceError::AllocateFailed,
                _ => r matches SetupAction::RollBack { error, .. } && error
                    == ResourceError::OutOfOrder,
            },
            old(self).phase == SetupPhase::Binding ==> match event {
                SetupEvent::Bound => r == SetupAction::Finish {
                    object: old(self).object->Some_0,
                    memory: old(self).memory->Some_0,
                } && final(self).phase == SetupPhase::Done,
                SetupEvent::BindFailed => r matches SetupAction::RollBack { error, .. } && error
                    == ResourceError::BindFailed,
                _ => r matches SetupAction::RollBack { error, .. } && error
                    == ResourceError::OutOfOrder,
            },
            (old(self).phase == SetupPhase::Done || old(self).phase == SetupPhase::Failed) ==> (
            r matches SetupAction::RollBack { releases, error } && releases@.len() == 0 && error
                == ResourceError::OutOfOrder),
    {
        match self.phase {
            SetupPhase::Creating => match event {
                SetupEvent::Created(h) => {
                    self.object = Some(h);
                    self.phase = SetupPhase::Querying;
                    SetupAction::QueryRequirements(h)
                },
                SetupEvent::CreateFailed => self.roll_back(ResourceError::CreateFailed),
                _ => self.roll_back(ResourceError::OutOfOrder),
            },
            SetupPhase::Querying => match event {
                SetupEvent::Requirements { size, memory_type_bits } => {
                    match find_memory_type(&self.memory_types, memory_type_bits, self.properties) {
                        Some(i) => {
                            self.phase = SetupPhase::Allocating;
                            SetupAction::Allocate { size, memory_type_index: i }
                        },
                        None => self.roll_back(ResourceError::NoSuitableMemoryType),
                    }
                },
                _ => self.roll_back(ResourceError::OutOfOrder),
            },
            SetupPhase::Allocating => match event {
                SetupEvent::Allocated(m) => {
                    let object = self.object.unwrap();
                    self.memory = Some(m);
                    match self.kind {
                        ResourceKind::Buffer => {
                            self.object = None;
                            self.memory = None;
                            self.phase = SetupPhase::Done;
                            SetupAction::Finish { object, memory: m }
                        },
                        ResourceKind::Image => {
                            self.phase = SetupPhase::Binding;
                            SetupAction::Bind { object, memory: m }
                        },
                    }
                },
                SetupEvent::AllocateFailed => self.roll_back(ResourceError::AllocateFailed),
                _ => self.roll_back(ResourceError::OutOfOrder),
            },
            SetupPhase::Binding => match event {
                SetupEvent::Bound => {
                    let object = self.object.unwrap();
                    let memory = self.memory.unwrap();
                    self.object = None;
                    self.memory = None;
                    self.phase = SetupPhase::Done;
                    SetupAction::Finish { object, memory }
                },
                SetupEvent::BindFailed => self.roll_back(ResourceError::BindFailed),
                _ => self.roll_back(ResourceError::OutOfOrder),
            },
            SetupPhase::Done | SetupPhase::Failed => self.roll_back(ResourceError::OutOfOrder),
        }
    }
}

/// Everything that the first `n` events of a run handed to the setup.
pub open spec fn total_acquired(states: Seq<ResourceSetup>, events: Seq<SetupEvent>, n: nat) -> Seq<
    Release,
>
    decreases n,
{
    if n == 0 {
        Seq::empty()
    } else {
        total_acquired(states, events, (n - 1) as nat) + states[n - 1].acquired(events[n - 1])
    }
}

/// Everything that the first `n` actions of a run took off the setup's hands.
pub open spec fn total_given_up(states: Seq<ResourceSetup>, actions: Seq<SetupAction>, n: nat) -> Seq<
    Release,
>
    decreases n,
{
    if n == 0 {
        Seq::empty()
    } else {
        total_given_up(states, actions, (n - 1) as nat) + given_up(states[n - 1].kind, actions[n - 1])
    }
}

/// Over a run of `step` calls from a setup that holds nothing, every handle that was
/// created or allocated is, counted with multiplicity, still held or given up:
/// released by a roll-back or owned by the finished resource. A run that fails
/// holds nothing at its end, so it has released every handle it acquired.
pub proof fn lemma_run_balances(
    states: Seq<ResourceSetup>,
    events: Seq<SetupEvent>,
    actions: Seq<SetupAction>,
    n: nat,
)
    requires
        n <= events.len(),
        states.len() == events.len() + 1,
        actions.len() == events.len(),
        states[0].outstanding().len() == 0,
        forall|i: int|
            0 <= i < events.len() ==> #[trigger] states[i].outstanding() + states[i].acquired(
                events[i],
            ) == states[i + 1].outstanding() + given_up(states[i].kind, actions[i]),
    ensures
        total_acquired(states, events, n).to_multiset() == (states[n as int].outstanding()
            + total_given_up(states, actions, n)).to_multiset(),
    decreases n,
{
    broadcast use vstd::seq_lib::lemma_multiset_commutative;
    broadcast use vstd::multiset::group_multiset_axioms;

    if n == 0 {
        assert(states[0].outstanding() + total_given_up(states, actions, 0) =~= Seq::empty());
        assert(total_acquired(states, events, 0) =~= Seq::empty());
    } else {
        let i = (n - 1) as int;
        lemma_run_balances(states, events, actions, (n - 1) as nat);
        let a = total_acquired(states, events, (n - 1) as nat);
        let g = total_given_up(states, actions, (n - 1) as nat);
        let acq = states[i].acquired(events[i]);
        let gu = given_up(states[i].kind, actions[i]);
        let before = states[i].outstanding();
        let after = states[i + 1].outstanding();
        assert(before + acq == after + gu);
        assert((a + acq).to_multiset() =~= a.to_multiset().add(acq.to_multiset()));
        assert((before + g).to_multiset() =~= before.to_multiset().add(g.to_multiset()));
        assert((before + acq).to_multiset() =~= before.to_multiset().add(acq.to_multiset()));
        assert((after + gu).to_multiset() =~= after.to_multiset().add(gu.to_multiset()));
        assert((g + gu).to_multiset() =~= g.to_multiset().add(gu.to_multiset()));
        assert((after + (g + gu)).to_multiset() =~= after.to_multiset().add((g + gu).to_multiset()));
        assert(total_acquired(states, events, n) == a + acq);
        assert(total_given_up(states, actions, n) == g + gu);
        let (mb, mg, macq, ma, mgu) = (
            before.to_multiset(),
            g.to_multiset(),
            acq.to_multiset(),
            after.to_multiset(),
            gu.to_multiset(),
        );
        assert(mb.add(mg).add(macq) =~= mb.add(macq).add(mg));
        assert(ma.add(mgu).add(mg) =~= ma.add(mg.add(mgu)));
        assert((a + acq).to_multiset() =~= (after + (g + gu)).to_multiset());
    }
}

} // verus!
