use vstd::prelude::*;

use crate::device::{
    any_suitable, find_queue_families, pick_physical_device, spec_queue_families, spec_selected,
    AdapterInfo, QueueFamilyIndices,
};
use crate::release::Release;

verus! {

/// Why no context could be built. Each is fatal for the context.
#[derive(Debug, Copy, Clone, PartialEq, Eq, Structural)]
pub enum ContextError {
    InstanceFailed,
    SurfaceFailed,
    NoSuitableDevice,
    DeviceFailed,
    CommandPoolFailed,
    /// An event that the current step did not ask for.
    OutOfOrder,
}

/// What the driver reported for the last action.
#[derive(Debug, Clone)]
pub enum ContextEvent {
    InstanceCreated,
    InstanceFailed,
    MessengerCreated(u64),
    /// The debug messenger could not be made: the context goes on without it.
    MessengerFailed,
    SurfaceCreated,
    SurfaceFailed,
    /// What each physical adapter offers.
    Adapters(Vec<AdapterInfo>),
    DeviceCreated,
    DeviceFailed,
    CommandPoolCreated(u64),
    CommandPoolFailed,
}

/// What the driver is asked to do next.
#[derive(Debug, Clone, PartialEq, Eq)]
pub enum ContextAction {
    CreateMessenger,
    CreateSurface,
    DescribeAdapters,
    /// Create the logical device on adapter `adapter`, one queue per family.
    CreateDevice { adapter: usize, queues: QueueFamilyIndices },
    CreateCommandPool { graphics_family: usize },
    Ready { adapter: usize, queues: QueueFamilyIndices },
    /// Construction failed: perform the releases, in order, and report the error.
    RollBack { releases: Vec<Release>, error: ContextError },
}

#[derive(Debug, Copy, Clone, PartialEq, Eq, Structural)]
pub enum ContextPhase {
    CreatingInstance,
    CreatingMessenger,
    CreatingSurface,
    Selecting,
    CreatingDevice,
    CreatingCommandPool,
    Ready,
    Failed,
}

/// The construction of a render context: instance, debug messenger when validation
/// is on, surface, adapter choice, logical device, command pool. A failure after
/// some steps releases what those steps acquired, newest first.
#[derive(Debug, Clone)]
pub struct ContextSetup {
    pub validation: bool,
    pub required_extensions: Vec<String>,
    pub phase: ContextPhase,
    /// What was acquired so far, oldest first.
    pub held: Vec<Release>,
    pub adapter: usize,
    pub queues: QueueFamilyIndices,
}

impl ContextSetup {
    /// A setup that asks first for the instance to be created.
    pub fn new(validation: bool, required_extensions: Vec<String>) -> (r: ContextSetup)
        ensures
            r.phase == ContextPhase::CreatingInstance,
            r.validation == validation,
            r.required_extensions@ == required_extensions@,
            r.held@.len() == 0,
    {
        ContextSetup {
            validation,
            required_extensions,
            phase: ContextPhase::CreatingInstance,
            held: Vec::new(),
            adapter: 0,
            queues: QueueFamilyIndices { graphics_family: 0, present_family: 0 },
        }
    }

    /// Gives up: everything held is released, newest first.
    fn roll_back(&mut self, error: ContextError) -> (r: ContextAction)
        ensures
            r matches ContextAction::RollBack { releases, error: e } && releases@ == old(self).held@.reverse() && e == error,
            final(self).phase == ContextPhase::Failed,
            final(self).held@.len() == 0,
            final(self).validation == old(self).validation,
            final(self).required_extensions == old(self).required_extensions,
            final(self).adapter == old(self).adapter,
            final(self).queues == old(self).queues,
    {
        let mut releases: Vec<Release> = Vec::new();
        let mut i: usize = self.held.len();
        while i > 0
            invariant
                i <= self.held@.len(),
                releases@.len() == self.held@.len() - i,
                forall|k: int|
                    0 <= k < releases@.len() ==> releases@[k] == self.held@[self.held@.len() - 1 - k],
            decreases i,
        {
            i = i - 1;
            releases.push(self.held[i]);
        }
        assert(releases@ =~= self.held@.reverse());
        self.held = Vec::new();
        self.phase = ContextPhase::Failed;
        ContextAction::RollBack { releases, error }
    }

    /// Takes the driver's answer to the last action and returns the next one.
    pub fn step(&mut self, event: ContextEvent) -> (r: ContextAction)
        ensures
            final(self).validation == old(self).validation,
            final(self).required_extensions == old(self).required_extensions,
            // Only the choice of an adapter changes which adapter and queues are used.
            !(r is CreateDevice) ==> final(self).adapter == old(self).adapter && final(self).queues
                == old(self).queues,
            r matches ContextAction::RollBack { releases, .. } ==> releases@ == old(self).held@.reverse() && final(self).phase == ContextPhase::Failed && final(self).held@.len() == 0,
            old(self).phase == ContextPhase::CreatingInstance ==> match event {
                ContextEvent::InstanceCreated => final(self).held@ == old(self).held@.push(
                    Release::DestroyInstance,
                ) && if old(self).validation {
                    r == ContextAction::CreateMessenger && final(self).phase
                        == ContextPhase::CreatingMessenger
                } else {
                    r == ContextAction::CreateSurface && final(self).phase
                        == ContextPhase::CreatingSurface
                },
                ContextEvent::InstanceFailed => r matches ContextAction::RollBack { error, .. }
                    && error == ContextError::InstanceFailed,
                _ => r matches ContextAction::RollBack { error, .. } && error
                    == ContextError::OutOfOrder,
            },
            old(self).phase == ContextPhase::CreatingMessenger ==> match event {
                ContextEvent::MessengerCreated(m) => final(self).held@ == old(self).held@.push(
                    Release::DestroyDebugMessenger(m),
                ) && r == ContextAction::CreateSurface && final(self).phase
                    == ContextPhase::CreatingSurface,
                ContextEvent::MessengerFailed => final(self).held@ == old(self).held@ && r
                    == ContextAction::CreateSurface && final(self).phase
                    == ContextPhase::CreatingSurface,
                _ => r matches ContextAction::RollBack { error, .. } && error
                    == ContextError::OutOfOrder,
            },
            old(self).phase == ContextPhase::CreatingSurface ==> match event {
                ContextEvent::SurfaceCreated => final(self).held@ == old(self).held@ && r
                    == ContextAction::DescribeAdapters && final(self).phase
                    == ContextPhase::Selecting,
                ContextEvent::SurfaceFailed => r matches ContextAction::RollBack { error, .. }
                    && error == ContextError::SurfaceFailed,
                _ => r matches ContextAction::RollBack { error, .. } && error
                    == ContextError::OutOfOrder,
            },
            old(self).phase == ContextPhase::Selecting ==> match event {
                ContextEvent::Adapters(list) => match r {
                    ContextAction::CreateDevice { adapter, queues } => spec_selected(
                        list@,
                        old(self).required_extensions@,
                        adapter as int,
                    ) && spec_queue_families(list@[adapter as int].queue_families@, queues)
                        && final(self).held@ == old(self).held@ && final(self).adapter == adapter
                        && final(self).queues == queues && final(self).phase
                        == ContextPhase::CreatingDevice,
                    ContextAction::RollBack { error, .. } => error
                        == ContextError::NoSuitableDevice && !any_suitable(
                        list@,
                        old(self).required_extensions@,
                    ),
                    _ => false,
                },
                _ => r matches ContextAction::RollBack { error, .. } && error
                    == ContextError::OutOfOrder,
            },
            old(self).phase == ContextPhase::CreatingDevice ==> match event {
                ContextEvent::DeviceCreated => final(self).held@ == old(self).held@.push(
                    Release::DestroyDevice,
                ) && r == ContextAction::CreateCommandPool {
                    graphics_family: old(self).queues.graphics_family,
                } && final(self).phase == ContextPhase::CreatingCommandPool,
                ContextEvent::DeviceFailed => r matches ContextAction::RollBack { error, .. }
                    && error == ContextError::DeviceFailed,
                _ => r matches ContextAction::RollBack { error, .. } && error
                    == ContextError::OutOfOrder,
            },
            old(self).phase == ContextPhase::CreatingCommandPool ==> match event {
                ContextEvent::CommandPoolCreated(p) => final(self).held@ == old(self).held@.push(
                    Release::DestroyCommandPool(p),
                ) && r == ContextAction::Ready {
                    adapter: old(self).adapter,
                    queues: old(self).queues,
                } && final(self).phase == ContextPhase::Ready,
                ContextEvent::CommandPoolFailed => r matches ContextAction::RollBack { error, .. }
                    && error == ContextError::CommandPoolFailed,
                _ => r matches ContextAction::RollBack { error, .. } && error
                    == ContextError::OutOfOrder,
            },
            (old(self).phase == ContextPhase::Ready || old(self).phase == ContextPhase::Failed)
                ==> (r matches ContextAction::RollBack { error, .. } && error
                == ContextError::OutOfOrder),
    {
        match self.phase {
            ContextPhase::CreatingInstance => match event {
                ContextEvent::InstanceCreated => {
                    self.held.push(Release::DestroyInstance);
                    if self.validation {
                        self.phase = ContextPhase::CreatingMessenger;
                        ContextAction::CreateMessenger
                    } else {
                        self.phase = ContextPhase::CreatingSurface;
                        ContextAction::CreateSurface
                    }
                },
                ContextEvent::InstanceFailed => self.roll_back(ContextError::InstanceFailed),
                _ => self.roll_back(ContextError::OutOfOrder),
            },
            ContextPhase::CreatingMessenger => match event {
                ContextEvent::MessengerCreated(m) => {
                    self.held.push(Release::DestroyDebugMessenger(m));
                    self.phase = ContextPhase::CreatingSurface;
                    ContextAction::CreateSurface
                },
                ContextEvent::MessengerFailed => {
                    self.phase = ContextPhase::CreatingSurface;
                    ContextAction::CreateSurface
                },
                _ => self.roll_back(ContextError::OutOfOrder),
            },
            ContextPhase::CreatingSurface => match event {
                ContextEvent::SurfaceCreated => {
                    self.phase = ContextPhase::Selecting;
                    ContextAction::DescribeAdapters
                },
                ContextEvent::SurfaceFailed => self.roll_back(ContextError::SurfaceFailed),
                _ => self.roll_back(ContextError::OutOfOrder),
            },
            ContextPhase::Selecting => match event {
                ContextEvent::Adapters(list) => {
                    match pick_physical_device(&list, &self.required_extensions) {
                        Ok(k) => {
                            match find_queue_families(&list[k].queue_families) {
                                Some(q) => {
                                    self.adapter = k;
                                    self.queues = q;
                                    self.phase = ContextPhase::CreatingDevice;
                                    ContextAction::CreateDevice { adapter: k, queues: q }
                                },
                                None => self.roll_back(ContextError::NoSuitableDevice),
                            }
                        },
                        Err(_) => self.roll_back(ContextError::NoSuitableDevice),
                    }
                },
                _ => self.roll_back(ContextError::OutOfOrder),
            },
            ContextPhase::CreatingDevice => match event {
                ContextEvent::DeviceCreated => {
                    self.held.push(Release::DestroyDevice);
                    self.phase = ContextPhase::CreatingCommandPool;
                    ContextAction::CreateCommandPool { graphics_family: self.queues.graphics_family }
                },
                ContextEvent::DeviceFailed => self.roll_back(ContextError::DeviceFailed),
                _ => self.roll_back(ContextError::OutOfOrder),
            },
            ContextPhase::CreatingCommandPool => match event {
                ContextEvent::CommandPoolCreated(p) => {
                    self.held.push(Release::DestroyCommandPool(p));
                    self.phase = ContextPhase::Ready;
                    ContextAction::Ready { adapter: self.adapter, queues: self.queues }
                },
                ContextEvent::CommandPoolFailed => self.roll_back(ContextError::CommandPoolFailed),
                _ => self.roll_back(ContextError::OutOfOrder),
            },
            ContextPhase::Ready | ContextPhase::Failed => self.roll_back(ContextError::OutOfOrder),
        }
    }
}

} // verus!
