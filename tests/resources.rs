use koyote::release::Release;
use koyote::resource::{
    find_memory_type, MemoryType, ResourceError, ResourceKind, ResourceSetup, SetupAction,
    SetupEvent, SetupPhase,
};

const DEVICE_LOCAL: u32 = 0x1;
const HOST_VISIBLE: u32 = 0x2;
const HOST_COHERENT: u32 = 0x4;

/// A driver that counts what it creates and what it releases, and can be told to fail.
#[derive(Default)]
struct MockDriver {
    next_handle: u64,
    created: u32,
    destroyed: u32,
    allocated: u32,
    freed: u32,
    fail_allocate: bool,
    fail_bind: bool,
    memory_type_bits: u32,
}

impl MockDriver {
    fn handle(&mut self) -> u64 {
        self.next_handle += 1;
        self.next_handle
    }

    fn release(&mut self, r: Release) {
        match r {
            Release::DestroyBuffer(_) | Release::DestroyImage(_) => self.destroyed += 1,
            Release::FreeMemory(_) => self.freed += 1,
            _ => panic!("unexpected release"),
        }
    }

    /// Runs a setup to its end; returns the resource's handles or the error.
    fn run(&mut self, mut setup: ResourceSetup) -> Result<(u64, u64), ResourceError> {
        let h = self.handle();
        self.created += 1;
        let mut action = setup.step(SetupEvent::Created(h));
        loop {
            action = match action {
                SetupAction::QueryRequirements(_) => setup.step(SetupEvent::Requirements {
                    size: 256,
                    memory_type_bits: self.memory_type_bits,
                }),
                SetupAction::Allocate { .. } => {
                    if self.fail_allocate {
                        setup.step(SetupEvent::AllocateFailed)
                    } else {
                        let m = self.handle();
                        self.allocated += 1;
                        setup.step(SetupEvent::Allocated(m))
                    }
                }
                SetupAction::Bind { .. } => {
                    if self.fail_bind {
                        setup.step(SetupEvent::BindFailed)
                    } else {
                        setup.step(SetupEvent::Bound)
                    }
                }
                SetupAction::Finish { object, memory } => return Ok((object, memory)),
                SetupAction::RollBack { releases, error } => {
                    for r in releases {
                        self.release(r);
                    }
                    return Err(error);
                }
            }
        }
    }
}

fn types() -> Vec<MemoryType> {
    vec![
        MemoryType { property_flags: DEVICE_LOCAL, heap_index: 0 },
        MemoryType { property_flags: HOST_VISIBLE | HOST_COHERENT, heap_index: 1 },
        MemoryType { property_flags: DEVICE_LOCAL | HOST_VISIBLE | HOST_COHERENT, heap_index: 0 },
    ]
}

#[test]
fn memory_type_first_match() {
    assert_eq!(find_memory_type(&types(), 0b111, HOST_VISIBLE), Some(1));
    assert_eq!(find_memory_type(&types(), 0b101, HOST_VISIBLE), Some(2));
    assert_eq!(find_memory_type(&types(), 0b111, DEVICE_LOCAL), Some(0));
    assert_eq!(find_memory_type(&types(), 0b111, 0), Some(0));
}

#[test]
fn memory_type_none_matches() {
    assert_eq!(find_memory_type(&types(), 0b011, DEVICE_LOCAL | HOST_VISIBLE), None);
    assert_eq!(find_memory_type(&types(), 0, 0), None);
    assert_eq!(find_memory_type(&vec![], 0xffff_ffff, 0), None);
    assert_eq!(find_memory_type(&types(), 0b111, 0x100), None);
}

#[test]
fn buffer_without_memory_type_rolls_back() {
    let mut driver = MockDriver { memory_type_bits: 0b011, ..Default::default() };
    let setup = ResourceSetup::new(ResourceKind::Buffer, DEVICE_LOCAL | HOST_VISIBLE, types());
    assert_eq!(driver.run(setup), Err(ResourceError::NoSuitableMemoryType));
    assert_eq!(driver.created, driver.destroyed);
    assert_eq!(driver.allocated, driver.freed);
    assert_eq!(driver.created, 1);
}

#[test]
fn image_without_memory_type_rolls_back() {
    let mut driver = MockDriver { memory_type_bits: 0b001, ..Default::default() };
    let setup = ResourceSetup::new(ResourceKind::Image, HOST_VISIBLE, types());
    assert_eq!(driver.run(setup), Err(ResourceError::NoSuitableMemoryType));
    assert_eq!(driver.created, driver.destroyed);
    assert_eq!(driver.allocated, driver.freed);
}

#[test]
fn allocation_failure_destroys_object() {
    let mut driver = MockDriver { memory_type_bits: 0b111, fail_allocate: true, ..Default::default() };
    let setup = ResourceSetup::new(ResourceKind::Buffer, HOST_VISIBLE, types());
    assert_eq!(driver.run(setup), Err(ResourceError::AllocateFailed));
    assert_eq!((driver.created, driver.destroyed), (1, 1));
    assert_eq!((driver.allocated, driver.freed), (0, 0));
}

#[test]
fn bind_failure_releases_image_and_memory() {
    let mut driver = MockDriver { memory_type_bits: 0b111, fail_bind: true, ..Default::default() };
    let setup = ResourceSetup::new(ResourceKind::Image, DEVICE_LOCAL, types());
    assert_eq!(driver.run(setup), Err(ResourceError::BindFailed));
    assert_eq!((driver.created, driver.destroyed), (1, 1));
    assert_eq!((driver.allocated, driver.freed), (1, 1));
}

#[test]
fn buffer_success_keeps_handles() {
    let mut driver = MockDriver { memory_type_bits: 0b111, ..Default::default() };
    let setup = ResourceSetup::new(ResourceKind::Buffer, HOST_VISIBLE, types());
    assert_eq!(driver.run(setup), Ok((1, 2)));
    assert_eq!((driver.destroyed, driver.freed), (0, 0));
}

#[test]
fn image_success_binds_then_finishes() {
    let mut setup = ResourceSetup::new(ResourceKind::Image, DEVICE_LOCAL, types());
    assert_eq!(setup.step(SetupEvent::Created(7)), SetupAction::QueryRequirements(7));
    assert_eq!(
        setup.step(SetupEvent::Requirements { size: 64, memory_type_bits: 0b100 }),
        SetupAction::Allocate { size: 64, memory_type_index: 2 }
    );
    assert_eq!(setup.step(SetupEvent::Allocated(9)), SetupAction::Bind { object: 7, memory: 9 });
    assert_eq!(setup.step(SetupEvent::Bound), SetupAction::Finish { object: 7, memory: 9 });
    assert_eq!(setup.phase, SetupPhase::Done);
}

#[test]
fn create_failure_releases_nothing() {
    let mut setup = ResourceSetup::new(ResourceKind::Buffer, 0, types());
    assert_eq!(
        setup.step(SetupEvent::CreateFailed),
        SetupAction::RollBack { releases: vec![], error: ResourceError::CreateFailed }
    );
}

#[test]
fn out_of_order_event_rolls_back() {
    let mut setup = ResourceSetup::new(ResourceKind::Image, 0, types());
    setup.step(SetupEvent::Created(3));
    assert_eq!(
        setup.step(SetupEvent::Bound),
        SetupAction::RollBack {
            releases: vec![Release::DestroyImage(3)],
            error: ResourceError::OutOfOrder
        }
    );
    assert_eq!(
        setup.step(SetupEvent::Created(4)),
        SetupAction::RollBack { releases: vec![], error: ResourceError::OutOfOrder }
    );
}

#[test]
fn setup_keeps_types_and_filter() {
    let mut setup = ResourceSetup::new(ResourceKind::Buffer, HOST_VISIBLE, types());
    setup.step(SetupEvent::Created(1));
    assert_eq!(setup.memory_types, types());
    assert_eq!(setup.properties, HOST_VISIBLE);
    assert_eq!(
        setup.step(SetupEvent::Requirements { size: 32, memory_type_bits: 0b110 }),
        SetupAction::Allocate { size: 32, memory_type_index: 1 }
    );
}
