use koyote::device::{
    device_extensions_supported, find_supported_format, FormatProperties, ImageTiling, find_queue_families, pick_physical_device, unique_queue_families,
    AdapterInfo, DeviceClass, QueueFamilyIndices, QueueFamilyInfo, SelectError, SurfaceFormat,
    SwapchainSupport,
};

fn family(queue_count: u32, graphics: bool, present: bool) -> QueueFamilyInfo {
    QueueFamilyInfo { queue_count, graphics, present }
}

fn adapter(name: &str, class: DeviceClass) -> AdapterInfo {
    AdapterInfo {
        name: name.to_string(),
        class,
        queue_families: vec![family(1, true, true)],
        extensions: vec!["VK_KHR_swapchain".to_string()],
        swapchain: SwapchainSupport {
            formats: vec![SurfaceFormat { format: 44, color_space: 0 }],
            present_modes: vec![2],
        },
        sampler_anisotropy: true,
    }
}

fn required() -> Vec<String> {
    vec!["VK_KHR_swapchain".to_string()]
}

#[test]
fn queue_families_first_of_each_kind() {
    let fams = vec![family(1, false, false), family(2, true, false), family(1, true, true), family(1, false, true)];
    assert_eq!(
        find_queue_families(&fams),
        Some(QueueFamilyIndices { graphics_family: 1, present_family: 2 })
    );
}

#[test]
fn queue_families_need_queues() {
    let fams = vec![family(0, true, true)];
    assert_eq!(find_queue_families(&fams), None);
    let fams = vec![family(1, true, false)];
    assert_eq!(find_queue_families(&fams), None);
    assert_eq!(find_queue_families(&vec![]), None);
}

#[test]
fn unique_families_dedup() {
    let same = QueueFamilyIndices { graphics_family: 3, present_family: 3 };
    assert_eq!(unique_queue_families(same), vec![3]);
    let apart = QueueFamilyIndices { graphics_family: 0, present_family: 2 };
    assert_eq!(unique_queue_families(apart), vec![0, 2]);
}

#[test]
fn extensions_must_all_be_available() {
    let avail = vec!["VK_KHR_swapchain".to_string(), "VK_EXT_other".to_string()];
    assert!(device_extensions_supported(&required(), &avail));
    assert!(device_extensions_supported(&vec![], &vec![]));
    let missing = vec!["VK_KHR_swapchain".to_string(), "VK_KHR_missing".to_string()];
    assert!(!device_extensions_supported(&missing, &avail));
}

#[test]
fn selector_rejects_each_deficiency() {
    let mut no_graphics = adapter("no graphics", DeviceClass::DiscreteGpu);
    no_graphics.queue_families = vec![family(1, false, true)];
    let mut no_present = adapter("no present", DeviceClass::DiscreteGpu);
    no_present.queue_families = vec![family(1, true, false)];
    let mut no_ext = adapter("no extension", DeviceClass::DiscreteGpu);
    no_ext.extensions = vec!["VK_EXT_other".to_string()];
    let mut no_formats = adapter("no formats", DeviceClass::DiscreteGpu);
    no_formats.swapchain.formats.clear();
    let mut no_modes = adapter("no present modes", DeviceClass::DiscreteGpu);
    no_modes.swapchain.present_modes.clear();
    let mut no_aniso = adapter("no anisotropy", DeviceClass::DiscreteGpu);
    no_aniso.sampler_anisotropy = false;
    let good = adapter("cpu", DeviceClass::Cpu);
    let all = vec![no_graphics, no_present, no_ext, no_formats, no_modes, no_aniso, good];
    assert_eq!(pick_physical_device(&all, &required()), Ok(6));
    assert_eq!(
        pick_physical_device(&all[..6].to_vec(), &required()),
        Err(SelectError::NoSuitableDevice)
    );
}

#[test]
fn selector_prefers_more_capable_class() {
    let order = [
        DeviceClass::DiscreteGpu,
        DeviceClass::IntegratedGpu,
        DeviceClass::VirtualGpu,
        DeviceClass::Cpu,
        DeviceClass::Other,
    ];
    for better in 0..order.len() {
        for worse in better + 1..order.len() {
            let list = vec![adapter("w", order[worse]), adapter("b", order[better])];
            assert_eq!(pick_physical_device(&list, &required()), Ok(1));
            let list = vec![adapter("b", order[better]), adapter("w", order[worse])];
            assert_eq!(pick_physical_device(&list, &required()), Ok(0));
        }
    }
}

#[test]
fn selector_first_of_equal_rank() {
    let list = vec![adapter("a", DeviceClass::IntegratedGpu), adapter("b", DeviceClass::IntegratedGpu)];
    assert_eq!(pick_physical_device(&list, &required()), Ok(0));
}

#[test]
fn selector_empty_list_fails() {
    assert_eq!(pick_physical_device(&vec![], &required()), Err(SelectError::NoSuitableDevice));
}

#[test]
fn device_class_ranks() {
    assert_eq!(DeviceClass::DiscreteGpu.rank(), 0);
    assert_eq!(DeviceClass::IntegratedGpu.rank(), 1);
    assert_eq!(DeviceClass::VirtualGpu.rank(), 2);
    assert_eq!(DeviceClass::Cpu.rank(), 3);
    assert_eq!(DeviceClass::Other.rank(), 4);
}

#[test]
fn supported_format_first_match() {
    let candidates = vec![
        FormatProperties { format: 126, linear_tiling_features: 0x1, optimal_tiling_features: 0x200 },
        FormatProperties { format: 129, linear_tiling_features: 0x201, optimal_tiling_features: 0x201 },
    ];
    assert_eq!(find_supported_format(&candidates, ImageTiling::Optimal, 0x200), Some(126));
    assert_eq!(find_supported_format(&candidates, ImageTiling::Linear, 0x200), Some(129));
    assert_eq!(find_supported_format(&candidates, ImageTiling::Linear, 0x400), None);
    assert_eq!(find_supported_format(&vec![], ImageTiling::Optimal, 0), None);
}
