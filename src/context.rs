use vstd::prelude::*;
use vstd::string::StringExecFns;

use crate::device::{contains_name, names_contain};
use crate::release::Release;

verus! {

pub open spec fn validation_layer_name() -> Seq<char> {
    "VK_LAYER_KHRONOS_validation"@
}

pub open spec fn debug_utils_name() -> Seq<char> {
    "VK_EXT_debug_utils"@
}

pub open spec fn swapchain_name() -> Seq<char> {
    "VK_KHR_swapchain"@
}

/// Relies on ash's `ext::DebugUtils::name`, the name of the debug-utils instance extension.
#[verifier::external_body]
fn debug_utils_extension() -> (r: String)
    ensures
        r@ == debug_utils_name(),
{
    ash::extensions::ext::DebugUtils::name().to_string_lossy().into_owned()
}

/// Relies on ash's `khr::Swapchain::name`, the name of the swapchain device extension.
#[verifier::external_body]
fn swapchain_extension() -> (r: String)
    ensures
        r@ == swapchain_name(),
{
    ash::extensions::khr::Swapchain::name().to_string_lossy().into_owned()
}

pub open spec fn distinct_names(names: Seq<String>) -> bool {
    forall|i: int, j: int| 0 <= i < j < names.len() ==> (#[trigger] names[i])@ != (#[trigger] names[j])@
}

/// The layers and extensions that the context enables, settled once when it is built.
#[derive(Debug, Clone)]
pub struct Capabilities {
    pub validation: bool,
    pub layers: Vec<String>,
    pub instance_extensions: Vec<String>,
    pub device_extensions: Vec<String>,
}

/// Appends `name` unless an equal name is already there.
fn push_unique(names: &mut Vec<String>, name: String)
    requires
        distinct_names(old(names)@),
    ensures
        distinct_names(final(names)@),
        forall|n: Seq<char>|
            names_contain(final(names)@, n) <==> (names_contain(old(names)@, n) || n == name@),
        names_contain(old(names)@, name@) ==> final(names)@ == old(names)@,
        !names_contain(old(names)@, name@) ==> final(names)@ == old(names)@.push(name),
{
    if !contains_name(names, &name) {
        let ghost before = names@;
        names.push(name);
        proof {
            assert forall|n: Seq<char>| names_contain(names@, n) <==> (names_contain(before, n) || n == name@) by {
                if names_contain(names@, n) {
                    let j = choose|j: int| 0 <= j < names@.len() && (#[trigger] names@[j])@ == n;
                    if j < before.len() {
                        assert(before[j] == names@[j]);
                    }
                }
                if names_contain(before, n) {
                    let j = choose|j: int| 0 <= j < before.len() && (#[trigger] before[j])@ == n;
                    assert(names@[j] == before[j]);
                }
                if n == name@ {
                    assert(names@[before.len() as int] == name);
                }
            }
        }
    }
}

/// Settles what the context enables. The validation layer is asked for only in
/// debug builds; when the host lacks it, validation is off, not an error. The
/// instance extensions are those the window needs, plus debug utils under
/// validation; the device extensions are the swapchain alone.
pub fn negotiate(debug: bool, available_layers: &Vec<String>, window_extensions: &Vec<String>) -> (r:
    Capabilities)
    ensures
        r.validation == (debug && names_contain(available_layers@, validation_layer_name())),
        r.validation ==> r.layers@.len() == 1 && r.layers@[0]@ == validation_layer_name(),
        !r.validation ==> r.layers@.len() == 0,
        distinct_names(r.instance_extensions@),
        forall|n: Seq<char>|
            names_contain(r.instance_extensions@, n) <==> (names_contain(window_extensions@, n) || (
            r.validation && n == debug_utils_name())),
        r.device_extensions@.len() == 1,
        r.device_extensions@[0]@ == swapchain_name(),
{
    let requested = String::from_str("VK_LAYER_KHRONOS_validation");
    let validation = debug && contains_name(available_layers, &requested);
    let mut layers: Vec<String> = Vec::new();
    let mut instance_extensions: Vec<String> = Vec::new();
    if validation {
        layers.push(requested);
        instance_extensions.push(debug_utils_extension());
    }
    proof {
        assert forall|n: Seq<char>|
            names_contain(instance_extensions@, n) <==> (validation && n == debug_utils_name()) by {
            if validation && n == debug_utils_name() {
                assert(instance_extensions@[0]@ == n);
            }
        }
    }
    let mut i: usize = 0;
    while i < window_extensions.len()
        invariant
            i <= window_extensions@.len(),
            distinct_names(instance_extensions@),
            forall|n: Seq<char>|
                names_contain(instance_extensions@, n) <==> ((exists|k: int|
                    0 <= k < i && (#[trigger] window_extensions@[k])@ == n) || (validation && n
                    == debug_utils_name())),
        decreases window_extensions@.len() - i,
    {
        let name = window_extensions[i].clone();
        push_unique(&mut instance_extensions, name);
        i = i + 1;
    }
    let mut device_extensions: Vec<String> = Vec::new();
    device_extensions.push(swapchain_extension());
    Capabilities { validation, layers, instance_extensions, device_extensions }
}

/// The order in which a context is torn down: command pool, device, debug
/// messenger if there is one, instance.
pub fn teardown_order(command_pool: u64, debug_messenger: Option<u64>) -> (r: Vec<Release>)
    ensures
        debug_messenger matches Some(m) ==> r@ == seq![
            Release::DestroyCommandPool(command_pool),
            Release::DestroyDevice,
            Release::DestroyDebugMessenger(m),
            Release::DestroyInstance,
        ],
        debug_messenger is None ==> r@ == seq![
            Release::DestroyCommandPool(command_pool),
            Release::DestroyDevice,
            Release::DestroyInstance,
        ],
{
    let mut v: Vec<Release> = Vec::new();
    v.push(Release::DestroyCommandPool(command_pool));
    v.push(Release::DestroyDevice);
    if let Some(m) = debug_messenger {
        v.push(Release::DestroyDebugMessenger(m));
    }
    v.push(Release::DestroyInstance);
    proof {
        if let Some(m) = debug_messenger {
            assert(v@ =~= seq![
                Release::DestroyCommandPool(command_pool),
                Release::DestroyDevice,
                Release::DestroyDebugMessenger(m),
                Release::DestroyInstance,
            ]);
        } else {
            assert(v@ =~= seq![
                Release::DestroyCommandPool(command_pool),
                Release::DestroyDevice,
                Release::DestroyInstance,
            ]);
        }
    }
    v
}

} // verus!
