use vstd::prelude::*;

verus! {

/// The class of a physical adapter, as the driver reports it.
#[derive(Debug, Copy, Clone, PartialEq, Eq, Structural)]
pub enum DeviceClass {
    DiscreteGpu,
    IntegratedGpu,
    VirtualGpu,
    Cpu,
    Other,
}

impl DeviceClass {
    /// Lower is preferred: discrete < integrated < virtual < CPU < other.
    pub open spec fn spec_rank(self) -> u32 {
        match self {
            DeviceClass::DiscreteGpu => 0,
            DeviceClass::IntegratedGpu => 1,
            DeviceClass::VirtualGpu => 2,
            DeviceClass::Cpu => 3,
            DeviceClass::Other => 4,
        }
    }

    pub fn rank(self) -> (r: u32)
        ensures
            r == self.spec_rank(),
    {
        match self {
            DeviceClass::DiscreteGpu => 0,
            DeviceClass::IntegratedGpu => 1,
            DeviceClass::VirtualGpu => 2,
            DeviceClass::Cpu => 3,
            DeviceClass::Other => 4,
        }
    }
}

/// What an adapter reports of one of its queue families.
#[derive(Debug, Copy, Clone, PartialEq, Eq, Structural)]
pub struct QueueFamilyInfo {
    pub queue_count: u32,
    pub graphics: bool,
    /// Whether the family can present to the window's surface.
    pub present: bool,
}

/// A surface format that an adapter supports, as raw driver values.
#[derive(Debug, Copy, Clone, PartialEq, Eq, Structural)]
pub struct SurfaceFormat {
    pub format: i32,
    pub color_space: i32,
}

/// What an adapter supports for presenting to the window's surface.
#[derive(Debug, Clone)]
pub struct SwapchainSupport {
    pub formats: Vec<SurfaceFormat>,
    pub present_modes: Vec<i32>,
}

impl SwapchainSupport {
    pub open spec fn spec_adequate(&self) -> bool {
        self.formats@.len() > 0 && self.present_modes@.len() > 0
    }

    /// A surface is usable only with at least one format and one present mode.
    pub fn adequate(&self) -> (r: bool)
        ensures
            r == self.spec_adequate(),
    {
        self.formats.len() > 0 && self.present_modes.len() > 0
    }
}

/// Everything the selector reads of one physical adapter.
#[derive(Debug, Clone)]
pub struct AdapterInfo {
    pub name: String,
    pub class: DeviceClass,
    pub queue_families: Vec<QueueFamilyInfo>,
    pub extensions: Vec<String>,
    pub swapchain: SwapchainSupport,
    pub sampler_anisotropy: bool,
}

/// The queue families that the context uses; the two may coincide.
#[derive(Debug, Copy, Clone, PartialEq, Eq, Structural)]
pub struct QueueFamilyIndices {
    pub graphics_family: usize,
    pub present_family: usize,
}

pub open spec fn supports_graphics(f: QueueFamilyInfo) -> bool {
    f.queue_count > 0 && f.graphics
}

pub open spec fn supports_present(f: QueueFamilyInfo) -> bool {
    f.queue_count > 0 && f.present
}

/// `i` is the first family of `fams` that supports graphics.
pub open spec fn first_graphics(fams: Seq<QueueFamilyInfo>, i: int) -> bool {
    &&& 0 <= i < fams.len()
    &&& supports_graphics(fams[i])
    &&& forall|j: int| 0 <= j < i ==> !supports_graphics(#[trigger] fams[j])
}

/// `i` is the first family of `fams` that can present.
pub open spec fn first_present(fams: Seq<QueueFamilyInfo>, i: int) -> bool {
    &&& 0 <= i < fams.len()
    &&& supports_present(fams[i])
    &&& forall|j: int| 0 <= j < i ==> !supports_present(#[trigger] fams[j])
}

/// The families that `find_queue_families` picks: the first graphics family and,
/// independently, the first family that can present.
pub open spec fn spec_queue_families(fams: Seq<QueueFamilyInfo>, q: QueueFamilyIndices) -> bool {
    &&& first_graphics(fams, q.graphics_family as int)
    &&& first_present(fams, q.present_family as int)
}

pub open spec fn has_queue_families(fams: Seq<QueueFamilyInfo>) -> bool {
    &&& exists|i: int| 0 <= i < fams.len() && supports_graphics(#[trigger] fams[i])
    &&& exists|i: int| 0 <= i < fams.len() && supports_present(#[trigger] fams[i])
}

/// Scans the families for the first graphics family and the first presenting family.
pub fn find_queue_families(fams: &Vec<QueueFamilyInfo>) -> (r: Option<QueueFamilyIndices>)
    ensures
        r is Some <==> has_queue_families(fams@),
        r matches Some(q) ==> spec_queue_families(fams@, q),
{
    let mut graphics: Option<usize> = None;
    let mut present: Option<usize> = None;
    let mut i: usize = 0;
    while i < fams.len()
        invariant
            i <= fams@.len(),
            match graphics {
                Some(g) => first_graphics(fams@, g as int),
                None => forall|j: int| 0 <= j < i ==> !supports_graphics(#[trigger] fams@[j]),
            },
            match present {
                Some(p) => first_present(fams@, p as int),
                None => forall|j: int| 0 <= j < i ==> !supports_present(#[trigger] fams@[j]),
            },
        decreases fams@.len() - i,
    {
        let f = fams[i];
        if graphics.is_none() && f.queue_count > 0 && f.graphics {
            graphics = Some(i);
        }
        if present.is_none() && f.queue_count > 0 && f.present {
            present = Some(i);
        }
        i = i + 1;
    }
    match (graphics, present) {
        (Some(g), Some(p)) => Some(QueueFamilyIndices { graphics_family: g, present_family: p }),
        _ => None,
    }
}

/// The distinct families among the two, graphics first: one queue is created for each.
pub fn unique_queue_families(q: QueueFamilyIndices) -> (r: Vec<usize>)
    ensures
        q.graphics_family == q.present_family ==> r@ == seq![q.graphics_family],
        q.graphics_family != q.present_family ==> r@ == seq![
            q.graphics_family,
            q.present_family,
        ],
{
    let mut v: Vec<usize> = Vec::new();
    v.push(q.graphics_family);
    if q.present_family != q.graphics_family {
        v.push(q.present_family);
    }
    assert(q.graphics_family == q.present_family ==> v@ =~= seq![q.graphics_family]);
    assert(q.graphics_family != q.present_family ==> v@ =~= seq![q.graphics_family, q.present_family]);
    v
}

/// `names` holds an entry equal to `n`.
pub open spec fn names_contain(names: Seq<String>, n: Seq<char>) -> bool {
    exists|j: int| 0 <= j < names.len() && (#[trigger] names[j])@ == n
}

pub open spec fn spec_extensions_supported(required: Seq<String>, available: Seq<String>) -> bool {
    forall|i: int| 0 <= i < required.len() ==> names_contain(available, (#[trigger] required[i])@)
}

/// Whether `names` holds `n`.
pub fn contains_name(names: &Vec<String>, n: &String) -> (r: bool)
    ensures
        r == names_contain(names@, n@),
{
    let mut j: usize = 0;
    while j < names.len()
        invariant
            j <= names@.len(),
            forall|k: int| 0 <= k < j ==> (#[trigger] names@[k])@ != n@,
        decreases names@.len() - j,
    {
        if names[j] == *n {
            return true;
        }
        j = j + 1;
    }
    false
}

/// Whether every required extension is among the available ones.
pub fn device_extensions_supported(required: &Vec<String>, available: &Vec<String>) -> (r: bool)
    ensures
        r == spec_extensions_supported(required@, available@),
{
    let mut i: usize = 0;
    while i < required.len()
        invariant
            i <= required@.len(),
            forall|k: int| 0 <= k < i ==> names_contain(available@, (#[trigger] required@[k])@),
        decreases required@.len() - i,
    {
        if !contains_name(available, &required[i]) {
            return false;
        }
        i = i + 1;
    }
    true
}

/// An adapter can back the context: it has the queue families, every required
/// extension, a usable surface and anisotropic sampling.
pub open spec fn spec_suitable(a: AdapterInfo, required: Seq<String>) -> bool {
    &&& has_queue_families(a.queue_families@)
    &&& spec_extensions_supported(required, a.extensions@)
    &&& a.swapchain.spec_adequate()
    &&& a.sampler_anisotropy
}

pub fn device_suitable(a: &AdapterInfo, required: &Vec<String>) -> (r: bool)
    ensures
        r == spec_suitable(*a, required@),
{
    let indices = find_queue_families(&a.queue_families);
    let extensions_supported = device_extensions_supported(required, &a.extensions);
    let swapchain_adequate = extensions_supported && a.swapchain.adequate();
    indices.is_some() && extensions_supported && swapchain_adequate && a.sampler_anisotropy
}

/// `k` is the adapter to use: suitable, of the lowest rank among the suitable ones,
/// and the first of that rank.
pub open spec fn spec_selected(adapters: Seq<AdapterInfo>, required: Seq<String>, k: int) -> bool {
    &&& 0 <= k < adapters.len()
    &&& spec_suitable(adapters[k], required)
    &&& forall|j: int|
        0 <= j < adapters.len() && spec_suitable(#[trigger] adapters[j], required) ==> (
        adapters[k].class.spec_rank() <= adapters[j].class.spec_rank())
    &&& forall|j: int|
        0 <= j < k && spec_suitable(#[trigger] adapters[j], required) ==> (
        adapters[k].class.spec_rank() < adapters[j].class.spec_rank())
}

pub open spec fn any_suitable(adapters: Seq<AdapterInfo>, required: Seq<String>) -> bool {
    exists|j: int| 0 <= j < adapters.len() && spec_suitable(#[trigger] adapters[j], required)
}

/// Why no context can be built on the machine's adapters.
#[derive(Debug, Copy, Clone, PartialEq, Eq, Structural)]
pub enum SelectError {
    NoSuitableDevice,
}

/// Picks the index of the adapter to build the context on.
pub fn pick_physical_device(adapters: &Vec<AdapterInfo>, required: &Vec<String>) -> (r: Result<
    usize,
    SelectError,
>)
    ensures
        r matches Ok(k) ==> spec_selected(adapters@, required@, k as int),
        r is Err <==> !any_suitable(adapters@, required@),
{
    let mut best: Option<usize> = None;
    let mut i: usize = 0;
    while i < adapters.len()
        invariant
            i <= adapters@.len(),
            match best {
                Some(k) => {
                    &&& k < i
                    &&& spec_suitable(adapters@[k as int], required@)
                    &&& forall|j: int|
                        0 <= j < i && spec_suitable(#[trigger] adapters@[j], required@) ==> (
                        adapters@[k as int].class.spec_rank() <= adapters@[j].class.spec_rank())
                    &&& forall|j: int|
                        0 <= j < k && spec_suitable(#[trigger] adapters@[j], required@) ==> (
                        adapters@[k as int].class.spec_rank() < adapters@[j].class.spec_rank())
                },
                None => forall|j: int|
                    0 <= j < i ==> !spec_suitable(#[trigger] adapters@[j], required@),
            },
        decreases adapters@.len() - i,
    {
        if device_suitable(&adapters[i], required) {
            match best {
                Some(k) => {
                    if adapters[i].class.rank() < adapters[k].class.rank() {
                        best = Some(i);
                    }
                },
                None => {
                    best = Some(i);
                },
            }
        }
        i = i + 1;
    }
    match best {
        Some(k) => Ok(k),
        None => Err(SelectError::NoSuitableDevice),
    }
}

/// How an image's texels are laid out in memory.
#[derive(Debug, Copy, Clone, PartialEq, Eq, Structural)]
pub enum ImageTiling {
    Linear,
    Optimal,
}

/// The features an adapter offers for one format, as raw driver flags.
#[derive(Debug, Copy, Clone, PartialEq, Eq, Structural)]
pub struct FormatProperties {
    pub format: i32,
    pub linear_tiling_features: u32,
    pub optimal_tiling_features: u32,
}

pub open spec fn format_supports(p: FormatProperties, tiling: ImageTiling, features: u32) -> bool {
    match tiling {
        ImageTiling::Linear => p.linear_tiling_features & features == features,
        ImageTiling::Optimal => p.optimal_tiling_features & features == features,
    }
}

/// The first candidate format that offers every wanted feature under `tiling`.
pub fn find_supported_format(candidates: &Vec<FormatProperties>, tiling: ImageTiling, features: u32) -> (r:
    Option<i32>)
    ensures
        r matches Some(f) ==> exists|i: int|
            0 <= i < candidates@.len() && candidates@[i].format == f && format_supports(
                candidates@[i],
                tiling,
                features,
            ) && forall|j: int|
                0 <= j < i ==> !format_supports(#[trigger] candidates@[j], tiling, features),
        r is None ==> forall|j: int|
            0 <= j < candidates@.len() ==> !format_supports(#[trigger] candidates@[j], tiling, features),
{
    let mut i: usize = 0;
    while i < candidates.len()
        invariant
            i <= candidates@.len(),
            forall|j: int| 0 <= j < i ==> !format_supports(#[trigger] candidates@[j], tiling, features),
        decreases candidates@.len() - i,
    {
        let p = candidates[i];
        let offered = match tiling {
            ImageTiling::Linear => p.linear_tiling_features,
            ImageTiling::Optimal => p.optimal_tiling_features,
        };
        if offered & features == features {
            assert(format_supports(candidates@[i as int], tiling, features));
            return Some(p.format);
        }
        i = i + 1;
    }
    None
}

/// The selected adapter passes every check: it has a graphics and a presenting queue
/// family, every required extension, a non-empty format list and present-mode list,
/// and anisotropic sampling.
pub proof fn lemma_selected_passes_every_check(
    adapters: Seq<AdapterInfo>,
    required: Seq<String>,
    k: int,
)
    requires
        spec_selected(adapters, required, k),
    ensures
        has_queue_families(adapters[k].queue_families@),
        spec_extensions_supported(required, adapters[k].extensions@),
        adapters[k].swapchain.formats@.len() > 0,
        adapters[k].swapchain.present_modes@.len() > 0,
        adapters[k].sampler_anisotropy,
{
}

/// Of two suitable adapters of different classes, the less capable one is never
/// the one selected.
pub proof fn lemma_more_capable_preferred(
    adapters: Seq<AdapterInfo>,
    required: Seq<String>,
    k: int,
    better: int,
    worse: int,
)
    requires
        spec_selected(adapters, required, k),
        0 <= better < adapters.len(),
        0 <= worse < adapters.len(),
        spec_suitable(adapters[better], required),
        spec_suitable(adapters[worse], required),
        adapters[better].class.spec_rank() < adapters[worse].class.spec_rank(),
    ensures
        k != worse,
{
}

/// The selection is unique: two indices that both satisfy it are the same.
pub proof fn lemma_selection_unique(adapters: Seq<AdapterInfo>, required: Seq<String>, k: int, m: int)
    requires
        spec_selected(adapters, required, k),
        spec_selected(adapters, required, m),
    ensures
        k == m,
{
    if k < m {
        assert(spec_suitable(adapters[k], required));
    } else if m < k {
        assert(spec_suitable(adapters[m], required));
    }
}

} // verus!
