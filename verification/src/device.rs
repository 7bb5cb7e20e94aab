//! The device layer: choosing a physical adapter and opening the logical
//! device with one graphics-and-present queue.
//!
//! What the driver reports about each adapter is machine state, so the
//! queries return unspecified plain values; the selection policy over
//! those values — keep adapters with the swapchain capability and a queue
//! family that does both graphics and presentation, rank by adapter class,
//! take the first best-ranked — is `select_adapter`, fully verified.

use vstd::prelude::*;

verus! {

#[verifier::external_type_specification]
#[verifier::external_body]
pub struct ExInstance(vulkano::instance::Instance);

#[verifier::external_type_specification]
#[verifier::external_body]
pub struct ExSurface(vulkano::swapchain::Surface);

#[verifier::external_type_specification]
#[verifier::external_body]
pub struct ExPhysicalDevice(vulkano::device::physical::PhysicalDevice);

/// The class an adapter reports, in the renderer's preference order.
#[derive(Clone, Copy, PartialEq, Eq, Structural, Debug)]
pub enum AdapterClass {
    DiscreteGpu,
    IntegratedGpu,
    VirtualGpu,
    Cpu,
    Other,
}

/// The fixed preference rank of an adapter class; lower is better.
pub open spec fn rank_of(class: AdapterClass) -> int {
    match class {
        AdapterClass::DiscreteGpu => 0,
        AdapterClass::IntegratedGpu => 1,
        AdapterClass::VirtualGpu => 2,
        AdapterClass::Cpu => 3,
        AdapterClass::Other => 4,
    }
}

/// The executable counterpart of `rank_of`.
pub fn adapter_rank(class: AdapterClass) -> (r: u32)
    ensures
        r == rank_of(class),
{
    match class {
        AdapterClass::DiscreteGpu => 0,
        AdapterClass::IntegratedGpu => 1,
        AdapterClass::VirtualGpu => 2,
        AdapterClass::Cpu => 3,
        AdapterClass::Other => 4,
    }
}

/// What the driver reports about one adapter, reduced to plain values.
#[derive(Clone, Copy, PartialEq, Eq, Debug)]
pub struct AdapterInfo {
    /// Whether the adapter offers the swapchain capability the renderer
    /// needs for presentation.
    pub supports_swapchain: bool,
    /// The first queue family that supports both graphics operations and
    /// presentation to the target surface, if any.
    pub graphics_family: Option<u32>,
    /// The adapter's reported class.
    pub class: AdapterClass,
}

/// Whether an adapter can drive this renderer at all.
pub open spec fn qualifies(a: AdapterInfo) -> bool {
    a.supports_swapchain && a.graphics_family is Some
}

/// Picks the adapter to use: among the qualifying ones, the first with the
/// best-ranked class; `None` exactly when none qualifies (a fatal
/// condition for the caller, since rendering is impossible without one).
pub fn select_adapter(adapters: &Vec<AdapterInfo>) -> (r: Option<usize>)
    ensures
        r is Some <==> exists|i: int|
            0 <= i < adapters@.len() && qualifies(#[trigger] adapters@[i]),
        r is Some ==> {
            let i = r->0 as int;
            &&& 0 <= i < adapters@.len()
            &&& qualifies(adapters@[i])
            &&& forall|j: int|
                0 <= j < adapters@.len() && qualifies(#[trigger] adapters@[j]) ==> rank_of(
                    adapters@[i].class,
                ) <= rank_of(adapters@[j].class)
            &&& forall|j: int|
                0 <= j < i && qualifies(#[trigger] adapters@[j]) ==> rank_of(adapters@[i].class)
                    < rank_of(adapters@[j].class)
        },
{
    let n: usize = adapters.len();
    let mut best: Option<usize> = None;
    let mut k: usize = 0;
    while k < n
        invariant
            k <= n,
            n == adapters@.len(),
            best is Some <==> exists|i: int| 0 <= i < k && qualifies(#[trigger] adapters@[i]),
            best is Some ==> {
                let i = best->0 as int;
                &&& 0 <= i < k
                &&& qualifies(adapters@[i])
                &&& forall|j: int|
                    0 <= j < k && qualifies(#[trigger] adapters@[j]) ==> rank_of(adapters@[i].class)
                        <= rank_of(adapters@[j].class)
                &&& forall|j: int|
                    0 <= j < i && qualifies(#[trigger] adapters@[j]) ==> rank_of(
                        adapters@[i].class,
                    ) < rank_of(adapters@[j].class)
            },
        decreases n - k,
    {
        let a = adapters[k];
        if a.supports_swapchain && a.graphics_family.is_some() {
            match best {
                None => {
                    best = Some(k);
                },
                Some(b) => {
                    if adapter_rank(a.class) < adapter_rank(adapters[b].class) {
                        best = Some(k);
                    }
                },
            }
        }
        k = k + 1;
    }
    best
}

/// Relies on vulkano's `Instance::enumerate_physical_devices`: lists the
/// machine's adapters; on a driver error the list is empty (the caller
/// then finds no adapter, which is the fatal no-device condition).
#[verifier::external_body]
pub(crate) fn enumerate_adapters(instance: &std::sync::Arc<vulkano::instance::Instance>) -> (r: Vec<
    std::sync::Arc<vulkano::device::physical::PhysicalDevice>,
>) {
    match instance.enumerate_physical_devices() {
        Ok(devices) => devices.collect(),
        Err(_) => Vec::new(),
    }
}

/// Relies on vulkano's `PhysicalDevice::supported_extensions`: whether the
/// adapter offers the swapchain capability (the `khr_swapchain` flag).
#[verifier::external_body]
pub(crate) fn adapter_supports_swapchain(
    adapter: &std::sync::Arc<vulkano::device::physical::PhysicalDevice>,
) -> (r: bool) {
    adapter.supported_extensions().khr_swapchain
}

/// Relies on vulkano's `PhysicalDevice::queue_family_properties`: how many
/// queue families the adapter has.
#[verifier::external_body]
pub(crate) fn queue_family_count(
    adapter: &std::sync::Arc<vulkano::device::physical::PhysicalDevice>,
) -> (r: usize) {
    adapter.queue_family_properties().len()
}

/// Relies on vulkano's `PhysicalDevice::queue_family_properties`: whether
/// queue family `index` supports graphics operations; an out-of-range
/// index reports no support.
#[verifier::external_body]
pub(crate) fn queue_family_supports_graphics(
    adapter: &std::sync::Arc<vulkano::device::physical::PhysicalDevice>,
    index: usize,
) -> (r: bool) {
    match adapter.queue_family_properties().get(index) {
        Some(family) => family.queue_flags.contains(vulkano::device::QueueFlags::GRAPHICS),
        None => false,
    }
}

/// Relies on vulkano's `PhysicalDevice::surface_support`: whether queue
/// family `index` can present to `surface`; a driver error reports no
/// support, as in the original selection.
#[verifier::external_body]
pub(crate) fn queue_family_supports_surface(
    adapter: &std::sync::Arc<vulkano::device::physical::PhysicalDevice>,
    index: u32,
    surface: &std::sync::Arc<vulkano::swapchain::Surface>,
) -> (r: bool) {
    adapter.surface_support(index, surface).unwrap_or(false)
}

/// Relies on vulkano's `PhysicalDevice::properties`: the adapter's class,
/// one arm per reported device type.
#[verifier::external_body]
pub(crate) fn adapter_class(adapter: &std::sync::Arc<vulkano::device::physical::PhysicalDevice>) -> (r:
    AdapterClass) {
    match adapter.properties().device_type {
        vulkano::device::physical::PhysicalDeviceType::DiscreteGpu => AdapterClass::DiscreteGpu,
        vulkano::device::physical::PhysicalDeviceType::IntegratedGpu => AdapterClass::IntegratedGpu,
        vulkano::device::physical::PhysicalDeviceType::VirtualGpu => AdapterClass::VirtualGpu,
        vulkano::device::physical::PhysicalDeviceType::Cpu => AdapterClass::Cpu,
        _ => AdapterClass::Other,
    }
}

/// Finds the first queue family of `adapter` that supports both graphics
/// operations and presentation to `surface`. The driver's answers are
/// machine state, so nothing more than the search order is specified.
pub(crate) fn find_graphics_family(
    adapter: &std::sync::Arc<vulkano::device::physical::PhysicalDevice>,
    surface: &std::sync::Arc<vulkano::swapchain::Surface>,
) -> Option<u32> {
    let count = queue_family_count(adapter);
    let mut index: usize = 0;
    while index < count
        decreases count - index,
    {
        if queue_family_supports_graphics(adapter, index)
            && queue_family_supports_surface(adapter, index as u32, surface) {
            return Some(index as u32);
        }
        index = index + 1;
    }
    None
}

/// Chooses the physical adapter and queue family to render with:
/// gathers each adapter's swapchain support, graphics-and-present queue
/// family and class, then applies the verified selection policy
/// (`select_adapter`). `None` exactly when the gathered reports qualify no
/// adapter; rendering is then impossible and the caller aborts.
pub fn create_physical_device(
    instance: &std::sync::Arc<vulkano::instance::Instance>,
    surface: &std::sync::Arc<vulkano::swapchain::Surface>,
) -> Option<(std::sync::Arc<vulkano::device::physical::PhysicalDevice>, u32)> {
    let adapters = enumerate_adapters(instance);
    let mut infos: Vec<AdapterInfo> = Vec::new();
    let n: usize = adapters.len();
    let mut k: usize = 0;
    while k < n
        invariant
            k <= n,
            n == adapters@.len(),
            infos@.len() == k,
        decreases n - k,
    {
        let supports_swapchain = adapter_supports_swapchain(&adapters[k]);
        let graphics_family = find_graphics_family(&adapters[k], surface);
        let class = adapter_class(&adapters[k]);
        infos.push(AdapterInfo { supports_swapchain, graphics_family, class });
        k = k + 1;
    }
    let chosen = select_adapter(&infos);
    match chosen {
        Some(i) => {
            let family = match infos[i].graphics_family {
                Some(f) => f,
                None => {
                    return None;
                },
            };
            Some((adapters[i].clone(), family))
        },
        None => None,
    }
}

} // verus!
