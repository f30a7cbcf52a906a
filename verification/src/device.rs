//! Choosing a physical device, its queue families and a depth format
//! from what the driver reports, and waiting for a window handle.

use vstd::prelude::*;
use crate::config::DISPLAY_UNAVAILABLE_TIMEOUT_POLLS;
use crate::vk::{
    contains, spec_contains, DEVICE_TYPE_CPU, DEVICE_TYPE_DISCRETE_GPU, DEVICE_TYPE_INTEGRATED_GPU,
    DEVICE_TYPE_VIRTUAL_GPU, FORMAT_D32_SFLOAT, FORMAT_D32_SFLOAT_S8_UINT,
    FORMAT_FEATURE_DEPTH_STENCIL_ATTACHMENT, QUEUE_GRAPHICS, QUEUE_TRANSFER,
};

verus! {

/// One queue family of a physical device.
#[derive(Clone, Copy, Debug, PartialEq, Eq, Structural)]
pub struct QueueFamily {
    /// `VkQueueFlags` of the family.
    pub queue_flags: u32,
    /// Whether the family can present to the surface.
    pub surface_support: bool,
}

impl QueueFamily {
    /// Whether the family can render: graphics, transfer and presentation.
    pub open spec fn can_render(self) -> bool {
        spec_contains(self.queue_flags, QUEUE_GRAPHICS) && spec_contains(
            self.queue_flags,
            QUEUE_TRANSFER,
        ) && self.surface_support
    }

    /// Whether the family can transfer.
    pub open spec fn can_transfer(self) -> bool {
        spec_contains(self.queue_flags, QUEUE_TRANSFER)
    }

    /// Whether the family exists for transfers alone, without graphics.
    pub open spec fn transfer_only(self) -> bool {
        self.can_transfer() && !spec_contains(self.queue_flags, QUEUE_GRAPHICS)
    }
}

/// The queue families chosen on one device.
#[derive(Clone, Copy, Debug, PartialEq, Eq, Structural)]
pub struct QueueFamilyChoice {
    pub render_queue_family_index: u32,
    pub transfer_queue_family_index: u32,
}

/// Whether `render` is the first family that can render.
pub open spec fn is_render_family(families: Seq<QueueFamily>, render: int) -> bool {
    &&& 0 <= render < families.len()
    &&& families[render].can_render()
    &&& forall|earlier: int| 0 <= earlier < render ==> !(#[trigger] families[earlier]).can_render()
}

/// Whether `transfer` is the family chosen for transfers beside `render`:
/// another family that can transfer, one without graphics before any
/// with, and among equals the last.
pub open spec fn is_transfer_family(families: Seq<QueueFamily>, render: int, transfer: int) -> bool {
    &&& 0 <= transfer < families.len()
    &&& transfer != render
    &&& families[transfer].can_transfer()
    &&& forall|other: int|
        0 <= other < families.len() && other != render && (#[trigger] families[other]).transfer_only()
            ==> families[transfer].transfer_only()
    &&& forall|later: int|
        transfer < later < families.len() && later != render && (
        #[trigger] families[later]).can_transfer() ==> families[transfer].transfer_only()
            && !families[later].transfer_only()
}

/// Whether no family other than `render` can transfer.
pub open spec fn no_other_transfer_family(families: Seq<QueueFamily>, render: int) -> bool {
    forall|other: int|
        0 <= other < families.len() && other != render ==> !(#[trigger] families[other]).can_transfer()
}

/// The queue families to use on a device: for rendering the first family
/// with graphics, transfer and presentation; for transfers another
/// family if one can transfer, else the same. Nothing where the device
/// lacks the required features or has no family to render with.
pub fn check_physical_device_queue_support(
    queue_families: &Vec<QueueFamily>,
    features_supported: bool,
) -> (choice: Option<QueueFamilyChoice>)
    requires
        queue_families@.len() <= u32::MAX,
    ensures
        match choice {
            Some(chosen) => {
                &&& features_supported
                &&& is_render_family(queue_families@, chosen.render_queue_family_index as int)
                &&& if chosen.transfer_queue_family_index == chosen.render_queue_family_index {
                    no_other_transfer_family(
                        queue_families@,
                        chosen.render_queue_family_index as int,
                    )
                } else {
                    is_transfer_family(
                        queue_families@,
                        chosen.render_queue_family_index as int,
                        chosen.transfer_queue_family_index as int,
                    )
                }
            },
            None => !features_supported || forall|index: int|
                0 <= index < queue_families@.len() ==> !(
                #[trigger] queue_families@[index]).can_render(),
        },
{
    let mut render: usize = 0;
    let mut found = false;
    while render < queue_families.len() && !found
        invariant
            render <= queue_families.len(),
            found ==> render < queue_families.len() && queue_families@[render as int].can_render(),
            forall|earlier: int|
                0 <= earlier < render ==> !(#[trigger] queue_families@[earlier]).can_render(),
        decreases queue_families.len() - render + (if found {
            0int
        } else {
            1int
        }),
    {
        let family = queue_families[render];
        if contains(family.queue_flags, QUEUE_GRAPHICS) && contains(
            family.queue_flags,
            QUEUE_TRANSFER,
        ) && family.surface_support {
            found = true;
        } else {
            render = render + 1;
        }
    }
    if !found || !features_supported {
        return None;
    }
    let mut transfer: usize = render;
    let mut index: usize = 0;
    while index < queue_families.len()
        invariant
            index <= queue_families.len(),
            render < queue_families.len(),
            transfer < queue_families.len(),
            queue_families@.len() <= u32::MAX,
            is_render_family(queue_families@, render as int),
            transfer == render ==> forall|other: int|
                0 <= other < index && other != render ==> !(
                #[trigger] queue_families@[other]).can_transfer(),
            transfer != render ==> {
                &&& transfer < index
                &&& queue_families@[transfer as int].can_transfer()
                &&& forall|other: int|
                    0 <= other < index && other != render && (
                    #[trigger] queue_families@[other]).transfer_only()
                        ==> queue_families@[transfer as int].transfer_only()
                &&& forall|later: int|
                    transfer < later < index && later != render && (
                    #[trigger] queue_families@[later]).can_transfer()
                        ==> queue_families@[transfer as int].transfer_only()
                        && !queue_families@[later].transfer_only()
            },
        decreases queue_families.len() - index,
    {
        let family = queue_families[index];
        if index != render && contains(family.queue_flags, QUEUE_TRANSFER) {
            let only = !contains(family.queue_flags, QUEUE_GRAPHICS);
            let held_only = transfer != render && !contains(
                queue_families[transfer].queue_flags,
                QUEUE_GRAPHICS,
            );
            if transfer == render || only || !held_only {
                transfer = index;
            }
        }
        index = index + 1;
    }
    Some(
        QueueFamilyChoice {
            render_queue_family_index: render as u32,
            transfer_queue_family_index: transfer as u32,
        },
    )
}

/// The queue families for which queues are created with the device: the
/// render family, and the transfer family where it is another.
pub fn device_queue_requests(choice: QueueFamilyChoice) -> (families: Vec<u32>)
    ensures
        families@ == if choice.render_queue_family_index != choice.transfer_queue_family_index {
            seq![choice.render_queue_family_index, choice.transfer_queue_family_index]
        } else {
            seq![choice.render_queue_family_index]
        },
{
    let mut families: Vec<u32> = Vec::new();
    families.push(choice.render_queue_family_index);
    if choice.render_queue_family_index != choice.transfer_queue_family_index {
        families.push(choice.transfer_queue_family_index);
    }
    assert(families@ =~= if choice.render_queue_family_index
        != choice.transfer_queue_family_index {
        seq![choice.render_queue_family_index, choice.transfer_queue_family_index]
    } else {
        seq![choice.render_queue_family_index]
    });
    families
}

/// The features the renderer needs of a device.
#[derive(Clone, Copy, Debug, PartialEq, Eq, Structural)]
pub struct PhysicalDeviceFeatures {
    /// `VkBool32`: drawing polygons as lines or points.
    pub fill_mode_non_solid: u32,
}

/// Whether the supported features include the required ones.
pub fn supports_required_features_1_0(supported_features: PhysicalDeviceFeatures) -> (supported:
    bool)
    ensures
        supported == (supported_features.fill_mode_non_solid != 0),
{
    supported_features.fill_mode_non_solid != 0
}

/// The features enabled on the device.
pub fn required_features_1_0() -> (required: PhysicalDeviceFeatures)
    ensures
        required.fill_mode_non_solid == 1,
{
    PhysicalDeviceFeatures { fill_mode_non_solid: 1 }
}

/// What the choice of a device reads of each candidate.
pub struct PhysicalDeviceInfo {
    /// `VkPhysicalDeviceType`.
    pub device_type: i32,
    /// The device supports the least Vulkan version required.
    pub supports_min_api_version: bool,
    /// The device supports every required extension.
    pub supports_required_extensions: bool,
    pub supported_features: PhysicalDeviceFeatures,
    pub queue_families: Vec<QueueFamily>,
}

/// Why no device was chosen.
#[derive(Clone, Copy, Debug, PartialEq, Eq, Structural)]
pub enum DeviceSelectionError {
    /// No device supports the least Vulkan version.
    UnsupportedApiVersion,
    /// No device of those left supports the required extensions.
    MissingExtensions,
    /// No device of those left has the queues and features required.
    NoSuitableQueues,
}

/// The device chosen, by its position among the candidates, with its
/// queue families.
#[derive(Clone, Copy, Debug, PartialEq, Eq, Structural)]
pub struct ChoosePhysicalDeviceReturn {
    pub physical_device: usize,
    pub render_queue_family_index: u32,
    pub transfer_queue_family_index: u32,
}

/// How much a kind of device is preferred: discrete before integrated
/// before virtual before CPU before anything else.
pub open spec fn spec_device_type_rank(device_type: i32) -> int {
    if device_type == DEVICE_TYPE_DISCRETE_GPU {
        4
    } else if device_type == DEVICE_TYPE_INTEGRATED_GPU {
        3
    } else if device_type == DEVICE_TYPE_VIRTUAL_GPU {
        2
    } else if device_type == DEVICE_TYPE_CPU {
        1
    } else {
        0
    }
}

/// How much a kind of device is preferred.
pub fn device_type_rank(device_type: i32) -> (rank: u8)
    ensures
        rank == spec_device_type_rank(device_type),
{
    if device_type == DEVICE_TYPE_DISCRETE_GPU {
        4
    } else if device_type == DEVICE_TYPE_INTEGRATED_GPU {
        3
    } else if device_type == DEVICE_TYPE_VIRTUAL_GPU {
        2
    } else if device_type == DEVICE_TYPE_CPU {
        1
    } else {
        0
    }
}

/// What a `PhysicalDeviceInfo` holds, as a value.
pub struct PhysicalDeviceView {
    pub device_type: i32,
    pub supports_min_api_version: bool,
    pub supports_required_extensions: bool,
    pub supported_features: PhysicalDeviceFeatures,
    pub queue_families: Seq<QueueFamily>,
}

impl View for PhysicalDeviceInfo {
    type V = PhysicalDeviceView;

    open spec fn view(&self) -> PhysicalDeviceView {
        PhysicalDeviceView {
            device_type: self.device_type,
            supports_min_api_version: self.supports_min_api_version,
            supports_required_extensions: self.supports_required_extensions,
            supported_features: self.supported_features,
            queue_families: self.queue_families@,
        }
    }
}

impl PhysicalDeviceView {
    /// Whether the device has a family to render with and the features
    /// required.
    pub open spec fn has_queues(self) -> bool {
        self.supported_features.fill_mode_non_solid != 0 && exists|index: int|
            0 <= index < self.queue_families.len() && (
            #[trigger] self.queue_families[index]).can_render()
    }

    /// Whether the device can be used at all.
    pub open spec fn suitable(self) -> bool {
        self.supports_min_api_version && self.supports_required_extensions && self.has_queues()
    }
}

/// Chooses the device to render with: of the devices that support the
/// Vulkan version, the extensions, and the queues and features required,
/// the one whose kind is preferred most, and among equals the last. Each
/// requirement that leaves no device is reported by its own error.
pub fn choose_physical_device_and_queue_families(devices: &Vec<PhysicalDeviceInfo>) -> (chosen:
    Result<ChoosePhysicalDeviceReturn, DeviceSelectionError>)
    requires
        forall|d: int|
            0 <= d < devices@.len() ==> (#[trigger] devices@[d]).queue_families@.len() <= u32::MAX,
    ensures
        match chosen {
            Ok(device) => {
                let index = device.physical_device as int;
                &&& 0 <= index < devices@.len()
                &&& devices@[index]@.suitable()
                &&& forall|other: int|
                    0 <= other < devices@.len() && (#[trigger] devices@[other])@.suitable()
                        ==> spec_device_type_rank(devices@[other].device_type)
                        <= spec_device_type_rank(devices@[index].device_type)
                &&& forall|later: int|
                    index < later < devices@.len() && (#[trigger] devices@[later])@.suitable()
                        ==> spec_device_type_rank(devices@[later].device_type)
                        < spec_device_type_rank(devices@[index].device_type)
                &&& is_render_family(
                    devices@[index].queue_families@,
                    device.render_queue_family_index as int,
                )
                &&& if device.transfer_queue_family_index == device.render_queue_family_index {
                    no_other_transfer_family(
                        devices@[index].queue_families@,
                        device.render_queue_family_index as int,
                    )
                } else {
                    is_transfer_family(
                        devices@[index].queue_families@,
                        device.render_queue_family_index as int,
                        device.transfer_queue_family_index as int,
                    )
                }
            },
            Err(DeviceSelectionError::UnsupportedApiVersion) => forall|d: int|
                0 <= d < devices@.len() ==> !(#[trigger] devices@[d]).supports_min_api_version,
            Err(DeviceSelectionError::MissingExtensions) => {
                &&& exists|d: int|
                    0 <= d < devices@.len() && (#[trigger] devices@[d]).supports_min_api_version
                &&& forall|d: int|
                    0 <= d < devices@.len() ==> !((#[trigger] devices@[d]).supports_min_api_version
                        && devices@[d].supports_required_extensions)
            },
            Err(DeviceSelectionError::NoSuitableQueues) => {
                &&& exists|d: int|
                    0 <= d < devices@.len() && (#[trigger] devices@[d]).supports_min_api_version
                        && devices@[d].supports_required_extensions
                &&& forall|d: int| 0 <= d < devices@.len() ==> !(#[trigger] devices@[d])@.suitable()
            },
        },
{
    let mut any_api = false;
    let mut any_extensions = false;
    let mut best: Option<ChoosePhysicalDeviceReturn> = None;
    let mut index: usize = 0;
    while index < devices.len()
        invariant
            index <= devices.len(),
            forall|d: int|
                0 <= d < devices@.len() ==> (#[trigger] devices@[d]).queue_families@.len()
                    <= u32::MAX,
            any_api <==> exists|d: int|
                0 <= d < index && (#[trigger] devices@[d]).supports_min_api_version,
            any_extensions <==> exists|d: int|
                0 <= d < index && (#[trigger] devices@[d]).supports_min_api_version
                    && devices@[d].supports_required_extensions,
            match best {
                Some(device) => {
                    let held = device.physical_device as int;
                    &&& 0 <= held < index
                    &&& devices@[held]@.suitable()
                    &&& forall|other: int|
                        0 <= other < index && (#[trigger] devices@[other])@.suitable()
                            ==> spec_device_type_rank(devices@[other].device_type)
                            <= spec_device_type_rank(devices@[held].device_type)
                    &&& forall|later: int|
                        held < later < index && (#[trigger] devices@[later])@.suitable()
                            ==> spec_device_type_rank(devices@[later].device_type)
                            < spec_device_type_rank(devices@[held].device_type)
                    &&& is_render_family(
                        devices@[held].queue_families@,
                        device.render_queue_family_index as int,
                    )
                    &&& if device.transfer_queue_family_index
                        == device.render_queue_family_index {
                        no_other_transfer_family(
                            devices@[held].queue_families@,
                            device.render_queue_family_index as int,
                        )
                    } else {
                        is_transfer_family(
                            devices@[held].queue_families@,
                            device.render_queue_family_index as int,
                            device.transfer_queue_family_index as int,
                        )
                    }
                },
                None => forall|d: int| 0 <= d < index ==> !(#[trigger] devices@[d])@.suitable(),
            },
        decreases devices.len() - index,
    {
        let device = &devices[index];
        if device.supports_min_api_version {
            any_api = true;
            if device.supports_required_extensions {
                any_extensions = true;
                let families = check_physical_device_queue_support(
                    &device.queue_families,
                    supports_required_features_1_0(device.supported_features),
                );
                match families {
                    Some(choice) => {
                        assert(devices@[index as int]@.queue_families[choice.render_queue_family_index as int].can_render());
                        assert(devices@[index as int]@.suitable());
                        let candidate = ChoosePhysicalDeviceReturn {
                            physical_device: index,
                            render_queue_family_index: choice.render_queue_family_index,
                            transfer_queue_family_index: choice.transfer_queue_family_index,
                        };
                        let better = match best {
                            Some(held) => device_type_rank(device.device_type) >= device_type_rank(
                                devices[held.physical_device].device_type,
                            ),
                            None => true,
                        };
                        if better {
                            best = Some(candidate);
                        }
                    },
                    None => {
                        assert(!devices@[index as int]@.suitable());
                    },
                }
            }
        }
        index = index + 1;
    }
    match best {
        Some(device) => Ok(device),
        None => if !any_api {
            Err(DeviceSelectionError::UnsupportedApiVersion)
        } else if !any_extensions {
            Err(DeviceSelectionError::MissingExtensions)
        } else {
            Err(DeviceSelectionError::NoSuitableQueues)
        },
    }
}

/// Why no depth format was chosen: the device supports neither
/// floating-point depth format as a depth attachment.
#[derive(Clone, Copy, Debug, PartialEq, Eq, Structural)]
pub struct NoDepthFormat;

/// The depth buffer's format, from the optimal tiling features the device
/// reports for the two floating-point depth formats: the plain 32-bit one
/// if it can be a depth attachment, else the one with a stencil part if
/// that can.
pub fn choose_depth_buffer_format(d32_features: u32, d32_s8_features: u32) -> (format: Result<
    i32,
    NoDepthFormat,
>)
    ensures
        format == if spec_contains(d32_features, FORMAT_FEATURE_DEPTH_STENCIL_ATTACHMENT) {
            Ok::<i32, NoDepthFormat>(FORMAT_D32_SFLOAT)
        } else if spec_contains(d32_s8_features, FORMAT_FEATURE_DEPTH_STENCIL_ATTACHMENT) {
            Ok::<i32, NoDepthFormat>(FORMAT_D32_SFLOAT_S8_UINT)
        } else {
            Err::<i32, NoDepthFormat>(NoDepthFormat)
        },
{
    if contains(d32_features, FORMAT_FEATURE_DEPTH_STENCIL_ATTACHMENT) {
        Ok(FORMAT_D32_SFLOAT)
    } else if contains(d32_s8_features, FORMAT_FEATURE_DEPTH_STENCIL_ATTACHMENT) {
        Ok(FORMAT_D32_SFLOAT_S8_UINT)
    } else {
        Err(NoDepthFormat)
    }
}

/// What asking the window for a handle gave.
#[derive(Clone, Copy, Debug, PartialEq, Eq, Structural)]
pub enum HandleProbe {
    Available,
    /// The handle does not exist at the moment.
    Unavailable,
    /// Any other error.
    Failed,
}

/// What to do after asking the window for a handle.
#[derive(Clone, Copy, Debug, PartialEq, Eq, Structural)]
pub enum HandleDecision {
    Use,
    /// Sleep a millisecond and ask again.
    SleepAndRetry,
    /// The handle stayed unavailable through every poll granted.
    GiveUp,
    /// Hand the error on.
    Fail,
}

/// Decides on a handle probe, given how many polls have been made after
/// the first probe: an unavailable handle is polled for again until the
/// polls granted are used up.
pub fn handle_poll(probe: HandleProbe, polls_made: u32) -> (decision: HandleDecision)
    ensures
        decision == match probe {
            HandleProbe::Available => HandleDecision::Use,
            HandleProbe::Failed => HandleDecision::Fail,
            HandleProbe::Unavailable => if polls_made < DISPLAY_UNAVAILABLE_TIMEOUT_POLLS {
                HandleDecision::SleepAndRetry
            } else {
                HandleDecision::GiveUp
            },
        },
{
    match probe {
        HandleProbe::Available => HandleDecision::Use,
        HandleProbe::Failed => HandleDecision::Fail,
        HandleProbe::Unavailable => if polls_made < DISPLAY_UNAVAILABLE_TIMEOUT_POLLS {
            HandleDecision::SleepAndRetry
        } else {
            HandleDecision::GiveUp
        },
    }
}

} // verus!
