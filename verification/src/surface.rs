//! What a surface reports about itself, and the policy by which a
//! swapchain's settings are chosen from it.

use vstd::prelude::*;
use crate::vk::{
    contains, format_is_srgb, query_format_srgb, spec_contains, COMPOSITE_ALPHA_INHERIT,
    COMPOSITE_ALPHA_OPAQUE, COMPOSITE_ALPHA_POST_MULTIPLIED, COMPOSITE_ALPHA_PRE_MULTIPLIED,
    EXTENT_UNDEFINED, IMAGE_USAGE_COLOR_ATTACHMENT, PRESENT_MODE_FIFO, PRESENT_MODE_MAILBOX, SHARING_MODE_EXCLUSIVE,
    SURFACE_TRANSFORM_IDENTITY,
};

verus! {

/// A width and a height in pixels.
#[derive(Clone, Copy, Debug, PartialEq, Eq, Structural)]
pub struct Extent2D {
    pub width: u32,
    pub height: u32,
}

/// A pixel format with the colour space it is presented in, both as raw
/// Vulkan values.
#[derive(Clone, Copy, Debug, PartialEq, Eq, Structural)]
pub struct SurfaceFormat {
    pub format: i32,
    pub color_space: i32,
}

/// The capabilities a surface reports, as raw Vulkan values.
#[derive(Clone, Copy, Debug, PartialEq, Eq, Structural)]
pub struct SurfaceCapabilities {
    pub min_image_count: u32,
    pub max_image_count: u32,
    pub current_extent: Extent2D,
    pub min_image_extent: Extent2D,
    pub max_image_extent: Extent2D,
    pub supported_transforms: u32,
    pub current_transform: u32,
    pub supported_composite_alpha: u32,
}

/// The composite alpha modes in the order in which they are preferred.
pub open spec fn composite_alpha_preference() -> Seq<u32> {
    seq![
        COMPOSITE_ALPHA_POST_MULTIPLIED,
        COMPOSITE_ALPHA_OPAQUE,
        COMPOSITE_ALPHA_PRE_MULTIPLIED,
        COMPOSITE_ALPHA_INHERIT,
    ]
}

/// Whether `chosen` is the entry of `preference` at `rank`, is supported,
/// and nothing before it is.
pub open spec fn is_first_supported(
    supported: u32,
    preference: Seq<u32>,
    rank: int,
    chosen: u32,
) -> bool {
    &&& 0 <= rank < preference.len()
    &&& preference[rank] == chosen
    &&& spec_contains(supported, chosen)
    &&& forall|earlier: int| 0 <= earlier < rank ==> !spec_contains(supported, #[trigger] preference[earlier])
}

/// Whether the surface supports any of the four composite alpha modes.
pub open spec fn supports_some_composite_alpha(supported: u32) -> bool {
    exists|rank: int|
        0 <= rank < composite_alpha_preference().len() && spec_contains(
            supported,
            #[trigger] composite_alpha_preference()[rank],
        )
}

impl SurfaceCapabilities {
    /// Whether a composite alpha mode can be chosen for this surface.
    pub fn has_composite_alpha(&self) -> (any: bool)
        ensures
            any == supports_some_composite_alpha(self.supported_composite_alpha),
    {
        let supported: u32 = self.supported_composite_alpha;
        let any = contains(supported, COMPOSITE_ALPHA_POST_MULTIPLIED) || contains(
            supported,
            COMPOSITE_ALPHA_OPAQUE,
        ) || contains(supported, COMPOSITE_ALPHA_PRE_MULTIPLIED) || contains(
            supported,
            COMPOSITE_ALPHA_INHERIT,
        );
        proof {
            let preference = composite_alpha_preference();
            assert(preference[0] == COMPOSITE_ALPHA_POST_MULTIPLIED);
            assert(preference[1] == COMPOSITE_ALPHA_OPAQUE);
            assert(preference[2] == COMPOSITE_ALPHA_PRE_MULTIPLIED);
            assert(preference[3] == COMPOSITE_ALPHA_INHERIT);
        }
        any
    }
}

/// The first composite alpha mode that `supported` holds, in the order
/// post-multiplied, opaque, pre-multiplied, inherit.
pub open spec fn spec_choose_composite_alpha(supported: u32) -> u32 {
    if spec_contains(supported, COMPOSITE_ALPHA_POST_MULTIPLIED) {
        COMPOSITE_ALPHA_POST_MULTIPLIED
    } else if spec_contains(supported, COMPOSITE_ALPHA_OPAQUE) {
        COMPOSITE_ALPHA_OPAQUE
    } else if spec_contains(supported, COMPOSITE_ALPHA_PRE_MULTIPLIED) {
        COMPOSITE_ALPHA_PRE_MULTIPLIED
    } else {
        COMPOSITE_ALPHA_INHERIT
    }
}

/// The first composite alpha mode the surface supports, in the order
/// post-multiplied, opaque, pre-multiplied, inherit.
pub fn choose_composite_alpha(surface_capabilities: SurfaceCapabilities) -> (chosen: u32)
    requires
        supports_some_composite_alpha(surface_capabilities.supported_composite_alpha),
    ensures
        chosen == spec_choose_composite_alpha(surface_capabilities.supported_composite_alpha),
        exists|rank: int|
            is_first_supported(
                surface_capabilities.supported_composite_alpha,
                composite_alpha_preference(),
                rank,
                chosen,
            ),
{
    let supported: u32 = surface_capabilities.supported_composite_alpha;
    let ghost preference = composite_alpha_preference();
    proof {
        assert(preference[0] == COMPOSITE_ALPHA_POST_MULTIPLIED);
        assert(preference[1] == COMPOSITE_ALPHA_OPAQUE);
        assert(preference[2] == COMPOSITE_ALPHA_PRE_MULTIPLIED);
        assert(preference[3] == COMPOSITE_ALPHA_INHERIT);
    }
    if contains(supported, COMPOSITE_ALPHA_POST_MULTIPLIED) {
        assert(is_first_supported(supported, preference, 0, COMPOSITE_ALPHA_POST_MULTIPLIED));
        COMPOSITE_ALPHA_POST_MULTIPLIED
    } else if contains(supported, COMPOSITE_ALPHA_OPAQUE) {
        assert(is_first_supported(supported, preference, 1, COMPOSITE_ALPHA_OPAQUE));
        COMPOSITE_ALPHA_OPAQUE
    } else if contains(supported, COMPOSITE_ALPHA_PRE_MULTIPLIED) {
        assert(is_first_supported(supported, preference, 2, COMPOSITE_ALPHA_PRE_MULTIPLIED));
        COMPOSITE_ALPHA_PRE_MULTIPLIED
    } else {
        assert(is_first_supported(supported, preference, 3, COMPOSITE_ALPHA_INHERIT));
        COMPOSITE_ALPHA_INHERIT
    }
}

/// The composite alpha choice is unique: two modes that both come first
/// among the supported ones are the same mode.
pub proof fn lemma_composite_alpha_choice_unique(
    supported: u32,
    rank_a: int,
    chosen_a: u32,
    rank_b: int,
    chosen_b: u32,
)
    requires
        is_first_supported(supported, composite_alpha_preference(), rank_a, chosen_a),
        is_first_supported(supported, composite_alpha_preference(), rank_b, chosen_b),
    ensures
        rank_a == rank_b,
        chosen_a == chosen_b,
{
    let preference = composite_alpha_preference();
    if rank_a < rank_b {
        assert(!spec_contains(supported, preference[rank_a]));
    } else if rank_b < rank_a {
        assert(!spec_contains(supported, preference[rank_b]));
    }
}

/// The index of the first `true`, if there is one.
pub open spec fn spec_first_marked(marks: Seq<bool>) -> Option<int>
    decreases marks.len(),
{
    if marks.len() == 0 {
        None
    } else if marks[0] {
        Some(0)
    } else {
        match spec_first_marked(marks.subrange(1, marks.len() as int)) {
            Some(index) => Some(index + 1),
            None => None,
        }
    }
}

/// What `spec_first_marked` finds is marked, and nothing before it is;
/// it finds nothing only where nothing is marked.
pub proof fn lemma_first_marked(marks: Seq<bool>)
    ensures
        match spec_first_marked(marks) {
            Some(index) => 0 <= index < marks.len() && marks[index] && forall|earlier: int|
                0 <= earlier < index ==> !marks[earlier],
            None => forall|index: int| 0 <= index < marks.len() ==> !marks[index],
        },
    decreases marks.len(),
{
    if marks.len() > 0 && !marks[0] {
        let rest = marks.subrange(1, marks.len() as int);
        lemma_first_marked(rest);
        match spec_first_marked(rest) {
            Some(index) => {
                assert(marks[index + 1] == rest[index]);
                assert forall|earlier: int| 0 <= earlier < index + 1 implies !marks[earlier] by {
                    if earlier > 0 {
                        assert(marks[earlier] == rest[earlier - 1]);
                    }
                }
            },
            None => {
                assert forall|index: int| 0 <= index < marks.len() implies !marks[index] by {
                    if index > 0 {
                        assert(marks[index] == rest[index - 1]);
                    }
                }
            },
        }
    }
}

/// The index of the first `true` in `marks`, if there is one.
pub fn first_marked(marks: &Vec<bool>) -> (found: Option<usize>)
    ensures
        match found {
            Some(index) => spec_first_marked(marks@) == Some(index as int),
            None => spec_first_marked(marks@) is None,
        },
{
    let mut index: usize = 0;
    while index < marks.len()
        invariant
            index <= marks.len(),
            forall|earlier: int| 0 <= earlier < index ==> !marks@[earlier],
        decreases marks.len() - index,
    {
        if marks[index] {
            proof {
                lemma_first_marked(marks@);
            }
            return Some(index);
        }
        index = index + 1;
    }
    proof {
        lemma_first_marked(marks@);
    }
    None
}

/// For each format, whether it is sRGB encoded.
pub open spec fn srgb_marks(surface_formats: Seq<SurfaceFormat>) -> Seq<bool> {
    Seq::new(surface_formats.len(), |i: int| format_is_srgb(surface_formats[i].format))
}

/// Picks from `surface_formats` the entry at the first mark, or the first
/// entry where nothing is marked.
pub fn pick_surface_format(surface_formats: &Vec<SurfaceFormat>, marks: &Vec<bool>) -> (chosen:
    SurfaceFormat)
    requires
        surface_formats@.len() > 0,
        marks@.len() == surface_formats@.len(),
    ensures
        chosen == match spec_first_marked(marks@) {
            Some(index) => surface_formats@[index],
            None => surface_formats@[0],
        },
{
    proof {
        lemma_first_marked(marks@);
    }
    match first_marked(marks) {
        Some(index) => surface_formats[index],
        None => surface_formats[0],
    }
}

/// The first sRGB encoded format of the list, or its first format where
/// none is sRGB encoded.
pub fn get_first_srgb_surface_format(surface_formats: &Vec<SurfaceFormat>) -> (chosen:
    SurfaceFormat)
    requires
        surface_formats@.len() > 0,
    ensures
        chosen == match spec_first_marked(srgb_marks(surface_formats@)) {
            Some(index) => surface_formats@[index],
            None => surface_formats@[0],
        },
{
    let mut marks: Vec<bool> = Vec::new();
    let mut index: usize = 0;
    while index < surface_formats.len()
        invariant
            index <= surface_formats.len(),
            marks@.len() == index,
            forall|i: int| 0 <= i < index ==> marks@[i] == format_is_srgb(surface_formats@[i].format),
        decreases surface_formats.len() - index,
    {
        marks.push(query_format_srgb(surface_formats[index].format));
        index = index + 1;
    }
    assert(marks@ =~= srgb_marks(surface_formats@));
    pick_surface_format(surface_formats, &marks)
}

/// Whether fragment shaders should write linear colour to an attachment
/// of this format, which is the case exactly for sRGB encoded formats.
pub fn shaders_should_write_linear_color(surface_format: SurfaceFormat) -> (linear: bool)
    ensures
        linear == format_is_srgb(surface_format.format),
{
    query_format_srgb(surface_format.format)
}

/// Mailbox where the surface offers it, else first-in first-out, which
/// every surface offers.
pub open spec fn spec_choose_present_mode(present_modes: Seq<i32>) -> i32 {
    if present_modes.contains(PRESENT_MODE_MAILBOX) {
        PRESENT_MODE_MAILBOX
    } else {
        PRESENT_MODE_FIFO
    }
}

/// The present mode for a surface that offers `present_modes`.
pub fn choose_present_mode(present_modes: &Vec<i32>) -> (chosen: i32)
    ensures
        chosen == spec_choose_present_mode(present_modes@),
{
    let mut index: usize = 0;
    while index < present_modes.len()
        invariant
            index <= present_modes.len(),
            forall|i: int| 0 <= i < index ==> present_modes@[i] != PRESENT_MODE_MAILBOX,
        decreases present_modes.len() - index,
    {
        if present_modes[index] == PRESENT_MODE_MAILBOX {
            assert(present_modes@.contains(PRESENT_MODE_MAILBOX));
            return PRESENT_MODE_MAILBOX;
        }
        index = index + 1;
    }
    assert(!present_modes@.contains(PRESENT_MODE_MAILBOX));
    PRESENT_MODE_FIFO
}

/// The identity transform where the surface supports it, else the
/// transform the surface currently has.
pub open spec fn spec_choose_pre_transform(capabilities: SurfaceCapabilities) -> u32 {
    if spec_contains(capabilities.supported_transforms, SURFACE_TRANSFORM_IDENTITY) {
        SURFACE_TRANSFORM_IDENTITY
    } else {
        capabilities.current_transform
    }
}

/// The transform applied to images before presentation.
pub fn choose_pre_transform(capabilities: &SurfaceCapabilities) -> (chosen: u32)
    ensures
        chosen == spec_choose_pre_transform(*capabilities),
{
    if contains(capabilities.supported_transforms, SURFACE_TRANSFORM_IDENTITY) {
        SURFACE_TRANSFORM_IDENTITY
    } else {
        capabilities.current_transform
    }
}

/// `value` held down to `upper` and then up to `lower`. Where the bounds
/// cross, `lower` wins.
pub open spec fn spec_clamp(value: u32, lower: u32, upper: u32) -> u32 {
    let capped = if value <= upper {
        value
    } else {
        upper
    };
    if capped >= lower {
        capped
    } else {
        lower
    }
}

/// `value` held down to `upper` and then up to `lower`.
pub fn clamp(value: u32, lower: u32, upper: u32) -> (clamped: u32)
    ensures
        clamped == spec_clamp(value, lower, upper),
        lower <= upper ==> lower <= clamped <= upper,
        lower <= value <= upper ==> clamped == value,
{
    let capped: u32 = if value <= upper {
        value
    } else {
        upper
    };
    if capped >= lower {
        capped
    } else {
        lower
    }
}

/// The number of images asked of the swapchain: the preferred count held
/// between what the surface reports as its least and its most.
pub fn clamp_image_count(preferred_image_count: u32, capabilities: &SurfaceCapabilities) -> (count:
    u32)
    ensures
        count == spec_clamp(
            preferred_image_count,
            capabilities.min_image_count,
            capabilities.max_image_count,
        ),
{
    clamp(preferred_image_count, capabilities.min_image_count, capabilities.max_image_count)
}

/// The extent of the swapchain's images: the surface's current extent, or
/// the window's size where the surface leaves its extent undefined, held
/// within the least and the greatest extent the surface reports.
pub open spec fn spec_choose_extent(
    capabilities: SurfaceCapabilities,
    window_dimensions: Extent2D,
) -> Extent2D {
    let wanted = if capabilities.current_extent.width == EXTENT_UNDEFINED {
        window_dimensions
    } else {
        capabilities.current_extent
    };
    Extent2D {
        width: spec_clamp(
            wanted.width,
            capabilities.min_image_extent.width,
            capabilities.max_image_extent.width,
        ),
        height: spec_clamp(
            wanted.height,
            capabilities.min_image_extent.height,
            capabilities.max_image_extent.height,
        ),
    }
}

/// The extent of the swapchain's images for this surface and window.
pub fn choose_extent(capabilities: &SurfaceCapabilities, window_dimensions: Extent2D) -> (extent:
    Extent2D)
    ensures
        extent == spec_choose_extent(*capabilities, window_dimensions),
{
    let wanted = if capabilities.current_extent.width == EXTENT_UNDEFINED {
        window_dimensions
    } else {
        capabilities.current_extent
    };
    Extent2D {
        width: clamp(
            wanted.width,
            capabilities.min_image_extent.width,
            capabilities.max_image_extent.width,
        ),
        height: clamp(
            wanted.height,
            capabilities.min_image_extent.height,
            capabilities.max_image_extent.height,
        ),
    }
}

/// The settings a swapchain is created with.
#[derive(Clone, Copy, Debug, PartialEq, Eq, Structural)]
pub struct SwapchainProperties {
    pub create_flags: u32,
    pub image_count: u32,
    pub surface_format: SurfaceFormat,
    pub dimensions: Extent2D,
    pub array_layers: u32,
    pub image_usage: u32,
    pub sharing_mode: i32,
    pub pre_transform: u32,
    pub composite_alpha: u32,
    pub present_mode: i32,
    pub clipping_enabled: bool,
}

impl SwapchainProperties {
    /// The settings chosen for a surface: mailbox presentation and the
    /// identity transform where offered, the image count and extent held
    /// within what the surface reports, exclusive sharing, one array
    /// layer, clipping enabled. Format, composite alpha and usage are
    /// taken as given.
    pub open spec fn spec_new_default(
        capabilities: SurfaceCapabilities,
        present_modes: Seq<i32>,
        preferred_image_count: u32,
        surface_format: SurfaceFormat,
        composite_alpha: u32,
        image_usage: u32,
        window_dimensions: Extent2D,
    ) -> SwapchainProperties {
        SwapchainProperties {
            create_flags: 0,
            image_count: spec_clamp(
                preferred_image_count,
                capabilities.min_image_count,
                capabilities.max_image_count,
            ),
            surface_format,
            dimensions: spec_choose_extent(capabilities, window_dimensions),
            array_layers: 1,
            image_usage,
            sharing_mode: SHARING_MODE_EXCLUSIVE,
            pre_transform: spec_choose_pre_transform(capabilities),
            composite_alpha,
            present_mode: spec_choose_present_mode(present_modes),
            clipping_enabled: true,
        }
    }

    /// The settings chosen for a surface with these capabilities and
    /// present modes.
    pub fn new_default(
        capabilities: &SurfaceCapabilities,
        present_modes: &Vec<i32>,
        preferred_image_count: u32,
        surface_format: SurfaceFormat,
        composite_alpha: u32,
        image_usage: u32,
        window_dimensions: Extent2D,
    ) -> (properties: Self)
        ensures
            properties == Self::spec_new_default(
                *capabilities,
                present_modes@,
                preferred_image_count,
                surface_format,
                composite_alpha,
                image_usage,
                window_dimensions,
            ),
    {
        SwapchainProperties {
            create_flags: 0,
            image_count: clamp_image_count(preferred_image_count, capabilities),
            surface_format,
            dimensions: choose_extent(capabilities, window_dimensions),
            array_layers: 1,
            image_usage,
            sharing_mode: SHARING_MODE_EXCLUSIVE,
            pre_transform: choose_pre_transform(capabilities),
            composite_alpha,
            present_mode: choose_present_mode(present_modes),
            clipping_enabled: true,
        }
    }
}

/// Everything queried from a surface and its window before a swapchain is
/// created for it.
pub struct SurfaceReport {
    pub capabilities: SurfaceCapabilities,
    /// The supported formats, in the order the surface lists them.
    pub formats: Vec<SurfaceFormat>,
    /// The supported present modes.
    pub present_modes: Vec<i32>,
    /// The window's inner size.
    pub window_dimensions: Extent2D,
}

/// What a `SurfaceReport` holds, as a value.
pub struct SurfaceReportView {
    pub capabilities: SurfaceCapabilities,
    pub formats: Seq<SurfaceFormat>,
    pub present_modes: Seq<i32>,
    pub window_dimensions: Extent2D,
}

impl View for SurfaceReport {
    type V = SurfaceReportView;

    open spec fn view(&self) -> SurfaceReportView {
        SurfaceReportView {
            capabilities: self.capabilities,
            formats: self.formats@,
            present_modes: self.present_modes@,
            window_dimensions: self.window_dimensions,
        }
    }
}

impl SurfaceReportView {
    /// A swapchain can be configured from the report: the surface lists a
    /// format and supports a composite alpha mode.
    pub open spec fn usable(self) -> bool {
        &&& self.formats.len() > 0
        &&& supports_some_composite_alpha(self.capabilities.supported_composite_alpha)
    }

    /// The format chosen from the report: its first sRGB encoded one, else
    /// its first.
    pub open spec fn chosen_format(self) -> SurfaceFormat {
        match spec_first_marked(srgb_marks(self.formats)) {
            Some(index) => self.formats[index],
            None => self.formats[0],
        }
    }

    /// The swapchain settings chosen from the report.
    pub open spec fn chosen_properties(self, preferred_image_count: u32) -> SwapchainProperties {
        SwapchainProperties::spec_new_default(
            self.capabilities,
            self.present_modes,
            preferred_image_count,
            self.chosen_format(),
            spec_choose_composite_alpha(self.capabilities.supported_composite_alpha),
            IMAGE_USAGE_COLOR_ATTACHMENT,
            self.window_dimensions,
        )
    }
}

impl SurfaceReport {
    /// Whether a swapchain can be configured from this report.
    pub fn is_usable(&self) -> (usable: bool)
        ensures
            usable == self@.usable(),
    {
        self.formats.len() > 0 && self.capabilities.has_composite_alpha()
    }
}

/// The settings of the swapchain for a surface that reported `report`:
/// every choice is made by this module's policy, for colour attachment
/// images.
pub fn swapchain_properties(report: &SurfaceReport, preferred_image_count: u32) -> (properties:
    SwapchainProperties)
    requires
        report@.usable(),
    ensures
        properties == report@.chosen_properties(preferred_image_count),
{
    let composite_alpha = choose_composite_alpha(report.capabilities);
    let surface_format = get_first_srgb_surface_format(&report.formats);
    SwapchainProperties::new_default(
        &report.capabilities,
        &report.present_modes,
        preferred_image_count,
        surface_format,
        composite_alpha,
        IMAGE_USAGE_COLOR_ATTACHMENT,
        report.window_dimensions,
    )
}

} // verus!
