//! Configuration of the swapchain and of what hangs on it: one image view
//! and one framebuffer per image.

use crate::device::Device;
use vstd::prelude::*;

verus! {

/// `VK_FORMAT_B8G8R8_SRGB`, the preferred pixel format.
pub const VK_FORMAT_B8G8R8_SRGB: u32 = 36;

/// `VK_COLOR_SPACE_SRGB_NONLINEAR_KHR`, the preferred colour space.
pub const VK_COLOR_SPACE_SRGB_NONLINEAR_KHR: u32 = 0;

/// `VK_PRESENT_MODE_IMMEDIATE_KHR`.
pub const VK_PRESENT_MODE_IMMEDIATE_KHR: u32 = 0;

/// `VK_PRESENT_MODE_MAILBOX_KHR`.
pub const VK_PRESENT_MODE_MAILBOX_KHR: u32 = 1;

/// `VK_PRESENT_MODE_FIFO_KHR`, which every driver offers.
pub const VK_PRESENT_MODE_FIFO_KHR: u32 = 2;

/// `VK_PRESENT_MODE_FIFO_RELAXED_KHR`.
pub const VK_PRESENT_MODE_FIFO_RELAXED_KHR: u32 = 3;

/// `VK_IMAGE_USAGE_COLOR_ATTACHMENT_BIT`.
pub const VK_IMAGE_USAGE_COLOR_ATTACHMENT_BIT: u32 = 0x10;

/// `VK_COMPOSITE_ALPHA_OPAQUE_BIT_KHR`.
pub const VK_COMPOSITE_ALPHA_OPAQUE_BIT_KHR: u32 = 0x1;

/// `VK_IMAGE_VIEW_TYPE_2D`.
pub const VK_IMAGE_VIEW_TYPE_2D: u32 = 1;

/// `VK_COMPONENT_SWIZZLE_IDENTITY`.
pub const VK_COMPONENT_SWIZZLE_IDENTITY: u32 = 0;

/// `VK_IMAGE_ASPECT_COLOR_BIT`.
pub const VK_IMAGE_ASPECT_COLOR_BIT: u32 = 0x1;

/// The width that a surface reports when its size is for the swapchain to
/// decide.
pub const EXTENT_UNDEFINED: u32 = 0xffff_ffff;

/// A size in pixels.
#[derive(Clone, Copy, Debug, PartialEq, Eq, Structural)]
pub struct Extent2D {
    pub width: u32,
    pub height: u32,
}

/// A pixel format together with the colour space it is shown in.
#[derive(Clone, Copy, Debug, PartialEq, Eq, Structural)]
pub struct SurfaceFormat {
    pub format: u32,
    pub color_space: u32,
}

/// What the surface allows, as far as the swapchain depends on it.
#[derive(Clone, Copy, Debug, PartialEq, Eq, Structural)]
pub struct SurfaceCapabilities {
    /// Fewest images that a swapchain may have.
    pub min_image_count: u32,
    /// Most images that a swapchain may have; 0 for no limit.
    pub max_image_count: u32,
    /// The size of the surface, or a width of [`EXTENT_UNDEFINED`].
    pub current_extent: Extent2D,
    /// Smallest image size.
    pub min_image_extent: Extent2D,
    /// Largest image size.
    pub max_image_extent: Extent2D,
    /// The transform that the surface applies now.
    pub current_transform: u32,
}

/// What an adapter can do with the surface.
pub struct SwapchainSupport {
    pub capabilities: SurfaceCapabilities,
    pub formats: Vec<SurfaceFormat>,
    pub present_modes: Vec<u32>,
}

/// Who may use the swapchain images.
#[derive(Clone, Copy, Debug, PartialEq, Eq, Structural)]
pub enum SharingMode {
    /// One queue family at a time; no family is listed.
    Exclusive,
    /// The graphics and the present family at once.
    Concurrent { graphics: u32, present: u32 },
}

/// Everything that creating a swapchain needs to be told.
#[derive(Clone, Copy, Debug, PartialEq, Eq, Structural)]
pub struct Swapchain {
    pub min_image_count: u32,
    pub format: u32,
    pub color_space: u32,
    pub extent: Extent2D,
    pub image_array_layers: u32,
    pub image_usage: u32,
    pub sharing: SharingMode,
    pub pre_transform: u32,
    pub composite_alpha: u32,
    pub present_mode: u32,
    pub clipped: bool,
}

/// Everything that creating the view of one swapchain image needs to be
/// told.
#[derive(Clone, Copy, Debug, PartialEq, Eq, Structural)]
pub struct ImageView {
    /// Which image of the swapchain.
    pub image: u32,
    pub view_type: u32,
    pub format: u32,
    /// Swizzle of each of the four channels.
    pub swizzle: u32,
    pub aspect_mask: u32,
    pub base_mip_level: u32,
    pub level_count: u32,
    pub base_array_layer: u32,
    pub layer_count: u32,
}

/// Everything that creating one framebuffer needs to be told.
#[derive(Clone, Copy, Debug, PartialEq, Eq, Structural)]
pub struct Framebuffer {
    /// Which image view is the one attachment.
    pub attachment: u32,
    pub width: u32,
    pub height: u32,
    pub layers: u32,
}

/// Why no swapchain can be configured.
#[derive(Clone, Copy, Debug, PartialEq, Eq, Structural)]
pub enum SwapchainError {
    /// The adapter offers no surface format.
    NoSurfaceFormat,
    /// The window reports a negative framebuffer size.
    NegativeFramebufferSize,
    /// The surface's smallest extent exceeds its largest.
    ExtentBoundsInverted,
    /// One image more than the minimum is more than a count can hold.
    ImageCountOverflow,
    /// The device has no graphics or no present family.
    MissingQueueFamily,
}

/// Whether a surface format is the preferred one.
pub open spec fn is_preferred(format: SurfaceFormat) -> bool {
    format.format == VK_FORMAT_B8G8R8_SRGB && format.color_space
        == VK_COLOR_SPACE_SRGB_NONLINEAR_KHR
}

/// The surface format to use: the preferred one where the adapter offers
/// it, else the first that it offers.
pub open spec fn chosen_format(formats: Seq<SurfaceFormat>) -> Option<SurfaceFormat> {
    if formats.len() == 0 {
        None
    } else if exists|i: int| 0 <= i < formats.len() && is_preferred(#[trigger] formats[i]) {
        Some(
            SurfaceFormat {
                format: VK_FORMAT_B8G8R8_SRGB,
                color_space: VK_COLOR_SPACE_SRGB_NONLINEAR_KHR,
            },
        )
    } else {
        Some(formats[0])
    }
}

/// The present mode to use: the first of immediate, relaxed FIFO, mailbox
/// and FIFO that the adapter offers, and FIFO where it offers none.
pub open spec fn chosen_present_mode(modes: Seq<u32>) -> u32 {
    if modes.contains(VK_PRESENT_MODE_IMMEDIATE_KHR) {
        VK_PRESENT_MODE_IMMEDIATE_KHR
    } else if modes.contains(VK_PRESENT_MODE_FIFO_RELAXED_KHR) {
        VK_PRESENT_MODE_FIFO_RELAXED_KHR
    } else if modes.contains(VK_PRESENT_MODE_MAILBOX_KHR) {
        VK_PRESENT_MODE_MAILBOX_KHR
    } else {
        VK_PRESENT_MODE_FIFO_KHR
    }
}

/// `value` brought into `low ..= high`.
pub open spec fn clamped(value: int, low: int, high: int) -> int {
    if value < low {
        low
    } else if value > high {
        high
    } else {
        value
    }
}

/// The size of the swapchain images: the size of the surface where it
/// has one, else the framebuffer size of the window brought within the
/// bounds of the surface.
pub open spec fn chosen_extent(capabilities: SurfaceCapabilities, fb_width: i32, fb_height: i32)
    -> Result<Extent2D, SwapchainError> {
    let low = capabilities.min_image_extent;
    let high = capabilities.max_image_extent;
    if capabilities.current_extent.width != EXTENT_UNDEFINED {
        Ok(capabilities.current_extent)
    } else if fb_width < 0 || fb_height < 0 {
        Err(SwapchainError::NegativeFramebufferSize)
    } else if low.width > high.width || low.height > high.height {
        Err(SwapchainError::ExtentBoundsInverted)
    } else {
        Ok(
            Extent2D {
                width: clamped(fb_width as int, low.width as int, high.width as int) as u32,
                height: clamped(fb_height as int, low.height as int, high.height as int) as u32,
            },
        )
    }
}

/// The number of images to ask for: one more than the minimum, but no
/// more than the maximum where there is one.
pub open spec fn chosen_image_count(capabilities: SurfaceCapabilities) -> int {
    let wanted = capabilities.min_image_count + 1;
    if wanted > capabilities.max_image_count && capabilities.max_image_count != 0 {
        capabilities.max_image_count as int
    } else {
        wanted
    }
}

/// How the images are shared between the two queue families.
pub open spec fn chosen_sharing(graphics: u32, present: u32) -> SharingMode {
    if graphics == present {
        SharingMode::Exclusive
    } else {
        SharingMode::Concurrent { graphics, present }
    }
}

/// The swapchain configuration for a device and a framebuffer size, or
/// the first reason why there is none.
pub open spec fn configured(device: Device, fb_width: i32, fb_height: i32) -> Result<
    Swapchain,
    SwapchainError,
> {
    let support = device.swapchain_support;
    match chosen_format(support.formats@) {
        None => Err(SwapchainError::NoSurfaceFormat),
        Some(surface_format) => match chosen_extent(support.capabilities, fb_width, fb_height) {
            Err(e) => Err(e),
            Ok(extent) => if chosen_image_count(support.capabilities) > u32::MAX {
                Err(SwapchainError::ImageCountOverflow)
            } else {
                match (device.queue_families.graphics, device.queue_families.present) {
                    (Some(graphics), Some(present)) => Ok(
                        Swapchain {
                            min_image_count: chosen_image_count(support.capabilities) as u32,
                            format: surface_format.format,
                            color_space: surface_format.color_space,
                            extent,
                            image_array_layers: 1,
                            image_usage: VK_IMAGE_USAGE_COLOR_ATTACHMENT_BIT,
                            sharing: chosen_sharing(graphics, present),
                            pre_transform: support.capabilities.current_transform,
                            composite_alpha: VK_COMPOSITE_ALPHA_OPAQUE_BIT_KHR,
                            present_mode: chosen_present_mode(support.present_modes@),
                            clipped: true,
                        },
                    ),
                    _ => Err(SwapchainError::MissingQueueFamily),
                }
            },
        },
    }
}

/// The view of image `image` in `format`: a plain two-dimensional colour
/// view of the one mip level and the one layer.
pub open spec fn view_of(image: u32, format: u32) -> ImageView {
    ImageView {
        image,
        view_type: VK_IMAGE_VIEW_TYPE_2D,
        format,
        swizzle: VK_COMPONENT_SWIZZLE_IDENTITY,
        aspect_mask: VK_IMAGE_ASPECT_COLOR_BIT,
        base_mip_level: 0,
        level_count: 1,
        base_array_layer: 0,
        layer_count: 1,
    }
}

/// `VK_PRESENT_MODE_SHARED_DEMAND_REFRESH_KHR`.
pub const VK_PRESENT_MODE_SHARED_DEMAND_REFRESH_KHR: u32 = 1000111000;

/// `VK_PRESENT_MODE_SHARED_CONTINUOUS_REFRESH_KHR`.
pub const VK_PRESENT_MODE_SHARED_CONTINUOUS_REFRESH_KHR: u32 = 1000111001;

/// The name of a present mode, for the eyes of the user.
pub fn present_mode_name(mode: u32) -> (name: &'static str)
    ensures
        name@ == if mode == VK_PRESENT_MODE_IMMEDIATE_KHR {
            "Immediate"@
        } else if mode == VK_PRESENT_MODE_MAILBOX_KHR {
            "Mailbox"@
        } else if mode == VK_PRESENT_MODE_FIFO_KHR {
            "FIFO"@
        } else if mode == VK_PRESENT_MODE_FIFO_RELAXED_KHR {
            "FIFO relaxed"@
        } else if mode == VK_PRESENT_MODE_SHARED_DEMAND_REFRESH_KHR {
            "Shared on-demand refresh"@
        } else if mode == VK_PRESENT_MODE_SHARED_CONTINUOUS_REFRESH_KHR {
            "Shared continuous refresh"@
        } else {
            "Unknown"@
        },
{
    if mode == VK_PRESENT_MODE_IMMEDIATE_KHR {
        "Immediate"
    } else if mode == VK_PRESENT_MODE_MAILBOX_KHR {
        "Mailbox"
    } else if mode == VK_PRESENT_MODE_FIFO_KHR {
        "FIFO"
    } else if mode == VK_PRESENT_MODE_FIFO_RELAXED_KHR {
        "FIFO relaxed"
    } else if mode == VK_PRESENT_MODE_SHARED_DEMAND_REFRESH_KHR {
        "Shared on-demand refresh"
    } else if mode == VK_PRESENT_MODE_SHARED_CONTINUOUS_REFRESH_KHR {
        "Shared continuous refresh"
    } else {
        "Unknown"
    }
}

/// Chooses the surface format. See [`chosen_format`].
pub fn choose_swapchain_surface_format(formats: &Vec<SurfaceFormat>) -> (format: Option<
    SurfaceFormat,
>)
    ensures
        format == chosen_format(formats@),
{
    if formats.len() == 0 {
        return None;
    }
    let mut i: usize = 0;
    while i < formats.len()
        invariant
            i <= formats.len(),
            forall|k: int| 0 <= k < i ==> !is_preferred(#[trigger] formats[k]),
        decreases formats.len() - i,
    {
        let format = formats[i];
        if format.format == VK_FORMAT_B8G8R8_SRGB && format.color_space
            == VK_COLOR_SPACE_SRGB_NONLINEAR_KHR {
            return Some(format);
        }
        i += 1;
    }
    Some(formats[0])
}

/// Whether the adapter offers a present mode.
pub fn offers_present_mode(present_modes: &Vec<u32>, mode: u32) -> (offered: bool)
    ensures
        offered == present_modes@.contains(mode),
{
    let mut i: usize = 0;
    while i < present_modes.len()
        invariant
            i <= present_modes.len(),
            forall|k: int| 0 <= k < i ==> present_modes[k] != mode,
        decreases present_modes.len() - i,
    {
        if present_modes[i] == mode {
            return true;
        }
        i += 1;
    }
    false
}

/// Chooses the present mode. See [`chosen_present_mode`].
pub fn choose_swapchain_present_mode(present_modes: &Vec<u32>) -> (mode: u32)
    ensures
        mode == chosen_present_mode(present_modes@),
{
    if offers_present_mode(present_modes, VK_PRESENT_MODE_IMMEDIATE_KHR) {
        VK_PRESENT_MODE_IMMEDIATE_KHR
    } else if offers_present_mode(present_modes, VK_PRESENT_MODE_FIFO_RELAXED_KHR) {
        VK_PRESENT_MODE_FIFO_RELAXED_KHR
    } else if offers_present_mode(present_modes, VK_PRESENT_MODE_MAILBOX_KHR) {
        VK_PRESENT_MODE_MAILBOX_KHR
    } else {
        VK_PRESENT_MODE_FIFO_KHR
    }
}

/// Brings a framebuffer dimension within the bounds of the surface.
fn clamp_dimension(value: u32, low: u32, high: u32) -> (result: u32)
    requires
        low <= high,
    ensures
        result == clamped(value as int, low as int, high as int),
{
    if value < low {
        low
    } else if value > high {
        high
    } else {
        value
    }
}

/// Chooses the size of the swapchain images. See [`chosen_extent`].
pub fn choose_swapchain_extent(capabilities: SurfaceCapabilities, fb_width: i32, fb_height: i32)
    -> (extent: Result<Extent2D, SwapchainError>)
    ensures
        extent == chosen_extent(capabilities, fb_width, fb_height),
{
    if capabilities.current_extent.width != EXTENT_UNDEFINED {
        return Ok(capabilities.current_extent);
    }
    if fb_width < 0 || fb_height < 0 {
        return Err(SwapchainError::NegativeFramebufferSize);
    }
    let low = capabilities.min_image_extent;
    let high = capabilities.max_image_extent;
    if low.width > high.width || low.height > high.height {
        return Err(SwapchainError::ExtentBoundsInverted);
    }
    Ok(
        Extent2D {
            width: clamp_dimension(fb_width as u32, low.width, high.width),
            height: clamp_dimension(fb_height as u32, low.height, high.height),
        },
    )
}

/// Chooses the number of images. `None` where one more than the minimum
/// does not fit and the surface sets no maximum.
pub fn choose_image_count(capabilities: SurfaceCapabilities) -> (count: Option<u32>)
    ensures
        count is Some <==> chosen_image_count(capabilities) <= u32::MAX,
        count matches Some(c) ==> c == chosen_image_count(capabilities),
{
    let max_image_count = capabilities.max_image_count;
    match capabilities.min_image_count.checked_add(1) {
        Some(wanted) => {
            if wanted > max_image_count && max_image_count != 0 {
                Some(max_image_count)
            } else {
                Some(wanted)
            }
        },
        None => {
            if max_image_count != 0 {
                Some(max_image_count)
            } else {
                None
            }
        },
    }
}

impl Swapchain {
    /// Configures the swapchain for a device and the framebuffer size of
    /// the window. See [`configured`].
    pub fn from_device(device: &Device, fb_width: i32, fb_height: i32) -> (swapchain: Result<
        Swapchain,
        SwapchainError,
    >)
        ensures
            swapchain == configured(*device, fb_width, fb_height),
    {
        let support = &device.swapchain_support;
        let surface_format = match choose_swapchain_surface_format(&support.formats) {
            Some(f) => f,
            None => { return Err(SwapchainError::NoSurfaceFormat); },
        };
        let present_mode = choose_swapchain_present_mode(&support.present_modes);
        let extent = match choose_swapchain_extent(support.capabilities, fb_width, fb_height) {
            Ok(e) => e,
            Err(e) => { return Err(e); },
        };
        let image_count = match choose_image_count(support.capabilities) {
            Some(c) => c,
            None => { return Err(SwapchainError::ImageCountOverflow); },
        };
        let (gfx_idx, present_idx) = match (
            device.queue_families.graphics,
            device.queue_families.present,
        ) {
            (Some(g), Some(p)) => (g, p),
            _ => { return Err(SwapchainError::MissingQueueFamily); },
        };
        let sharing = if gfx_idx == present_idx {
            SharingMode::Exclusive
        } else {
            SharingMode::Concurrent { graphics: gfx_idx, present: present_idx }
        };
        Ok(
            Swapchain {
                min_image_count: image_count,
                format: surface_format.format,
                color_space: surface_format.color_space,
                extent,
                image_array_layers: 1,
                image_usage: VK_IMAGE_USAGE_COLOR_ATTACHMENT_BIT,
                sharing,
                pre_transform: support.capabilities.current_transform,
                composite_alpha: VK_COMPOSITE_ALPHA_OPAQUE_BIT_KHR,
                present_mode,
                clipped: true,
            },
        )
    }

    /// One view description for each of `image_count` images, in the order
    /// of the images and in the format of the swapchain.
    pub fn get_image_views(&self, image_count: u32) -> (views: Vec<ImageView>)
        ensures
            views.len() == image_count,
            forall|i: int| 0 <= i < image_count ==> views[i] == view_of(i as u32, self.format),
    {
        let mut views: Vec<ImageView> = Vec::new();
        let mut image: u32 = 0;
        while image < image_count
            invariant
                image <= image_count,
                views.len() == image,
                forall|i: int| 0 <= i < image ==> views[i] == view_of(i as u32, self.format),
            decreases image_count - image,
        {
            views.push(ImageView::from_raw(image, self.format));
            image += 1;
        }
        views
    }

    /// The size of the images.
    pub fn extent(&self) -> (extent: Extent2D)
        ensures
            extent == self.extent,
    {
        self.extent
    }

    /// The pixel format of the images.
    pub fn format(&self) -> (format: u32)
        ensures
            format == self.format,
    {
        self.format
    }
}

impl ImageView {
    /// The view of one swapchain image. See [`view_of`].
    pub fn from_raw(image: u32, image_format: u32) -> (view: ImageView)
        ensures
            view == view_of(image, image_format),
    {
        ImageView {
            image,
            view_type: VK_IMAGE_VIEW_TYPE_2D,
            format: image_format,
            swizzle: VK_COMPONENT_SWIZZLE_IDENTITY,
            aspect_mask: VK_IMAGE_ASPECT_COLOR_BIT,
            base_mip_level: 0,
            level_count: 1,
            base_array_layer: 0,
            layer_count: 1,
        }
    }
}

impl Framebuffer {
    /// The framebuffer over one image view: that view as its one
    /// attachment, as large as the swapchain images, one layer.
    pub fn new(image_view: &ImageView, swapchain: &Swapchain) -> (framebuffer: Framebuffer)
        ensures
            framebuffer == (Framebuffer {
                attachment: image_view.image,
                width: swapchain.extent.width,
                height: swapchain.extent.height,
                layers: 1,
            }),
    {
        Framebuffer {
            attachment: image_view.image,
            width: swapchain.extent.width,
            height: swapchain.extent.height,
            layers: 1,
        }
    }
}

/// One framebuffer for each image view, in the order of the views.
pub fn create_framebuffers(image_views: &Vec<ImageView>, swapchain: &Swapchain) -> (framebuffers:
    Vec<Framebuffer>)
    ensures
        framebuffers.len() == image_views.len(),
        forall|i: int|
            0 <= i < image_views.len() ==> framebuffers[i] == (Framebuffer {
                attachment: image_views[i].image,
                width: swapchain.extent.width,
                height: swapchain.extent.height,
                layers: 1,
            }),
{
    let mut framebuffers: Vec<Framebuffer> = Vec::new();
    let mut i: usize = 0;
    while i < image_views.len()
        invariant
            i <= image_views.len(),
            framebuffers.len() == i,
            forall|k: int|
                0 <= k < i ==> framebuffers[k] == (Framebuffer {
                    attachment: image_views[k].image,
                    width: swapchain.extent.width,
                    height: swapchain.extent.height,
                    layers: 1,
                }),
        decreases image_views.len() - i,
    {
        framebuffers.push(Framebuffer::new(&image_views[i], swapchain));
        i += 1;
    }
    framebuffers
}

} // verus!
