//! Vulkan: the SPIR-V modules that the renderer hands to the driver, and the choices that
//! it makes from what the driver reports of a physical device.

use vstd::prelude::*;

use crate::byte_order::machine_is_little_endian;

pub mod spirv;

verus! {

/// What can go wrong while setting up the renderer.
#[derive(Debug, Clone, Copy, PartialEq, Eq, Structural)]
pub enum Error {
    StringConversion,
    VkResult(i32),
    BadOptimalFeatures,
    Synchronization2NotSupported,
    BadQueueFamilyIndex,
    NoUseableFormat,
    NoPresentationMode,
    NoQueueFamily,
    SwapchainImageCount,
    BadTransform,
    SurfaceNoTransfer,
    BadSwapchainImageCount,
    InvalidMapPtr,
}

/// The validation layer.
pub const LAYER_NAME_VALIDATION: &'static str = "VK_LAYER_KHRONOS_validation";

/// The synchronization layer.
pub const LAYER_NAME_SYNC: &'static str = "VK_LAYER_KHRONOS_synchronization2";

/// The surface extension.
pub const INSTANCE_EXTENSION_NAME_SURFACE: &'static str = "VK_KHR_surface";

/// The debug extension.
pub const INSTANCE_EXTENSION_NAME_DEBUG: &'static str = "VK_EXT_debug_utils";

/// The kinds of physical device.
#[derive(Debug, Clone, Copy, PartialEq, Eq, Structural)]
pub enum PhysicalDeviceType {
    Other,
    IntegratedGpu,
    DiscreteGpu,
    VirtualGpu,
    Cpu,
}

impl PhysicalDeviceType {
    /// The value that stands for the kind: 0 for `Other`, 1 to 4 for the others in order.
    pub open spec fn value(&self) -> u32 {
        match self {
            PhysicalDeviceType::Other => 0,
            PhysicalDeviceType::IntegratedGpu => 1,
            PhysicalDeviceType::DiscreteGpu => 2,
            PhysicalDeviceType::VirtualGpu => 3,
            PhysicalDeviceType::Cpu => 4,
        }
    }

    /// The kind of a reported value: the one it stands for, `Other` for any value past 4.
    pub fn from_u32(v: u32) -> (r: Self)
        ensures
            v <= 4 ==> r.value() == v,
            v > 4 ==> r == PhysicalDeviceType::Other,
    {
        if v == 1 {
            PhysicalDeviceType::IntegratedGpu
        } else if v == 2 {
            PhysicalDeviceType::DiscreteGpu
        } else if v == 3 {
            PhysicalDeviceType::VirtualGpu
        } else if v == 4 {
            PhysicalDeviceType::Cpu
        } else {
            PhysicalDeviceType::Other
        }
    }
}

/// The image formats that the renderer knows.
#[derive(Debug, Clone, Copy, PartialEq, Eq, Structural)]
pub enum Format {
    Undefined,
    B8G8R8A8unorm,
}

impl Format {
    /// The value that stands for the format: 0, and 44 for `B8G8R8A8unorm`.
    pub open spec fn value(&self) -> u32 {
        match self {
            Format::Undefined => 0,
            Format::B8G8R8A8unorm => 44,
        }
    }

    /// The format of a reported value: `B8G8R8A8unorm` for 44, else `Undefined`.
    pub fn from_u32(v: u32) -> (r: Self)
        ensures
            r == (if v == 44 { Format::B8G8R8A8unorm } else { Format::Undefined }),
    {
        if v == 44 {
            Format::B8G8R8A8unorm
        } else {
            Format::Undefined
        }
    }
}

/// The format features that the renderer needs of optimal tiling: sampled images (0x1),
/// blit source (0x400) and blit destination (0x800).
pub open spec fn has_needed_features(optimal_features: u32) -> bool {
    &&& optimal_features & 0x400 != 0
    &&& optimal_features & 0x800 != 0
    &&& optimal_features & 0x1 != 0
}

/// Checks that the optimal tiling features of the swapchain format are those the renderer
/// needs.
pub fn check_optimal_features(optimal_features: u32) -> (r: Result<(), Error>)
    ensures
        r is Ok <==> has_needed_features(optimal_features),
        r is Err ==> r == Err::<(), Error>(Error::BadOptimalFeatures),
{
    if !((optimal_features & 0x400 > 0) && (optimal_features & 0x800 > 0) && (optimal_features
        & 0x1 > 0)) {
        return Err(Error::BadOptimalFeatures);
    }
    Ok(())
}

/// The memory property bits: device local (0x1), host visible (0x2), host coherent (0x4).
pub open spec fn is_device_local(flags: u32) -> bool {
    flags & 0x1 != 0
}

pub open spec fn is_host_coherent_visible(flags: u32) -> bool {
    flags & 0x2 != 0 && flags & 0x4 != 0
}

/// The first index whose flags satisfy `p`, or 0 where none does.
pub open spec fn first_index_or_zero(flags: Seq<u32>, p: spec_fn(u32) -> bool) -> u32 {
    if exists|i: int| 0 <= i < flags.len() && #[trigger] p(flags[i]) {
        let i = choose|i: int|
            0 <= i < flags.len() && #[trigger] p(flags[i]) && forall|j: int|
                0 <= j < i ==> !p(flags[j]);
        i as u32
    } else {
        0
    }
}

/// The memory types that the renderer uses: the first device-local type and the first
/// host-visible and host-coherent type, each 0 where there is none. `property_flags` holds
/// the property flags of each memory type of the device.
pub fn select_memory_types(property_flags: &[u32]) -> (r: (u32, u32))
    requires
        property_flags@.len() <= u32::MAX,
    ensures
        r.0 == first_index_or_zero(property_flags@, |f: u32| is_device_local(f)),
        r.1 == first_index_or_zero(property_flags@, |f: u32| is_host_coherent_visible(f)),
{
    let local: u32 = first_matching(property_flags, false);
    let cpu: u32 = first_matching(property_flags, true);
    (local, cpu)
}

proof fn lemma_first_index(flags: Seq<u32>, p: spec_fn(u32) -> bool, i: int)
    requires
        0 <= i < flags.len() <= u32::MAX,
        p(flags[i]),
        forall|j: int| 0 <= j < i ==> !p(flags[j]),
    ensures
        first_index_or_zero(flags, p) == i,
{
    assert(p(flags[i]));
    let k = choose|k: int|
        0 <= k < flags.len() && #[trigger] p(flags[k]) && forall|j: int| 0 <= j < k ==> !p(flags[j]);
    assert(0 <= i < flags.len() && p(flags[i]) && forall|j: int| 0 <= j < i ==> !p(flags[j]));
    if k < i {
        assert(!p(flags[k]));
    } else if k > i {
        assert(!p(flags[i]));
    }
}

/// The index of the first memory type that is device local (`host` false) or host visible
/// and coherent (`host` true); 0 where there is none.
fn first_matching(property_flags: &[u32], host: bool) -> (r: u32)
    requires
        property_flags@.len() <= u32::MAX,
    ensures
        !host ==> r == first_index_or_zero(property_flags@, |f: u32| is_device_local(f)),
        host ==> r == first_index_or_zero(property_flags@, |f: u32| is_host_coherent_visible(f)),
{
    let ghost p: spec_fn(u32) -> bool = if host {
        |f: u32| is_host_coherent_visible(f)
    } else {
        |f: u32| is_device_local(f)
    };
    let mut i: usize = 0;
    while i < property_flags.len()
        invariant
            i <= property_flags@.len() <= u32::MAX,
            p == (if host {
                |f: u32| is_host_coherent_visible(f)
            } else {
                |f: u32| is_device_local(f)
            }),
            forall|j: int| 0 <= j < i ==> !p(property_flags@[j]),
        decreases property_flags@.len() - i,
    {
        let flags: u32 = property_flags[i];
        let found: bool = if host {
            (flags & 0x2 > 0) && (flags & 0x4 > 0)
        } else {
            flags & 0x1 > 0
        };
        if found {
            proof {
                lemma_first_index(property_flags@, p, i as int);
            }
            return i as u32;
        }
        i += 1;
    }
    0
}

/// The device reports the identifier `luid`.
pub open spec fn luid_is(entry: Option<[u32; 2]>, luid: [u32; 2]) -> bool {
    entry matches Some(l) && l@ == luid@
}

/// The index of the first device whose identifier is known and equals `luid`. Each entry
/// of `device_luids` holds the identifier of a device, where the device reports one.
pub fn find_device_by_luid(device_luids: &[Option<[u32; 2]>], luid: [u32; 2]) -> (r: Option<
    usize,
>)
    ensures
        r matches Some(i) ==> i < device_luids@.len() && luid_is(device_luids@[i as int], luid),
        r matches Some(i) ==> forall|j: int|
            0 <= j < i ==> !luid_is(#[trigger] device_luids@[j], luid),
        r is None ==> forall|j: int|
            0 <= j < device_luids@.len() ==> !luid_is(#[trigger] device_luids@[j], luid),
{
    let mut i: usize = 0;
    while i < device_luids.len()
        invariant
            i <= device_luids@.len(),
            forall|j: int| 0 <= j < i ==> !luid_is(#[trigger] device_luids@[j], luid),
        decreases device_luids@.len() - i,
    {
        match device_luids[i] {
            Some(l) => {
                if l[0] == luid[0] && l[1] == luid[1] {
                    assert(l@ =~= luid@);
                    return Some(i);
                }
                assert(l@ != luid@) by {
                    if l@ == luid@ {
                        assert(l@[0] == luid@[0]);
                        assert(l@[1] == luid@[1]);
                    }
                }
            },
            None => {},
        }
        i += 1;
    }
    None
}

/// The number of swapchain images that the renderer asks for.
pub const SWAPCHAIN_IMAGE_COUNT: u32 = 3;

/// The presentation mode that the renderer uses: immediate (0).
pub const SWAPCHAIN_PRESENT_MODE: u32 = 0;

/// A surface format that the renderer can draw to: B8G8R8A8 unorm (44) in the sRGB
/// nonlinear color space (0).
pub open spec fn is_usable_surface_format(f: (u32, u32)) -> bool {
    f.0 == 44 && f.1 == 0
}

/// Checks that the surface offers a usable format; `formats` holds each format and its color
/// space.
pub fn check_surface_formats(formats: &[(u32, u32)]) -> (r: Result<(), Error>)
    ensures
        r is Ok <==> exists|i: int| 0 <= i < formats@.len() && #[trigger] is_usable_surface_format(
            formats@[i],
        ),
        r is Err ==> r == Err::<(), Error>(Error::NoUseableFormat),
{
    let mut i: usize = 0;
    while i < formats.len()
        invariant
            i <= formats@.len(),
            forall|j: int| 0 <= j < i ==> !#[trigger] is_usable_surface_format(formats@[j]),
        decreases formats@.len() - i,
    {
        let f: (u32, u32) = formats[i];
        if f.0 == 44 && f.1 == 0 {
            assert(is_usable_surface_format(formats@[i as int]));
            return Ok(());
        }
        i += 1;
    }
    Err(Error::NoUseableFormat)
}

/// Checks that the surface offers the renderer's presentation mode.
pub fn check_present_modes(present_modes: &[u32]) -> (r: Result<(), Error>)
    ensures
        r is Ok <==> present_modes@.contains(SWAPCHAIN_PRESENT_MODE),
        r is Err ==> r == Err::<(), Error>(Error::NoPresentationMode),
{
    let mut i: usize = 0;
    while i < present_modes.len()
        invariant
            i <= present_modes@.len(),
            forall|j: int| 0 <= j < i ==> present_modes@[j] != SWAPCHAIN_PRESENT_MODE,
        decreases present_modes@.len() - i,
    {
        if present_modes[i] == SWAPCHAIN_PRESENT_MODE {
            return Ok(());
        }
        i += 1;
    }
    Err(Error::NoPresentationMode)
}

/// A queue family that the renderer can use: it can present to the surface and it does
/// graphics (0x1) and transfer (0x4) work.
pub open spec fn queue_family_fits(presentation_support: bool, queue_flags: u32) -> bool {
    presentation_support && queue_flags & 0x1 != 0 && queue_flags & 0x4 != 0
}

/// Whether a queue family is one that the renderer can use.
pub fn check_queue_family(presentation_support: bool, queue_flags: u32) -> (r: bool)
    ensures
        r == queue_family_fits(presentation_support, queue_flags),
{
    presentation_support && (queue_flags & 0x1 > 0) && (queue_flags & 0x4 > 0)
}

/// The index of the first queue family that the renderer can use; each entry of `families`
/// holds whether the family can present to the surface and its queue flags.
pub fn select_queue_family(families: &[(bool, u32)]) -> (r: Result<u32, Error>)
    requires
        families@.len() <= u32::MAX,
    ensures
        r matches Ok(i) ==> i < families@.len() && queue_family_fits(
            families@[i as int].0,
            families@[i as int].1,
        ) && forall|j: int|
            0 <= j < i ==> !#[trigger] queue_family_fits(families@[j].0, families@[j].1),
        r is Err ==> r == Err::<u32, Error>(Error::NoQueueFamily) && forall|j: int|
            0 <= j < families@.len() ==> !#[trigger] queue_family_fits(
                families@[j].0,
                families@[j].1,
            ),
{
    let mut i: usize = 0;
    while i < families.len()
        invariant
            i <= families@.len() <= u32::MAX,
            forall|j: int| 0 <= j < i ==> !#[trigger] queue_family_fits(families@[j].0, families@[j].1),
        decreases families@.len() - i,
    {
        let f: (bool, u32) = families[i];
        if check_queue_family(f.0, f.1) {
            return Ok(i as u32);
        }
        i += 1;
    }
    Err(Error::NoQueueFamily)
}

/// What the renderer needs of the surface: room for its swapchain images, the identity
/// transform (0x1), and transfers to the images (0x2); the first of these that fails gives
/// the error.
pub fn check_surface_capabilities(
    max_image_count: u32,
    supported_transforms: u32,
    supported_usage_flags: u32,
) -> (r: Result<(), Error>)
    ensures
        r == (if max_image_count < SWAPCHAIN_IMAGE_COUNT {
            Err(Error::SwapchainImageCount)
        } else if supported_transforms & 0x1 == 0 {
            Err(Error::BadTransform)
        } else if supported_usage_flags & 0x2 == 0 {
            Err(Error::SurfaceNoTransfer)
        } else {
            Ok(())
        }),
{
    if max_image_count < SWAPCHAIN_IMAGE_COUNT {
        return Err(Error::SwapchainImageCount);
    }
    if supported_transforms & 0x1 == 0 {
        return Err(Error::BadTransform);
    }
    if supported_usage_flags & 0x2 == 0 {
        return Err(Error::SurfaceNoTransfer);
    }
    Ok(())
}

/// Checks that the swapchain was made with as many images as the renderer asked for.
pub fn check_swapchain_image_count(swapchain_image_count: u32) -> (r: Result<(), Error>)
    ensures
        r == (if swapchain_image_count == SWAPCHAIN_IMAGE_COUNT {
            Ok(())
        } else {
            Err(Error::BadSwapchainImageCount)
        }),
{
    if swapchain_image_count != SWAPCHAIN_IMAGE_COUNT {
        return Err(Error::BadSwapchainImageCount);
    }
    Ok(())
}

/// What the renderer asks of the driver, in the Vulkan specification's values: of optimal
/// tiling, VK_FORMAT_FEATURE_SAMPLED_IMAGE_BIT (bit 0), BLIT_SRC_BIT (bit 10) and
/// BLIT_DST_BIT (bit 11); of memory, DEVICE_LOCAL (bit 0), or HOST_VISIBLE (bit 1) with
/// HOST_COHERENT (bit 2); of a queue family, presentation with GRAPHICS (bit 0) and
/// TRANSFER (bit 2); of the surface, VK_FORMAT_B8G8R8A8_UNORM (44) in
/// VK_COLOR_SPACE_SRGB_NONLINEAR_KHR (0), VK_PRESENT_MODE_IMMEDIATE_KHR (0), and three
/// swapchain images.
pub proof fn law_vulkan_values(flags: u32, presentation_support: bool, format: (u32, u32))
    ensures
        has_needed_features(flags) <==> (flags / 0x1) % 2 == 1 && (flags / 0x400) % 2 == 1 && (
        flags / 0x800) % 2 == 1,
        is_device_local(flags) <==> flags % 2 == 1,
        is_host_coherent_visible(flags) <==> (flags / 0x2) % 2 == 1 && (flags / 0x4) % 2 == 1,
        queue_family_fits(presentation_support, flags) <==> presentation_support && flags % 2
            == 1 && (flags / 0x4) % 2 == 1,
        is_usable_surface_format(format) <==> format.0 == 44 && format.1 == 0,
        Format::B8G8R8A8unorm.value() == 44,
        SWAPCHAIN_PRESENT_MODE == 0,
        SWAPCHAIN_IMAGE_COUNT == 3,
{
    assert((flags & 0x1 != 0) == ((flags / 0x1) % 2 == 1)) by (bit_vector);
    assert((flags & 0x2 != 0) == ((flags / 0x2) % 2 == 1)) by (bit_vector);
    assert((flags & 0x4 != 0) == ((flags / 0x4) % 2 == 1)) by (bit_vector);
    assert((flags & 0x400 != 0) == ((flags / 0x400) % 2 == 1)) by (bit_vector);
    assert((flags & 0x800 != 0) == ((flags / 0x800) % 2 == 1)) by (bit_vector);
}

/// The kinds of physical device have the Vulkan specification's values: other 0,
/// integrated 1, discrete 2, virtual 3, CPU 4.
pub proof fn law_physical_device_type_values(t: PhysicalDeviceType)
    ensures
        t == PhysicalDeviceType::Other ==> t.value() == 0,
        t == PhysicalDeviceType::IntegratedGpu ==> t.value() == 1,
        t == PhysicalDeviceType::DiscreteGpu ==> t.value() == 2,
        t == PhysicalDeviceType::VirtualGpu ==> t.value() == 3,
        t == PhysicalDeviceType::Cpu ==> t.value() == 4,
{
}

/// The word of four bytes, the first the least significant when `little`.
pub open spec fn word_of_bytes(b: Seq<u8>, little: bool) -> u32 {
    if little {
        (b[0] as int + b[1] as int * 0x100 + b[2] as int * 0x10000 + b[3] as int * 0x1000000) as u32
    } else {
        (b[3] as int + b[2] as int * 0x100 + b[1] as int * 0x10000 + b[0] as int * 0x1000000) as u32
    }
}

/// The word of four bytes in the byte order `little` names.
fn word_from_bytes(b0: u8, b1: u8, b2: u8, b3: u8, little: bool) -> (r: u32)
    ensures
        r == word_of_bytes(seq![b0, b1, b2, b3], little),
{
    if little {
        (b0 as u32) + (b1 as u32) * 0x100 + (b2 as u32) * 0x10000 + (b3 as u32) * 0x1000000
    } else {
        (b3 as u32) + (b2 as u32) * 0x100 + (b1 as u32) * 0x10000 + (b0 as u32) * 0x1000000
    }
}

/// The words of SPIR-V code held as bytes, each four bytes in `little`'s byte order; a last
/// part of fewer than four bytes is left out.
pub open spec fn shader_words(data: Seq<u8>, little: bool) -> Seq<u32> {
    Seq::new(data.len() / 4, |i: int| word_of_bytes(data.subrange(4 * i, 4 * i + 4), little))
}

/// The words of SPIR-V code held as bytes: each four bytes in the machine's byte order,
/// the same for every word; a last part of fewer than four bytes is left out.
pub fn get_shader_code_words(data: &[u8]) -> (r: Vec<u32>)
    ensures
        r@ == shader_words(data@, true) || r@ == shader_words(data@, false),
{
    let little: bool = machine_is_little_endian();
    let len: usize = data.len();
    let num_words: usize = len / 4;
    let mut code_data: Vec<u32> = Vec::new();
    let mut k: usize = 0;
    while k < num_words
        invariant
            len == data@.len(),
            num_words == data@.len() / 4,
            k <= num_words,
            code_data@ == shader_words(data@, little).take(k as int),
        decreases num_words - k,
    {
        let ind: usize = 4 * k;
        let w: u32 = word_from_bytes(data[ind], data[ind + 1], data[ind + 2], data[ind + 3], little);
        assert(seq![data[ind as int], data[ind + 1], data[ind + 2], data[ind + 3]] =~= data@.subrange(
            4 * k,
            4 * k + 4,
        ));
        code_data.push(w);
        k += 1;
        assert(code_data@ =~= shader_words(data@, little).take(k as int));
    }
    assert(code_data@ =~= shader_words(data@, little));
    code_data
}

/// The three vertices of a triangle, as indices into the vertex buffer.
#[derive(Debug, Clone, Copy, PartialEq, Eq, Structural)]
pub struct TriangleIndicies {
    pub p0: u16,
    pub p1: u16,
    pub p2: u16,
}

} // verus!
