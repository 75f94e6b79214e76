use vstd::prelude::*;

verus! {

/// Instance extensions to enable, one flag each.
#[derive(Clone, Copy, Debug, Default, PartialEq, Eq, Structural)]
pub struct InstanceExtensions {
    pub khr_android_surface: bool,
    pub khr_device_group_creation: bool,
    pub khr_display: bool,
    pub khr_external_fence_capabilities: bool,
    pub khr_external_memory_capabilities: bool,
    pub khr_external_semaphore_capabilities: bool,
    pub khr_get_display_properties2: bool,
    pub khr_get_physical_device_properties2: bool,
    pub khr_get_surface_capabilities2: bool,
    pub khr_surface: bool,
    pub khr_surface_protected_capabilities: bool,
    pub khr_wayland_surface: bool,
    pub khr_win32_surface: bool,
    pub khr_xcb_surface: bool,
    pub khr_xlib_surface: bool,
    pub ext_acquire_xlib_display: bool,
    pub ext_debug_report: bool,
    pub ext_debug_utils: bool,
    pub ext_direct_mode_display: bool,
    pub ext_directfb_surface: bool,
    pub ext_display_surface_counter: bool,
    pub ext_headless_surface: bool,
    pub ext_metal_surface: bool,
    pub ext_swapchain_colorspace: bool,
    pub ext_validation_features: bool,
    pub ext_validation_flags: bool,
    pub fuchsia_imagepipe_surface: bool,
    pub ggp_stream_descriptor_surface: bool,
    pub mvk_ios_surface: bool,
    pub mvk_macos_surface: bool,
    pub nn_vi_surface: bool,
    pub nv_external_memory_capabilities: bool,
}

/// Enables every extension that either set enables.
pub fn union_iextns(a: InstanceExtensions, b: InstanceExtensions) -> (r: InstanceExtensions)
    ensures
        r.khr_android_surface == (a.khr_android_surface || b.khr_android_surface),
        r.khr_device_group_creation == (a.khr_device_group_creation || b.khr_device_group_creation),
        r.khr_display == (a.khr_display || b.khr_display),
        r.khr_external_fence_capabilities == (a.khr_external_fence_capabilities || b.khr_external_fence_capabilities),
        r.khr_external_memory_capabilities == (a.khr_external_memory_capabilities || b.khr_external_memory_capabilities),
        r.khr_external_semaphore_capabilities == (a.khr_external_semaphore_capabilities || b.khr_external_semaphore_capabilities),
        r.khr_get_display_properties2 == (a.khr_get_display_properties2 || b.khr_get_display_properties2),
        r.khr_get_physical_device_properties2 == (a.khr_get_physical_device_properties2 || b.khr_get_physical_device_properties2),
        r.khr_get_surface_capabilities2 == (a.khr_get_surface_capabilities2 || b.khr_get_surface_capabilities2),
        r.khr_surface == (a.khr_surface || b.khr_surface),
        r.khr_surface_protected_capabilities == (a.khr_surface_protected_capabilities || b.khr_surface_protected_capabilities),
        r.khr_wayland_surface == (a.khr_wayland_surface || b.khr_wayland_surface),
        r.khr_win32_surface == (a.khr_win32_surface || b.khr_win32_surface),
        r.khr_xcb_surface == (a.khr_xcb_surface || b.khr_xcb_surface),
        r.khr_xlib_surface == (a.khr_xlib_surface || b.khr_xlib_surface),
        r.ext_acquire_xlib_display == (a.ext_acquire_xlib_display || b.ext_acquire_xlib_display),
        r.ext_debug_report == (a.ext_debug_report || b.ext_debug_report),
        r.ext_debug_utils == (a.ext_debug_utils || b.ext_debug_utils),
        r.ext_direct_mode_display == (a.ext_direct_mode_display || b.ext_direct_mode_display),
        r.ext_directfb_surface == (a.ext_directfb_surface || b.ext_directfb_surface),
        r.ext_display_surface_counter == (a.ext_display_surface_counter || b.ext_display_surface_counter),
        r.ext_headless_surface == (a.ext_headless_surface || b.ext_headless_surface),
        r.ext_metal_surface == (a.ext_metal_surface || b.ext_metal_surface),
        r.ext_swapchain_colorspace == (a.ext_swapchain_colorspace || b.ext_swapchain_colorspace),
        r.ext_validation_features == (a.ext_validation_features || b.ext_validation_features),
        r.ext_validation_flags == (a.ext_validation_flags || b.ext_validation_flags),
        r.fuchsia_imagepipe_surface == (a.fuchsia_imagepipe_surface || b.fuchsia_imagepipe_surface),
        r.ggp_stream_descriptor_surface == (a.ggp_stream_descriptor_surface || b.ggp_stream_descriptor_surface),
        r.mvk_ios_surface == (a.mvk_ios_surface || b.mvk_ios_surface),
        r.mvk_macos_surface == (a.mvk_macos_surface || b.mvk_macos_surface),
        r.nn_vi_surface == (a.nn_vi_surface || b.nn_vi_surface),
        r.nv_external_memory_capabilities == (a.nv_external_memory_capabilities || b.nv_external_memory_capabilities),
{
    InstanceExtensions {
        khr_android_surface: a.khr_android_surface || b.khr_android_surface,
        khr_device_group_creation: a.khr_device_group_creation || b.khr_device_group_creation,
        khr_display: a.khr_display || b.khr_display,
        khr_external_fence_capabilities: a.khr_external_fence_capabilities || b.khr_external_fence_capabilities,
        khr_external_memory_capabilities: a.khr_external_memory_capabilities || b.khr_external_memory_capabilities,
        khr_external_semaphore_capabilities: a.khr_external_semaphore_capabilities || b.khr_external_semaphore_capabilities,
        khr_get_display_properties2: a.khr_get_display_properties2 || b.khr_get_display_properties2,
        khr_get_physical_device_properties2: a.khr_get_physical_device_properties2 || b.khr_get_physical_device_properties2,
        khr_get_surface_capabilities2: a.khr_get_surface_capabilities2 || b.khr_get_surface_capabilities2,
        khr_surface: a.khr_surface || b.khr_surface,
        khr_surface_protected_capabilities: a.khr_surface_protected_capabilities || b.khr_surface_protected_capabilities,
        khr_wayland_surface: a.khr_wayland_surface || b.khr_wayland_surface,
        khr_win32_surface: a.khr_win32_surface || b.khr_win32_surface,
        khr_xcb_surface: a.khr_xcb_surface || b.khr_xcb_surface,
        khr_xlib_surface: a.khr_xlib_surface || b.khr_xlib_surface,
        ext_acquire_xlib_display: a.ext_acquire_xlib_display || b.ext_acquire_xlib_display,
        ext_debug_report: a.ext_debug_report || b.ext_debug_report,
        ext_debug_utils: a.ext_debug_utils || b.ext_debug_utils,
        ext_direct_mode_display: a.ext_direct_mode_display || b.ext_direct_mode_display,
        ext_directfb_surface: a.ext_directfb_surface || b.ext_directfb_surface,
        ext_display_surface_counter: a.ext_display_surface_counter || b.ext_display_surface_counter,
        ext_headless_surface: a.ext_headless_surface || b.ext_headless_surface,
        ext_metal_surface: a.ext_metal_surface || b.ext_metal_surface,
        ext_swapchain_colorspace: a.ext_swapchain_colorspace || b.ext_swapchain_colorspace,
        ext_validation_features: a.ext_validation_features || b.ext_validation_features,
        ext_validation_flags: a.ext_validation_flags || b.ext_validation_flags,
        fuchsia_imagepipe_surface: a.fuchsia_imagepipe_surface || b.fuchsia_imagepipe_surface,
        ggp_stream_descriptor_surface: a.ggp_stream_descriptor_surface || b.ggp_stream_descriptor_surface,
        mvk_ios_surface: a.mvk_ios_surface || b.mvk_ios_surface,
        mvk_macos_surface: a.mvk_macos_surface || b.mvk_macos_surface,
        nn_vi_surface: a.nn_vi_surface || b.nn_vi_surface,
        nv_external_memory_capabilities: a.nv_external_memory_capabilities || b.nv_external_memory_capabilities,
    }
}

/// The device features on which a device extension depends.
#[derive(Clone, Copy, Debug, Default, PartialEq, Eq, Structural)]
pub struct DeviceFeatures {
    pub descriptor_indexing: bool,
    pub draw_indirect_count: bool,
    pub sampler_filter_minmax: bool,
    pub sampler_mirror_clamp_to_edge: bool,
    pub shader_output_layer: bool,
}

/// The device extensions that depend on a device feature, each beside the
/// feature of [DeviceFeatures] in the same position.
#[derive(Clone, Copy, Debug, Default, PartialEq, Eq, Structural)]
pub struct DeviceExtensions {
    pub ext_descriptor_indexing: bool,
    pub khr_draw_indirect_count: bool,
    pub ext_sampler_filter_minmax: bool,
    pub khr_sampler_mirror_clamp_to_edge: bool,
    pub ext_shader_viewport_index_layer: bool,
}

/// Disables each device extension whose feature is not requested, and keeps
/// the others as they are.
pub fn extensions_for_features(features: &DeviceFeatures, extensions: DeviceExtensions) -> (r:
    DeviceExtensions)
    ensures
        r.ext_descriptor_indexing == (extensions.ext_descriptor_indexing && features.descriptor_indexing),
        r.khr_draw_indirect_count == (extensions.khr_draw_indirect_count && features.draw_indirect_count),
        r.ext_sampler_filter_minmax == (extensions.ext_sampler_filter_minmax && features.sampler_filter_minmax),
        r.khr_sampler_mirror_clamp_to_edge == (extensions.khr_sampler_mirror_clamp_to_edge && features.sampler_mirror_clamp_to_edge),
        r.ext_shader_viewport_index_layer == (extensions.ext_shader_viewport_index_layer && features.shader_output_layer),
{
    let mut extensions = extensions;
    if !features.descriptor_indexing {
        extensions.ext_descriptor_indexing = false;
    }
    if !features.draw_indirect_count {
        extensions.khr_draw_indirect_count = false;
    }
    if !features.sampler_filter_minmax {
        extensions.ext_sampler_filter_minmax = false;
    }
    if !features.sampler_mirror_clamp_to_edge {
        extensions.khr_sampler_mirror_clamp_to_edge = false;
    }
    if !features.shader_output_layer {
        extensions.ext_shader_viewport_index_layer = false;
    }
    extensions
}

} // verus!
