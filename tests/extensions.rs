use gpgpu::{extensions_for_features, union_iextns, DeviceExtensions, DeviceFeatures, InstanceExtensions};

#[test]
fn union_enables_either() {
    let a = InstanceExtensions { khr_surface: true, ext_debug_utils: true, ..Default::default() };
    let b = InstanceExtensions { khr_xcb_surface: true, khr_surface: true, ..Default::default() };
    let u = union_iextns(a, b);
    assert_eq!(
        u,
        InstanceExtensions {
            khr_surface: true,
            ext_debug_utils: true,
            khr_xcb_surface: true,
            ..Default::default()
        }
    );
    assert_eq!(union_iextns(a, InstanceExtensions::default()), a);
    assert_eq!(union_iextns(InstanceExtensions::default(), InstanceExtensions::default()), InstanceExtensions::default());
}

#[test]
fn union_keeps_last_field() {
    let a = InstanceExtensions { nv_external_memory_capabilities: true, ..Default::default() };
    let u = union_iextns(InstanceExtensions::default(), a);
    assert!(u.nv_external_memory_capabilities);
    assert!(!u.khr_android_surface);
}

fn all_extensions() -> DeviceExtensions {
    DeviceExtensions {
        ext_descriptor_indexing: true,
        khr_draw_indirect_count: true,
        ext_sampler_filter_minmax: true,
        khr_sampler_mirror_clamp_to_edge: true,
        ext_shader_viewport_index_layer: true,
    }
}

#[test]
fn extensions_follow_features() {
    let features = DeviceFeatures {
        descriptor_indexing: true,
        draw_indirect_count: false,
        sampler_filter_minmax: true,
        sampler_mirror_clamp_to_edge: false,
        shader_output_layer: true,
    };
    assert_eq!(
        extensions_for_features(&features, all_extensions()),
        DeviceExtensions {
            ext_descriptor_indexing: true,
            khr_draw_indirect_count: false,
            ext_sampler_filter_minmax: true,
            khr_sampler_mirror_clamp_to_edge: false,
            ext_shader_viewport_index_layer: true,
        }
    );
}

#[test]
fn features_never_add_extensions() {
    let features = DeviceFeatures {
        descriptor_indexing: true,
        draw_indirect_count: true,
        sampler_filter_minmax: true,
        sampler_mirror_clamp_to_edge: true,
        shader_output_layer: true,
    };
    let none = DeviceExtensions::default();
    assert_eq!(extensions_for_features(&features, none), none);
    assert_eq!(extensions_for_features(&features, all_extensions()), all_extensions());
    assert_eq!(extensions_for_features(&DeviceFeatures::default(), all_extensions()), none);
}
