use swapchain_sync::plan::{
    CompositeAlpha, Extent, ImageUsage, PresentMode, SharingMode, SurfaceCapabilities,
    SurfaceFormat, SwapchainPlan, PREFERRED_IMAGE_COUNT, UNDEFINED_DIMENSION,
};

fn surface(min: u32, max: u32) -> SurfaceCapabilities {
    SurfaceCapabilities {
        min_image_count: min,
        max_image_count: max,
        current_extent: Extent { width: 800, height: 600 },
        format: SurfaceFormat { format: 44, color_space: 0 },
        current_transform: 1,
    }
}

#[test]
fn image_count_prefers_three() {
    assert_eq!(surface(2, 4).image_count(), 3);
}

#[test]
fn image_count_is_clamped_up() {
    assert_eq!(surface(4, 8).image_count(), 4);
}

#[test]
fn image_count_is_clamped_down() {
    assert_eq!(surface(1, 2).image_count(), 2);
}

#[test]
fn image_count_equals_clamp_on_every_small_range() {
    for min in 0u32..8 {
        for max in min..8 {
            let expected = 3u32.clamp(min, max);
            assert_eq!(surface(min, max).image_count(), expected, "min {min} max {max}");
        }
    }
}

#[test]
fn image_count_at_the_edges_of_u32() {
    assert_eq!(surface(0, u32::MAX).image_count(), 3);
    assert_eq!(surface(u32::MAX, u32::MAX).image_count(), u32::MAX);
    assert_eq!(surface(0, 0).image_count(), 0);
    assert_eq!(surface(3, 3).image_count(), 3);
}

#[test]
fn image_count_with_maximum_below_minimum_is_the_maximum() {
    assert_eq!(surface(2, 0).image_count(), 0);
    assert_eq!(surface(5, 4).image_count(), 4);
    assert_eq!(surface(2, 1).image_count(), 1);
}

#[test]
fn preferred_count_is_triple_buffering() {
    assert_eq!(PREFERRED_IMAGE_COUNT, 3);
}

#[test]
fn extent_comes_from_the_surface() {
    let desired = Extent { width: 1, height: 2 };
    assert_eq!(surface(2, 4).extent(desired), Extent { width: 800, height: 600 });
}

#[test]
fn extent_falls_back_only_where_undefined() {
    let desired = Extent { width: 1280, height: 720 };
    let mut caps = surface(2, 4);
    caps.current_extent = Extent { width: UNDEFINED_DIMENSION, height: UNDEFINED_DIMENSION };
    assert!(caps.current_extent.is_undefined());
    assert_eq!(caps.extent(desired), desired);

    caps.current_extent = Extent { width: UNDEFINED_DIMENSION, height: 600 };
    assert!(!caps.current_extent.is_undefined());
    assert_eq!(caps.extent(desired), Extent { width: UNDEFINED_DIMENSION, height: 600 });

    caps.current_extent = Extent { width: 0, height: 0 };
    assert_eq!(caps.extent(desired), Extent { width: 0, height: 0 });
}

#[test]
fn undefined_dimension_is_all_ones() {
    assert_eq!(UNDEFINED_DIMENSION, u32::MAX);
}

#[test]
fn plan_is_exclusive_fifo_with_the_surface_transform() {
    let mut caps = surface(2, 4);
    caps.current_transform = 0x10;
    caps.format = SurfaceFormat { format: 50, color_space: 1000104001 };
    let plan = SwapchainPlan::for_surface(&caps, 2, Extent { width: 1, height: 1 });
    assert_eq!(
        plan,
        SwapchainPlan {
            image_count: 3,
            extent: Extent { width: 800, height: 600 },
            format: SurfaceFormat { format: 50, color_space: 1000104001 },
            array_layers: 1,
            usage: ImageUsage::ColorAttachment,
            sharing: SharingMode::Exclusive,
            queue_family_index: 2,
            pre_transform: 0x10,
            composite_alpha: CompositeAlpha::Opaque,
            present_mode: PresentMode::Fifo,
        }
    );
}

#[test]
fn plan_names_the_family_it_was_made_for() {
    for family in [0u32, 1, 7, u32::MAX] {
        let plan = SwapchainPlan::for_surface(&surface(2, 4), family, Extent { width: 1, height: 1 });
        assert_eq!(plan.queue_family_index, family);
        assert_eq!(plan.sharing, SharingMode::Exclusive);
    }
}
