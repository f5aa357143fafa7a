use tectflow::device::{
    bytes_equal, device_is_suitable, device_supports_extension, select_physical_device,
    select_queue_family_indices, unique_queue_indices, DeviceInfo, QueueFamilyInfo,
};
use tectflow::ui::{event_directive, event_draws_frame, FlowDirective, FrameEvent, UiState};
use tectflow::version::{make_api_version, AppVersion};

fn family(queue_count: u32, graphics: bool, compute: bool, present: bool) -> QueueFamilyInfo {
    QueueFamilyInfo {
        queue_count,
        supports_graphics: graphics,
        supports_compute: compute,
        supports_present: present,
    }
}

fn swapchain_name() -> Vec<u8> {
    b"VK_KHR_swapchain".to_vec()
}

fn suitable_device() -> DeviceInfo {
    DeviceInfo {
        queue_families: vec![family(1, true, true, true)],
        extension_names: vec![b"VK_KHR_maintenance1".to_vec(), swapchain_name()],
        format_count: 3,
        present_mode_count: 2,
    }
}

#[test]
fn version_packs_each_component_into_its_field() {
    assert_eq!(make_api_version(0, 0, 0, 1), 1);
    assert_eq!(make_api_version(0, 0, 1, 0), 0x1000);
    assert_eq!(make_api_version(0, 1, 0, 0), 0x40_0000);
    assert_eq!(make_api_version(1, 0, 0, 0), 0x2000_0000);
    assert_eq!(
        make_api_version(1, 2, 3, 4),
        0x2000_0000 + 2 * 0x40_0000 + 3 * 0x1000 + 4
    );
}

#[test]
fn version_of_the_app_triple_has_variant_zero() {
    let v = AppVersion::new(0, 1, 0);
    assert_eq!(v.to_api_version(), 0x1000);
    let w = AppVersion::new(2, 10, 7);
    assert_eq!(w.to_api_version(), 2 * 0x40_0000 + 10 * 0x1000 + 7);
}

#[test]
fn version_component_too_wide_loses_its_high_bits() {
    // A major of 128 overflows its seven-bit field into the variant bits,
    // exactly as the graphics API's own packing macro would.
    assert_eq!(make_api_version(0, 128, 0, 0), 0x2000_0000);
    assert_eq!(make_api_version(0, 0, 1024, 0), 0x40_0000);
}

#[test]
fn close_request_exits_everything_else_polls() {
    assert_eq!(
        event_directive(&FrameEvent::CloseRequested),
        FlowDirective::Exit
    );
    assert_eq!(
        event_directive(&FrameEvent::MainEventsCleared),
        FlowDirective::Poll
    );
    assert_eq!(event_directive(&FrameEvent::Other), FlowDirective::Poll);
}

#[test]
fn only_cleared_events_draw_a_frame() {
    assert!(event_draws_frame(&FrameEvent::MainEventsCleared));
    assert!(!event_draws_frame(&FrameEvent::CloseRequested));
    assert!(!event_draws_frame(&FrameEvent::Other));
}

#[test]
fn counter_counts_clicked_frames_only() {
    let mut s = UiState::new();
    assert_eq!(s.count, 0);
    s.apply_frame(true);
    s.apply_frame(false);
    s.apply_frame(true);
    s.apply_frame(true);
    assert_eq!(s.count, 3);
}

#[test]
fn no_queue_families_means_no_selection() {
    let sel = select_queue_family_indices(&vec![]);
    assert_eq!(sel.graphics, None);
    assert_eq!(sel.present, None);
}

#[test]
fn a_complete_family_is_chosen_for_both_roles() {
    let sel = select_queue_family_indices(&vec![family(1, true, true, true)]);
    assert_eq!(sel.graphics, Some(0));
    assert_eq!(sel.present, Some(0));
}

#[test]
fn families_without_queues_do_not_count_toward_indices() {
    // The first family advertises everything but offers no queues, so the
    // complete family behind it gets index zero, not one.
    let sel = select_queue_family_indices(&vec![
        family(0, true, true, true),
        family(1, true, true, true),
    ]);
    assert_eq!(sel.graphics, Some(0));
    assert_eq!(sel.present, Some(0));
}

#[test]
fn first_complete_family_wins_over_later_ones() {
    let sel = select_queue_family_indices(&vec![
        family(1, true, false, true),
        family(2, true, true, true),
        family(4, true, true, true),
    ]);
    assert_eq!(sel.graphics, Some(1));
    assert_eq!(sel.present, Some(1));
}

#[test]
fn without_a_complete_family_the_last_one_decides() {
    // No single family carries graphics, compute and present at once;
    // what remains is the verdict on the last active family alone.
    let sel = select_queue_family_indices(&vec![
        family(1, false, false, true),
        family(1, true, true, false),
    ]);
    assert_eq!(sel.graphics, Some(1));
    assert_eq!(sel.present, None);

    let sel = select_queue_family_indices(&vec![
        family(1, true, true, false),
        family(1, false, false, true),
    ]);
    assert_eq!(sel.graphics, None);
    assert_eq!(sel.present, Some(1));
}

#[test]
fn graphics_without_compute_is_not_enough() {
    let sel = select_queue_family_indices(&vec![family(1, true, false, true)]);
    assert_eq!(sel.graphics, None);
    assert_eq!(sel.present, Some(0));
}

#[test]
fn byte_strings_compare_by_content() {
    assert!(bytes_equal(&swapchain_name(), &b"VK_KHR_swapchain".to_vec()));
    assert!(!bytes_equal(&swapchain_name(), &b"VK_KHR_swapchai".to_vec()));
    assert!(!bytes_equal(&swapchain_name(), &b"VK_KHR_swapchaiN".to_vec()));
    assert!(bytes_equal(&Vec::new(), &Vec::new()));
}

#[test]
fn extension_lookup_finds_the_name_anywhere_in_the_list() {
    let exts = vec![
        b"VK_KHR_maintenance1".to_vec(),
        b"VK_KHR_swapchain".to_vec(),
    ];
    assert!(device_supports_extension(&exts, &swapchain_name()));
    assert!(!device_supports_extension(
        &vec![b"VK_KHR_maintenance1".to_vec()],
        &swapchain_name()
    ));
    assert!(!device_supports_extension(&vec![], &swapchain_name()));
}

#[test]
fn a_device_with_everything_is_suitable() {
    assert!(device_is_suitable(&suitable_device(), &swapchain_name()));
}

#[test]
fn a_device_misses_one_requirement_and_is_rejected() {
    let mut no_ext = suitable_device();
    no_ext.extension_names = vec![b"VK_KHR_maintenance1".to_vec()];
    assert!(!device_is_suitable(&no_ext, &swapchain_name()));

    let mut no_formats = suitable_device();
    no_formats.format_count = 0;
    assert!(!device_is_suitable(&no_formats, &swapchain_name()));

    let mut no_modes = suitable_device();
    no_modes.present_mode_count = 0;
    assert!(!device_is_suitable(&no_modes, &swapchain_name()));

    let mut no_family = suitable_device();
    no_family.queue_families = vec![family(1, true, true, false)];
    assert!(!device_is_suitable(&no_family, &swapchain_name()));
}

#[test]
fn the_first_suitable_device_is_picked() {
    let mut unsuitable = suitable_device();
    unsuitable.present_mode_count = 0;
    let devices = vec![unsuitable, suitable_device(), suitable_device()];
    assert_eq!(select_physical_device(&devices, &swapchain_name()), Some(1));
}

#[test]
fn no_suitable_device_yields_nothing() {
    let mut a = suitable_device();
    a.format_count = 0;
    let mut b = suitable_device();
    b.queue_families = vec![family(0, true, true, true)];
    assert_eq!(select_physical_device(&vec![a, b], &swapchain_name()), None);
    assert_eq!(select_physical_device(&vec![], &swapchain_name()), None);
}

#[test]
fn equal_queue_indices_collapse_to_one() {
    assert_eq!(unique_queue_indices(2, 2), vec![2]);
    assert_eq!(unique_queue_indices(1, 3), vec![1, 3]);
}
