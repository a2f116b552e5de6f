use swiftlet::byte_order::{machine_is_little_endian, u16_to_bytes};
use swiftlet::graphics::color::get_srgb_channel_indices;
use swiftlet::graphics::font::{
    check_font_face, clamp_rays_per_outline, Error as FontError, FontTable,
};
use swiftlet::graphics::glyph::{get_segment_offsets, is_new_glyph, sorted_contains, sorted_order};
use swiftlet::graphics::icons::{first_line_has_delimiter, match_icon_code_points};
use swiftlet::graphics::vulkan::{
    check_optimal_features, check_present_modes, check_queue_family, check_surface_capabilities,
    check_surface_formats, check_swapchain_image_count, find_device_by_luid, get_shader_code_words,
    select_memory_types,
    select_queue_family, Error as VulkanError, Format, PhysicalDeviceType, TriangleIndicies,
};
use swiftlet::graphics::window::{
    draws_on_trigger, get_layer_and_extension_names, get_message_action, get_message_step,
    DrawJustification, MessageAction, MessageStep, Vulkan2dWindowMode, WindowState,
};
use swiftlet::graphics::KeyCode;

#[test]
fn named_virtual_keys() {
    assert_eq!(KeyCode::get_from_virtual_code(0x25), Some(KeyCode::LeftArrow));
    assert_eq!(KeyCode::get_from_virtual_code(0x28), Some(KeyCode::DownArrow));
    assert_eq!(KeyCode::get_from_virtual_code(13), Some(KeyCode::Enter));
    assert_eq!(KeyCode::get_from_virtual_code(0x10001), Some(KeyCode::LeftMouse));
    assert_eq!(KeyCode::get_from_virtual_code(3), None);
    assert_eq!(KeyCode::get_from_virtual_code(65), None);
}

#[test]
fn keys_from_text() {
    assert_eq!(KeyCode::get_from_text(1, &[0x61, 0, 0, 0, 0, 0, 0]), KeyCode::Char('a'));
    assert_eq!(
        KeyCode::get_from_text(2, &[0xD83D, 0xDE00, 0, 0, 0, 0, 0]),
        KeyCode::Char('\u{1F600}')
    );
    assert_eq!(
        KeyCode::get_from_text(2, &[0x61, 0x62, 0, 0, 0, 0, 0]),
        KeyCode::Chars((['a', 'b', '\0', '\0', '\0', '\0', '\0'], 2))
    );
    assert_eq!(
        KeyCode::get_from_text(2, &[0xD800, 0x61, 0, 0, 0, 0, 0]),
        KeyCode::Chars((['\u{FFFD}', 'a', '\0', '\0', '\0', '\0', '\0'], 2))
    );
    assert_eq!(
        KeyCode::get_from_text(7, &[0x31, 0x32, 0x33, 0x34, 0x35, 0x36, 0xDBFF]),
        KeyCode::Chars((['1', '2', '3', '4', '5', '6', '\u{FFFD}'], 7))
    );
    assert_eq!(KeyCode::get_from_text(0, &[0x61, 0, 0, 0, 0, 0, 0]), KeyCode::Unknown);
    assert_eq!(KeyCode::get_from_text(-1, &[0x61, 0, 0, 0, 0, 0, 0]), KeyCode::Unknown);
    assert_eq!(KeyCode::get_from_text(3, &[0, 0x61, 0, 0, 0, 0, 0]), KeyCode::Unknown);
}

#[test]
fn srgb_channels() {
    assert_eq!(get_srgb_channel_indices(0x12345678), [0x34, 0x56, 0x78]);
    assert_eq!(get_srgb_channel_indices(0xFFFFFF), [255, 255, 255]);
    assert_eq!(get_srgb_channel_indices(0), [0, 0, 0]);
}

#[test]
fn glyph_segment_offsets() {
    assert_eq!(get_segment_offsets(&[3, 5, 0]), vec![0, 3, 8, 8]);
    assert_eq!(get_segment_offsets(&[2]), vec![0, 2, 0, 0]);
    assert_eq!(get_segment_offsets(&[]), vec![0, 0, 0, 0]);
    assert_eq!(get_segment_offsets(&[1, 1, 1, 1]), vec![0, 1, 2, 3, 4, 0, 0, 0]);
}

#[test]
fn device_types_and_formats() {
    assert_eq!(PhysicalDeviceType::from_u32(0), PhysicalDeviceType::Other);
    assert_eq!(PhysicalDeviceType::from_u32(2), PhysicalDeviceType::DiscreteGpu);
    assert_eq!(PhysicalDeviceType::from_u32(4), PhysicalDeviceType::Cpu);
    assert_eq!(PhysicalDeviceType::from_u32(7), PhysicalDeviceType::Other);
    assert_eq!(Format::from_u32(44), Format::B8G8R8A8unorm);
    assert_eq!(Format::from_u32(1), Format::Undefined);
}

#[test]
fn optimal_features() {
    assert_eq!(check_optimal_features(0xC01), Ok(()));
    assert_eq!(check_optimal_features(0xFFFF), Ok(()));
    assert_eq!(check_optimal_features(0x401), Err(VulkanError::BadOptimalFeatures));
    assert_eq!(check_optimal_features(0xC00), Err(VulkanError::BadOptimalFeatures));
}

#[test]
fn memory_types() {
    assert_eq!(select_memory_types(&[0x6, 0x1, 0x7]), (1, 0));
    assert_eq!(select_memory_types(&[0x1, 0x2, 0x6]), (0, 2));
    assert_eq!(select_memory_types(&[0x8]), (0, 0));
    assert_eq!(select_memory_types(&[]), (0, 0));
}

#[test]
fn device_by_luid() {
    let devices = [None, Some([1u32, 2]), Some([3u32, 4]), Some([3u32, 4])];
    assert_eq!(find_device_by_luid(&devices, [3, 4]), Some(2));
    assert_eq!(find_device_by_luid(&devices, [1, 2]), Some(1));
    assert_eq!(find_device_by_luid(&devices, [2, 1]), None);
}

#[test]
fn swapchain_checks() {
    assert_eq!(check_surface_formats(&[(44, 1), (44, 0)]), Ok(()));
    assert_eq!(check_surface_formats(&[(44, 1), (37, 0)]), Err(VulkanError::NoUseableFormat));
    assert_eq!(check_present_modes(&[2, 0]), Ok(()));
    assert_eq!(check_present_modes(&[1, 2]), Err(VulkanError::NoPresentationMode));
    assert!(check_queue_family(true, 0x5));
    assert!(!check_queue_family(false, 0x5));
    assert!(!check_queue_family(true, 0x1));
    assert_eq!(select_queue_family(&[(true, 0x1), (false, 0x5), (true, 0x7)]), Ok(2));
    assert_eq!(select_queue_family(&[(true, 0x4)]), Err(VulkanError::NoQueueFamily));
    assert_eq!(check_surface_capabilities(2, 1, 2), Err(VulkanError::SwapchainImageCount));
    assert_eq!(check_surface_capabilities(3, 2, 2), Err(VulkanError::BadTransform));
    assert_eq!(check_surface_capabilities(3, 1, 1), Err(VulkanError::SurfaceNoTransfer));
    assert_eq!(check_surface_capabilities(8, 1, 3), Ok(()));
    assert_eq!(check_swapchain_image_count(3), Ok(()));
    assert_eq!(check_swapchain_image_count(2), Err(VulkanError::BadSwapchainImageCount));
}

#[test]
fn triangle_indices() {
    let t = TriangleIndicies { p0: 0, p1: 1, p2: 2 };
    assert_eq!(t, TriangleIndicies { p0: 0, p1: 1, p2: 2 });
}

#[test]
fn window_loop_decisions() {
    assert_eq!(get_message_action(WindowState::Normal, true), MessageAction::Proceed);
    assert_eq!(get_message_action(WindowState::Closing, false), MessageAction::Proceed);
    assert_eq!(get_message_action(WindowState::CloseAttempt, true), MessageAction::CloseAndProceed);
    assert_eq!(get_message_action(WindowState::ShouldDrop, false), MessageAction::Stop);
    assert_eq!(
        get_message_action(WindowState::KeyPressed(KeyCode::Escape), true),
        MessageAction::HandleKey(KeyCode::Escape)
    );
    assert_eq!(
        get_message_action(WindowState::KeyPressed(KeyCode::Escape), false),
        MessageAction::Proceed
    );
    assert!(draws_on_trigger(true, false));
    assert!(!draws_on_trigger(true, true));
    assert!(!draws_on_trigger(false, false));
}

fn minimal_font(units_per_em: u16) -> Vec<u8> {
    let mut d = vec![0, 1, 0, 0, 0, 3, 0, 0, 0, 0, 0, 0];
    let tables: [(&[u8; 4], u32, u32); 3] = [(b"head", 60, 54), (b"hhea", 114, 36), (b"maxp", 150, 6)];
    for (tag, offset, length) in tables {
        d.extend_from_slice(tag);
        d.extend_from_slice(&[0, 0, 0, 0]);
        d.extend_from_slice(&offset.to_be_bytes());
        d.extend_from_slice(&length.to_be_bytes());
    }
    let mut head = vec![0u8; 54];
    head[0..4].copy_from_slice(&[0, 1, 0, 0]);
    head[18..20].copy_from_slice(&units_per_em.to_be_bytes());
    d.extend_from_slice(&head);
    let mut hhea = vec![0u8; 36];
    hhea[0..4].copy_from_slice(&[0, 1, 0, 0]);
    hhea[34..36].copy_from_slice(&1u16.to_be_bytes());
    d.extend_from_slice(&hhea);
    d.extend_from_slice(&[0, 0, 0x50, 0, 0, 1]);
    d
}

#[test]
fn font_table_faces() {
    assert!(matches!(
        FontTable::new_from_bytes(vec![0u8; 10], 0),
        Err(FontError::CannotCreateFontFace)
    ));
    let font = minimal_font(1000);
    let mut table = FontTable::new_from_bytes(font.clone(), 0).unwrap();
    assert_eq!(table.font_infos().len(), 1);
    assert_eq!(table.font_infos()[0].units_per_em, 1000);
    assert_eq!(table.font_infos()[0].data_end_index, font.len());
    assert!(table.does_font_exist(0).is_ok());
    assert!(matches!(table.does_font_exist(1), Err(FontError::InvalidFont(1))));
    let second = minimal_font(2048);
    table.add_new_font_from_bytes(&second, 0, 3).unwrap();
    let info = table.font_infos()[1];
    assert_eq!(
        (info.data_start_index, info.data_end_index, info.index, info.units_per_em, info.outline_offset),
        (font.len(), font.len() + second.len(), 0, 2048, 3)
    );
    let (bytes, index) = table.get_font_data(1).unwrap();
    assert_eq!(bytes, &second[..]);
    assert_eq!(index, 0);
    assert!(matches!(
        table.add_new_font_from_bytes(&[1, 2, 3], 0, 0),
        Err(FontError::CannotCreateFontFace)
    ));
    assert_eq!(table.font_infos().len(), 2);
    assert!(matches!(table.add_new_font_index(0, 1, 0), Err(FontError::FontIndexAlreadyExists)));
    assert!(matches!(table.add_new_font_index(4, 0, 0), Err(FontError::InvalidFont(2))));
    assert!(matches!(table.get_font_data(2), Err(FontError::InvalidFont(2))));
    table.shift_outline_offsets(1, 5);
    assert_eq!(table.font_infos()[0].outline_offset, 0);
    assert_eq!(table.font_infos()[1].outline_offset, 8);
}

#[test]
fn empty_font_table() {
    let table = FontTable::new();
    assert!(table.font_infos().is_empty());
    assert!(matches!(table.does_font_exist(0), Err(FontError::InvalidFont(0))));
}

#[test]
fn rays_per_outline_is_clamped() {
    assert_eq!(clamp_rays_per_outline(0), 0);
    assert_eq!(clamp_rays_per_outline(3), 3);
    assert_eq!(clamp_rays_per_outline(9), 3);
}

#[test]
fn icon_code_points_in_line_order() {
    let file = "home e88a\r\nsearch e8b6\nstar e838\nmenu e5d2";
    let (found, result) = match_icon_code_points(file, ' ', 16, &["star", "home"]);
    assert!(result.is_ok());
    assert_eq!(found, vec![(1, '\u{e88a}'), (0, '\u{e838}')]);
}

#[test]
fn icon_code_points_stop_at_bad_lines() {
    let (found, result) = match_icon_code_points("a 41\nb\nc 43", ' ', 16, &["a", "c"]);
    assert_eq!(found, vec![(0, 'A')]);
    assert!(matches!(result, Err(FontError::InvalidCodepointSplit)));
    let (found, result) = match_icon_code_points("a zz\n", ' ', 16, &["a"]);
    assert!(found.is_empty());
    assert!(matches!(result, Err(FontError::InvalidCodepointParse)));
    let (_, result) = match_icon_code_points("a d800", ' ', 16, &["a"]);
    assert!(matches!(result, Err(FontError::InvalidCodepointValue)));
    let (_, result) = match_icon_code_points("a +", ' ', 10, &["a"]);
    assert!(matches!(result, Err(FontError::InvalidCodepointParse)));
    let (found, result) = match_icon_code_points("a:+65", ':', 10, &["a"]);
    assert_eq!(found, vec![(0, 'A')]);
    assert!(result.is_ok());
    let (_, result) = match_icon_code_points("a 100000000", ' ', 16, &["a"]);
    assert!(matches!(result, Err(FontError::InvalidCodepointParse)));
}

#[test]
fn icon_code_points_without_names_read_every_line() {
    let (found, result) = match_icon_code_points("x 1\ny 2\n", ' ', 10, &[]);
    assert!(found.is_empty());
    assert!(result.is_ok());
    let (found, result) = match_icon_code_points("", ' ', 10, &["x"]);
    assert!(found.is_empty());
    assert!(result.is_ok());
    let (found, result) = match_icon_code_points("x 1\nx 2\nx 3", ' ', 10, &["x", "y"]);
    assert_eq!(found, vec![(0, '\u{1}'), (0, '\u{2}')]);
    assert!(result.is_ok());
}

#[test]
fn shader_code_words() {
    assert_eq!(
        get_shader_code_words(&[1, 2, 3, 4, 5, 6, 7, 8, 9]),
        vec![u32::from_ne_bytes([1, 2, 3, 4]), u32::from_ne_bytes([5, 6, 7, 8])]
    );
    assert!(get_shader_code_words(&[1, 2, 3]).is_empty());
}

#[test]
fn window_layers_and_extensions() {
    let (layers, extensions) =
        get_layer_and_extension_names(Vulkan2dWindowMode::Normal, "VK_KHR_win32_surface");
    assert!(layers.is_empty());
    assert_eq!(extensions, vec!["VK_KHR_surface", "VK_KHR_win32_surface"]);
    let (layers, extensions) =
        get_layer_and_extension_names(Vulkan2dWindowMode::ValidationDebug, "VK_EXT_metal_surface");
    assert_eq!(layers, vec!["VK_LAYER_KHRONOS_validation"]);
    assert_eq!(
        extensions,
        vec!["VK_KHR_surface", "VK_EXT_metal_surface", "VK_EXT_debug_utils"]
    );
    assert_ne!(DrawJustification::Left, DrawJustification::Right);
}

#[test]
fn window_message_steps() {
    assert_eq!(get_message_step(0x0400, 0, 0), MessageStep::CloseAttempt);
    assert_eq!(get_message_step(0x0012, 0, 0), MessageStep::ShouldDrop);
    assert_eq!(
        get_message_step(0x0100, 0x41, 0x001E_0001),
        MessageStep::KeyDown { virtual_key_code: 0x41, scan_code: 0x1E }
    );
    assert_eq!(get_message_step(0x0100, 0x41, 0x401E_0001), MessageStep::Skip);
    assert_eq!(get_message_step(0x000F, 0, 0), MessageStep::Dispatch);
}

#[test]
fn icon_code_points_with_a_radix_that_is_never_used() {
    let (found, result) = match_icon_code_points("star\nhome e88a", ' ', 40, &["star"]);
    assert!(found.is_empty());
    assert!(matches!(result, Err(FontError::InvalidCodepointSplit)));
    let (found, result) = match_icon_code_points("", ' ', 0, &["star"]);
    assert!(found.is_empty());
    assert!(result.is_ok());
    assert!(!first_line_has_delimiter("star\nhome e88a", ' '));
    assert!(first_line_has_delimiter("star e838\r\nhome", ' '));
    assert!(!first_line_has_delimiter("", ' '));
    assert!(!first_line_has_delimiter("\nhome e88a", ' '));
}

#[test]
fn font_face_check() {
    assert!(matches!(check_font_face(&[0u8; 10], 0), Err(FontError::CannotCreateFontFace)));
    assert!(check_font_face(&minimal_font(1000), 0).is_ok());
    assert!(check_font_face(&minimal_font(1000), 1).is_err());
}

#[test]
fn glyph_ids_already_outlined_are_skipped() {
    let outlined = [3u32, 7, 7, 20];
    assert!(sorted_contains(&outlined, 7));
    assert!(sorted_contains(&outlined, 3));
    assert!(sorted_contains(&outlined, 20));
    assert!(!sorted_contains(&outlined, 8));
    assert!(!sorted_contains(&[], 8));
    assert!(!is_new_glyph(&outlined, &[], 20));
    assert!(!is_new_glyph(&outlined, &[5, 9], 9));
    assert!(is_new_glyph(&outlined, &[5, 9], 10));
}

#[test]
fn outlines_ordered_by_glyph_id() {
    let ids = [30u32, 4, 17, 4, 2];
    let order = sorted_order(&ids);
    assert_eq!(order.len(), ids.len());
    let sorted: Vec<u32> = order.iter().map(|&k| ids[k]).collect();
    assert_eq!(sorted, vec![2, 4, 4, 17, 30]);
    let mut seen = order.clone();
    seen.sort();
    assert_eq!(seen, vec![0, 1, 2, 3, 4]);
    assert_eq!(sorted_order(&[]), Vec::<usize>::new());
    assert_eq!(sorted_order(&[5, 6, 7]), vec![0, 1, 2]);
}

#[test]
fn machine_byte_order() {
    assert_eq!(
        machine_is_little_endian(),
        1u16.to_ne_bytes()[0] == 1
    );
    assert_eq!(u16_to_bytes(0x1234, true), [0x34, 0x12]);
    assert_eq!(u16_to_bytes(0x1234, false), [0x12, 0x34]);
}
