use rust_rawinput::report::{
    decode_keyboard, decode_mouse, parse_report, DEVICE_KEYBOARD, DEVICE_MOUSE, VK_LBUTTON,
    VK_MBUTTON, VK_RBUTTON, VK_XBUTTON1, VK_XBUTTON2,
};
use rust_rawinput::{decode, decode_batch, mouse_name, Input, KeyState, RawReport};

fn header(device_type: u32, total: usize) -> Vec<u8> {
    let mut b = Vec::new();
    b.extend_from_slice(&device_type.to_le_bytes());
    b.extend_from_slice(&(total as u32).to_le_bytes());
    b.extend(std::iter::repeat(0u8).take(2 * std::mem::size_of::<usize>()));
    b
}

fn header_len() -> usize {
    8 + 2 * std::mem::size_of::<usize>()
}

fn keyboard_report(flags: u16, vkey: u16) -> Vec<u8> {
    let mut b = header(DEVICE_KEYBOARD, header_len() + 16);
    b.extend_from_slice(&0x1eu16.to_le_bytes());
    b.extend_from_slice(&flags.to_le_bytes());
    b.extend_from_slice(&0u16.to_le_bytes());
    b.extend_from_slice(&vkey.to_le_bytes());
    b.extend_from_slice(&0x100u32.to_le_bytes());
    b.extend_from_slice(&0u32.to_le_bytes());
    b
}

fn mouse_report(button_flags: u16) -> Vec<u8> {
    let mut b = header(DEVICE_MOUSE, header_len() + 24);
    b.extend_from_slice(&0u16.to_le_bytes());
    b.extend_from_slice(&0u16.to_le_bytes());
    b.extend_from_slice(&button_flags.to_le_bytes());
    b.extend_from_slice(&0u16.to_le_bytes());
    b.extend(std::iter::repeat(0u8).take(16));
    b
}

#[test]
fn keyboard_press_decodes_to_one_down() {
    let events = decode(&keyboard_report(0, 0x41));
    assert_eq!(events, vec![(Input::KeyBoard(0x41), KeyState::Down)]);
}

#[test]
fn keyboard_release_decodes_to_one_up() {
    let events = decode(&keyboard_report(1, 0x41));
    assert_eq!(events, vec![(Input::KeyBoard(0x41), KeyState::Up)]);
}

#[test]
fn keyboard_other_flag_decodes_to_nothing() {
    assert!(decode(&keyboard_report(2, 0x25)).is_empty());
    assert!(decode(&keyboard_report(3, 0x25)).is_empty());
}

#[test]
fn keyboard_report_fields_are_read_little_endian() {
    assert_eq!(
        parse_report(&keyboard_report(1, 0x1234)),
        Some(RawReport::Keyboard { flags: 1, vkey: 0x1234 })
    );
    assert_eq!(decode_keyboard(0, 0xffff), vec![(Input::KeyBoard(0xffff), KeyState::Down)]);
}

#[test]
fn mouse_left_and_right_down_decode_in_bit_order() {
    let events = decode(&mouse_report(0x0005));
    assert_eq!(
        events,
        vec![(Input::Mouse(VK_LBUTTON), KeyState::Down), (Input::Mouse(VK_RBUTTON), KeyState::Down)]
    );
}

#[test]
fn mouse_all_ten_bits_decode_to_ten_events() {
    let events = decode_mouse(0x03ff);
    assert_eq!(
        events,
        vec![
            (Input::Mouse(VK_LBUTTON), KeyState::Down),
            (Input::Mouse(VK_LBUTTON), KeyState::Up),
            (Input::Mouse(VK_RBUTTON), KeyState::Down),
            (Input::Mouse(VK_RBUTTON), KeyState::Up),
            (Input::Mouse(VK_MBUTTON), KeyState::Down),
            (Input::Mouse(VK_MBUTTON), KeyState::Up),
            (Input::Mouse(VK_XBUTTON1), KeyState::Down),
            (Input::Mouse(VK_XBUTTON1), KeyState::Up),
            (Input::Mouse(VK_XBUTTON2), KeyState::Down),
            (Input::Mouse(VK_XBUTTON2), KeyState::Up),
        ]
    );
}

#[test]
fn mouse_wheel_bits_decode_to_nothing() {
    assert!(decode(&mouse_report(0x0400)).is_empty());
    assert!(decode(&mouse_report(0x0000)).is_empty());
    assert_eq!(decode(&mouse_report(0x0c20)), vec![(Input::Mouse(VK_MBUTTON), KeyState::Up)]);
}

#[test]
fn other_device_decodes_to_nothing() {
    let mut b = header(2, header_len() + 24);
    b.extend(std::iter::repeat(0u8).take(24));
    assert_eq!(parse_report(&b), Some(RawReport::Other { device_type: 2 }));
    assert!(decode(&b).is_empty());
}

#[test]
fn short_reports_decode_to_nothing() {
    assert!(decode(&[]).is_empty());
    let full = keyboard_report(0, 0x41);
    assert_eq!(full.len(), header_len() + 16);
    assert_eq!(parse_report(&full[..header_len() + 8]), None);
    assert!(decode(&full[..header_len() + 8]).is_empty());
    assert!(decode(&full[..header_len() + 15]).is_empty());
    assert_eq!(decode(&full), vec![(Input::KeyBoard(0x41), KeyState::Down)]);
    let mouse = mouse_report(0x0001);
    assert_eq!(mouse.len(), header_len() + 24);
    assert!(decode(&mouse[..header_len() + 6]).is_empty());
    assert!(decode(&mouse[..header_len() + 23]).is_empty());
    assert_eq!(decode(&mouse), vec![(Input::Mouse(VK_LBUTTON), KeyState::Down)]);
    assert!(decode(&header(DEVICE_MOUSE, 0)[..header_len() - 1]).is_empty());
}

#[test]
fn batch_keeps_order_and_counts_events_not_reports() {
    let reports = vec![
        keyboard_report(0, 0x41),
        mouse_report(0x0005),
        header(2, header_len()),
        keyboard_report(1, 0x41),
    ];
    let events = decode_batch(&reports);
    assert_eq!(events.len(), 4);
    assert_eq!(
        events,
        vec![
            (Input::KeyBoard(0x41), KeyState::Down),
            (Input::Mouse(VK_LBUTTON), KeyState::Down),
            (Input::Mouse(VK_RBUTTON), KeyState::Down),
            (Input::KeyBoard(0x41), KeyState::Up),
        ]
    );
}

#[test]
fn mouse_buttons_have_names() {
    assert_eq!(mouse_name(1), Some("MOUSE_LBUTTON"));
    assert_eq!(mouse_name(3), Some("CANCEL"));
    assert_eq!(mouse_name(6), Some("MOUSE_XBUTTON2"));
    assert_eq!(mouse_name(0), None);
    assert_eq!(mouse_name(7), None);
}
