//! Checks of the data model, the classifier, device-list handling, and
//! the string utilities.

use splinux::classify::classify;
use splinux::classify::is_input_candidate;
use splinux::devices::assign_duplicate_indices;
use splinux::devices::device_paths;
use splinux::devices::sort_devices;
use splinux::keymap::char_of_key;
use splinux::keymap::named_key_of;
use splinux::keymap::NamedKey;
use splinux::session::check_display;
use splinux::session::session_kind;
use splinux::session::SessionKind;
use splinux::strings::contains_char;
use splinux::strings::decimal_string;
use splinux::strings::starts_with_str;
use splinux::strings::str_eq;
use splinux::types::get_ui_devices;
use splinux::types::Backend;
use splinux::types::ClientError;
use splinux::types::CommandType;
use splinux::types::Device;
use splinux::types::DeviceType;
use splinux::worker::virtual_gamepad_name;

fn dev(name: &str, num: u16) -> Device {
    Device::new(name.to_string(), 0, DeviceType::Unknown, Some(num))
}

#[test]
fn classify_requires_exactly_one_signature() {
    assert_eq!(classify(false, false, false), DeviceType::Unknown);
    assert_eq!(classify(true, false, false), DeviceType::Gamepad);
    assert_eq!(classify(false, true, false), DeviceType::Mouse);
    assert_eq!(classify(false, false, true), DeviceType::Keyboard);
    assert_eq!(classify(true, true, false), DeviceType::Unknown);
    assert_eq!(classify(true, false, true), DeviceType::Unknown);
    assert_eq!(classify(false, true, true), DeviceType::Unknown);
    assert_eq!(classify(true, true, true), DeviceType::Unknown);
}

#[test]
fn input_candidate_needs_one_event_kind() {
    assert!(!is_input_candidate(false, false, false, false));
    assert!(is_input_candidate(true, false, false, false));
    assert!(is_input_candidate(false, true, false, false));
    assert!(is_input_candidate(false, false, true, false));
    assert!(is_input_candidate(false, false, false, true));
}

#[test]
fn device_name_without_index() {
    let d = Device::new("USB Mouse".to_string(), 0, DeviceType::Mouse, Some(3));
    assert_eq!(d.get_name(), "USB Mouse");
    assert!(!d.showindex);
}

#[test]
fn device_name_with_index_is_one_based() {
    let mut d = Device::new("USB Mouse".to_string(), 0, DeviceType::Mouse, Some(3));
    d.index = 1;
    d.showindex = true;
    assert_eq!(d.get_name(), "USB Mouse 2");
}

#[test]
fn sort_devices_orders_by_node_number() {
    let mut v = vec![dev("c", 9), dev("a", 2), dev("b", 5), dev("d", 0)];
    sort_devices(&mut v);
    let nums: Vec<u16> = v.iter().map(|d| d.namenum.unwrap()).collect();
    assert_eq!(nums, vec![0, 2, 5, 9]);
    let names: Vec<String> = v.iter().map(|d| d.get_name()).collect();
    assert_eq!(names, vec!["d", "a", "b", "c"]);
}

#[test]
fn duplicate_names_get_display_indices() {
    let mut v = vec![dev("Pad", 0), dev("Pad", 1), dev("Mouse", 2), dev("Pad", 3)];
    assign_duplicate_indices(&mut v);
    let names: Vec<String> = v.iter().map(|d| d.get_name()).collect();
    assert_eq!(names, vec!["Pad", "Pad 2", "Mouse", "Pad 3"]);
    assert!(!v[0].showindex);
    assert!(v[1].showindex && v[1].index == 1);
    assert!(!v[2].showindex);
    assert!(v[3].showindex && v[3].index == 2);
}

#[test]
fn ui_devices_start_unchosen() {
    let v = vec![dev("a", 1), dev("b", 2)];
    let ui = get_ui_devices(v);
    assert_eq!(ui.len(), 2);
    assert!(ui.iter().all(|g| !g.chosen));
    assert_eq!(ui[0].device.get_name(), "a");
    assert_eq!(ui[1].device.get_name(), "b");
}

#[test]
fn device_paths_split_on_commas() {
    let paths = device_paths("25,28");
    assert_eq!(paths, vec!["/dev/input/event25", "/dev/input/event28"]);
    let paths = device_paths("3");
    assert_eq!(paths, vec!["/dev/input/event3"]);
}

#[test]
fn decimal_rendering() {
    assert_eq!(decimal_string(0), "0");
    assert_eq!(decimal_string(7), "7");
    assert_eq!(decimal_string(10), "10");
    assert_eq!(decimal_string(305), "305");
    assert_eq!(decimal_string(65535), "65535");
}

#[test]
fn string_utilities() {
    assert!(str_eq("abc", "abc"));
    assert!(!str_eq("abc", "abd"));
    assert!(!str_eq("abc", "ab"));
    assert!(contains_char(":30", ':'));
    assert!(!contains_char("wayland-2", ':'));
    assert!(starts_with_str("wayland-2", "wayland-"));
    assert!(!starts_with_str("way", "wayland-"));
}

#[test]
fn session_kind_from_syntax() {
    assert_eq!(session_kind(":30"), SessionKind::X11);
    assert_eq!(session_kind("wayland-2"), SessionKind::Wayland);
    assert_eq!(session_kind("something"), SessionKind::Unspecified);
}

#[test]
fn native_backend_rejects_socket_names() {
    assert_eq!(check_display(":1", Backend::Native), Ok(()));
    assert_eq!(
        check_display("wayland-2", Backend::Native),
        Err(ClientError::UnsupportedError)
    );
}

#[test]
fn labels_and_messages() {
    assert_eq!(DeviceType::Gamepad.label(), "Gamepad");
    assert_eq!(DeviceType::Mouse.label(), "Mouse");
    assert_eq!(DeviceType::Keyboard.label(), "Keyboard");
    assert_eq!(DeviceType::Unknown.label(), "Unknown");
    assert_eq!(Backend::Native.label(), "Native");
    assert_eq!(
        ClientError::X11DisplayOpenError.message(),
        "Couldn't open the X11 DISPLAY"
    );
    assert_eq!(
        ClientError::AlreadySpawnedError.message(),
        "run() was called, but child already exists"
    );
    assert_eq!(ClientError::UnsupportedError.message(), "Unsupported");
    assert_eq!(
        ClientError::RelativeMovementFail.message(),
        "Relative mouse movement failed"
    );
    assert_eq!(
        ClientError::ChannelClosed.message(),
        "Command channel disconnected"
    );
}

#[test]
fn command_type_as_mut_is_identity() {
    let mut c = CommandType::Manual { command: "run".to_string() };
    if let CommandType::Manual { command } = c.as_mut() {
        command.push('!');
    }
    assert_eq!(c, CommandType::Manual { command: "run!".to_string() });
}

#[test]
fn virtual_gamepad_names_carry_the_node_suffix() {
    assert_eq!(
        virtual_gamepad_name("5"),
        "Splinux Virtual Gamepad Device 5"
    );
}

#[test]
fn symbol_tables_match_the_fixed_layout() {
    assert_eq!(char_of_key(30), Some('a'));
    assert_eq!(char_of_key(44), Some('z'));
    assert_eq!(char_of_key(11), Some('0'));
    assert_eq!(char_of_key(2), Some('1'));
    assert_eq!(char_of_key(57), Some(' '));
    assert_eq!(char_of_key(53), Some('/'));
    assert_eq!(char_of_key(999), None);
    assert_eq!(named_key_of(1), Some(NamedKey::Escape));
    assert_eq!(named_key_of(56), Some(NamedKey::Alt));
    assert_eq!(named_key_of(100), Some(NamedKey::Alt));
    assert_eq!(named_key_of(42), Some(NamedKey::LShift));
    assert_eq!(named_key_of(88), Some(NamedKey::F12));
    assert_eq!(named_key_of(30), None);
    // the two tables never claim the same code
    for code in 0u16..1024 {
        assert!(!(char_of_key(code).is_some() && named_key_of(code).is_some()));
    }
}
