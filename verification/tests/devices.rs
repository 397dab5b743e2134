use dictation_capture::device::{list_input_devices, resolve_device, DeviceChoice, InputDevice};
use dictation_capture::error::RecorderError;

fn named(names: &[&str]) -> Vec<Option<String>> {
    names.iter().map(|n| Some(n.to_string())).collect()
}

#[test]
fn listing_flags_the_default_device() {
    let entries = named(&["Built-in Microphone", "USB Headset"]);
    let devices = list_input_devices(&entries, Some("USB Headset"));
    assert_eq!(
        devices,
        vec![
            InputDevice { name: "Built-in Microphone".to_string(), is_default: false },
            InputDevice { name: "USB Headset".to_string(), is_default: true },
        ]
    );
}

#[test]
fn listing_skips_a_device_whose_name_cannot_be_read() {
    let entries = vec![Some("A".to_string()), None, Some("B".to_string())];
    let devices = list_input_devices(&entries, Some("B"));
    assert_eq!(
        devices,
        vec![
            InputDevice { name: "A".to_string(), is_default: false },
            InputDevice { name: "B".to_string(), is_default: true },
        ]
    );
}

#[test]
fn listing_of_no_devices_is_empty() {
    assert_eq!(list_input_devices(&Vec::new(), Some("Anything")), Vec::<InputDevice>::new());
    assert_eq!(list_input_devices(&vec![None, None], None), Vec::<InputDevice>::new());
}

#[test]
fn listing_flags_every_device_with_the_default_name() {
    let entries = named(&["Mic", "Mic"]);
    let devices = list_input_devices(&entries, Some("Mic"));
    assert!(devices.iter().all(|d| d.is_default));
    assert_eq!(devices.len(), 2);
}

#[test]
fn listing_without_a_default_flags_none() {
    let entries = named(&["A", "B", ""]);
    let devices = list_input_devices(&entries, None);
    assert_eq!(devices.len(), 3);
    assert!(devices.iter().all(|d| !d.is_default));
}

#[test]
fn listing_flags_a_device_without_a_name_only_if_the_default_has_none_either() {
    let entries = named(&["A", ""]);
    let devices = list_input_devices(&entries, Some(""));
    assert_eq!(
        devices,
        vec![
            InputDevice { name: "A".to_string(), is_default: false },
            InputDevice { name: String::new(), is_default: true },
        ]
    );
}

#[test]
fn listing_with_a_default_that_is_not_enumerated_flags_none() {
    let entries = named(&["A", "B"]);
    let devices = list_input_devices(&entries, Some("C"));
    assert!(devices.iter().all(|d| !d.is_default));
}

#[test]
fn no_preference_takes_the_default_device() {
    let entries = named(&["A", "B"]);
    assert_eq!(resolve_device("", &entries, true), Ok(DeviceChoice::Default));
}

#[test]
fn no_preference_and_no_default_is_no_input_device() {
    let entries = named(&["A", "B"]);
    assert_eq!(resolve_device("", &entries, false), Err(RecorderError::NoInputDevice));
}

#[test]
fn preferred_device_is_found_by_name() {
    let entries = named(&["A", "B", "C"]);
    assert_eq!(resolve_device("B", &entries, true), Ok(DeviceChoice::Listed(1)));
    assert_eq!(resolve_device("B", &entries, false), Ok(DeviceChoice::Listed(1)));
}

#[test]
fn first_of_several_devices_with_the_preferred_name_is_taken() {
    let entries = vec![None, Some("X".to_string()), Some("B".to_string()), Some("B".to_string())];
    assert_eq!(resolve_device("B", &entries, true), Ok(DeviceChoice::Listed(2)));
}

#[test]
fn unknown_device_falls_back_to_the_default() {
    let entries = named(&["A", "B"]);
    assert_eq!(resolve_device("Gone", &entries, true), Ok(DeviceChoice::Fallback));
    assert_eq!(resolve_device("Gone", &Vec::new(), true), Ok(DeviceChoice::Fallback));
}

#[test]
fn unknown_device_without_a_default_is_no_input_device() {
    let entries = named(&["A", "B"]);
    assert_eq!(resolve_device("Gone", &entries, false), Err(RecorderError::NoInputDevice));
}

#[test]
fn device_names_are_compared_exactly() {
    let entries = named(&["usb headset", "USB Headset "]);
    assert_eq!(resolve_device("USB Headset", &entries, true), Ok(DeviceChoice::Fallback));
}
