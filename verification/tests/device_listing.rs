use audio_capture::device::{
    list_audio_devices, AudioDevice, DeviceSelector, HostInventory, HostProbe,
};
use audio_capture::error::CaptureError;

fn device(id: &str, name: &str) -> AudioDevice {
    AudioDevice { id: id.to_string(), name: name.to_string() }
}

fn names(list: &[Option<&str>]) -> Option<Vec<Option<String>>> {
    Some(list.iter().map(|n| n.map(|s| s.to_string())).collect())
}

fn listing(default_name: Option<&str>, inputs: Option<Vec<Option<String>>>) -> Vec<AudioDevice> {
    let probe = HostProbe::Reachable(HostInventory {
        default_name: default_name.map(|s| s.to_string()),
        inputs,
    });
    list_audio_devices(&probe).expect("a reachable host always lists")
}

#[test]
fn no_devices_and_no_default_is_an_empty_listing() {
    assert_eq!(listing(None, names(&[])), Vec::<AudioDevice>::new());
}

#[test]
fn failed_enumeration_without_default_is_an_empty_listing() {
    assert_eq!(listing(None, None), Vec::<AudioDevice>::new());
}

#[test]
fn failed_enumeration_keeps_the_default_device() {
    assert_eq!(listing(Some("Built-in Mic"), None), vec![device("default", "Built-in Mic (기본)")]);
}

#[test]
fn default_device_comes_first_with_its_suffix() {
    assert_eq!(
        listing(Some("USB Mic"), names(&[Some("Built-in Mic"), Some("USB Mic")])),
        vec![
            device("default", "USB Mic (기본)"),
            device("device_0", "Built-in Mic"),
            device("device_1", "USB Mic"),
        ]
    );
}

#[test]
fn default_device_alone() {
    assert_eq!(listing(Some("Mic"), names(&[])), vec![device("default", "Mic (기본)")]);
}

#[test]
fn devices_without_default() {
    assert_eq!(
        listing(None, names(&[Some("A"), Some("B")])),
        vec![device("device_0", "A"), device("device_1", "B")]
    );
}

#[test]
fn unnamed_devices_are_skipped_but_keep_their_position() {
    assert_eq!(
        listing(None, names(&[None, Some("A"), None, None, Some("B"), None])),
        vec![device("device_1", "A"), device("device_4", "B")]
    );
}

#[test]
fn all_devices_unnamed_is_an_empty_listing() {
    assert_eq!(listing(None, names(&[None, None, None])), Vec::<AudioDevice>::new());
}

#[test]
fn positions_are_written_in_decimal() {
    let many: Vec<Option<String>> = (0..120).map(|i| Some(format!("input {}", i))).collect();
    let devices = listing(None, Some(many));
    assert_eq!(devices.len(), 120);
    assert_eq!(devices[9], device("device_9", "input 9"));
    assert_eq!(devices[10], device("device_10", "input 10"));
    assert_eq!(devices[99], device("device_99", "input 99"));
    assert_eq!(devices[100], device("device_100", "input 100"));
    assert_eq!(devices[119], device("device_119", "input 119"));
}

#[test]
fn empty_and_unusual_names_are_kept_as_they_are() {
    assert_eq!(
        listing(Some(""), names(&[Some(""), Some("마이크 (USB)"), Some("default")])),
        vec![
            device("default", " (기본)"),
            device("device_0", ""),
            device("device_1", "마이크 (USB)"),
            device("device_2", "default"),
        ]
    );
}

#[test]
fn every_listed_id_is_accepted_as_a_device_id() {
    let devices =
        listing(Some("Mic"), names(&[Some("A"), None, Some("B"), Some("C"), None, Some("D")]));
    let selectors: Vec<Option<DeviceSelector>> =
        devices.iter().map(|d| DeviceSelector::parse(&d.id)).collect();
    assert_eq!(
        selectors,
        vec![
            Some(DeviceSelector::Default),
            Some(DeviceSelector::Index(0)),
            Some(DeviceSelector::Index(2)),
            Some(DeviceSelector::Index(3)),
            Some(DeviceSelector::Index(5)),
        ]
    );
}

#[test]
fn unreachable_host_is_an_enumeration_error() {
    let probe = HostProbe::Unreachable("no audio host".to_string());
    assert_eq!(
        list_audio_devices(&probe),
        Err(CaptureError::Enumeration("no audio host".to_string()))
    );
}

#[test]
fn device_clone_is_equal() {
    let mic = device("device_3", "마이크");
    assert_eq!(mic.clone(), mic);
}
