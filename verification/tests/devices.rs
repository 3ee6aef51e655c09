use vooox::devices::{
    determine_effective_device, find_device_by_name, is_useful_input_device, list_input_devices,
    make_display_name, parse_alsa_card_line, should_skip_device, sort_devices_by_preference,
    card_names_from, DeviceInfo,
};
use vooox::keyed::TextMap;

#[test]
fn audio_device_filter_keeps_only_useful_devices() {
    assert!(is_useful_input_device("pulse"));
    assert!(is_useful_input_device("pipewire"));
    assert!(is_useful_input_device("default"));
    assert!(is_useful_input_device("sysdefault:CARD=BRIO"));
    assert!(is_useful_input_device("sysdefault:CARD=J380"));

    assert!(!is_useful_input_device("null"));
    assert!(!is_useful_input_device("lavrate"));
    assert!(!is_useful_input_device("jack"));
    assert!(!is_useful_input_device("oss"));
    assert!(!is_useful_input_device("hw:CARD=BRIO,DEV=0"));
    assert!(!is_useful_input_device("plughw:CARD=BRIO,DEV=0"));
    assert!(!is_useful_input_device("dsnoop:CARD=BRIO,DEV=0"));
    assert!(!is_useful_input_device("front:CARD=BRIO,DEV=0"));
    assert!(!is_useful_input_device("usbstream:CARD=NVidia"));
}

#[test]
fn devices_device_filter_keeps_only_useful_devices() {
    assert!(is_useful_input_device("pulse"));
    assert!(is_useful_input_device("pipewire"));
    assert!(is_useful_input_device("default"));
    assert!(is_useful_input_device("sysdefault:CARD=BRIO"));
    assert!(is_useful_input_device("sysdefault:CARD=J380"));

    assert!(!is_useful_input_device("null"));
    assert!(!is_useful_input_device("lavrate"));
    assert!(!is_useful_input_device("jack"));
    assert!(!is_useful_input_device("oss"));
    assert!(!is_useful_input_device("hw:CARD=BRIO,DEV=0"));
    assert!(!is_useful_input_device("plughw:CARD=BRIO,DEV=0"));
    assert!(!is_useful_input_device("dsnoop:CARD=BRIO,DEV=0"));
    assert!(!is_useful_input_device("front:CARD=BRIO,DEV=0"));
    assert!(!is_useful_input_device("usbstream:CARD=NVidia"));
}

#[test]
fn skip_is_the_opposite_of_useful() {
    assert!(should_skip_device("hw:CARD=BRIO,DEV=0"));
    assert!(!should_skip_device("pulse"));
}

#[test]
fn alsa_card_line_gives_short_and_full_name() {
    let line = "0 [J380           ]: USB-Audio - Jabra Link 380";
    let (short, full) = parse_alsa_card_line(line).unwrap();
    assert_eq!(short, "J380");
    assert_eq!(full, "Jabra Link 380");
    assert!(parse_alsa_card_line("no brackets - here").is_none());
    assert!(parse_alsa_card_line("1 [PCH ]: HDA-Intel").is_none());
}

#[test]
fn alsa_card_line_takes_the_last_dash() {
    let line = " 1 [BRIO ]: USB-Audio - Logitech - BRIO";
    let (short, full) = parse_alsa_card_line(line).unwrap();
    assert_eq!(short, "BRIO");
    assert_eq!(full, "BRIO");
}

fn cards() -> TextMap<String> {
    card_names_from(
        " 0 [PCH            ]: HDA-Intel - HDA Intel PCH\n                      HDA Intel PCH at 0xf7f10000 irq 32\n 1 [J380           ]: USB-Audio - Jabra Link 380\n",
    )
}

#[test]
fn card_names_are_read_from_proc_text() {
    let c = cards();
    assert_eq!(c.len(), 2);
    assert_eq!(c.get("J380").unwrap(), "Jabra Link 380");
    assert_eq!(c.get("PCH").unwrap(), "HDA Intel PCH");
    assert!(c.get("BRIO").is_none());
}

#[test]
fn display_names() {
    let c = cards();
    assert_eq!(make_display_name("default", &c), "Standard (ALSA)");
    assert_eq!(
        make_display_name("pulse", &c),
        "PulseAudio / PipeWire (folgt Systemeinstellung)"
    );
    assert_eq!(make_display_name("pipewire", &c), "PipeWire");
    assert_eq!(make_display_name("sysdefault:CARD=J380", &c), "Jabra Link 380 (sysdefault)");
    assert_eq!(make_display_name("sysdefault:CARD=BRIO", &c), "BRIO (sysdefault)");
    assert_eq!(make_display_name("hw:CARD=J380,DEV=0", &c), "Jabra Link 380 (hw)");
    assert_eq!(make_display_name("jack", &c), "jack");
}

fn dev(name: &str, id: u32) -> DeviceInfo<u32> {
    DeviceInfo { name: name.to_string(), display: String::new(), device: id }
}

#[test]
fn sort_puts_pulse_then_default_first_and_keeps_order() {
    let mut v = vec![
        dev("sysdefault:CARD=A", 1),
        dev("default", 2),
        dev("sysdefault:CARD=B", 3),
        dev("pulse", 4),
        dev("pipewire", 5),
    ];
    sort_devices_by_preference(&mut v);
    let ids: Vec<u32> = v.iter().map(|d| d.device).collect();
    assert_eq!(ids, vec![4, 2, 1, 3, 5]);
}

#[test]
fn list_filters_labels_and_sorts() {
    let found = vec![
        ("hw:CARD=J380,DEV=0".to_string(), 1u32),
        ("sysdefault:CARD=J380".to_string(), 2),
        ("default".to_string(), 3),
        ("null".to_string(), 4),
        ("pulse".to_string(), 5),
    ];
    let list = list_input_devices(found, &cards());
    let names: Vec<&str> = list.iter().map(|d| d.name.as_str()).collect();
    assert_eq!(names, vec!["pulse", "default", "sysdefault:CARD=J380"]);
    assert_eq!(list[2].display, "Jabra Link 380 (sysdefault)");
    assert_eq!(list[0].device, 5);
}

#[test]
fn find_device_and_effective_device() {
    let v = vec![dev("default", 2), dev("pulse", 4)];
    assert_eq!(determine_effective_device(&v, &None), Some("pulse".to_string()));
    assert_eq!(
        determine_effective_device(&v, &Some("hw".to_string())),
        Some("hw".to_string())
    );
    let w = vec![dev("default", 2)];
    assert_eq!(determine_effective_device(&w, &None), Some("default".to_string()));
    let empty: Vec<DeviceInfo<u32>> = Vec::new();
    assert_eq!(determine_effective_device(&empty, &None), None);
    assert_eq!(find_device_by_name(v, "pulse"), Some(4));
    assert_eq!(find_device_by_name(w, "pulse"), None);
}
