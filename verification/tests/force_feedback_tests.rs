use steering::force_feedback::{
    device_path, find, find_index, set_autocenter, DEVICE_PREFIX, EVENT, EV_FF, FF_AUTOCENTER,
    HANDLERS, NAME, RECORD_LEN,
};
use steering::g29::AUTOCENTER;

const WHEEL: &str = "I: Bus=0003 Vendor=046d Product=c24f Version=0111\n\
N: Name=\"Logitech G29 Driving Force Racing Wheel\"\n\
P: Phys=usb-0000:00:14.0-2/input0\n\
S: Sysfs=/devices/pci0000:00/input/input21\n\
U: Uniq=\n\
H: Handlers=kbd event7 mouse0\n\
B: PROP=0\n\
\n";

const KEYBOARD: &str = "I: Bus=0011 Vendor=0001 Product=0001 Version=ab41\n\
N: Name=\"AT Translated Set 2 keyboard\"\n\
P: Phys=isa0060/serio0/input0\n\
H: Handlers=sysrq kbd event3 leds\n\
\n";

fn path(text: &str) -> Option<String> {
    find(text.as_bytes()).map(|p| String::from_utf8(p).unwrap())
}

fn wheel_with_handlers(line: &str) -> String {
    format!("I: Bus=0003\n{}\nP: Phys=\n{}\n\n", NAME, line)
}

#[test]
fn test_find_device() {
    let found = find(WHEEL.as_bytes()).map(|_| set_autocenter(0x6000, false));
    assert_eq!(found.map(|record| record.len()), Some(24));
}

#[test]
fn wheel_block_resolves_to_its_device_file() {
    let found = path(WHEEL).unwrap();
    assert!(found.ends_with("event7"));
    assert_eq!(found, "/dev/input/event7");
}

#[test]
fn the_wheel_is_found_among_other_devices() {
    let text = format!("{}{}{}", KEYBOARD, WHEEL, KEYBOARD);
    assert_eq!(path(&text).unwrap(), "/dev/input/event7");
}

#[test]
fn a_registry_without_the_wheel_gives_nothing() {
    assert_eq!(path(""), None);
    assert_eq!(path("\n\n\n"), None);
    assert_eq!(path(KEYBOARD), None);
    assert_eq!(path(&format!("{}{}", KEYBOARD, KEYBOARD)), None);
}

#[test]
fn the_name_line_has_to_match_exactly() {
    assert_eq!(path(&WHEEL.replace("Racing Wheel\"", "Racing Wheel USB\"")), None);
    assert_eq!(path(&WHEEL.replace("N: Name", " N: Name")), None);
    assert_eq!(path(&WHEEL.replace("Wheel\"\n", "Wheel\" \n")), None);
}

#[test]
fn handlers_of_another_block_do_not_count() {
    let text = format!("{}I: Bus=0003\n{}\nP: Phys=\n\n{}", KEYBOARD, NAME, KEYBOARD);
    assert_eq!(path(&text), None);
}

#[test]
fn only_the_first_named_block_decides() {
    let text = format!("I: Bus=0003\n{}\nP: Phys=\n\n{}", NAME, WHEEL);
    assert_eq!(path(&text), None);
}

#[test]
fn a_final_block_needs_no_blank_line() {
    let text = format!("{}{}", KEYBOARD, WHEEL.trim_end());
    assert_eq!(path(&text).unwrap(), "/dev/input/event7");
    let unterminated = format!("{}\nH: Handlers=event12", NAME);
    assert_eq!(path(&unterminated).unwrap(), "/dev/input/event12");
}

#[test]
fn carriage_returns_end_lines_too() {
    let text = WHEEL.replace('\n', "\r\n");
    assert_eq!(path(&text).unwrap(), "/dev/input/event7");
}

#[test]
fn a_carriage_return_without_a_line_feed_belongs_to_the_line() {
    let kept = format!("H: Handlers=event5\n{}\r", NAME);
    assert_eq!(path(&kept), None);
    let stripped = format!("H: Handlers=event5\n{}\r\n", NAME);
    assert_eq!(path(&stripped).unwrap(), "/dev/input/event5");
    let inner = format!("{}\rX\nH: Handlers=event5\n", NAME);
    assert_eq!(path(&inner), None);
}

#[test]
fn a_blank_line_may_end_in_a_carriage_return() {
    let text = format!("{}\r\n\r\nH: Handlers=event5\r\n", NAME);
    assert_eq!(path(&text), None);
}

#[test]
fn the_first_event_token_decides() {
    assert_eq!(path(&wheel_with_handlers("H: Handlers=event4 event9")).unwrap(), "/dev/input/event4");
    assert_eq!(path(&wheel_with_handlers("H: Handlers=  js0\t event21 ")).unwrap(), "/dev/input/event21");
    assert_eq!(path(&wheel_with_handlers("H: Handlers=eventx event9")), None);
    assert_eq!(path(&wheel_with_handlers("H: Handlers=event event9")), None);
    assert_eq!(path(&wheel_with_handlers("H: Handlers=kbd mouse0")), None);
    assert_eq!(path(&wheel_with_handlers("H: Handlers=")), None);
    assert_eq!(path(&wheel_with_handlers("H: Handlers=myevent3")), None);
}

#[test]
fn the_first_handlers_line_decides() {
    let text = format!("{}\nH: Handlers=kbd\nH: Handlers=event5\n\n", NAME);
    assert_eq!(path(&text), None);
    let before = format!("H: Handlers=event5\n{}\n\n", NAME);
    assert_eq!(path(&before).unwrap(), "/dev/input/event5");
}

#[test]
fn the_index_is_a_byte() {
    assert_eq!(path(&wheel_with_handlers("H: Handlers=event0")).unwrap(), "/dev/input/event0");
    assert_eq!(path(&wheel_with_handlers("H: Handlers=event255")).unwrap(), "/dev/input/event255");
    assert_eq!(path(&wheel_with_handlers("H: Handlers=event007")).unwrap(), "/dev/input/event7");
    assert_eq!(path(&wheel_with_handlers("H: Handlers=event256")), None);
    assert_eq!(path(&wheel_with_handlers("H: Handlers=event99999999999999999999")), None);
    assert_eq!(path(&wheel_with_handlers("H: Handlers=event7a")), None);
    assert_eq!(path(&wheel_with_handlers("H: Handlers=event-7")), None);
}

#[test]
fn find_index_with_other_strings() {
    let text = b"name\nhandlers: a ev12 b\n\nother\n";
    assert_eq!(find_index(text, b"name", b"handlers:", b"ev"), Some(12));
    assert_eq!(find_index(text, b"other", b"handlers:", b"ev"), None);
    assert_eq!(find_index(text, b"name", b"handlers:", b"a"), None);
    assert_eq!(find_index(text, b"name", b"handlers: a ev", b""), Some(12));
}

#[test]
fn fixed_strings() {
    assert_eq!(NAME, "N: Name=\"Logitech G29 Driving Force Racing Wheel\"");
    assert_eq!(HANDLERS, "H: Handlers=");
    assert_eq!(EVENT, "event");
    assert_eq!(DEVICE_PREFIX, "/dev/input/event");
    assert_eq!((EV_FF, FF_AUTOCENTER, RECORD_LEN), (0x15, 0x61, 24));
}

#[test]
fn device_paths() {
    for (index, text) in [(0u8, "0"), (7, "7"), (9, "9"), (10, "10"), (42, "42"), (99, "99"),
        (100, "100"), (105, "105"), (110, "110"), (255, "255")]
    {
        assert_eq!(device_path(index), format!("/dev/input/event{}", text).into_bytes());
    }
    for index in 0..=255u8 {
        assert_eq!(device_path(index), format!("/dev/input/event{}", index).into_bytes());
    }
}

#[test]
fn every_index_survives_the_round_trip() {
    for index in 0..=255u8 {
        let line = format!("H: Handlers=js0 event{}", index);
        assert_eq!(
            find(wheel_with_handlers(&line).as_bytes()),
            Some(device_path(index))
        );
    }
}

#[test]
fn autocenter_record_little_endian() {
    let mut expected = vec![0u8; 16];
    expected.extend_from_slice(&[0x15, 0x00, 0x61, 0x00, 0x00, 0x60, 0x00, 0x00]);
    assert_eq!(set_autocenter(AUTOCENTER, false), expected);
}

#[test]
fn autocenter_record_big_endian() {
    let mut expected = vec![0u8; 16];
    expected.extend_from_slice(&[0x00, 0x15, 0x00, 0x61, 0x00, 0x00, 0x60, 0x00]);
    assert_eq!(set_autocenter(AUTOCENTER, true), expected);
}

#[test]
fn autocenter_record_matches_the_integer_encodings() {
    for value in [0, 1, -1, 255, 256, 0x6000, 0x1234_5678, -0x1234_5678, i32::MAX, i32::MIN] {
        let little = set_autocenter(value, false);
        let big = set_autocenter(value, true);
        assert_eq!(little.len(), RECORD_LEN);
        assert_eq!(&little[..16], &[0u8; 16]);
        assert_eq!(&little[16..18], &EV_FF.to_le_bytes());
        assert_eq!(&little[18..20], &FF_AUTOCENTER.to_le_bytes());
        assert_eq!(&little[20..], &value.to_le_bytes());
        assert_eq!(&big[..16], &[0u8; 16]);
        assert_eq!(&big[16..18], &EV_FF.to_be_bytes());
        assert_eq!(&big[18..20], &FF_AUTOCENTER.to_be_bytes());
        assert_eq!(&big[20..], &value.to_be_bytes());
    }
}
