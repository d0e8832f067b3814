use blight::err::BlibError;
use blight::led::{leds_from_names, Color, Function, Led, LedDevice, Name};

#[test]
fn names() {
    let entries = vec![
        ("platform:white:kbd_backlight".to_string(), 128, 255),
        ("input13::capslock".to_string(), 0, 1),
        ("unknown".to_string(), 0, 1),
    ];
    let leds = leds_from_names(&entries);
    assert_eq!(entries.len(), leds.len());
    let topologies: Vec<Option<String>> = leds
        .iter()
        .map(|l| match l {
            LedDevice::Dimmable(l) => l.name().map(|s| s.to_string()),
            LedDevice::NonDimmable(l) => l.name().map(|s| s.to_string()),
        })
        .collect();
    assert_eq!(
        topologies,
        vec![Some("platform".to_string()), Some("input13".to_string()), None]
    );
}

#[test]
fn parse_full_name() {
    let n = Name::parse("platform:white:kbd_backlight");
    assert_eq!(n.raw, "platform:white:kbd_backlight");
    assert_eq!(n.color, Color::White);
    assert_eq!(n.function, Function::KbdBacklight);
    assert_eq!(n.topology_len, Some("platform".len()));
}

#[test]
fn parse_empty_color() {
    let n = Name::parse("input13::capslock");
    assert_eq!(n.color, Color::Unknown);
    assert_eq!(n.function, Function::Capslock);
    assert_eq!(n.topology_len, Some("input13".len()));
}

#[test]
fn parse_unstructured_name() {
    let n = Name::parse("unknown");
    assert_eq!(n.color, Color::Unknown);
    assert_eq!(n.function, Function::Unknown);
    assert_eq!(n.topology_len, None);
}

#[test]
fn strict_construction_rejects_nonconforming_names() {
    assert!(Led::new("unknown", 0, 255).is_none());
    assert!(Led::new("tpacpi:green:nosuchfunction", 0, 255).is_none());
    assert!(Led::new("platform:white:kbd_backlight", 0, 255).is_some());
}

#[test]
fn classification_follows_max() {
    match Led::new("platform:white:kbd_backlight", 10, 255) {
        Some(LedDevice::Dimmable(l)) => {
            assert_eq!(l.color(), Color::White);
            assert_eq!(l.function(), Function::KbdBacklight);
            assert_eq!(l.name(), Some("platform"));
            assert_eq!(l.raw_name(), "platform:white:kbd_backlight");
            assert_eq!(l.current(), 10);
            assert_eq!(l.max(), 255);
            assert_eq!(l.device_path(), "/sys/class/leds/platform:white:kbd_backlight");
        }
        other => panic!("expected a dimmable LED, got {other:?}"),
    }
    match Led::new("input13::capslock", 0, 1) {
        Some(LedDevice::NonDimmable(l)) => {
            assert_eq!(l.function(), Function::Capslock);
            assert_eq!(l.max(), 1);
        }
        other => panic!("expected a binary LED, got {other:?}"),
    }
}

#[test]
fn binary_led_toggles() {
    if let Some(LedDevice::NonDimmable(l)) = Led::new("input13::capslock", 0, 1) {
        assert_eq!(l.toggle_value(), 1);
        assert_eq!(l.write_value(1).unwrap().as_slice(), b"1");
        assert!(matches!(
            l.write_value(2),
            Err(BlibError::ValueTooLarge { given: 2, supported: 1 })
        ));
    } else {
        panic!("expected a binary LED");
    }
}

#[test]
fn dimmable_led_operations() {
    if let Some(LedDevice::Dimmable(mut l)) = Led::new("platform:white:kbd_backlight", 0, 255) {
        let writes = l.sweep_write(255);
        assert_eq!(l.current(), 255);
        assert_eq!(writes.last(), Some(&255));
        assert_eq!(l.toggle_value(), 0);
        assert_eq!(l.current_percent_rounded(), 100);
    } else {
        panic!("expected a dimmable LED");
    }
}

#[test]
fn lenient_construction_accepts_anything() {
    match Led::new_lenient("unknown", 3, 7) {
        LedDevice::Dimmable(l) => {
            assert_eq!(l.color(), Color::Unknown);
            assert_eq!(l.function(), Function::Unknown);
            assert_eq!(l.name(), None);
            assert_eq!(l.raw_name(), "unknown");
        }
        other => panic!("expected a dimmable LED, got {other:?}"),
    }
}

#[test]
fn color_vocabulary() {
    assert_eq!(Color::from_token("white"), Color::White);
    assert_eq!(Color::from_token("max"), Color::Max);
    assert_eq!(Color::from_token("lime"), Color::Lime);
    assert_eq!(Color::from_token("chartreuse"), Color::Unknown);
}

#[test]
fn function_vocabulary() {
    assert_eq!(Function::from_token("capslock"), Function::Capslock);
    assert_eq!(Function::from_token("kbd_backlight"), Function::KbdBacklight);
    assert_eq!(Function::from_token("player-5"), Function::Player5);
    assert_eq!(Function::from_token("wlan-6ghz"), Function::Wlan6ghz);
    assert_eq!(Function::from_token("wps"), Function::Wps);
    assert_eq!(Function::from_token("espresso"), Function::Unknown);
}
