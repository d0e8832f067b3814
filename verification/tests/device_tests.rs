use blight::err::{BlibError, Tip};
use blight::light::sweep_next;
use blight::{change_bl, read_info, set_bl, Change, Delay, Device, Direction, Internal, BLDIR};

#[test]
fn reading_info() {
    let info = read_info("testbldir", "generic", true, Some(b"100"), Some(b"50\n"))
        .expect("failed to read info");
    assert_eq!(info.current, 50, "incorrect current value");
    assert_eq!(info.max, 100, "incorrect max value");
    assert_eq!(info.path, "testbldir/generic", "incorrect interface dir path");
}

#[test]
fn reading_info_errors() {
    assert!(matches!(
        read_info("testbldir", "generic", false, Some(b"100"), Some(b"50")),
        Err(BlibError::NoDeviceFound)
    ));
    assert!(matches!(
        read_info("testbldir", "generic", true, None, Some(b"50")),
        Err(BlibError::ReadMax)
    ));
    assert!(matches!(
        read_info("testbldir", "generic", true, Some(b"100"), None),
        Err(BlibError::ReadCurrent)
    ));
    assert!(matches!(
        read_info("testbldir", "generic", true, Some(b"100"), Some(b"")),
        Err(BlibError::ReadCurrent)
    ));
}

#[test]
fn device_construction() {
    let d = Device::new("generic".to_string(), 50, 100);
    assert_eq!(d.name(), "generic");
    assert_eq!(d.current(), 50);
    assert_eq!(d.max(), 100);
    assert_eq!(d.device_path(), format!("{BLDIR}/generic"));
}

#[test]
fn inc_calculation() {
    let d = Device::new("dummy".to_string(), 10, 100);
    let ch = d.calculate_change(10, Direction::Inc);
    assert_eq!(ch, 20);
}

#[test]
fn dec_calculation() {
    let d = Device::new("dummy".to_string(), 30, 100);
    let ch = d.calculate_change(10, Direction::Dec);
    assert_eq!(ch, 20);
}

#[test]
fn inc_calculation_max() {
    let d = Device::new("dummy".to_string(), 90, 100);
    let ch = d.calculate_change(20, Direction::Inc);
    assert_eq!(ch, 100);
}

#[test]
fn dec_calculation_max() {
    let d = Device::new("dummy".to_string(), 10, 100);
    let ch = d.calculate_change(20, Direction::Dec);
    assert_eq!(ch, 0);
}

#[test]
fn calculation_stays_in_bounds() {
    // over the whole step range, the result never leaves [0, max], an
    // increase never lowers the value and a decrease never raises it
    for (current, max) in [(0u32, 100u32), (50, 100), (100, 100), (3, 7), (0, 0), (255, 255)] {
        let d = Device::new("dummy".to_string(), current, max);
        for step in 0..=100 {
            let inc = d.calculate_change(step, Direction::Inc);
            let dec = d.calculate_change(step, Direction::Dec);
            assert!(inc <= max && inc >= current);
            assert!(dec <= max && dec <= current);
        }
    }
}

#[test]
fn calculation_saturates_on_large_steps() {
    let d = Device::new("dummy".to_string(), 50, 100);
    assert_eq!(d.calculate_change(200, Direction::Inc), 100);
    assert_eq!(d.calculate_change(200, Direction::Dec), 0);
    let d = Device::new("dummy".to_string(), u32::MAX, u32::MAX);
    assert_eq!(d.calculate_change(100, Direction::Dec), 0);
}

#[test]
fn current_percent() {
    let d = Device::new("dummy".to_string(), 5, 255);
    assert_eq!(d.current_percent_rounded(), 2);
}

#[test]
fn toggle() {
    let mut d = Device::new("generic".to_string(), 50, 100);
    d.write_value(0).expect("failed to write value");
    d.set_current(Internal, 0);
    assert_ne!(d.current(), d.max());
    let v = d.toggle_value();
    d.write_value(v).expect("failed to toggle on/off");
    d.set_current(Internal, v);
    assert_eq!(d.current(), d.max());
    let v = d.toggle_value();
    d.write_value(v).expect("failed to toggle on/off");
    d.set_current(Internal, v);
    assert_eq!(d.current(), 0);
}

#[test]
fn reload() {
    let mut d = Device::new("generic".to_string(), 50, 100);
    let test_value = 12345;
    assert_ne!(d.current(), test_value);
    d.try_reload(b"12345").expect("failed to reload current value");
    assert_eq!(d.current(), test_value);
}

#[test]
fn reload_rejects_bad_read() {
    let mut d = Device::new("generic".to_string(), 50, 100);
    let r = d.try_reload(b"");
    assert!(matches!(r, Err(BlibError::ReadCurrent)));
    assert_eq!(d.current(), 50);
}

#[test]
fn write_value() {
    let d = Device::new("generic".to_string(), 50, 100);
    let res = d.write_value(100).unwrap();
    assert_eq!(res.as_slice(), b"100", "Result was {res:?}");
}

#[test]
fn write_value_too_large() {
    let d = Device::new("generic".to_string(), 50, 100);
    let res = d.write_value(101);
    assert!(matches!(
        res,
        Err(BlibError::ValueTooLarge { given: 101, supported: 100 })
    ));
}

#[test]
fn sweeping() {
    let mut d = Device::new("generic".to_string(), 50, 100);
    let writes = d.sweep_write(100);
    assert_eq!(d.current(), 100);
    assert_eq!(writes.last(), Some(&100));
    let writes = d.sweep_write(0);
    assert_eq!(d.current(), 0);
    assert_eq!(writes.last(), Some(&0));
}

#[test]
fn sweep_bounds() {
    let mut d = Device::new("generic".to_string(), 50, 100);
    d.set_current(Internal, 0);
    let writes = d.sweep_write(u32::MAX);
    assert!(writes.is_empty());
    assert_eq!(d.current(), 0);
}

#[test]
fn sweep_steps_do_not_overshoot() {
    let mut d = Device::new("generic".to_string(), 0, 100);
    let writes = d.sweep_write(100);
    let expected: Vec<u32> = (1..=100).collect();
    assert_eq!(writes, expected);
}

#[test]
fn sweep_step_degenerates_below_one_percent() {
    // a range under one hundred truncates the rate to zero: the walk
    // repeats the unchanged value forever, so the step never stops
    assert_eq!(sweep_next(10, 20, 50, Direction::Inc), Some(10));
    // and the stopping conditions still apply
    assert_eq!(sweep_next(20, 20, 50, Direction::Inc), None);
    assert_eq!(sweep_next(0, 51, 50, Direction::Inc), None);
}

#[test]
fn change_bl_regular() {
    let mut d = Device::new("generic".to_string(), 10, 100);
    let writes = change_bl(&mut d, 10, Change::Regular, Direction::Inc);
    assert_eq!(writes, vec![20]);
    // a regular change leaves the cache for a reload
    assert_eq!(d.current(), 10);
}

#[test]
fn change_bl_sweep() {
    let mut d = Device::new("generic".to_string(), 10, 100);
    let writes = change_bl(&mut d, 10, Change::Sweep, Direction::Inc);
    let expected: Vec<u32> = (11..=20).collect();
    assert_eq!(writes, expected);
    assert_eq!(d.current(), 20);
}

#[test]
fn change_bl_no_op() {
    let mut d = Device::new("generic".to_string(), 10, 100);
    let writes = change_bl(&mut d, 0, Change::Regular, Direction::Inc);
    assert!(writes.is_empty());
    assert_eq!(d.current(), 10);
}

#[test]
fn set_bl_writes_given_value() {
    let d = Device::new("generic".to_string(), 10, 100);
    assert_eq!(set_bl(&d, 50).unwrap(), vec![50]);
    assert!(set_bl(&d, 10).unwrap().is_empty());
    assert!(matches!(
        set_bl(&d, 101),
        Err(BlibError::ValueTooLarge { given: 101, supported: 100 })
    ));
}

#[test]
fn delay_constructors() {
    assert_eq!(Delay::from_millis(30).millis(), 30);
    assert_eq!(Delay::default().millis(), 25);
}

#[test]
fn error_descriptions() {
    assert_eq!(
        BlibError::NoDeviceFound.description(),
        "no known backlight device detected"
    );
    assert_eq!(
        BlibError::ReadMax.description(),
        "failed to read max brightness value"
    );
    assert_eq!(
        BlibError::ReadCurrent.description(),
        "failed to read current brightness value"
    );
    assert_eq!(
        BlibError::ValueTooLarge { given: 101, supported: 100 }.description(),
        "provided value (101) is larger than the max supported value of 100"
    );
    assert_eq!(
        BlibError::SweepError("boom".to_string()).description(),
        "failed to sweep write to brightness file (boom)"
    );
    assert_eq!(
        BlibError::ReadBlDir("denied".to_string()).description(),
        "failed to read /sys/class/backlight directory\ndenied"
    );
    assert_eq!(
        BlibError::WriteNewVal { err: "denied".to_string(), dev: "generic".to_string() }
            .description(),
        "failed to write to the brightness file (denied)"
    );
}

#[test]
fn error_tips() {
    let e = BlibError::WriteNewVal {
        err: "permission denied".to_string(),
        dev: "generic".to_string(),
    };
    let tip = e.tip().expect("a failed write should carry a tip");
    assert!(tip.contains("/sys/class/backlight/generic/brightness"));
    assert!(BlibError::NoDeviceFound.tip().is_none());
    assert!(BlibError::ReadMax.tip().is_none());
}
