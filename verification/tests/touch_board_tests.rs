use spoolbuddy::board::{classify_i2c_devices, loop_tasks, I2cDevices, NAU7802_ADDR};
use spoolbuddy::touch::{TouchReading, TouchState, GT911_CLEAR_STATUS, GT911_STATUS_REG};

#[test]
fn touch_reading_follows_state() {
    let mut t = TouchState::new();
    assert_eq!(t.read(), TouchReading::Released);
    t.x = 10;
    t.y = 20;
    t.pressed = true;
    assert_eq!(t.read(), TouchReading::Pressed { x: 10, y: 20 });
}

#[test]
fn gt911_status_with_point() {
    let mut t = TouchState::new();
    assert_eq!(t.on_status(0x81), (true, true));
    assert_eq!(t, TouchState::new());
    t.on_point([0x00, 0x20, 0x03, 0xE0, 0x01, 0, 0, 0]);
    assert_eq!(t, TouchState { x: 800, y: 480, pressed: true });
    assert_eq!(t.read(), TouchReading::Pressed { x: 800, y: 480 });
}

#[test]
fn gt911_status_without_point_releases() {
    let mut t = TouchState { x: 5, y: 6, pressed: true };
    assert_eq!(t.on_status(0x80), (false, true));
    assert_eq!(t, TouchState { x: 5, y: 6, pressed: false });
    let mut t = TouchState { x: 5, y: 6, pressed: true };
    assert_eq!(t.on_status(0x03), (false, false));
    assert!(!t.pressed);
    assert_eq!(t.read(), TouchReading::Released);
    assert_eq!(GT911_STATUS_REG, [0x81, 0x4E]);
    assert_eq!(GT911_CLEAR_STATUS, [0x81, 0x4E, 0x00]);
}

#[test]
fn gt911_coordinates_wrap_into_i16() {
    let mut t = TouchState::new();
    t.on_point([0, 0xFF, 0xFF, 0x00, 0x80, 0, 0, 0]);
    assert_eq!((t.x, t.y), (-1, i16::MIN));
}

#[test]
fn i2c_scan_classification() {
    assert_eq!(classify_i2c_devices(&[]), I2cDevices { gt911_addr: 0x5D, nau7802_found: false });
    assert_eq!(
        classify_i2c_devices(&[0x14, 0x20, NAU7802_ADDR]),
        I2cDevices { gt911_addr: 0x14, nau7802_found: true }
    );
    assert_eq!(
        classify_i2c_devices(&[0x14, 0x5D, 0x30]),
        I2cDevices { gt911_addr: 0x5D, nau7802_found: false }
    );
    assert_eq!(
        classify_i2c_devices(&[0x5D, 0x14]),
        I2cDevices { gt911_addr: 0x14, nau7802_found: false }
    );
    assert_eq!(NAU7802_ADDR, 0x2A);
}

#[test]
fn main_loop_schedule() {
    let t1 = loop_tasks(1);
    assert!(t1.log_pass && !t1.read_scale && !t1.log_touch);
    let t5 = loop_tasks(5);
    assert!(t5.log_pass && t5.read_scale && !t5.update_weight_label);
    let t6 = loop_tasks(6);
    assert!(!t6.log_pass && !t6.read_scale);
    let t50 = loop_tasks(50);
    assert!(t50.read_scale && t50.update_weight_label && t50.log_touch && !t50.log_weight);
    let t250 = loop_tasks(250);
    assert!(t250.log_weight && !t250.log_scale_error);
    let t500 = loop_tasks(500);
    assert!(t500.log_weight && t500.log_scale_error && t500.read_scale);
}
