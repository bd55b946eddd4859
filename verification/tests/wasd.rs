use teleop_twist_keyboard_rust::wasd::{wasd_command, WasdCommand};

#[test]
fn wasd_keys() {
    assert_eq!(wasd_command(Some('w')), WasdCommand { linear_x: 1, angular_z: 0 });
    assert_eq!(wasd_command(Some('s')), WasdCommand { linear_x: -1, angular_z: 0 });
    assert_eq!(wasd_command(Some('a')), WasdCommand { linear_x: 0, angular_z: 1 });
    assert_eq!(wasd_command(Some('d')), WasdCommand { linear_x: 0, angular_z: -1 });
}

#[test]
fn wasd_other_keys_stop() {
    assert_eq!(wasd_command(Some('W')), WasdCommand { linear_x: 0, angular_z: 0 });
    assert_eq!(wasd_command(Some('x')), WasdCommand { linear_x: 0, angular_z: 0 });
    assert_eq!(wasd_command(None), WasdCommand { linear_x: 0, angular_z: 0 });
}
