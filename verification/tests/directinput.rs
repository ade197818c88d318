//! The DirectInput-side records: the joystick data-format layout and the
//! auto-center property.

use rowheel::directinput::{
    autocenter_off_property, constant_force_record, joystick_data_format, ObjectClass,
    DIDFT_AXIS_OBJECT, DIDFT_BUTTON_OBJECT, DIDFT_POV_OBJECT, DIPH_DEVICE,
};
use rowheel::virtual_controller::RumbleState;

#[test]
fn the_data_format_covers_all_164_objects() {
    let format = joystick_data_format();
    assert_eq!(format.objects.len(), 164);
    assert_eq!(format.dw_flags, 0x0000_0001);
    assert_eq!(format.dw_data_size, 272);
    assert_eq!(format.dw_obj_size, 24);
}

#[test]
fn the_position_axes_sit_at_the_front() {
    let format = joystick_data_format();
    assert_eq!(format.objects[0].guid, ObjectClass::AxisX);
    assert_eq!(format.objects[0].dw_ofs, 0);
    assert_eq!(format.objects[0].dw_type, DIDFT_AXIS_OBJECT);
    assert_eq!(format.objects[5].guid, ObjectClass::AxisRz);
    assert_eq!(format.objects[5].dw_ofs, 20);
    assert_eq!(format.objects[6].guid, ObjectClass::Slider);
    assert_eq!(format.objects[7].dw_ofs, 28);
}

#[test]
fn hats_buttons_and_derivative_blocks_follow() {
    let format = joystick_data_format();
    assert_eq!(format.objects[8].guid, ObjectClass::Pov);
    assert_eq!(format.objects[8].dw_ofs, 32);
    assert_eq!(format.objects[8].dw_type, DIDFT_POV_OBJECT);
    assert_eq!(format.objects[12].guid, ObjectClass::Button);
    assert_eq!(format.objects[12].dw_ofs, 48);
    assert_eq!(format.objects[12].dw_type, DIDFT_BUTTON_OBJECT);
    assert_eq!(format.objects[139].dw_ofs, 175);
    assert_eq!(format.objects[140].guid, ObjectClass::AxisX);
    assert_eq!(format.objects[140].dw_ofs, 176);
    assert_eq!(format.objects[148].dw_ofs, 208);
    assert_eq!(format.objects[156].dw_ofs, 240);
    assert_eq!(format.objects[163].guid, ObjectClass::Slider);
    assert_eq!(format.objects[163].dw_ofs, 268);
}

#[test]
fn the_autocenter_property_addresses_the_whole_device() {
    let p = autocenter_off_property();
    assert_eq!(p.diph.dw_size, 20);
    assert_eq!(p.diph.dw_header_size, 16);
    assert_eq!(p.diph.dw_obj, 0);
    assert_eq!(p.diph.dw_how, DIPH_DEVICE);
    assert_eq!(p.dw_data, 0);
}

#[test]
fn the_driver_force_magnitude_runs_on_its_nominal_range() {
    let force = |large_motor: i32, small_motor: i32| {
        constant_force_record(&RumbleState { large_motor, small_motor }).l_magnitude
    };
    assert_eq!(force(1_000_000, 0), 10000);
    assert_eq!(force(0, 1_000_000), -10000);
    assert_eq!(force(0, 0), 0);
    assert_eq!(force(500_000, 0), 5000);
    assert_eq!(force(2_000_000, 0), 10000);
}
