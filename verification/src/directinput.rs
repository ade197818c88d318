//! The other platform's force-feedback protocol, as plain records: the
//! property and state structures its driver interface consumes, and the
//! joystick data format that maps every device object to a fixed offset
//! in the state record.
//!
//! The driver interface itself traffics in raw pointers and a COM object
//! graph; that plumbing stays with the platform binding. What lives here
//! is the offset and layout knowledge — the part that must be exactly
//! right — expressed over owned values: a binding lays these records out
//! into the driver's wire form field for field.

use vstd::prelude::*;

verus! {

/// A driver-interface boolean: nonzero to continue an enumeration.
#[derive(Debug, Clone, Copy, PartialEq, Eq, Structural)]
pub struct DIBOOL(pub i32);

/// Continue enumerating devices.
pub const DIENUM_CONTINUE: i32 = 1;

/// Stop enumerating devices.
pub const DIENUM_STOP: i32 = 0;

/// Device class: game controllers.
pub const DI8DEVCLASS_GAMECTRL: u32 = 4;

/// Enumeration filter: force-feedback-capable devices only.
pub const DIEDFL_FORCEFEEDBACK: u32 = 0x0000_0100;

/// Cooperative levels: exclusive access (required for force feedback),
/// the shared fallback, and background operation.
pub const DISCL_EXCLUSIVE: u32 = 0x0000_0001;

pub const DISCL_NONEXCLUSIVE: u32 = 0x0000_0002;

pub const DISCL_BACKGROUND: u32 = 0x0000_0008;

/// Property header scope: the property applies to the whole device.
pub const DIPH_DEVICE: u32 = 0;

/// Auto-center property value: the built-in spring off.
pub const DIPROPAUTOCENTER_OFF: u32 = 0;

/// Wire size of [`DIPROPHEADER`]: four 32-bit words.
pub const DIPROPHEADER_SIZE: u32 = 16;

/// Wire size of [`DIPROPDWORD`]: the header plus one 32-bit word.
pub const DIPROPDWORD_SIZE: u32 = 20;

/// Header of every property record: its sizes and what it applies to.
#[derive(Debug, Clone, Copy, PartialEq, Eq, Structural)]
pub struct DIPROPHEADER {
    /// Size of the enclosing property record.
    pub dw_size: u32,
    /// Size of this header.
    pub dw_header_size: u32,
    /// The object the property addresses, when per-object.
    pub dw_obj: u32,
    /// How `dw_obj` is to be read; [`DIPH_DEVICE`] for whole-device.
    pub dw_how: u32,
}

/// A one-word property record.
#[derive(Debug, Clone, Copy, PartialEq, Eq, Structural)]
pub struct DIPROPDWORD {
    /// The property header.
    pub diph: DIPROPHEADER,
    /// The property value.
    pub dw_data: u32,
}

/// Type-specific parameters of a constant-force effect: one signed
/// magnitude.
#[derive(Debug, Clone, Copy, PartialEq, Eq, Structural)]
pub struct DICONSTANTFORCE {
    /// Force magnitude on the driver's signed range.
    pub l_magnitude: i32,
}

/// The whole-device property record that disables the built-in
/// auto-centering spring — which would otherwise fight the relay's
/// output. Every field is pinned.
pub fn autocenter_off_property() -> (r: DIPROPDWORD)
    ensures
        r.diph.dw_size == DIPROPDWORD_SIZE,
        r.diph.dw_header_size == DIPROPHEADER_SIZE,
        r.diph.dw_obj == 0,
        r.diph.dw_how == DIPH_DEVICE,
        r.dw_data == DIPROPAUTOCENTER_OFF,
{
    DIPROPDWORD {
        diph: DIPROPHEADER {
            dw_size: DIPROPDWORD_SIZE,
            dw_header_size: DIPROPHEADER_SIZE,
            dw_obj: 0,
            dw_how: DIPH_DEVICE,
        },
        dw_data: DIPROPAUTOCENTER_OFF,
    }
}

/// The driver's nominal maximum force: magnitudes run over
/// `[-10000, 10000]` rather than the 16-bit range.
pub const DI_FORCE_NOMINAL_MAX: i32 = 10000;

/// The constant-force magnitude a rumble command maps to on the driver's
/// nominal range: the same difference-as-direction mapping as
/// [`crate::force_feedback::force_level_spec`], rescaled to 10000.
pub open spec fn di_force_magnitude_spec(large: int, small: int) -> int {
    let l = crate::units::clamp_spec(large, 0, crate::units::AXIS_SCALE as int);
    let s = crate::units::clamp_spec(small, 0, crate::units::AXIS_SCALE as int);
    crate::units::scale_signed_spec(l - s, DI_FORCE_NOMINAL_MAX as int, crate::units::AXIS_SCALE as int)
}

/// The constant-force parameter record for one rumble command, on the
/// driver's nominal range.
pub fn constant_force_record(rumble: &crate::virtual_controller::RumbleState) -> (r:
    DICONSTANTFORCE)
    ensures
        r.l_magnitude == di_force_magnitude_spec(
            rumble.large_motor as int,
            rumble.small_motor as int,
        ),
        -DI_FORCE_NOMINAL_MAX <= r.l_magnitude <= DI_FORCE_NOMINAL_MAX,
{
    let l = crate::units::clamp_i32(rumble.large_motor, 0, crate::units::AXIS_SCALE);
    let s = crate::units::clamp_i32(rumble.small_motor, 0, crate::units::AXIS_SCALE);
    DICONSTANTFORCE { l_magnitude: crate::units::scale_signed(l - s, 10000, 1_000_000) }
}

/// Full rumble on one motor alone drives the driver's magnitude to its
/// nominal extreme in that motor's direction; silence drives it to zero.
pub proof fn lemma_di_force_extremes()
    ensures
        di_force_magnitude_spec(crate::units::AXIS_SCALE as int, 0) == DI_FORCE_NOMINAL_MAX,
        di_force_magnitude_spec(0, crate::units::AXIS_SCALE as int) == -DI_FORCE_NOMINAL_MAX,
        di_force_magnitude_spec(0, 0) == 0,
{
    reveal(crate::units::scale_signed_spec);
    vstd::arithmetic::div_mod::lemma_div_multiples_vanish(
        DI_FORCE_NOMINAL_MAX as int,
        crate::units::AXIS_SCALE as int,
    );
    assert((crate::units::AXIS_SCALE as int) * (DI_FORCE_NOMINAL_MAX as int) / (
    crate::units::AXIS_SCALE as int) == DI_FORCE_NOMINAL_MAX as int);
    vstd::arithmetic::div_mod::lemma_div_multiples_vanish(0, crate::units::AXIS_SCALE as int);
    assert(0 * (DI_FORCE_NOMINAL_MAX as int) == 0);
}

/// The joystick state record the data format below lays out: six primary
/// axes, two sliders, four hats, 128 buttons, then velocity,
/// acceleration and force blocks of the same eight axes.
#[derive(Debug, Clone, Copy)]
pub struct DIJOYSTATE2 {
    pub lx: i32,
    pub ly: i32,
    pub lz: i32,
    pub lrx: i32,
    pub lry: i32,
    pub lrz: i32,
    pub rgl_slider: [i32; 2],
    pub rgdw_pov: [u32; 4],
    pub rgb_buttons: [u8; 128],
    pub lv_x: i32,
    pub lv_y: i32,
    pub lv_z: i32,
    pub lv_rx: i32,
    pub lv_ry: i32,
    pub lv_rz: i32,
    pub rgl_v_slider: [i32; 2],
    pub la_x: i32,
    pub la_y: i32,
    pub la_z: i32,
    pub la_rx: i32,
    pub la_ry: i32,
    pub la_rz: i32,
    pub rgl_a_slider: [i32; 2],
    pub lf_x: i32,
    pub lf_y: i32,
    pub lf_z: i32,
    pub lf_rx: i32,
    pub lf_ry: i32,
    pub lf_rz: i32,
    pub rgl_f_slider: [i32; 2],
}

/// Wire size of [`DIJOYSTATE2`].
pub const DIJOYSTATE2_SIZE: u32 = 272;

/// Which device-object class a data-format entry addresses. The platform
/// binding substitutes the class's interface identifier when it lays the
/// entry out.
#[derive(Debug, Clone, Copy, PartialEq, Eq, Structural)]
pub enum ObjectClass {
    AxisX,
    AxisY,
    AxisZ,
    AxisRx,
    AxisRy,
    AxisRz,
    Slider,
    Pov,
    Button,
}

/// Object type word of an optional axis entry, any instance.
pub const DIDFT_AXIS_OBJECT: u32 = 0x80ff_ff03;

/// Object type word of an optional hat entry, any instance.
pub const DIDFT_POV_OBJECT: u32 = 0x80ff_ff10;

/// Object type word of an optional button entry, any instance.
pub const DIDFT_BUTTON_OBJECT: u32 = 0x80ff_ff0c;

/// Data format flag: axes report absolute positions.
pub const DIDF_ABSAXIS: u32 = 0x0000_0001;

/// Wire size of one data-format entry.
pub const DIOBJECTDATAFORMAT_SIZE: u32 = 24;

/// Wire size of the data-format header.
pub const DIDATAFORMAT_SIZE: u32 = 32;

/// One entry of the data format: which object class lands at which byte
/// offset of [`DIJOYSTATE2`], with what type word.
#[derive(Debug, Clone, Copy, PartialEq, Eq, Structural)]
pub struct DIOBJECTDATAFORMAT {
    /// The object class of the entry.
    pub guid: ObjectClass,
    /// Byte offset in the state record.
    pub dw_ofs: u32,
    /// Object type word.
    pub dw_type: u32,
    /// Per-entry flags.
    pub dw_flags: u32,
}

/// The full data format: the header words and the object entries, owned.
pub struct DIDATAFORMAT {
    /// Wire size of the header.
    pub dw_size: u32,
    /// Wire size of one entry.
    pub dw_obj_size: u32,
    /// Format flags.
    pub dw_flags: u32,
    /// Wire size of the state record the entries index into.
    pub dw_data_size: u32,
    /// The object entries.
    pub objects: Vec<DIOBJECTDATAFORMAT>,
}

/// The axis class at position `i` of an eight-axis block: the six
/// primary axes, then the two sliders.
pub open spec fn axis_class_spec(i: int) -> ObjectClass {
    if i == 0 {
        ObjectClass::AxisX
    } else if i == 1 {
        ObjectClass::AxisY
    } else if i == 2 {
        ObjectClass::AxisZ
    } else if i == 3 {
        ObjectClass::AxisRx
    } else if i == 4 {
        ObjectClass::AxisRy
    } else if i == 5 {
        ObjectClass::AxisRz
    } else {
        ObjectClass::Slider
    }
}

/// An axis entry of an eight-axis block starting at byte `base`.
pub open spec fn axis_entry_spec(o: DIOBJECTDATAFORMAT, base: int, i: int) -> bool {
    &&& o.guid == axis_class_spec(i)
    &&& o.dw_ofs == base + 4 * i
    &&& o.dw_type == DIDFT_AXIS_OBJECT
    &&& o.dw_flags == 0
}

/// The hat entry at position `i` of the hat block.
pub open spec fn pov_entry_spec(o: DIOBJECTDATAFORMAT, i: int) -> bool {
    &&& o.guid == ObjectClass::Pov
    &&& o.dw_ofs == 32 + 4 * i
    &&& o.dw_type == DIDFT_POV_OBJECT
    &&& o.dw_flags == 0
}

/// The button entry at position `i` of the button block.
pub open spec fn button_entry_spec(o: DIOBJECTDATAFORMAT, i: int) -> bool {
    &&& o.guid == ObjectClass::Button
    &&& o.dw_ofs == 48 + i
    &&& o.dw_type == DIDFT_BUTTON_OBJECT
    &&& o.dw_flags == 0
}

/// The axis class at position `i` of an eight-axis block.
fn axis_class(i: usize) -> (r: ObjectClass)
    requires
        i < 8,
    ensures
        r == axis_class_spec(i as int),
{
    match i {
        0 => ObjectClass::AxisX,
        1 => ObjectClass::AxisY,
        2 => ObjectClass::AxisZ,
        3 => ObjectClass::AxisRx,
        4 => ObjectClass::AxisRy,
        5 => ObjectClass::AxisRz,
        _ => ObjectClass::Slider,
    }
}

/// Push one eight-axis block starting at byte `base`.
#[verifier::loop_isolation(false)]
fn push_axis_block(objects: &mut Vec<DIOBJECTDATAFORMAT>, base: u32)
    requires
        base <= 240,
    ensures
        final(objects)@.len() == old(objects)@.len() + 8,
        forall|j: int|
            0 <= j < old(objects)@.len() ==> final(objects)@[j] == old(objects)@[j],
        forall|j: int|
            0 <= j < 8 ==> axis_entry_spec(
                #[trigger] final(objects)@[old(objects)@.len() + j],
                base as int,
                j,
            ),
{
    let mut i: usize = 0;
    while i < 8
        invariant
            i <= 8,
            objects@.len() == old(objects)@.len() + i,
            forall|j: int| 0 <= j < old(objects)@.len() ==> objects@[j] == old(objects)@[j],
            forall|j: int|
                0 <= j < i ==> axis_entry_spec(
                    #[trigger] objects@[old(objects)@.len() + j],
                    base as int,
                    j,
                ),
        decreases 8 - i,
    {
        objects.push(
            DIOBJECTDATAFORMAT {
                guid: axis_class(i),
                dw_ofs: base + 4 * (i as u32),
                dw_type: DIDFT_AXIS_OBJECT,
                dw_flags: 0,
            },
        );
        i += 1;
    }
}

/// The joystick data format: 164 entries covering the whole of
/// [`DIJOYSTATE2`] — eight position axes at bytes 0..31, four hats at
/// 32..47, 128 buttons at 48..175, then velocity, acceleration and force
/// blocks of the same eight axes at 176, 208 and 240. Every entry's
/// class, offset and type word is pinned.
#[verifier::loop_isolation(false)]
pub fn joystick_data_format() -> (r: DIDATAFORMAT)
    ensures
        r.dw_size == DIDATAFORMAT_SIZE,
        r.dw_obj_size == DIOBJECTDATAFORMAT_SIZE,
        r.dw_flags == DIDF_ABSAXIS,
        r.dw_data_size == DIJOYSTATE2_SIZE,
        r.objects@.len() == 164,
        forall|j: int| 0 <= j < 8 ==> axis_entry_spec(#[trigger] r.objects@[j], 0, j),
        forall|j: int| 0 <= j < 4 ==> pov_entry_spec(#[trigger] r.objects@[8 + j], j),
        forall|j: int| 0 <= j < 128 ==> button_entry_spec(#[trigger] r.objects@[12 + j], j),
        forall|j: int| 0 <= j < 8 ==> axis_entry_spec(#[trigger] r.objects@[140 + j], 176, j),
        forall|j: int| 0 <= j < 8 ==> axis_entry_spec(#[trigger] r.objects@[148 + j], 208, j),
        forall|j: int| 0 <= j < 8 ==> axis_entry_spec(#[trigger] r.objects@[156 + j], 240, j),
{
    let mut objects: Vec<DIOBJECTDATAFORMAT> = Vec::new();
    push_axis_block(&mut objects, 0);
    proof {
        assert forall|j: int| 0 <= j < 8 implies axis_entry_spec(#[trigger] objects@[j], 0, j) by {
            assert(axis_entry_spec(objects@[0 + j], 0, j));
        }
    }
    let mut i: usize = 0;
    while i < 4
        invariant
            i <= 4,
            objects@.len() == 8 + i,
            forall|j: int| 0 <= j < 8 ==> axis_entry_spec(#[trigger] objects@[j], 0, j),
            forall|j: int| 0 <= j < i ==> pov_entry_spec(#[trigger] objects@[8 + j], j),
        decreases 4 - i,
    {
        objects.push(
            DIOBJECTDATAFORMAT {
                guid: ObjectClass::Pov,
                dw_ofs: 32 + 4 * (i as u32),
                dw_type: DIDFT_POV_OBJECT,
                dw_flags: 0,
            },
        );
        i += 1;
    }
    let mut i: usize = 0;
    while i < 128
        invariant
            i <= 128,
            objects@.len() == 12 + i,
            forall|j: int| 0 <= j < 8 ==> axis_entry_spec(#[trigger] objects@[j], 0, j),
            forall|j: int| 0 <= j < 4 ==> pov_entry_spec(#[trigger] objects@[8 + j], j),
            forall|j: int| 0 <= j < i ==> button_entry_spec(#[trigger] objects@[12 + j], j),
        decreases 128 - i,
    {
        objects.push(
            DIOBJECTDATAFORMAT {
                guid: ObjectClass::Button,
                dw_ofs: 48 + (i as u32),
                dw_type: DIDFT_BUTTON_OBJECT,
                dw_flags: 0,
            },
        );
        i += 1;
    }
    push_axis_block(&mut objects, 176);
    push_axis_block(&mut objects, 208);
    push_axis_block(&mut objects, 240);
    DIDATAFORMAT {
        dw_size: DIDATAFORMAT_SIZE,
        dw_obj_size: DIOBJECTDATAFORMAT_SIZE,
        dw_flags: DIDF_ABSAXIS,
        dw_data_size: DIJOYSTATE2_SIZE,
        objects,
    }
}

} // verus!
