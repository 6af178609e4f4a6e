//! The Linux raw-joystick backend's data: events, error taxonomy, the
//! 8-byte record decoder, device metadata, and the calibration table.
//!
//! The kernel's joystick interface hands out fixed 8-byte records: a 4-byte
//! timestamp, a signed 16-bit value, one flag byte and one index byte, all
//! little-endian. Records flagged as synthetic initial state are discarded.
//! A button record reports pressed or released by its value; an axis record
//! reports the raw 8-bit position left-shifted into the high byte of the
//! 16-bit value, the convention [`crate::mapping::convert_scratch`] undoes.

use vstd::prelude::*;

verus! {

/// One decoded device event.
#[derive(Clone, Debug)]
pub enum Event {
    /// The button with this backend code went down.
    ButtonPressed(u8),
    /// The button with this backend code came up.
    ButtonReleased(u8),
    /// The axis with this index moved; the raw position sits in the high
    /// byte of the signed 16-bit value.
    AxisChanged(u8, i16),
    /// The device vanished; the read loop ends.
    Disconnected,
    /// Any other read failure; the read loop ends.
    Error(String),
}

/// Why opening the device failed, from the open syscall's error code.
#[derive(Clone, Debug)]
pub enum OpenError {
    /// No file exists at the given path.
    DeviceFileNotFound(String),
    /// The file exists but may not be opened.
    PermissionDenied(String),
    /// The path is not valid for opening.
    InvalidPath(String),
    /// Any other error code, carried through.
    Unknown(i32),
}

/// The error code for a missing file.
pub const ENOENT: i32 = 2;

/// The error code for a forbidden operation.
pub const EPERM: i32 = 1;

/// The error code for denied access to a file.
pub const EACCES: i32 = 13;

/// The error code for an invalid argument.
pub const EINVAL: i32 = 22;

/// The error code for a vanished device.
pub const ENODEV: i32 = 19;

/// The open-error taxonomy: a missing file, a forbidden open and an invalid
/// path each get their own variant carrying the path; every other code is
/// folded into [`OpenError::Unknown`].
pub open spec fn open_error_spec(errno: i32, path: String) -> OpenError {
    if errno == ENOENT {
        OpenError::DeviceFileNotFound(path)
    } else if errno == EPERM || errno == EACCES {
        OpenError::PermissionDenied(path)
    } else if errno == EINVAL {
        OpenError::InvalidPath(path)
    } else {
        OpenError::Unknown(errno)
    }
}

/// Classify the error code of a failed open of the device path.
pub fn classify_open_error(errno: i32, path: String) -> (r: OpenError)
    ensures
        r == open_error_spec(errno, path),
{
    if errno == ENOENT {
        OpenError::DeviceFileNotFound(path)
    } else if errno == EPERM || errno == EACCES {
        OpenError::PermissionDenied(path)
    } else if errno == EINVAL {
        OpenError::InvalidPath(path)
    } else {
        OpenError::Unknown(errno)
    }
}

/// The event for a failed read of the device: a vanished device is a
/// disconnect, every other code an error carrying the caller's message.
pub open spec fn read_fault_spec(errno: i32, message: String) -> Event {
    if errno == ENODEV {
        Event::Disconnected
    } else {
        Event::Error(message)
    }
}

/// Classify the error code of a failed read of the device.
pub fn classify_read_fault(errno: i32, message: String) -> (r: Event)
    ensures
        r == read_fault_spec(errno, message),
{
    if errno == ENODEV {
        Event::Disconnected
    } else {
        Event::Error(message)
    }
}

/// The flag bit marking a synthetic initial-state record.
pub const FLAG_INIT: u8 = 0x80;

/// The flag value of a button record.
pub const FLAG_BUTTON: u8 = 0x01;

/// The flag value of an axis record.
pub const FLAG_AXIS: u8 = 0x02;

/// An 8-byte record the decoder accepts: either the synthetic-initial bit is
/// set, or the flag byte is exactly a button or an axis record. The kernel
/// interface produces no other flag value; one would be a contract
/// violation, on which the caller stops as on unreachable input.
pub open spec fn raw_record_valid(b: Seq<u8>) -> bool {
    b.len() == 8 && (b[6] & FLAG_INIT != 0 || b[6] == FLAG_BUTTON || b[6] == FLAG_AXIS)
}

/// The signed 16-bit axis value whose high byte is `raw` and low byte zero:
/// the raw 8-bit position left-shifted by 8, read back as two's complement.
pub open spec fn axis_value_spec(raw: u8) -> i16 {
    if raw >= 128 {
        ((raw as int) * 256 - 0x10000) as i16
    } else {
        ((raw as int) * 256) as i16
    }
}

/// What an 8-byte record decodes to. A record with the synthetic-initial
/// bit set is dropped. A button record reports released on value zero and
/// pressed otherwise, carrying the index byte. An axis record carries the
/// index byte and the record's low value byte shifted into the high byte of
/// the event value.
pub open spec fn decode_event_spec(b: Seq<u8>) -> Option<Event> {
    if b[6] & FLAG_INIT != 0 {
        None
    } else if b[6] == FLAG_BUTTON {
        if b[4] == 0 && b[5] == 0 {
            Some(Event::ButtonReleased(b[7]))
        } else {
            Some(Event::ButtonPressed(b[7]))
        }
    } else {
        Some(Event::AxisChanged(b[7], axis_value_spec(b[4])))
    }
}

/// Decode one 8-byte joystick record, field by field: bytes 0..=3 are the
/// timestamp (unused), bytes 4..=5 the little-endian signed value, byte 6
/// the flags and byte 7 the index.
pub fn decode_raw_event(buf: &[u8; 8]) -> (r: Option<Event>)
    requires
        raw_record_valid(buf@),
    ensures
        r == decode_event_spec(buf@),
{
    let flags: u8 = buf[6];
    if flags & FLAG_INIT != 0 {
        return None;
    }
    if flags == FLAG_BUTTON {
        if buf[4] == 0 && buf[5] == 0 {
            Some(Event::ButtonReleased(buf[7]))
        } else {
            Some(Event::ButtonPressed(buf[7]))
        }
    } else {
        let raw: u8 = buf[4];
        let wide: i32 = (raw as i32) * 256;
        let value: i16 = if raw >= 128 {
            (wide - 0x10000) as i16
        } else {
            wide as i16
        };
        Some(Event::AxisChanged(buf[7], value))
    }
}

/// The device metadata read at startup: axis count, button count and the
/// device's name.
#[derive(Clone, Debug)]
pub struct DeviceInfo {
    /// How many axes the device reports.
    pub axes: u8,
    /// How many buttons the device reports.
    pub buttons: u8,
    /// The device's name, the kernel's buffer cut at its first NUL byte.
    pub name: String,
}

/// The index of the first NUL byte of a buffer, or its length when none
/// occurs: where the kernel's name string ends.
pub open spec fn first_nul(b: Seq<u8>) -> int
    decreases b.len(),
{
    if b.len() == 0 {
        0
    } else if b[0] == 0 {
        0
    } else {
        1 + first_nul(b.drop_first())
    }
}

/// `first_nul` is the least index holding a NUL byte, or the length when no
/// byte is NUL.
proof fn lemma_first_nul_at(b: Seq<u8>, n: int)
    requires
        0 <= n <= b.len(),
        forall|j: int| 0 <= j < n ==> b[j] != 0,
        n < b.len() ==> b[n] == 0,
    ensures
        first_nul(b) == n,
    decreases n,
{
    if n == 0 {
    } else {
        assert(b[0] != 0);
        lemma_first_nul_at(b.drop_first(), n - 1);
    }
}

/// Copy the bytes of the kernel's name buffer up to, and not including, its
/// first NUL byte.
fn nul_terminated_prefix(b: &[u8]) -> (r: Vec<u8>)
    ensures
        r@ == b@.take(first_nul(b@)),
{
    let mut end: usize = 0;
    while end < b.len() && b[end] != 0
        invariant
            0 <= end <= b@.len(),
            forall|j: int| 0 <= j < end ==> b@[j] != 0,
        decreases b@.len() - end,
    {
        end = end + 1;
    }
    proof {
        lemma_first_nul_at(b@, end as int);
    }
    let mut r: Vec<u8> = Vec::new();
    let mut i: usize = 0;
    while i < end
        invariant
            0 <= i <= end <= b@.len(),
            r@ == b@.take(i as int),
        decreases end - i,
    {
        r.push(b[i]);
        proof {
            assert(r@ =~= b@.take(i + 1));
        }
        i = i + 1;
    }
    proof {
        assert(r@ =~= b@.take(first_nul(b@)));
    }
    r
}

/// Relies on String::from_utf8: it succeeds exactly when the bytes are
/// valid UTF-8, and then the string holds those bytes decoded.
#[verifier::external_body]
fn string_from_utf8(bytes: Vec<u8>) -> (r: Option<String>)
    ensures
        r is Some <==> vstd::utf8::valid_utf8(bytes@),
        r matches Some(s) ==> s@ == vstd::utf8::decode_utf8(bytes@),
{
    String::from_utf8(bytes).ok()
}

/// Assemble the device metadata from the three control queries' results:
/// the name buffer is cut at its first NUL byte and decoded as UTF-8, and a
/// buffer whose cut prefix is not valid UTF-8 yields no metadata (a fatal
/// setup error for the caller).
pub fn parse_device_info(axes: u8, buttons: u8, raw_name: &[u8]) -> (r: Option<DeviceInfo>)
    ensures
        r is Some <==> vstd::utf8::valid_utf8(raw_name@.take(first_nul(raw_name@))),
        r matches Some(info) ==> info.axes == axes && info.buttons == buttons && info.name@
            == vstd::utf8::decode_utf8(raw_name@.take(first_nul(raw_name@))),
{
    let prefix = nul_terminated_prefix(raw_name);
    match string_from_utf8(prefix) {
        Some(name) => Some(DeviceInfo { axes, buttons, name }),
        None => None,
    }
}

/// How the kernel corrects an axis's raw value.
#[derive(Clone, Copy, Debug, PartialEq, Eq, Structural)]
pub enum CorrectionType {
    /// No correction: the raw value passes through.
    Disabled,
    /// The kernel's broken-line correction.
    Broken,
}

impl Default for CorrectionType {
    /// The default correction mode is no correction.
    fn default() -> (r: Self)
        ensures
            r == CorrectionType::Disabled,
    {
        CorrectionType::Disabled
    }
}

/// One axis's entry of the kernel's calibration table.
#[derive(Clone, Copy, Debug)]
pub struct JsCorrection {
    /// The correction curve's coefficients.
    pub coefficients: [i32; 8],
    /// The correction's precision field.
    pub precision: i16,
    /// The correction mode applied to the axis.
    pub typ: CorrectionType,
}

/// Rewrite every entry of the calibration table to apply no correction,
/// keeping its coefficients and precision: the device then reports raw,
/// uncorrected axis values.
pub fn disable_corrections(table: Vec<JsCorrection>) -> (r: Vec<JsCorrection>)
    ensures
        r@.len() == table@.len(),
        forall|i: int|
            0 <= i < table@.len() ==> (#[trigger] r@[i]).coefficients == table@[i].coefficients
                && r@[i].precision == table@[i].precision && r@[i].typ
                == CorrectionType::Disabled,
{
    let mut r: Vec<JsCorrection> = Vec::new();
    let mut i: usize = 0;
    while i < table.len()
        invariant
            0 <= i <= table@.len(),
            r@.len() == i,
            forall|j: int|
                0 <= j < i ==> (#[trigger] r@[j]).coefficients == table@[j].coefficients
                    && r@[j].precision == table@[j].precision && r@[j].typ
                    == CorrectionType::Disabled,
        decreases table@.len() - i,
    {
        let entry = table[i];
        r.push(JsCorrection { typ: CorrectionType::Disabled, ..entry });
        i = i + 1;
    }
    r
}

} // verus!
