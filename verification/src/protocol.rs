//! Register protocol for the RTC peripheral.
//!
//! The peripheral sits at a fixed 7-bit bus address and exposes an
//! auto-incrementing register file: registers 0 and 1 are control registers,
//! registers 2..=8 hold the alarm-flag byte and the seven time fields
//! (second..year) in packed BCD, registers 9..=12 hold the alarm
//! minute/hour/day/weekday with bit 7 as "ignore this field", and registers
//! 13..=15 control the countdown timer (zero disables it).
//!
//! This module builds the two bus transactions the driver uses — the one-shot
//! initialization burst and the periodic poll — and interprets the bytes a
//! poll brings back.

use vstd::prelude::*;

use crate::bcd::{bcd_of, bcd_to_decimal, decimal_of, decimal_to_bcd};

verus! {

/// Fixed 7-bit bus address of the RTC peripheral.
pub const RTC_I2C_ADDRESS: u8 = 0x51;

/// Control register 2 value that enables the alarm-flag output pin.
pub const CONTROL2_ALARM_FLAG_OUTPUT: u8 = 0x02;

/// Mask stripping the chip's status bits from the seconds register.
pub const SECOND_MASK: u8 = 0x7f;

/// Mask stripping the chip's status bits from the minutes register.
pub const MINUTE_MASK: u8 = 0x7f;

/// Mask stripping the chip's status bits from the hours register.
pub const HOUR_MASK: u8 = 0x3f;

/// Mask stripping the chip's status bits from the day register.
pub const DAY_MASK: u8 = 0x3f;

/// Mask stripping the chip's status bits from the month register.
pub const MONTH_MASK: u8 = 0x1f;

/// One operation of a bus transaction: write the given bytes to the
/// peripheral, or read the given number of bytes from it.  The register
/// pointer auto-increments across the whole transaction.
#[derive(Debug, PartialEq, Eq)]
pub enum BusOp {
    Write(Vec<u8>),
    Read(usize),
}

/// Mathematical form of a bus operation.
#[verifier::ext_equal]
pub enum BusOpModel {
    Write(Seq<u8>),
    Read(nat),
}

impl View for BusOp {
    type V = BusOpModel;

    open spec fn view(&self) -> BusOpModel {
        match self {
            BusOp::Write(bytes) => BusOpModel::Write(bytes@),
            BusOp::Read(n) => BusOpModel::Read(*n as nat),
        }
    }
}

/// A one-byte write, as a bus-operation model.
pub open spec fn write1(b: u8) -> BusOpModel {
    BusOpModel::Write(seq![b])
}

/// The models of an executable operation sequence, element by element.
pub open spec fn trans_view(ops: Seq<BusOp>) -> Seq<BusOpModel> {
    ops.map_values(|op: BusOp| op@)
}

/// One calendar/clock value: all seven fields, decoded to plain decimal.
#[derive(Debug, Clone, Copy, PartialEq, Eq)]
pub struct Timestamp {
    pub second: u8,
    pub minute: u8,
    pub hour: u8,
    pub day: u8,
    pub weekday: u8,
    pub month: u8,
    pub year: u8,
}

impl Timestamp {
    /// Every field lies in its calendar range.
    pub open spec fn valid(self) -> bool {
        &&& self.second <= 59
        &&& self.minute <= 59
        &&& self.hour <= 23
        &&& 1 <= self.day <= 31
        &&& self.weekday <= 6
        &&& 1 <= self.month <= 12
        &&& self.year <= 99
    }

    /// Runtime check of `valid`.
    pub fn is_valid(&self) -> (r: bool)
        ensures
            r == self.valid(),
    {
        self.second <= 59 && self.minute <= 59 && self.hour <= 23 && 1 <= self.day
            && self.day <= 31 && self.weekday <= 6 && 1 <= self.month && self.month <= 12
            && self.year <= 99
    }
}

/// The alarm configuration: a field set to `None` carries the chip's
/// "ignore" flag on the wire, so it never participates in the match.
#[derive(Debug, Clone, Copy, PartialEq, Eq)]
pub struct AlarmSetting {
    pub minute: Option<u8>,
    pub hour: Option<u8>,
    pub day: Option<u8>,
    pub weekday: Option<u8>,
}

impl AlarmSetting {
    /// Every present field lies in its calendar range.
    pub open spec fn valid(self) -> bool {
        &&& (self.minute matches Some(m) ==> m <= 59)
        &&& (self.hour matches Some(h) ==> h <= 23)
        &&& (self.day matches Some(d) ==> 1 <= d <= 31)
        &&& (self.weekday matches Some(w) ==> w <= 6)
    }

    /// Runtime check of `valid`.
    pub fn is_valid(&self) -> (r: bool)
        ensures
            r == self.valid(),
    {
        (match self.minute {
            Some(m) => m <= 59,
            None => true,
        }) && (match self.hour {
            Some(h) => h <= 23,
            None => true,
        }) && (match self.day {
            Some(d) => 1 <= d && d <= 31,
            None => true,
        }) && (match self.weekday {
            Some(w) => w <= 6,
            None => true,
        })
    }
}

/// The wire byte of one alarm register: the BCD encoding of the field value,
/// or — for an ignored field — the BCD encoding of `0x80`, whose high bit
/// tells the chip not to match on this register.
pub open spec fn alarm_code(field: Option<u8>) -> int {
    match field {
        Some(v) => bcd_of(v as int),
        None => bcd_of(0x80),
    }
}

/// Why a poll response could not be turned into a timestamp.
#[derive(Debug, Clone, Copy, PartialEq, Eq, Structural)]
pub enum RtcError {
    /// The response did not hold exactly the alarm-flag byte plus seven
    /// time-field bytes.
    ResponseLength,
    /// A decoded field fell outside its calendar range: the read was
    /// corrupted.
    FieldOutOfRange,
}

/// The initialization burst, op by op: select register 0, write zero into
/// control register 1 (a redundant-looking write that is part of the observed
/// protocol and kept deliberately), write `CONTROL2_ALARM_FLAG_OUTPUT` into
/// control register 2, the seven time fields in the chip's register order,
/// the four alarm registers, and three zero bytes that disable the countdown
/// timer.
pub open spec fn spec_init_ops(time: Timestamp, alarm: AlarmSetting) -> Seq<BusOpModel> {
    seq![
        write1(0u8),
        write1(0u8),
        write1(CONTROL2_ALARM_FLAG_OUTPUT),
        write1(bcd_of(time.second as int) as u8),
        write1(bcd_of(time.minute as int) as u8),
        write1(bcd_of(time.hour as int) as u8),
        write1(bcd_of(time.day as int) as u8),
        write1(bcd_of(time.weekday as int) as u8),
        write1(bcd_of(time.month as int) as u8),
        write1(bcd_of(time.year as int) as u8),
        write1(alarm_code(alarm.minute) as u8),
        write1(alarm_code(alarm.hour) as u8),
        write1(alarm_code(alarm.day) as u8),
        write1(alarm_code(alarm.weekday) as u8),
        write1(0u8),
        write1(0u8),
        write1(0u8),
    ]
}

/// The poll transaction, op by op: select register 1, read the alarm-flag
/// byte, then read the seven time fields one byte each.
pub open spec fn spec_poll_ops() -> Seq<BusOpModel> {
    seq![
        write1(1u8),
        BusOpModel::Read(1),
        BusOpModel::Read(1),
        BusOpModel::Read(1),
        BusOpModel::Read(1),
        BusOpModel::Read(1),
        BusOpModel::Read(1),
        BusOpModel::Read(1),
        BusOpModel::Read(1),
    ]
}

/// The timestamp denoted by a poll response: byte 0 is the alarm flag (read
/// only to keep the register pointer moving, never interpreted), bytes 1..=7
/// are the time fields, each masked of its status bits and BCD-decoded.
pub open spec fn decoded_time(bytes: Seq<u8>) -> Timestamp
    recommends
        bytes.len() == 8,
{
    Timestamp {
        second: decimal_of((bytes[1] & SECOND_MASK) as int) as u8,
        minute: decimal_of((bytes[2] & MINUTE_MASK) as int) as u8,
        hour: decimal_of((bytes[3] & HOUR_MASK) as int) as u8,
        day: decimal_of((bytes[4] & DAY_MASK) as int) as u8,
        weekday: decimal_of(bytes[5] as int) as u8,
        month: decimal_of((bytes[6] & MONTH_MASK) as int) as u8,
        year: decimal_of(bytes[7] as int) as u8,
    }
}

/// Builds a bus operation that writes the single byte `b`.
fn write1_op(b: u8) -> (op: BusOp)
    ensures
        op@ == write1(b),
{
    let mut bytes: Vec<u8> = Vec::new();
    bytes.push(b);
    proof {
        assert(bytes@ =~= seq![b]);
    }
    BusOp::Write(bytes)
}

/// Builds the wire byte of one alarm register (see `alarm_code`).
fn alarm_field_byte(field: Option<u8>) -> (b: u8)
    requires
        field matches Some(v) ==> v <= 99,
    ensures
        b == alarm_code(field),
{
    match field {
        Some(v) => decimal_to_bcd(v),
        None => {
            proof {
                assert(bcd_of(0x80) == 0xc8);
            }
            0xc8
        },
    }
}

/// Builds the one-shot initialization transaction: exactly the seventeen
/// writes of `spec_init_ops`, in that order, to be executed as a single
/// atomic transaction against `RTC_I2C_ADDRESS`.
pub fn init_transaction(time: &Timestamp, alarm: &AlarmSetting) -> (ops: Vec<BusOp>)
    requires
        time.valid(),
        alarm.valid(),
    ensures
        ops@.len() == 17,
        trans_view(ops@) == spec_init_ops(*time, *alarm),
{
    let mut ops: Vec<BusOp> = Vec::new();
    ops.push(write1_op(0));
    ops.push(write1_op(0));
    ops.push(write1_op(CONTROL2_ALARM_FLAG_OUTPUT));
    ops.push(write1_op(decimal_to_bcd(time.second)));
    ops.push(write1_op(decimal_to_bcd(time.minute)));
    ops.push(write1_op(decimal_to_bcd(time.hour)));
    ops.push(write1_op(decimal_to_bcd(time.day)));
    ops.push(write1_op(decimal_to_bcd(time.weekday)));
    ops.push(write1_op(decimal_to_bcd(time.month)));
    ops.push(write1_op(decimal_to_bcd(time.year)));
    ops.push(write1_op(alarm_field_byte(alarm.minute)));
    ops.push(write1_op(alarm_field_byte(alarm.hour)));
    ops.push(write1_op(alarm_field_byte(alarm.day)));
    ops.push(write1_op(alarm_field_byte(alarm.weekday)));
    ops.push(write1_op(0));
    ops.push(write1_op(0));
    ops.push(write1_op(0));
    proof {
        assert(trans_view(ops@) =~= spec_init_ops(*time, *alarm));
    }
    ops
}

/// Builds the periodic poll transaction: exactly the one address-select
/// write and eight one-byte reads of `spec_poll_ops`, in that order.
pub fn poll_transaction() -> (ops: Vec<BusOp>)
    ensures
        ops@.len() == 9,
        trans_view(ops@) == spec_poll_ops(),
{
    let mut ops: Vec<BusOp> = Vec::new();
    ops.push(write1_op(1));
    let mut i: usize = 0;
    while i < 8
        invariant
            i <= 8,
            ops@.len() == 1 + i,
            ops@[0]@ == write1(1u8),
            forall|j: int| 1 <= j < ops@.len() ==> ops@[j]@ == BusOpModel::Read(1),
        decreases 8 - i,
    {
        ops.push(BusOp::Read(1));
        i = i + 1;
    }
    proof {
        assert(trans_view(ops@) =~= spec_poll_ops());
    }
    ops
}

/// Interprets a poll response.  The response must hold exactly eight bytes —
/// the alarm-flag byte then the seven time fields — and every decoded field
/// must lie in its calendar range; a response that fails either check is
/// rejected rather than displayed as nonsense.
pub fn parse_poll_response(bytes: &[u8]) -> (r: Result<Timestamp, RtcError>)
    ensures
        r is Ok <==> bytes@.len() == 8 && decoded_time(bytes@).valid(),
        r is Ok ==> r->Ok_0 == decoded_time(bytes@) && r->Ok_0.valid(),
        r == Err::<Timestamp, RtcError>(RtcError::ResponseLength) <==> bytes@.len() != 8,
        r == Err::<Timestamp, RtcError>(RtcError::FieldOutOfRange) <==> bytes@.len() == 8
            && !decoded_time(bytes@).valid(),
{
    if bytes.len() != 8 {
        return Err(RtcError::ResponseLength);
    }
    let time = Timestamp {
        second: bcd_to_decimal(bytes[1] & SECOND_MASK),
        minute: bcd_to_decimal(bytes[2] & MINUTE_MASK),
        hour: bcd_to_decimal(bytes[3] & HOUR_MASK),
        day: bcd_to_decimal(bytes[4] & DAY_MASK),
        weekday: bcd_to_decimal(bytes[5]),
        month: bcd_to_decimal(bytes[6] & MONTH_MASK),
        year: bcd_to_decimal(bytes[7]),
    };
    if time.is_valid() {
        Ok(time)
    } else {
        Err(RtcError::FieldOutOfRange)
    }
}

/// Masking ignores flag bits: two bytes that differ only in bits outside a
/// field's mask decode to the same value once masked.
pub proof fn lemma_flag_bits_ignored(b: u8, flags: u8, mask: u8)
    requires
        flags & mask == 0,
    ensures
        (b | flags) & mask == b & mask,
        decimal_of(((b | flags) & mask) as int) == decimal_of((b & mask) as int),
{
    assert(flags & mask == 0 ==> (b | flags) & mask == b & mask) by (bit_vector);
}

} // verus!
