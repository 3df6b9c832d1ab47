use rtc8564::bcd::{bcd_to_decimal, decimal_to_bcd};
use rtc8564::control::{BusResult, ControlLoop, Phase, POLL_INTERVAL_MS};
use rtc8564::display::{format_time, format_time_terminated};
use rtc8564::protocol::{
    init_transaction, parse_poll_response, poll_transaction, AlarmSetting, BusOp, RtcError,
    Timestamp, RTC_I2C_ADDRESS,
};

fn sample_time() -> Timestamp {
    Timestamp { second: 0, minute: 29, hour: 18, day: 19, weekday: 2, month: 7, year: 22 }
}

fn sample_alarm() -> AlarmSetting {
    AlarmSetting { minute: Some(30), hour: None, day: None, weekday: None }
}

fn sample_poll_bytes() -> Vec<u8> {
    // alarm flag, then second, minute, hour, day, weekday, month, year in BCD
    vec![0x00, 0x00, 0x29, 0x18, 0x19, 0x02, 0x07, 0x22]
}

#[test]
fn bcd_decimal_round_trip() {
    for d in 0u8..=99 {
        assert_eq!(bcd_to_decimal(decimal_to_bcd(d)), d);
    }
}

#[test]
fn bcd_byte_round_trip() {
    for high in 0u8..=9 {
        for low in 0u8..=9 {
            let b = (high << 4) | low;
            assert_eq!(decimal_to_bcd(bcd_to_decimal(b)), b);
        }
    }
}

#[test]
fn bcd_boundaries() {
    assert_eq!(decimal_to_bcd(0), 0x00);
    assert_eq!(decimal_to_bcd(59), 0x59);
    assert_eq!(bcd_to_decimal(0x59), 59);
}

#[test]
fn masking_ignores_flag_bits() {
    assert_eq!(bcd_to_decimal(0x21 & 0x1f), 1);

    // A month byte with flag bits outside 0x1f set parses like the bare month.
    let mut flagged = sample_poll_bytes();
    flagged[6] |= 0xe0;
    let plain = parse_poll_response(&sample_poll_bytes()).unwrap();
    let masked = parse_poll_response(&flagged).unwrap();
    assert_eq!(masked.month, plain.month);
    assert_eq!(masked, plain);
}

#[test]
fn formatting_exact() {
    let line = format_time(&sample_time());
    assert_eq!(line, "Time: 22/07/19 18:29:00");
    let line = format_time_terminated(&sample_time());
    assert_eq!(line, "Time: 22/07/19 18:29:00\r\n");
}

#[test]
fn init_transaction_length_and_order() {
    let ops = init_transaction(&sample_time(), &sample_alarm());
    assert_eq!(ops.len(), 17);
    let expected: Vec<BusOp> = vec![
        BusOp::Write(vec![0x00]), // select register 0
        BusOp::Write(vec![0x00]), // zero into control register 1, kept deliberately
        BusOp::Write(vec![0x02]), // control register 2: alarm-flag output on
        BusOp::Write(vec![0x00]), // second
        BusOp::Write(vec![0x29]), // minute
        BusOp::Write(vec![0x18]), // hour
        BusOp::Write(vec![0x19]), // day
        BusOp::Write(vec![0x02]), // weekday
        BusOp::Write(vec![0x07]), // month
        BusOp::Write(vec![0x22]), // year
        BusOp::Write(vec![0x30]), // alarm minute
        BusOp::Write(vec![0xc8]), // alarm hour: ignored
        BusOp::Write(vec![0xc8]), // alarm day: ignored
        BusOp::Write(vec![0xc8]), // alarm weekday: ignored
        BusOp::Write(vec![0x00]), // timer control
        BusOp::Write(vec![0x00]), // timer value
        BusOp::Write(vec![0x00]), // timer value
    ];
    assert_eq!(ops, expected);
}

#[test]
fn init_transaction_other_input() {
    let time = Timestamp { second: 59, minute: 1, hour: 23, day: 31, weekday: 6, month: 12, year: 99 };
    let alarm = AlarmSetting { minute: None, hour: Some(6), day: Some(1), weekday: None };
    let ops = init_transaction(&time, &alarm);
    assert_eq!(ops.len(), 17);
    assert_eq!(ops[3], BusOp::Write(vec![0x59]));
    assert_eq!(ops[9], BusOp::Write(vec![0x99]));
    assert_eq!(ops[10], BusOp::Write(vec![0xc8]));
    assert_eq!(ops[11], BusOp::Write(vec![0x06]));
    assert_eq!(ops[12], BusOp::Write(vec![0x01]));
    assert_eq!(ops[13], BusOp::Write(vec![0xc8]));
}

#[test]
fn poll_transaction_shape() {
    let ops = poll_transaction();
    assert_eq!(ops.len(), 9);
    assert_eq!(ops[0], BusOp::Write(vec![0x01]));
    for i in 1..9 {
        assert_eq!(ops[i], BusOp::Read(1));
    }
}

#[test]
fn parse_valid_response() {
    let time = parse_poll_response(&sample_poll_bytes()).unwrap();
    assert_eq!(time, sample_time());
}

#[test]
fn parse_masks_status_bits() {
    // Status bits riding on seconds (bit 7) and hours (bits 6..7) are stripped.
    let bytes = vec![0xaa, 0x80, 0x29, 0x58, 0x19, 0x02, 0x07, 0x22];
    let time = parse_poll_response(&bytes).unwrap();
    assert_eq!(time.second, 0);
    assert_eq!(time.hour, 18);
}

#[test]
fn parse_wrong_length() {
    assert_eq!(parse_poll_response(&[]), Err(RtcError::ResponseLength));
    assert_eq!(
        parse_poll_response(&[0x00, 0x00, 0x29, 0x18, 0x19, 0x02, 0x07]),
        Err(RtcError::ResponseLength)
    );
    assert_eq!(
        parse_poll_response(&[0x00, 0x00, 0x29, 0x18, 0x19, 0x02, 0x07, 0x22, 0x00]),
        Err(RtcError::ResponseLength)
    );
}

#[test]
fn parse_field_out_of_range() {
    // 0x79 seconds decode to 79, outside 0..=59.
    let mut bytes = sample_poll_bytes();
    bytes[1] = 0x79;
    assert_eq!(parse_poll_response(&bytes), Err(RtcError::FieldOutOfRange));

    // Month 0 is outside 1..=12.
    let mut bytes = sample_poll_bytes();
    bytes[6] = 0x00;
    assert_eq!(parse_poll_response(&bytes), Err(RtcError::FieldOutOfRange));
}

#[test]
fn control_loop_happy_path() {
    let mut cl = ControlLoop::new(sample_time(), sample_alarm());
    assert_eq!(cl.phase, Phase::Initializing);

    let (addr, ops) = cl.next_transaction().unwrap();
    assert_eq!(addr, RTC_I2C_ADDRESS);
    assert_eq!(ops.len(), 17);

    let report = cl.on_bus_result(BusResult::Done(Vec::new()));
    assert_eq!(report, None);
    assert_eq!(cl.phase, Phase::Polling);

    let (addr, ops) = cl.next_transaction().unwrap();
    assert_eq!(addr, RTC_I2C_ADDRESS);
    assert_eq!(ops.len(), 9);

    let report = cl.on_bus_result(BusResult::Done(sample_poll_bytes()));
    assert_eq!(report, Some(String::from("Time: 22/07/19 18:29:00\r\n")));
    assert_eq!(cl.phase, Phase::Polling);
}

#[test]
fn transport_failure_during_init_halts() {
    let mut cl = ControlLoop::new(sample_time(), sample_alarm());
    let report = cl.on_bus_result(BusResult::Failed);
    assert_eq!(report, None);
    assert_eq!(cl.phase, Phase::Halted);
    assert!(cl.next_transaction().is_none());
}

#[test]
fn transport_failure_during_polling_halts() {
    let mut cl = ControlLoop::new(sample_time(), sample_alarm());
    cl.on_bus_result(BusResult::Done(Vec::new()));
    assert_eq!(cl.phase, Phase::Polling);
    let report = cl.on_bus_result(BusResult::Failed);
    assert_eq!(report, None);
    assert_eq!(cl.phase, Phase::Halted);
    assert!(cl.next_transaction().is_none());
    // A halted loop stays halted, whatever comes in.
    cl.on_bus_result(BusResult::Done(sample_poll_bytes()));
    assert_eq!(cl.phase, Phase::Halted);
    assert!(cl.next_transaction().is_none());
}

#[test]
fn malformed_poll_skips_report() {
    let mut cl = ControlLoop::new(sample_time(), sample_alarm());
    cl.on_bus_result(BusResult::Done(Vec::new()));
    let mut bytes = sample_poll_bytes();
    bytes[1] = 0x79;
    let report = cl.on_bus_result(BusResult::Done(bytes));
    assert_eq!(report, None);
    assert_eq!(cl.phase, Phase::Polling);
    assert!(cl.next_transaction().is_some());
}

#[test]
fn validity_checks() {
    assert!(sample_time().is_valid());
    assert!(sample_alarm().is_valid());
    let bad = Timestamp { month: 0, ..sample_time() };
    assert!(!bad.is_valid());
    let bad = Timestamp { day: 32, ..sample_time() };
    assert!(!bad.is_valid());
    let bad = AlarmSetting { minute: Some(60), ..sample_alarm() };
    assert!(!bad.is_valid());
    assert_eq!(POLL_INTERVAL_MS, 5000);
}
