use jk_bms::layout::{
    ALARM_OFFSET, AVERAGE_VOLTAGE_OFFSET, BALANCING_CURRENT_OFFSET, CELL_COUNT,
    CELL_RESISTANCE_OFFSET, CELL_VOLTAGE_OFFSET, CURRENT_OFFSET, DELTA_VOLTAGE_OFFSET, FRAME_LEN,
    MOS_TEMPERATURE_OFFSET, T1_OFFSET, T2_OFFSET, TOTAL_VOLTAGE_OFFSET,
};
use jk_bms::packet::{Cell, CellsInfo, DecodeError};

fn put_u16(b: &mut Vec<u8>, at: usize, v: u16) {
    b[at] = (v & 0xff) as u8;
    b[at + 1] = (v >> 8) as u8;
}

fn put_u32(b: &mut Vec<u8>, at: usize, v: u32) {
    put_u16(b, at, (v & 0xffff) as u16);
    put_u16(b, at + 2, (v >> 16) as u16);
}

fn frame_with_voltages(volts: &[u16]) -> Vec<u8> {
    let mut b = vec![0u8; FRAME_LEN];
    b[0] = 0x55;
    b[1] = 0xAA;
    b[2] = 0xEB;
    b[3] = 0x90;
    for (k, v) in volts.iter().enumerate() {
        put_u16(&mut b, CELL_VOLTAGE_OFFSET + 2 * k, *v);
    }
    b
}

#[test]
fn decode_rejects_wrong_lengths() {
    for len in [0usize, 1, 172, 299, 301, 600] {
        let r = CellsInfo::new(vec![0u8; len]);
        assert_eq!(r.err(), Some(DecodeError::FrameLengthError { actual: len }));
    }
}

#[test]
fn decode_zero_frame_has_all_cells() {
    let info = CellsInfo::new(vec![0u8; FRAME_LEN]).unwrap();
    assert_eq!(info.cells.len(), CELL_COUNT);
    assert_eq!(info.cells.len(), 24);
    assert_eq!(info.max_cell_voltage, 0);
    assert_eq!(info.min_cell_voltage, None);
    assert_eq!(info.power, 0);
    assert_eq!(info.system_alarm.message, "No alarm");
}

#[test]
fn decode_all_ff_frame_has_all_cells() {
    let info = CellsInfo::new(vec![0xffu8; FRAME_LEN]).unwrap();
    assert_eq!(info.cells.len(), 24);
    assert_eq!(info.total_voltage, u32::MAX);
    assert_eq!(info.current, u32::MAX);
    assert_eq!(info.power, u32::MAX as u64 * u32::MAX as u64);
    assert_eq!(info.balancing_current, -1);
    assert_eq!(info.system_alarm.message, "Unknown alarm code");
}

#[test]
fn min_skips_zero_cells_and_max_does_not() {
    let mut volts = vec![0u16, 3300, 3295];
    for _ in 3..24 {
        volts.push(3297);
    }
    let info = CellsInfo::new(frame_with_voltages(&volts)).unwrap();
    assert_eq!(info.min_cell_voltage, Some(3295));
    assert_eq!(info.max_cell_voltage, 3300);
    assert_eq!(info.cells[0].voltage, 0);
    assert_eq!(info.cells[1].voltage, 3300);
    assert_eq!(info.cells[2].voltage, 3295);
    assert_eq!(info.cells[23].voltage, 3297);
}

#[test]
fn decode_reads_every_field() {
    let mut b = frame_with_voltages(&[3301, 3302]);
    for k in 0..24 {
        put_u16(&mut b, CELL_RESISTANCE_OFFSET + 2 * k, 50 + k as u16);
    }
    put_u16(&mut b, AVERAGE_VOLTAGE_OFFSET, 3299);
    put_u16(&mut b, DELTA_VOLTAGE_OFFSET, 12);
    put_u32(&mut b, TOTAL_VOLTAGE_OFFSET, 52_800);
    put_u32(&mut b, CURRENT_OFFSET, 10_500);
    put_u16(&mut b, T1_OFFSET, 251);
    put_u16(&mut b, T2_OFFSET, 248);
    put_u16(&mut b, MOS_TEMPERATURE_OFFSET, 305);
    put_u16(&mut b, ALARM_OFFSET, 5120);
    put_u16(&mut b, BALANCING_CURRENT_OFFSET, (-250i16) as u16);
    let info = CellsInfo::new(b).unwrap();
    assert_eq!(info.cells[0], Cell { voltage: 3301, resistance: 50 });
    assert_eq!(info.cells[1], Cell { voltage: 3302, resistance: 51 });
    assert_eq!(info.cells[23], Cell { voltage: 0, resistance: 73 });
    assert_eq!(info.max_cell_voltage, 3302);
    assert_eq!(info.min_cell_voltage, Some(3301));
    assert_eq!(info.average_cell_voltage, 3299);
    assert_eq!(info.delta_cell_voltage, 12);
    assert_eq!(info.total_voltage, 52_800);
    assert_eq!(info.current, 10_500);
    assert_eq!(info.power, 554_400_000);
    assert_eq!(info.power, info.total_voltage as u64 * info.current as u64);
    assert_eq!(info.t1, 251);
    assert_eq!(info.t2, 248);
    assert_eq!(info.mos_t, 305);
    assert_eq!(info.balancing_current, -250);
    assert_eq!(info.system_alarm.alarm_code, 5120);
    assert_eq!(info.system_alarm.message, "Cell Over Voltage+");
}

#[test]
fn cell_reads_its_fields() {
    let mut c = Cell::new().unwrap();
    assert_eq!(c, Cell { voltage: 0, resistance: 0 });
    let b: Vec<u8> = vec![0xe4, 0x0c, 0x2d, 0x00];
    c.read_voltage(&b, 0);
    c.read_resistance(&b, 2);
    assert_eq!(c, Cell { voltage: 3300, resistance: 45 });
}

#[test]
fn default_record_is_empty() {
    let d = CellsInfo::default();
    assert!(d.cells.is_empty());
    assert_eq!(d.min_cell_voltage, None);
    assert_eq!(d.power, 0);
    assert_eq!(d.system_alarm.alarm_code, 0);
    assert_eq!(d.system_alarm.message, "No alarm");
}
