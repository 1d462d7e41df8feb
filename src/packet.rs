use vstd::prelude::*;

use crate::alarm::{alarm_label, SystemAlarm};
use crate::bytes::{le_i16, le_u16, le_u32, read_i16, read_u16, read_u32};
use crate::layout::{
    ALARM_OFFSET, AVERAGE_VOLTAGE_OFFSET, BALANCING_CURRENT_OFFSET, CELL_COUNT,
    CELL_RESISTANCE_OFFSET, CELL_VOLTAGE_OFFSET, CURRENT_OFFSET, DELTA_VOLTAGE_OFFSET, FRAME_LEN,
    MOS_TEMPERATURE_OFFSET, T1_OFFSET, T2_OFFSET, TOTAL_VOLTAGE_OFFSET,
};

verus! {

/// Voltage of cell `k` in a frame, in millivolts.
pub open spec fn cell_voltage(b: Seq<u8>, k: int) -> int {
    le_u16(b, CELL_VOLTAGE_OFFSET + 2 * k)
}

/// Internal resistance of cell `k` in a frame, in milliohms.
pub open spec fn cell_resistance(b: Seq<u8>, k: int) -> int {
    le_u16(b, CELL_RESISTANCE_OFFSET + 2 * k)
}

/// Highest voltage among the first `n` cells (0 when there are none).
pub open spec fn max_voltage(b: Seq<u8>, n: nat) -> int
    decreases n,
{
    if n == 0 {
        0
    } else {
        let v = cell_voltage(b, n - 1);
        let m = max_voltage(b, (n - 1) as nat);
        if v > m {
            v
        } else {
            m
        }
    }
}

/// Lowest non-zero voltage among the first `n` cells; a cell reading zero reports nothing.
pub open spec fn min_reported_voltage(b: Seq<u8>, n: nat) -> Option<int>
    decreases n,
{
    if n == 0 {
        None
    } else {
        let v = cell_voltage(b, n - 1);
        let m = min_reported_voltage(b, (n - 1) as nat);
        if v == 0 {
            m
        } else {
            match m {
                Some(w) => if v < w {
                    Some(v)
                } else {
                    Some(w)
                },
                None => Some(v),
            }
        }
    }
}

/// An optional reading as a mathematical integer.
pub open spec fn opt_int(o: Option<u16>) -> Option<int> {
    match o {
        Some(v) => Some(v as int),
        None => None,
    }
}

/// One cell of the pack.
#[derive(Debug, Clone, Copy, PartialEq, Eq, Structural)]
pub struct Cell {
    /// Millivolts.
    pub voltage: u16,
    /// Milliohms.
    pub resistance: u16,
}

impl Cell {
    /// A cell with nothing read yet.
    pub fn new() -> (r: Result<Cell, String>)
        ensures
            r == Ok::<Cell, String>(Cell { voltage: 0, resistance: 0 }),
    {
        Ok(Cell { voltage: 0, resistance: 0 })
    }

    /// Reads the voltage from the u16 at `index`.
    pub fn read_voltage(&mut self, buf: &Vec<u8>, index: usize)
        requires
            index + 2 <= buf.len(),
        ensures
            final(self).voltage == le_u16(buf@, index as int),
            final(self).resistance == old(self).resistance,
    {
        self.voltage = read_u16(buf, index);
    }

    /// Reads the internal resistance from the u16 at `index`.
    pub fn read_resistance(&mut self, buf: &Vec<u8>, index: usize)
        requires
            index + 2 <= buf.len(),
        ensures
            final(self).resistance == le_u16(buf@, index as int),
            final(self).voltage == old(self).voltage,
    {
        self.resistance = read_u16(buf, index);
    }
}

/// Why a buffer could not be decoded.
#[derive(Debug, Clone, Copy, PartialEq, Eq, Structural)]
pub enum DecodeError {
    /// The buffer does not hold exactly one frame; `actual` is its length.
    FrameLengthError { actual: usize },
}

/// The state of the pack as one frame reports it, in integer units:
/// millivolts, milliohms, milliamps, microwatts and tenths of a degree.
#[derive(Debug, Clone)]
pub struct CellsInfo {
    pub cells: Vec<Cell>,
    pub max_cell_voltage: u16,
    /// `None` when every cell reads zero.
    pub min_cell_voltage: Option<u16>,
    pub average_cell_voltage: u16,
    pub delta_cell_voltage: u16,
    pub total_voltage: u32,
    pub current: u32,
    /// Milliamps; the sign tells charge from discharge.
    pub balancing_current: i16,
    /// `total_voltage * current`, computed rather than read.
    pub power: u64,
    /// Temperatures are read as unsigned tenths of a degree; the unit sends no sign.
    pub t1: u16,
    pub t2: u16,
    pub mos_t: u16,
    pub system_alarm: SystemAlarm,
}

/// `info` is what the frame `b` says, field by field.
pub open spec fn decodes_to(b: Seq<u8>, info: CellsInfo) -> bool {
    &&& info.cells@.len() == CELL_COUNT
    &&& forall|k: int|
        0 <= k < CELL_COUNT ==> {
            &&& #[trigger] info.cells@[k].voltage == cell_voltage(b, k)
            &&& info.cells@[k].resistance == cell_resistance(b, k)
        }
    &&& info.max_cell_voltage == max_voltage(b, CELL_COUNT as nat)
    &&& opt_int(info.min_cell_voltage) == min_reported_voltage(b, CELL_COUNT as nat)
    &&& info.average_cell_voltage == le_u16(b, AVERAGE_VOLTAGE_OFFSET as int)
    &&& info.delta_cell_voltage == le_u16(b, DELTA_VOLTAGE_OFFSET as int)
    &&& info.total_voltage == le_u32(b, TOTAL_VOLTAGE_OFFSET as int)
    &&& info.current == le_u32(b, CURRENT_OFFSET as int)
    &&& info.power == info.total_voltage * info.current
    &&& info.t1 == le_u16(b, T1_OFFSET as int)
    &&& info.t2 == le_u16(b, T2_OFFSET as int)
    &&& info.mos_t == le_u16(b, MOS_TEMPERATURE_OFFSET as int)
    &&& info.balancing_current == le_i16(b, BALANCING_CURRENT_OFFSET as int)
    &&& info.system_alarm.alarm_code == le_u16(b, ALARM_OFFSET as int)
    &&& info.system_alarm.message@ == alarm_label(info.system_alarm.alarm_code)
}

impl CellsInfo {
    /// Decodes one frame. Fails exactly when `buf` is not one frame long; never panics.
    pub fn new(buf: Vec<u8>) -> (r: Result<CellsInfo, DecodeError>)
        ensures
            r is Ok <==> buf@.len() == FRAME_LEN,
            r is Ok ==> decodes_to(buf@, r->Ok_0),
            r is Err ==> r->Err_0 == (DecodeError::FrameLengthError { actual: buf.len() }),
    {
        if buf.len() != FRAME_LEN {
            return Err(DecodeError::FrameLengthError { actual: buf.len() });
        }
        let mut cells: Vec<Cell> = Vec::new();
        let mut max_cell_voltage: u16 = 0;
        let mut min_cell_voltage: Option<u16> = None;
        let mut k: usize = 0;
        while k < CELL_COUNT
            invariant
                buf@.len() == FRAME_LEN,
                k <= CELL_COUNT,
                cells@.len() == k,
                forall|j: int|
                    0 <= j < k ==> {
                        &&& #[trigger] cells@[j].voltage == cell_voltage(buf@, j)
                        &&& cells@[j].resistance == cell_resistance(buf@, j)
                    },
                max_cell_voltage == max_voltage(buf@, k as nat),
                opt_int(min_cell_voltage) == min_reported_voltage(buf@, k as nat),
            decreases CELL_COUNT - k,
        {
            let mut cell = Cell::new().unwrap();
            cell.read_voltage(&buf, CELL_VOLTAGE_OFFSET + 2 * k);
            cell.read_resistance(&buf, CELL_RESISTANCE_OFFSET + 2 * k);
            if cell.voltage > 0 {
                min_cell_voltage = match min_cell_voltage {
                    Some(m) => if cell.voltage < m {
                        Some(cell.voltage)
                    } else {
                        Some(m)
                    },
                    None => Some(cell.voltage),
                };
            }
            if cell.voltage > max_cell_voltage {
                max_cell_voltage = cell.voltage;
            }
            cells.push(cell);
            k += 1;
        }
        let total_voltage = read_u32(&buf, TOTAL_VOLTAGE_OFFSET);
        let current = read_u32(&buf, CURRENT_OFFSET);
        assert(total_voltage as u64 * current as u64 <= 0xffff_ffff * 0xffff_ffffu64) by (nonlinear_arith)
            requires
                total_voltage <= 0xffff_ffffu32,
                current <= 0xffff_ffffu32,
        ;
        let power = total_voltage as u64 * current as u64;
        let info = CellsInfo {
            cells,
            max_cell_voltage,
            min_cell_voltage,
            average_cell_voltage: read_u16(&buf, AVERAGE_VOLTAGE_OFFSET),
            delta_cell_voltage: read_u16(&buf, DELTA_VOLTAGE_OFFSET),
            total_voltage,
            current,
            balancing_current: read_i16(&buf, BALANCING_CURRENT_OFFSET),
            power,
            t1: read_u16(&buf, T1_OFFSET),
            t2: read_u16(&buf, T2_OFFSET),
            mos_t: read_u16(&buf, MOS_TEMPERATURE_OFFSET),
            system_alarm: SystemAlarm::read(read_u16(&buf, ALARM_OFFSET)).unwrap(),
        };
        Ok(info)
    }
}

impl Default for CellsInfo {
    /// An empty record: no cells, every reading zero, no alarm.
    fn default() -> (r: CellsInfo)
        ensures
            r.cells@.len() == 0,
            r.max_cell_voltage == 0,
            r.min_cell_voltage is None,
            r.average_cell_voltage == 0,
            r.delta_cell_voltage == 0,
            r.total_voltage == 0,
            r.current == 0,
            r.balancing_current == 0,
            r.power == 0,
            r.t1 == 0,
            r.t2 == 0,
            r.mos_t == 0,
            r.system_alarm.alarm_code == 0,
            r.system_alarm.message@ == alarm_label(0),
    {
        CellsInfo {
            cells: Vec::new(),
            max_cell_voltage: 0,
            min_cell_voltage: None,
            average_cell_voltage: 0,
            delta_cell_voltage: 0,
            total_voltage: 0,
            current: 0,
            balancing_current: 0,
            power: 0,
            t1: 0,
            t2: 0,
            mos_t: 0,
            system_alarm: SystemAlarm::default(),
        }
    }
}

} // verus!
