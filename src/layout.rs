use vstd::prelude::*;

verus! {

// The wire format of one telemetry frame: every offset, width and count lives here.
// Integers are little-endian. `HEADER_LEN` is the base the vendor format addresses from.
/// Number of bytes in one complete telemetry frame.
pub const FRAME_LEN: usize = 300;

/// Size of the frame header.
pub const HEADER_LEN: usize = 16;

/// Number of cells reported in a frame.
pub const CELL_COUNT: usize = 24;

/// First cell voltage (u16, mV), one every two bytes: `HEADER_LEN + 6`.
pub const CELL_VOLTAGE_OFFSET: usize = 22;

/// First cell resistance (u16, mOhm), one every two bytes: `2 * HEADER_LEN + 64`.
pub const CELL_RESISTANCE_OFFSET: usize = 96;

/// Average cell voltage (u16, mV): `HEADER_LEN + 58`.
pub const AVERAGE_VOLTAGE_OFFSET: usize = 74;

/// Spread between highest and lowest cell voltage (u16, mV): `HEADER_LEN + 60`.
pub const DELTA_VOLTAGE_OFFSET: usize = 76;

/// Pack voltage (u32, mV): `2 * HEADER_LEN + 118`.
pub const TOTAL_VOLTAGE_OFFSET: usize = 150;

/// Pack current (u32, mA): `2 * HEADER_LEN + 126`.
pub const CURRENT_OFFSET: usize = 158;

/// First temperature sensor (u16, tenths of a degree): `2 * HEADER_LEN + 130`.
pub const T1_OFFSET: usize = 162;

/// Second temperature sensor (u16, tenths of a degree): `2 * HEADER_LEN + 132`.
pub const T2_OFFSET: usize = 164;

/// Power transistor temperature (u16, tenths of a degree): `2 * HEADER_LEN + 134`.
pub const MOS_TEMPERATURE_OFFSET: usize = 166;

/// Alarm code (u16): `2 * HEADER_LEN + 136`.
pub const ALARM_OFFSET: usize = 168;

/// Balancing current (i16, mA, sign gives the direction): `2 * HEADER_LEN + 138`.
pub const BALANCING_CURRENT_OFFSET: usize = 170;

/// Every field of the table lies inside a frame.
pub proof fn lemma_layout_fits()
    ensures
        CELL_VOLTAGE_OFFSET == HEADER_LEN + 6,
        CELL_RESISTANCE_OFFSET == 2 * HEADER_LEN + 64,
        AVERAGE_VOLTAGE_OFFSET == HEADER_LEN + 58,
        DELTA_VOLTAGE_OFFSET == HEADER_LEN + 60,
        TOTAL_VOLTAGE_OFFSET == 2 * HEADER_LEN + 118,
        CURRENT_OFFSET == 2 * HEADER_LEN + 126,
        T1_OFFSET == 2 * HEADER_LEN + 130,
        T2_OFFSET == 2 * HEADER_LEN + 132,
        MOS_TEMPERATURE_OFFSET == 2 * HEADER_LEN + 134,
        ALARM_OFFSET == 2 * HEADER_LEN + 136,
        BALANCING_CURRENT_OFFSET == 2 * HEADER_LEN + 138,
        CELL_VOLTAGE_OFFSET + 2 * CELL_COUNT <= FRAME_LEN,
        CELL_RESISTANCE_OFFSET + 2 * CELL_COUNT <= FRAME_LEN,
        BALANCING_CURRENT_OFFSET + 2 <= FRAME_LEN,
{
}

} // verus!
