use vstd::prelude::*;

verus! {

/// The command that asks the battery for its device information.
pub open spec fn device_info_request() -> Seq<u8> {
    seq![0xAA, 0x55, 0x90, 0xEB, 0x97, 0, 0, 0, 0, 0, 0, 0, 0, 0, 0, 0, 0, 0, 0, 0x11]
}

/// The command that asks the battery for its cell telemetry.
pub open spec fn cell_info_request() -> Seq<u8> {
    seq![0xAA, 0x55, 0x90, 0xEB, 0x96, 0, 0, 0, 0, 0, 0, 0, 0, 0, 0, 0, 0, 0, 0, 0x10]
}

/// Bytes to write to the battery to request its device information.
pub fn get_device_info_command() -> (r: Vec<u8>)
    ensures
        r@ == device_info_request(),
{
    let r: Vec<u8> = vec![0xAA, 0x55, 0x90, 0xEB, 0x97, 0, 0, 0, 0, 0, 0, 0, 0, 0, 0, 0, 0, 0, 0, 0x11];
    assert(r@ =~= device_info_request());
    r
}

/// Bytes to write to the battery to request its cell telemetry.
pub fn get_cell_info_command() -> (r: Vec<u8>)
    ensures
        r@ == cell_info_request(),
{
    let r: Vec<u8> = vec![0xAA, 0x55, 0x90, 0xEB, 0x96, 0, 0, 0, 0, 0, 0, 0, 0, 0, 0, 0, 0, 0, 0, 0x10];
    assert(r@ =~= cell_info_request());
    r
}

} // verus!
