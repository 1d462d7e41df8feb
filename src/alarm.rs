use vstd::prelude::*;

verus! {

/// The label of an alarm code: a closed table, with a fallback for every other code.
pub open spec fn alarm_label(code: u16) -> Seq<char> {
    if code == 0 {
        "No alarm"@
    } else if code == 1 {
        "Charge overtemperature"@
    } else if code == 2 {
        "Charge undertemperature"@
    } else if code == 8 {
        "Cell Undervoltage"@
    } else if code == 1024 {
        "Cell count is not equal to settings"@
    } else if code == 1032 {
        "Cell Undervoltage+"@
    } else if code == 2048 {
        "Current sensor anomaly"@
    } else if code == 4096 {
        "Cell Over Voltage"@
    } else if code == 5120 {
        "Cell Over Voltage+"@
    } else {
        "Unknown alarm code"@
    }
}

/// An alarm reported by the battery: its raw code and the condition it names.
#[derive(Debug, Clone)]
pub struct SystemAlarm {
    pub alarm_code: u16,
    pub message: String,
}

impl SystemAlarm {
    /// Resolves an alarm code; every code resolves, unknown ones to a fallback label.
    pub fn resolve(alarm_code: u16) -> (r: SystemAlarm)
        ensures
            r.alarm_code == alarm_code,
            r.message@ == alarm_label(alarm_code),
    {
        let text: &str = match alarm_code {
            0 => "No alarm",
            1 => "Charge overtemperature",
            2 => "Charge undertemperature",
            8 => "Cell Undervoltage",
            1024 => "Cell count is not equal to settings",
            1032 => "Cell Undervoltage+",
            2048 => "Current sensor anomaly",
            4096 => "Cell Over Voltage",
            5120 => "Cell Over Voltage+",
            _ => "Unknown alarm code",
        };
        SystemAlarm { alarm_code, message: text.to_owned() }
    }

    /// Resolves an alarm code; this never fails.
    pub fn read(alarm_code: u16) -> (r: Result<SystemAlarm, String>)
        ensures
            r is Ok,
            r->Ok_0.alarm_code == alarm_code,
            r->Ok_0.message@ == alarm_label(alarm_code),
    {
        Ok(SystemAlarm::resolve(alarm_code))
    }
}

impl Default for SystemAlarm {
    fn default() -> (r: SystemAlarm)
        ensures
            r.alarm_code == 0,
            r.message@ == alarm_label(0),
    {
        SystemAlarm::resolve(0)
    }
}

} // verus!
