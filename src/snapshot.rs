use vstd::prelude::*;
use crate::registers::{RegisterId, REGISTER_COUNT, register_at};

verus! {

/// One reading of every register, the optional indoor temperature in
/// thousandths of a degree, and the capture time in microseconds since
/// the Unix epoch (UTC).
#[derive(Clone, Copy, Debug, PartialEq, Eq)]
pub struct BoilerSnapshot {
    pub captured_at_micros: i64,
    pub output_temp: u16,
    pub boiler_target_temp: u16,
    pub boiler_status: u16,
    pub outdoor_temp: u16,
    pub supply_max: u16,
    pub supply_min: u16,
    pub odr_max: u16,
    pub odr_min: u16,
    pub boiler_max: u16,
    pub boiler_out_1_temp: u16,
    pub boiler_in_temp: u16,
    pub input_status: u16,
    pub flue_temp_1: u16,
    pub local_supply_temp: u16,
    pub local_return_temp: u16,
    pub boiler_modulation_rate: u16,
    pub outdoor_temp_adjust: u16,
    pub max_rate: u16,
    pub indoor_milli: Option<i32>,
}

/// The snapshot made of reads taken in snapshot order.
pub open spec fn snapshot_of(reads: Seq<u16>, indoor_milli: Option<i32>, at: i64) -> BoilerSnapshot {
    BoilerSnapshot {
        captured_at_micros: at,
        output_temp: reads[0],
        boiler_target_temp: reads[1],
        boiler_status: reads[2],
        outdoor_temp: reads[3],
        supply_max: reads[4],
        supply_min: reads[5],
        odr_max: reads[6],
        odr_min: reads[7],
        boiler_max: reads[8],
        boiler_out_1_temp: reads[9],
        boiler_in_temp: reads[10],
        input_status: reads[11],
        flue_temp_1: reads[12],
        local_supply_temp: reads[13],
        local_return_temp: reads[14],
        boiler_modulation_rate: reads[15],
        outdoor_temp_adjust: reads[16],
        max_rate: reads[17],
        indoor_milli,
    }
}

impl BoilerSnapshot {
    /// The value that the snapshot holds for a register.
    pub open spec fn reading(self, id: RegisterId) -> u16 {
        match id {
            RegisterId::OutputTemp => self.output_temp,
            RegisterId::BoilerTargetTemp => self.boiler_target_temp,
            RegisterId::BoilerStatus => self.boiler_status,
            RegisterId::OutdoorTemp => self.outdoor_temp,
            RegisterId::SupplyMax => self.supply_max,
            RegisterId::SupplyMin => self.supply_min,
            RegisterId::OdrMax => self.odr_max,
            RegisterId::OdrMin => self.odr_min,
            RegisterId::BoilerMax => self.boiler_max,
            RegisterId::BoilerOut1 => self.boiler_out_1_temp,
            RegisterId::BoilerIn => self.boiler_in_temp,
            RegisterId::InputStatus => self.input_status,
            RegisterId::FlueTemp => self.flue_temp_1,
            RegisterId::SupplyTemp => self.local_supply_temp,
            RegisterId::ReturnTemp => self.local_return_temp,
            RegisterId::ModulationRate => self.boiler_modulation_rate,
            RegisterId::OdAdjust => self.outdoor_temp_adjust,
            RegisterId::MaxRate => self.max_rate,
        }
    }

    /// Assembles a snapshot from one read of each register, in snapshot order.
    pub fn from_reads(reads: &Vec<u16>, indoor_milli: Option<i32>, captured_at_micros: i64) -> (r:
        BoilerSnapshot)
        requires
            reads@.len() == REGISTER_COUNT,
        ensures
            r == snapshot_of(reads@, indoor_milli, captured_at_micros),
            forall|i: int| 0 <= i < REGISTER_COUNT ==> r.reading(register_at(i)) == reads@[i],
    {
        BoilerSnapshot {
            captured_at_micros,
            output_temp: reads[0],
            boiler_target_temp: reads[1],
            boiler_status: reads[2],
            outdoor_temp: reads[3],
            supply_max: reads[4],
            supply_min: reads[5],
            odr_max: reads[6],
            odr_min: reads[7],
            boiler_max: reads[8],
            boiler_out_1_temp: reads[9],
            boiler_in_temp: reads[10],
            input_status: reads[11],
            flue_temp_1: reads[12],
            local_supply_temp: reads[13],
            local_return_temp: reads[14],
            boiler_modulation_rate: reads[15],
            outdoor_temp_adjust: reads[16],
            max_rate: reads[17],
            indoor_milli,
        }
    }

    /// The value held for one register.
    pub fn value_of(&self, id: RegisterId) -> (r: u16)
        ensures
            r == self.reading(id),
    {
        match id {
            RegisterId::OutputTemp => self.output_temp,
            RegisterId::BoilerTargetTemp => self.boiler_target_temp,
            RegisterId::BoilerStatus => self.boiler_status,
            RegisterId::OutdoorTemp => self.outdoor_temp,
            RegisterId::SupplyMax => self.supply_max,
            RegisterId::SupplyMin => self.supply_min,
            RegisterId::OdrMax => self.odr_max,
            RegisterId::OdrMin => self.odr_min,
            RegisterId::BoilerMax => self.boiler_max,
            RegisterId::BoilerOut1 => self.boiler_out_1_temp,
            RegisterId::BoilerIn => self.boiler_in_temp,
            RegisterId::InputStatus => self.input_status,
            RegisterId::FlueTemp => self.flue_temp_1,
            RegisterId::SupplyTemp => self.local_supply_temp,
            RegisterId::ReturnTemp => self.local_return_temp,
            RegisterId::ModulationRate => self.boiler_modulation_rate,
            RegisterId::OdAdjust => self.outdoor_temp_adjust,
            RegisterId::MaxRate => self.max_rate,
        }
    }
}

} // verus!
