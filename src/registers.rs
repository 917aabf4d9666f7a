use vstd::prelude::*;

verus! {

/// Number of registers read into every snapshot.
pub const REGISTER_COUNT: usize = 18;

/// The named device registers of the controlled boiler family.
#[derive(Clone, Copy, Debug, PartialEq, Eq, Structural)]
pub enum RegisterId {
    OutputTemp,
    BoilerTargetTemp,
    BoilerStatus,
    OutdoorTemp,
    SupplyMax,
    SupplyMin,
    OdrMax,
    OdrMin,
    BoilerMax,
    BoilerOut1,
    BoilerIn,
    InputStatus,
    FlueTemp,
    SupplyTemp,
    ReturnTemp,
    ModulationRate,
    OdAdjust,
    MaxRate,
}

/// The bus address of each register.
pub open spec fn address_of(r: RegisterId) -> u16 {
    match r {
        RegisterId::OutputTemp => 0x9106,
        RegisterId::BoilerTargetTemp => 0x9109,
        RegisterId::BoilerStatus => 0x9105,
        RegisterId::OutdoorTemp => 0x9112,
        RegisterId::SupplyMax => 0x9120,
        RegisterId::SupplyMin => 0x9121,
        RegisterId::OdrMax => 0x9122,
        RegisterId::OdrMin => 0x9123,
        RegisterId::BoilerMax => 0x9124,
        RegisterId::BoilerOut1 => 0x9180,
        RegisterId::BoilerIn => 0x9188,
        RegisterId::InputStatus => 0x918B,
        RegisterId::FlueTemp => 0x918C,
        RegisterId::SupplyTemp => 0x918D,
        RegisterId::ReturnTemp => 0x9196,
        RegisterId::ModulationRate => 0x9232,
        RegisterId::OdAdjust => 0x9166,
        RegisterId::MaxRate => 0x9131,
    }
}

/// Only the outdoor-adjust offset and the maximum rate may be written.
pub open spec fn is_writable(r: RegisterId) -> bool {
    r == RegisterId::OdAdjust || r == RegisterId::MaxRate
}

/// The fixed order in which a snapshot reads the registers.
pub open spec fn register_at(i: int) -> RegisterId {
    if i <= 0 {
        RegisterId::OutputTemp
    } else if i == 1 {
        RegisterId::BoilerTargetTemp
    } else if i == 2 {
        RegisterId::BoilerStatus
    } else if i == 3 {
        RegisterId::OutdoorTemp
    } else if i == 4 {
        RegisterId::SupplyMax
    } else if i == 5 {
        RegisterId::SupplyMin
    } else if i == 6 {
        RegisterId::OdrMax
    } else if i == 7 {
        RegisterId::OdrMin
    } else if i == 8 {
        RegisterId::BoilerMax
    } else if i == 9 {
        RegisterId::BoilerOut1
    } else if i == 10 {
        RegisterId::BoilerIn
    } else if i == 11 {
        RegisterId::InputStatus
    } else if i == 12 {
        RegisterId::FlueTemp
    } else if i == 13 {
        RegisterId::SupplyTemp
    } else if i == 14 {
        RegisterId::ReturnTemp
    } else if i == 15 {
        RegisterId::ModulationRate
    } else if i == 16 {
        RegisterId::OdAdjust
    } else {
        RegisterId::MaxRate
    }
}

impl RegisterId {
    /// The register's bus address.
    pub fn address(&self) -> (r: u16)
        ensures
            r == address_of(*self),
    {
        match self {
            RegisterId::OutputTemp => 0x9106,
            RegisterId::BoilerTargetTemp => 0x9109,
            RegisterId::BoilerStatus => 0x9105,
            RegisterId::OutdoorTemp => 0x9112,
            RegisterId::SupplyMax => 0x9120,
            RegisterId::SupplyMin => 0x9121,
            RegisterId::OdrMax => 0x9122,
            RegisterId::OdrMin => 0x9123,
            RegisterId::BoilerMax => 0x9124,
            RegisterId::BoilerOut1 => 0x9180,
            RegisterId::BoilerIn => 0x9188,
            RegisterId::InputStatus => 0x918B,
            RegisterId::FlueTemp => 0x918C,
            RegisterId::SupplyTemp => 0x918D,
            RegisterId::ReturnTemp => 0x9196,
            RegisterId::ModulationRate => 0x9232,
            RegisterId::OdAdjust => 0x9166,
            RegisterId::MaxRate => 0x9131,
        }
    }

    /// Whether the register accepts writes.
    pub fn writable(&self) -> (r: bool)
        ensures
            r == is_writable(*self),
    {
        match self {
            RegisterId::OdAdjust | RegisterId::MaxRate => true,
            _ => false,
        }
    }

    /// The register read at position `i` of a snapshot.
    pub fn in_snapshot_order(i: usize) -> (r: RegisterId)
        requires
            i < REGISTER_COUNT,
        ensures
            r == register_at(i as int),
    {
        if i == 0 {
            RegisterId::OutputTemp
        } else if i == 1 {
            RegisterId::BoilerTargetTemp
        } else if i == 2 {
            RegisterId::BoilerStatus
        } else if i == 3 {
            RegisterId::OutdoorTemp
        } else if i == 4 {
            RegisterId::SupplyMax
        } else if i == 5 {
            RegisterId::SupplyMin
        } else if i == 6 {
            RegisterId::OdrMax
        } else if i == 7 {
            RegisterId::OdrMin
        } else if i == 8 {
            RegisterId::BoilerMax
        } else if i == 9 {
            RegisterId::BoilerOut1
        } else if i == 10 {
            RegisterId::BoilerIn
        } else if i == 11 {
            RegisterId::InputStatus
        } else if i == 12 {
            RegisterId::FlueTemp
        } else if i == 13 {
            RegisterId::SupplyTemp
        } else if i == 14 {
            RegisterId::ReturnTemp
        } else if i == 15 {
            RegisterId::ModulationRate
        } else if i == 16 {
            RegisterId::OdAdjust
        } else {
            RegisterId::MaxRate
        }
    }
}

} // verus!
