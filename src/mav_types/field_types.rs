//! Enumerated fields of the HEARTBEAT message. Each variant stands for its
//! wire code; a code outside the enumeration reads as the default variant.
use vstd::prelude::*;

verus! {

/// Vehicle type.
#[derive(Debug, Clone, Copy, PartialEq, Eq, Structural)]
pub enum MavType {
    MavTypeGeneric,
    MavTypeFixedWing,
    MavTypeQuadrotor,
    MavTypeCoaxial,
    MavTypeHelicopter,
    MavTypeAntennaTracker,
    MavTypeGcs,
    MavTypeAirship,
    MavTypeFreeBalloon,
    MavTypeRocket,
    MavTypeGroundRover,
    MavTypeSurfaceBoat,
    MavTypeSubmarine,
    MavTypeHexarotor,
    MavTypeOctorotor,
    MavTypeTricopter,
    MavTypeFlappingWing,
    MavTypeKite,
    MavTypeOnboardController,
    MavTypeVtolTailsitterDuorotor,
    MavTypeVtolTailsitterQuadrotor,
    MavTypeVtolTiltrotor,
    MavTypeVtolFixedrotor,
    MavTypeVtolTailsitter,
    MavTypeVtolTiltwing,
    MavTypeVtolReserved5,
    MavTypeGimbal,
    MavTypeAdsb,
    MavTypeParafoil,
    MavTypeDodecarotor,
    MavTypeCamera,
    MavTypeChargingStation,
    MavTypeFlarm,
    MavTypeServo,
    MavTypeOdid,
    MavTypeDecarotor,
    MavTypeBattery,
    MavTypeParachute,
    MavTypeLog,
    MavTypeOsd,
    MavTypeImu,
    MavTypeGps,
    MavTypeWinch,
}

/// Number of codes of `MavType`.
pub const MAV_TYPE_COUNT: u8 = 43;

impl Default for MavType {
    fn default() -> (r: Self)
        ensures
            r == MavType::MavTypeGeneric,
    {
        MavType::MavTypeGeneric
    }
}

impl MavType {
    /// The wire code of the variant.
    pub open spec fn spec_code(self) -> u8 {
        match self {
            MavType::MavTypeGeneric => 0,
            MavType::MavTypeFixedWing => 1,
            MavType::MavTypeQuadrotor => 2,
            MavType::MavTypeCoaxial => 3,
            MavType::MavTypeHelicopter => 4,
            MavType::MavTypeAntennaTracker => 5,
            MavType::MavTypeGcs => 6,
            MavType::MavTypeAirship => 7,
            MavType::MavTypeFreeBalloon => 8,
            MavType::MavTypeRocket => 9,
            MavType::MavTypeGroundRover => 10,
            MavType::MavTypeSurfaceBoat => 11,
            MavType::MavTypeSubmarine => 12,
            MavType::MavTypeHexarotor => 13,
            MavType::MavTypeOctorotor => 14,
            MavType::MavTypeTricopter => 15,
            MavType::MavTypeFlappingWing => 16,
            MavType::MavTypeKite => 17,
            MavType::MavTypeOnboardController => 18,
            MavType::MavTypeVtolTailsitterDuorotor => 19,
            MavType::MavTypeVtolTailsitterQuadrotor => 20,
            MavType::MavTypeVtolTiltrotor => 21,
            MavType::MavTypeVtolFixedrotor => 22,
            MavType::MavTypeVtolTailsitter => 23,
            MavType::MavTypeVtolTiltwing => 24,
            MavType::MavTypeVtolReserved5 => 25,
            MavType::MavTypeGimbal => 26,
            MavType::MavTypeAdsb => 27,
            MavType::MavTypeParafoil => 28,
            MavType::MavTypeDodecarotor => 29,
            MavType::MavTypeCamera => 30,
            MavType::MavTypeChargingStation => 31,
            MavType::MavTypeFlarm => 32,
            MavType::MavTypeServo => 33,
            MavType::MavTypeOdid => 34,
            MavType::MavTypeDecarotor => 35,
            MavType::MavTypeBattery => 36,
            MavType::MavTypeParachute => 37,
            MavType::MavTypeLog => 38,
            MavType::MavTypeOsd => 39,
            MavType::MavTypeImu => 40,
            MavType::MavTypeGps => 41,
            MavType::MavTypeWinch => 42,
        }
    }

    /// The variant a wire code reads as.
    pub open spec fn spec_from_code(code: u8) -> Self {
        match code {
            0 => MavType::MavTypeGeneric,
            1 => MavType::MavTypeFixedWing,
            2 => MavType::MavTypeQuadrotor,
            3 => MavType::MavTypeCoaxial,
            4 => MavType::MavTypeHelicopter,
            5 => MavType::MavTypeAntennaTracker,
            6 => MavType::MavTypeGcs,
            7 => MavType::MavTypeAirship,
            8 => MavType::MavTypeFreeBalloon,
            9 => MavType::MavTypeRocket,
            10 => MavType::MavTypeGroundRover,
            11 => MavType::MavTypeSurfaceBoat,
            12 => MavType::MavTypeSubmarine,
            13 => MavType::MavTypeHexarotor,
            14 => MavType::MavTypeOctorotor,
            15 => MavType::MavTypeTricopter,
            16 => MavType::MavTypeFlappingWing,
            17 => MavType::MavTypeKite,
            18 => MavType::MavTypeOnboardController,
            19 => MavType::MavTypeVtolTailsitterDuorotor,
            20 => MavType::MavTypeVtolTailsitterQuadrotor,
            21 => MavType::MavTypeVtolTiltrotor,
            22 => MavType::MavTypeVtolFixedrotor,
            23 => MavType::MavTypeVtolTailsitter,
            24 => MavType::MavTypeVtolTiltwing,
            25 => MavType::MavTypeVtolReserved5,
            26 => MavType::MavTypeGimbal,
            27 => MavType::MavTypeAdsb,
            28 => MavType::MavTypeParafoil,
            29 => MavType::MavTypeDodecarotor,
            30 => MavType::MavTypeCamera,
            31 => MavType::MavTypeChargingStation,
            32 => MavType::MavTypeFlarm,
            33 => MavType::MavTypeServo,
            34 => MavType::MavTypeOdid,
            35 => MavType::MavTypeDecarotor,
            36 => MavType::MavTypeBattery,
            37 => MavType::MavTypeParachute,
            38 => MavType::MavTypeLog,
            39 => MavType::MavTypeOsd,
            40 => MavType::MavTypeImu,
            41 => MavType::MavTypeGps,
            42 => MavType::MavTypeWinch,
            _ => MavType::MavTypeGeneric,
        }
    }

    pub fn code(&self) -> (r: u8)
        ensures
            r == self.spec_code(),
            r < MAV_TYPE_COUNT,
    {
        match self {
            MavType::MavTypeGeneric => 0,
            MavType::MavTypeFixedWing => 1,
            MavType::MavTypeQuadrotor => 2,
            MavType::MavTypeCoaxial => 3,
            MavType::MavTypeHelicopter => 4,
            MavType::MavTypeAntennaTracker => 5,
            MavType::MavTypeGcs => 6,
            MavType::MavTypeAirship => 7,
            MavType::MavTypeFreeBalloon => 8,
            MavType::MavTypeRocket => 9,
            MavType::MavTypeGroundRover => 10,
            MavType::MavTypeSurfaceBoat => 11,
            MavType::MavTypeSubmarine => 12,
            MavType::MavTypeHexarotor => 13,
            MavType::MavTypeOctorotor => 14,
            MavType::MavTypeTricopter => 15,
            MavType::MavTypeFlappingWing => 16,
            MavType::MavTypeKite => 17,
            MavType::MavTypeOnboardController => 18,
            MavType::MavTypeVtolTailsitterDuorotor => 19,
            MavType::MavTypeVtolTailsitterQuadrotor => 20,
            MavType::MavTypeVtolTiltrotor => 21,
            MavType::MavTypeVtolFixedrotor => 22,
            MavType::MavTypeVtolTailsitter => 23,
            MavType::MavTypeVtolTiltwing => 24,
            MavType::MavTypeVtolReserved5 => 25,
            MavType::MavTypeGimbal => 26,
            MavType::MavTypeAdsb => 27,
            MavType::MavTypeParafoil => 28,
            MavType::MavTypeDodecarotor => 29,
            MavType::MavTypeCamera => 30,
            MavType::MavTypeChargingStation => 31,
            MavType::MavTypeFlarm => 32,
            MavType::MavTypeServo => 33,
            MavType::MavTypeOdid => 34,
            MavType::MavTypeDecarotor => 35,
            MavType::MavTypeBattery => 36,
            MavType::MavTypeParachute => 37,
            MavType::MavTypeLog => 38,
            MavType::MavTypeOsd => 39,
            MavType::MavTypeImu => 40,
            MavType::MavTypeGps => 41,
            MavType::MavTypeWinch => 42,
        }
    }

    pub fn from_code(code: u8) -> (r: Self)
        ensures
            r == Self::spec_from_code(code),
            code < MAV_TYPE_COUNT ==> r.spec_code() == code,
    {
        match code {
            0 => MavType::MavTypeGeneric,
            1 => MavType::MavTypeFixedWing,
            2 => MavType::MavTypeQuadrotor,
            3 => MavType::MavTypeCoaxial,
            4 => MavType::MavTypeHelicopter,
            5 => MavType::MavTypeAntennaTracker,
            6 => MavType::MavTypeGcs,
            7 => MavType::MavTypeAirship,
            8 => MavType::MavTypeFreeBalloon,
            9 => MavType::MavTypeRocket,
            10 => MavType::MavTypeGroundRover,
            11 => MavType::MavTypeSurfaceBoat,
            12 => MavType::MavTypeSubmarine,
            13 => MavType::MavTypeHexarotor,
            14 => MavType::MavTypeOctorotor,
            15 => MavType::MavTypeTricopter,
            16 => MavType::MavTypeFlappingWing,
            17 => MavType::MavTypeKite,
            18 => MavType::MavTypeOnboardController,
            19 => MavType::MavTypeVtolTailsitterDuorotor,
            20 => MavType::MavTypeVtolTailsitterQuadrotor,
            21 => MavType::MavTypeVtolTiltrotor,
            22 => MavType::MavTypeVtolFixedrotor,
            23 => MavType::MavTypeVtolTailsitter,
            24 => MavType::MavTypeVtolTiltwing,
            25 => MavType::MavTypeVtolReserved5,
            26 => MavType::MavTypeGimbal,
            27 => MavType::MavTypeAdsb,
            28 => MavType::MavTypeParafoil,
            29 => MavType::MavTypeDodecarotor,
            30 => MavType::MavTypeCamera,
            31 => MavType::MavTypeChargingStation,
            32 => MavType::MavTypeFlarm,
            33 => MavType::MavTypeServo,
            34 => MavType::MavTypeOdid,
            35 => MavType::MavTypeDecarotor,
            36 => MavType::MavTypeBattery,
            37 => MavType::MavTypeParachute,
            38 => MavType::MavTypeLog,
            39 => MavType::MavTypeOsd,
            40 => MavType::MavTypeImu,
            41 => MavType::MavTypeGps,
            42 => MavType::MavTypeWinch,
            _ => MavType::MavTypeGeneric,
        }
    }
}

/// Autopilot type.
#[derive(Debug, Clone, Copy, PartialEq, Eq, Structural)]
pub enum MavAutopilot {
    MavAutopilotGeneric,
    MavAutopilotReserved,
    MavAutopilotSlugs,
    MavAutopilotArdupilotmega,
    MavAutopilotOpenpilot,
    MavAutopilotGenericWaypointsOnly,
    MavAutopilotGenericWaypointsAndSimpleNavigationOnly,
    MavAutopilotGenericMissionFull,
    MavAutopilotInvalid,
    MavAutopilotPpz,
    MavAutopilotUdb,
    MavAutopilotFp,
    MavAutopilotPx4,
    MavAutopilotSmaccmpilot,
    MavAutopilotAutoquad,
    MavAutopilotArmazila,
    MavAutopilotAerob,
    MavAutopilotAsluav,
    MavAutopilotSmartap,
    MavAutopilotAirrails,
    MavAutopilotReflex,
}

/// Number of codes of `MavAutopilot`.
pub const MAV_AUTOPILOT_COUNT: u8 = 21;

impl Default for MavAutopilot {
    fn default() -> (r: Self)
        ensures
            r == MavAutopilot::MavAutopilotGeneric,
    {
        MavAutopilot::MavAutopilotGeneric
    }
}

impl MavAutopilot {
    /// The wire code of the variant.
    pub open spec fn spec_code(self) -> u8 {
        match self {
            MavAutopilot::MavAutopilotGeneric => 0,
            MavAutopilot::MavAutopilotReserved => 1,
            MavAutopilot::MavAutopilotSlugs => 2,
            MavAutopilot::MavAutopilotArdupilotmega => 3,
            MavAutopilot::MavAutopilotOpenpilot => 4,
            MavAutopilot::MavAutopilotGenericWaypointsOnly => 5,
            MavAutopilot::MavAutopilotGenericWaypointsAndSimpleNavigationOnly => 6,
            MavAutopilot::MavAutopilotGenericMissionFull => 7,
            MavAutopilot::MavAutopilotInvalid => 8,
            MavAutopilot::MavAutopilotPpz => 9,
            MavAutopilot::MavAutopilotUdb => 10,
            MavAutopilot::MavAutopilotFp => 11,
            MavAutopilot::MavAutopilotPx4 => 12,
            MavAutopilot::MavAutopilotSmaccmpilot => 13,
            MavAutopilot::MavAutopilotAutoquad => 14,
            MavAutopilot::MavAutopilotArmazila => 15,
            MavAutopilot::MavAutopilotAerob => 16,
            MavAutopilot::MavAutopilotAsluav => 17,
            MavAutopilot::MavAutopilotSmartap => 18,
            MavAutopilot::MavAutopilotAirrails => 19,
            MavAutopilot::MavAutopilotReflex => 20,
        }
    }

    /// The variant a wire code reads as.
    pub open spec fn spec_from_code(code: u8) -> Self {
        match code {
            0 => MavAutopilot::MavAutopilotGeneric,
            1 => MavAutopilot::MavAutopilotReserved,
            2 => MavAutopilot::MavAutopilotSlugs,
            3 => MavAutopilot::MavAutopilotArdupilotmega,
            4 => MavAutopilot::MavAutopilotOpenpilot,
            5 => MavAutopilot::MavAutopilotGenericWaypointsOnly,
            6 => MavAutopilot::MavAutopilotGenericWaypointsAndSimpleNavigationOnly,
            7 => MavAutopilot::MavAutopilotGenericMissionFull,
            8 => MavAutopilot::MavAutopilotInvalid,
            9 => MavAutopilot::MavAutopilotPpz,
            10 => MavAutopilot::MavAutopilotUdb,
            11 => MavAutopilot::MavAutopilotFp,
            12 => MavAutopilot::MavAutopilotPx4,
            13 => MavAutopilot::MavAutopilotSmaccmpilot,
            14 => MavAutopilot::MavAutopilotAutoquad,
            15 => MavAutopilot::MavAutopilotArmazila,
            16 => MavAutopilot::MavAutopilotAerob,
            17 => MavAutopilot::MavAutopilotAsluav,
            18 => MavAutopilot::MavAutopilotSmartap,
            19 => MavAutopilot::MavAutopilotAirrails,
            20 => MavAutopilot::MavAutopilotReflex,
            _ => MavAutopilot::MavAutopilotGeneric,
        }
    }

    pub fn code(&self) -> (r: u8)
        ensures
            r == self.spec_code(),
            r < MAV_AUTOPILOT_COUNT,
    {
        match self {
            MavAutopilot::MavAutopilotGeneric => 0,
            MavAutopilot::MavAutopilotReserved => 1,
            MavAutopilot::MavAutopilotSlugs => 2,
            MavAutopilot::MavAutopilotArdupilotmega => 3,
            MavAutopilot::MavAutopilotOpenpilot => 4,
            MavAutopilot::MavAutopilotGenericWaypointsOnly => 5,
            MavAutopilot::MavAutopilotGenericWaypointsAndSimpleNavigationOnly => 6,
            MavAutopilot::MavAutopilotGenericMissionFull => 7,
            MavAutopilot::MavAutopilotInvalid => 8,
            MavAutopilot::MavAutopilotPpz => 9,
            MavAutopilot::MavAutopilotUdb => 10,
            MavAutopilot::MavAutopilotFp => 11,
            MavAutopilot::MavAutopilotPx4 => 12,
            MavAutopilot::MavAutopilotSmaccmpilot => 13,
            MavAutopilot::MavAutopilotAutoquad => 14,
            MavAutopilot::MavAutopilotArmazila => 15,
            MavAutopilot::MavAutopilotAerob => 16,
            MavAutopilot::MavAutopilotAsluav => 17,
            MavAutopilot::MavAutopilotSmartap => 18,
            MavAutopilot::MavAutopilotAirrails => 19,
            MavAutopilot::MavAutopilotReflex => 20,
        }
    }

    pub fn from_code(code: u8) -> (r: Self)
        ensures
            r == Self::spec_from_code(code),
            code < MAV_AUTOPILOT_COUNT ==> r.spec_code() == code,
    {
        match code {
            0 => MavAutopilot::MavAutopilotGeneric,
            1 => MavAutopilot::MavAutopilotReserved,
            2 => MavAutopilot::MavAutopilotSlugs,
            3 => MavAutopilot::MavAutopilotArdupilotmega,
            4 => MavAutopilot::MavAutopilotOpenpilot,
            5 => MavAutopilot::MavAutopilotGenericWaypointsOnly,
            6 => MavAutopilot::MavAutopilotGenericWaypointsAndSimpleNavigationOnly,
            7 => MavAutopilot::MavAutopilotGenericMissionFull,
            8 => MavAutopilot::MavAutopilotInvalid,
            9 => MavAutopilot::MavAutopilotPpz,
            10 => MavAutopilot::MavAutopilotUdb,
            11 => MavAutopilot::MavAutopilotFp,
            12 => MavAutopilot::MavAutopilotPx4,
            13 => MavAutopilot::MavAutopilotSmaccmpilot,
            14 => MavAutopilot::MavAutopilotAutoquad,
            15 => MavAutopilot::MavAutopilotArmazila,
            16 => MavAutopilot::MavAutopilotAerob,
            17 => MavAutopilot::MavAutopilotAsluav,
            18 => MavAutopilot::MavAutopilotSmartap,
            19 => MavAutopilot::MavAutopilotAirrails,
            20 => MavAutopilot::MavAutopilotReflex,
            _ => MavAutopilot::MavAutopilotGeneric,
        }
    }
}

/// System status.
#[derive(Debug, Clone, Copy, PartialEq, Eq, Structural)]
pub enum MavState {
    MavStateUninit,
    MavStateBoot,
    MavStateCalibrating,
    MavStateStandby,
    MavStateActive,
    MavStateCritical,
    MavStateEmergency,
    MavStatePoweroff,
    MavStateFlightTermination,
}

/// Number of codes of `MavState`.
pub const MAV_STATE_COUNT: u8 = 9;

impl Default for MavState {
    fn default() -> (r: Self)
        ensures
            r == MavState::MavStateUninit,
    {
        MavState::MavStateUninit
    }
}

impl MavState {
    /// The wire code of the variant.
    pub open spec fn spec_code(self) -> u8 {
        match self {
            MavState::MavStateUninit => 0,
            MavState::MavStateBoot => 1,
            MavState::MavStateCalibrating => 2,
            MavState::MavStateStandby => 3,
            MavState::MavStateActive => 4,
            MavState::MavStateCritical => 5,
            MavState::MavStateEmergency => 6,
            MavState::MavStatePoweroff => 7,
            MavState::MavStateFlightTermination => 8,
        }
    }

    /// The variant a wire code reads as.
    pub open spec fn spec_from_code(code: u8) -> Self {
        match code {
            0 => MavState::MavStateUninit,
            1 => MavState::MavStateBoot,
            2 => MavState::MavStateCalibrating,
            3 => MavState::MavStateStandby,
            4 => MavState::MavStateActive,
            5 => MavState::MavStateCritical,
            6 => MavState::MavStateEmergency,
            7 => MavState::MavStatePoweroff,
            8 => MavState::MavStateFlightTermination,
            _ => MavState::MavStateUninit,
        }
    }

    pub fn code(&self) -> (r: u8)
        ensures
            r == self.spec_code(),
            r < MAV_STATE_COUNT,
    {
        match self {
            MavState::MavStateUninit => 0,
            MavState::MavStateBoot => 1,
            MavState::MavStateCalibrating => 2,
            MavState::MavStateStandby => 3,
            MavState::MavStateActive => 4,
            MavState::MavStateCritical => 5,
            MavState::MavStateEmergency => 6,
            MavState::MavStatePoweroff => 7,
            MavState::MavStateFlightTermination => 8,
        }
    }

    pub fn from_code(code: u8) -> (r: Self)
        ensures
            r == Self::spec_from_code(code),
            code < MAV_STATE_COUNT ==> r.spec_code() == code,
    {
        match code {
            0 => MavState::MavStateUninit,
            1 => MavState::MavStateBoot,
            2 => MavState::MavStateCalibrating,
            3 => MavState::MavStateStandby,
            4 => MavState::MavStateActive,
            5 => MavState::MavStateCritical,
            6 => MavState::MavStateEmergency,
            7 => MavState::MavStatePoweroff,
            8 => MavState::MavStateFlightTermination,
            _ => MavState::MavStateUninit,
        }
    }
}

} // verus!
