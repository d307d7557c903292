//! Enumerations mirroring the categories the foreign reader library reports:
//! chromatogram trace types, ionization modes, MS orders and mass analyzers.
//!
//! The foreign side transmits each category as a small integer code; the
//! `From` conversions map a received code onto the matching variant, folding
//! every unknown code onto the designated catch-all variant.

use vstd::prelude::*;

verus! {

/// The different types of chromatogram traces the foreign reader library
/// covers.  Not all variants are supported by this crate itself.
#[derive(Debug, Clone, Copy, PartialEq, Eq, Hash, Structural)]
pub enum TraceType {
    StartMSChromatogramTraces,
    MassRange,
    TIC,
    BasePeak,
    Fragment,
    Custom,
    PrecursorMass,
    EndMSChromatogramTraces,
    StartAnalogChromatogramTraces,
    Analog1,
    Analog2,
    Analog3,
    Analog4,
    Analog5,
    Analog6,
    Analog7,
    Analog8,
    EndAnalogChromatogramTraces,
    StartPDAChromatogramTraces,
    WavelengthRange,
    TotalAbsorbance,
    SpectrumMax,
    EndPDAChromatogramTraces,
    StartUVChromatogramTraces,
    ChannelA,
    ChannelB,
    ChannelC,
    ChannelD,
    ChannelE,
    ChannelF,
    ChannelG,
    ChannelH,
    EndUVChromatogramTraces,
    StartPCA2DChromatogramTraces,
    A2DChannel1,
    A2DChannel2,
    A2DChannel3,
    A2DChannel4,
    A2DChannel5,
    A2DChannel6,
    A2DChannel7,
    A2DChannel8,
    EndPCA2DChromatogramTraces,
    EndAllChromatogramTraces,
}

/// The trace type a signed 16-bit trace code denotes; codes outside the
/// documented table fold onto `EndAllChromatogramTraces`.
pub open spec fn trace_type_of_code(value: i16) -> TraceType {
    if value == -1 {
        TraceType::StartMSChromatogramTraces
    } else if value == 0 {
        TraceType::MassRange
    } else if value == 1 {
        TraceType::TIC
    } else if value == 2 {
        TraceType::BasePeak
    } else if value == 3 {
        TraceType::Fragment
    } else if value == 4 {
        TraceType::Custom
    } else if value == 5 {
        TraceType::PrecursorMass
    } else if value == 6 {
        TraceType::EndMSChromatogramTraces
    } else if value == 10 {
        TraceType::StartAnalogChromatogramTraces
    } else if value == 11 {
        TraceType::Analog1
    } else if value == 12 {
        TraceType::Analog2
    } else if value == 13 {
        TraceType::Analog3
    } else if value == 14 {
        TraceType::Analog4
    } else if value == 15 {
        TraceType::Analog5
    } else if value == 16 {
        TraceType::Analog6
    } else if value == 17 {
        TraceType::Analog7
    } else if value == 18 {
        TraceType::Analog8
    } else if value == 19 {
        TraceType::EndAnalogChromatogramTraces
    } else if value == 20 {
        TraceType::StartPDAChromatogramTraces
    } else if value == 21 {
        TraceType::WavelengthRange
    } else if value == 22 {
        TraceType::TotalAbsorbance
    } else if value == 23 {
        TraceType::SpectrumMax
    } else if value == 24 {
        TraceType::EndPDAChromatogramTraces
    } else if value == 30 {
        TraceType::StartUVChromatogramTraces
    } else if value == 31 {
        TraceType::ChannelA
    } else if value == 32 {
        TraceType::ChannelB
    } else if value == 33 {
        TraceType::ChannelC
    } else if value == 34 {
        TraceType::ChannelD
    } else if value == 35 {
        TraceType::ChannelE
    } else if value == 36 {
        TraceType::ChannelF
    } else if value == 37 {
        TraceType::ChannelG
    } else if value == 38 {
        TraceType::ChannelH
    } else if value == 39 {
        TraceType::EndUVChromatogramTraces
    } else if value == 40 {
        TraceType::StartPCA2DChromatogramTraces
    } else if value == 41 {
        TraceType::A2DChannel1
    } else if value == 42 {
        TraceType::A2DChannel2
    } else if value == 43 {
        TraceType::A2DChannel3
    } else if value == 44 {
        TraceType::A2DChannel4
    } else if value == 45 {
        TraceType::A2DChannel5
    } else if value == 46 {
        TraceType::A2DChannel6
    } else if value == 47 {
        TraceType::A2DChannel7
    } else if value == 48 {
        TraceType::A2DChannel8
    } else if value == 49 {
        TraceType::EndPCA2DChromatogramTraces
    } else {
        TraceType::EndAllChromatogramTraces
    }
}

impl From<i16> for TraceType {
    fn from(value: i16) -> (r: Self) {
        if value == -1 {
            TraceType::StartMSChromatogramTraces
        } else if value == 0 {
            TraceType::MassRange
        } else if value == 1 {
            TraceType::TIC
        } else if value == 2 {
            TraceType::BasePeak
        } else if value == 3 {
            TraceType::Fragment
        } else if value == 4 {
            TraceType::Custom
        } else if value == 5 {
            TraceType::PrecursorMass
        } else if value == 6 {
            TraceType::EndMSChromatogramTraces
        } else if value == 10 {
            TraceType::StartAnalogChromatogramTraces
        } else if value == 11 {
            TraceType::Analog1
        } else if value == 12 {
            TraceType::Analog2
        } else if value == 13 {
            TraceType::Analog3
        } else if value == 14 {
            TraceType::Analog4
        } else if value == 15 {
            TraceType::Analog5
        } else if value == 16 {
            TraceType::Analog6
        } else if value == 17 {
            TraceType::Analog7
        } else if value == 18 {
            TraceType::Analog8
        } else if value == 19 {
            TraceType::EndAnalogChromatogramTraces
        } else if value == 20 {
            TraceType::StartPDAChromatogramTraces
        } else if value == 21 {
            TraceType::WavelengthRange
        } else if value == 22 {
            TraceType::TotalAbsorbance
        } else if value == 23 {
            TraceType::SpectrumMax
        } else if value == 24 {
            TraceType::EndPDAChromatogramTraces
        } else if value == 30 {
            TraceType::StartUVChromatogramTraces
        } else if value == 31 {
            TraceType::ChannelA
        } else if value == 32 {
            TraceType::ChannelB
        } else if value == 33 {
            TraceType::ChannelC
        } else if value == 34 {
            TraceType::ChannelD
        } else if value == 35 {
            TraceType::ChannelE
        } else if value == 36 {
            TraceType::ChannelF
        } else if value == 37 {
            TraceType::ChannelG
        } else if value == 38 {
            TraceType::ChannelH
        } else if value == 39 {
            TraceType::EndUVChromatogramTraces
        } else if value == 40 {
            TraceType::StartPCA2DChromatogramTraces
        } else if value == 41 {
            TraceType::A2DChannel1
        } else if value == 42 {
            TraceType::A2DChannel2
        } else if value == 43 {
            TraceType::A2DChannel3
        } else if value == 44 {
            TraceType::A2DChannel4
        } else if value == 45 {
            TraceType::A2DChannel5
        } else if value == 46 {
            TraceType::A2DChannel6
        } else if value == 47 {
            TraceType::A2DChannel7
        } else if value == 48 {
            TraceType::A2DChannel8
        } else if value == 49 {
            TraceType::EndPCA2DChromatogramTraces
        } else {
            TraceType::EndAllChromatogramTraces
        }
    }
}

impl vstd::std_specs::convert::FromSpecImpl<i16> for TraceType {
    open spec fn obeys_from_spec() -> bool {
        true
    }

    open spec fn from_spec(v: i16) -> Self {
        trace_type_of_code(v)
    }
}

/// The different ionization modes the foreign reader library covers.
#[derive(Debug, Clone, Copy, PartialEq, Eq, Hash, Structural)]
pub enum IonizationMode {
    ElectronImpact,
    ChemicalIonization,
    FastAtomBombardment,
    ElectroSpray,
    AtmosphericPressureChemicalIonization,
    NanoSpray,
    ThermoSpray,
    FieldDesorption,
    MatrixAssistedLaserDesorptionIonization,
    GlowDischarge,
    Any,
    PaperSprayIonization,
    CardNanoSprayIonization,
    IonizationMode1,
    IonizationMode2,
    IonizationMode3,
    IonizationMode4,
    IonizationMode5,
    IonizationMode6,
    IonizationMode7,
    IonizationMode8,
    IonizationMode9,
    IonModeBeyondKnown,
}

/// The ionization mode an 8-bit code denotes; codes above the documented
/// table fold onto `IonModeBeyondKnown`.
pub open spec fn ionization_mode_of_code(value: u8) -> IonizationMode {
    if value == 0 {
        IonizationMode::ElectronImpact
    } else if value == 1 {
        IonizationMode::ChemicalIonization
    } else if value == 2 {
        IonizationMode::FastAtomBombardment
    } else if value == 3 {
        IonizationMode::ElectroSpray
    } else if value == 4 {
        IonizationMode::AtmosphericPressureChemicalIonization
    } else if value == 5 {
        IonizationMode::NanoSpray
    } else if value == 6 {
        IonizationMode::ThermoSpray
    } else if value == 7 {
        IonizationMode::FieldDesorption
    } else if value == 8 {
        IonizationMode::MatrixAssistedLaserDesorptionIonization
    } else if value == 9 {
        IonizationMode::GlowDischarge
    } else if value == 10 {
        IonizationMode::Any
    } else if value == 11 {
        IonizationMode::PaperSprayIonization
    } else if value == 12 {
        IonizationMode::CardNanoSprayIonization
    } else if value == 13 {
        IonizationMode::IonizationMode1
    } else if value == 14 {
        IonizationMode::IonizationMode2
    } else if value == 15 {
        IonizationMode::IonizationMode3
    } else if value == 16 {
        IonizationMode::IonizationMode4
    } else if value == 17 {
        IonizationMode::IonizationMode5
    } else if value == 18 {
        IonizationMode::IonizationMode6
    } else if value == 19 {
        IonizationMode::IonizationMode7
    } else if value == 20 {
        IonizationMode::IonizationMode8
    } else if value == 21 {
        IonizationMode::IonizationMode9
    } else {
        IonizationMode::IonModeBeyondKnown
    }
}

impl From<u8> for IonizationMode {
    fn from(value: u8) -> (r: Self) {
        if value == 0 {
            IonizationMode::ElectronImpact
        } else if value == 1 {
            IonizationMode::ChemicalIonization
        } else if value == 2 {
            IonizationMode::FastAtomBombardment
        } else if value == 3 {
            IonizationMode::ElectroSpray
        } else if value == 4 {
            IonizationMode::AtmosphericPressureChemicalIonization
        } else if value == 5 {
            IonizationMode::NanoSpray
        } else if value == 6 {
            IonizationMode::ThermoSpray
        } else if value == 7 {
            IonizationMode::FieldDesorption
        } else if value == 8 {
            IonizationMode::MatrixAssistedLaserDesorptionIonization
        } else if value == 9 {
            IonizationMode::GlowDischarge
        } else if value == 10 {
            IonizationMode::Any
        } else if value == 11 {
            IonizationMode::PaperSprayIonization
        } else if value == 12 {
            IonizationMode::CardNanoSprayIonization
        } else if value == 13 {
            IonizationMode::IonizationMode1
        } else if value == 14 {
            IonizationMode::IonizationMode2
        } else if value == 15 {
            IonizationMode::IonizationMode3
        } else if value == 16 {
            IonizationMode::IonizationMode4
        } else if value == 17 {
            IonizationMode::IonizationMode5
        } else if value == 18 {
            IonizationMode::IonizationMode6
        } else if value == 19 {
            IonizationMode::IonizationMode7
        } else if value == 20 {
            IonizationMode::IonizationMode8
        } else if value == 21 {
            IonizationMode::IonizationMode9
        } else {
            IonizationMode::IonModeBeyondKnown
        }
    }
}

impl vstd::std_specs::convert::FromSpecImpl<u8> for IonizationMode {
    open spec fn obeys_from_spec() -> bool {
        true
    }

    open spec fn from_spec(v: u8) -> Self {
        ionization_mode_of_code(v)
    }
}

/// The MS exponentiation orders the foreign reader library covers.
#[derive(Debug, Clone, Copy, PartialEq, Eq, Hash, Structural)]
pub enum MSOrder {
    NeutralGain,
    NeutralLoss,
    ParentScan,
    Any,
    MS,
    MS2,
    MS3,
    MS4,
    MS5,
    MS6,
    MS7,
    MS8,
    MS9,
    MS10,
    Unknown,
}

/// The MS order a signed 16-bit code denotes; codes outside the documented
/// table fold onto `Unknown`.
pub open spec fn ms_order_of_code(value: i16) -> MSOrder {
    if value == -3 {
        MSOrder::NeutralGain
    } else if value == -2 {
        MSOrder::NeutralLoss
    } else if value == -1 {
        MSOrder::ParentScan
    } else if value == 0 {
        MSOrder::Any
    } else if value == 1 {
        MSOrder::MS
    } else if value == 2 {
        MSOrder::MS2
    } else if value == 3 {
        MSOrder::MS3
    } else if value == 4 {
        MSOrder::MS4
    } else if value == 5 {
        MSOrder::MS5
    } else if value == 6 {
        MSOrder::MS6
    } else if value == 7 {
        MSOrder::MS7
    } else if value == 8 {
        MSOrder::MS8
    } else if value == 9 {
        MSOrder::MS9
    } else if value == 10 {
        MSOrder::MS10
    } else {
        MSOrder::Unknown
    }
}

impl From<i16> for MSOrder {
    fn from(value: i16) -> (r: Self) {
        if value == -3 {
            MSOrder::NeutralGain
        } else if value == -2 {
            MSOrder::NeutralLoss
        } else if value == -1 {
            MSOrder::ParentScan
        } else if value == 0 {
            MSOrder::Any
        } else if value == 1 {
            MSOrder::MS
        } else if value == 2 {
            MSOrder::MS2
        } else if value == 3 {
            MSOrder::MS3
        } else if value == 4 {
            MSOrder::MS4
        } else if value == 5 {
            MSOrder::MS5
        } else if value == 6 {
            MSOrder::MS6
        } else if value == 7 {
            MSOrder::MS7
        } else if value == 8 {
            MSOrder::MS8
        } else if value == 9 {
            MSOrder::MS9
        } else if value == 10 {
            MSOrder::MS10
        } else {
            MSOrder::Unknown
        }
    }
}

impl vstd::std_specs::convert::FromSpecImpl<i16> for MSOrder {
    open spec fn obeys_from_spec() -> bool {
        true
    }

    open spec fn from_spec(v: i16) -> Self {
        ms_order_of_code(v)
    }
}

/// The different mass analyzers the foreign reader library covers.
#[derive(Debug, Clone, Copy, PartialEq, Eq, Hash, Structural)]
pub enum MassAnalyzer {
    Unknown,
    ITMS,
    TQMS,
    SQMS,
    TOFMS,
    FTMS,
    Sector,
    ASTMS,
}

/// The mass analyzer an 8-bit code denotes; codes above the documented table
/// fold onto `Unknown`.
pub open spec fn mass_analyzer_of_code(value: u8) -> MassAnalyzer {
    if value == 1 {
        MassAnalyzer::ITMS
    } else if value == 2 {
        MassAnalyzer::TQMS
    } else if value == 3 {
        MassAnalyzer::SQMS
    } else if value == 4 {
        MassAnalyzer::TOFMS
    } else if value == 5 {
        MassAnalyzer::FTMS
    } else if value == 6 {
        MassAnalyzer::Sector
    } else if value == 7 {
        MassAnalyzer::ASTMS
    } else {
        MassAnalyzer::Unknown
    }
}

impl From<u8> for MassAnalyzer {
    fn from(value: u8) -> (r: Self) {
        if value == 1 {
            MassAnalyzer::ITMS
        } else if value == 2 {
            MassAnalyzer::TQMS
        } else if value == 3 {
            MassAnalyzer::SQMS
        } else if value == 4 {
            MassAnalyzer::TOFMS
        } else if value == 5 {
            MassAnalyzer::FTMS
        } else if value == 6 {
            MassAnalyzer::Sector
        } else if value == 7 {
            MassAnalyzer::ASTMS
        } else {
            MassAnalyzer::Unknown
        }
    }
}

impl vstd::std_specs::convert::FromSpecImpl<u8> for MassAnalyzer {
    open spec fn obeys_from_spec() -> bool {
        true
    }

    open spec fn from_spec(v: u8) -> Self {
        mass_analyzer_of_code(v)
    }
}

} // verus!
