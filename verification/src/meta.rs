//! The conversion rules that turn reader records into the standard
//! controlled-vocabulary metadata a downstream mass-spectrometry library
//! expects: which term each ionization mode, analyzer and activation method
//! maps onto, how the instrument component list is assembled, and which
//! content categories a resource carries.
//!
//! Everything here is a decision over plain values; the structures these
//! decisions populate live with the caller.

use vstd::prelude::*;
use vstd::string::StringExecFns;

use crate::constants::{IonizationMode, MassAnalyzer};
use crate::records::{DissociationMethod, InstrumentConfiguration, Polarity, SpectrumMode};

verus! {

/// The polarity category of a converted spectrum.
#[derive(Debug, Clone, Copy, PartialEq, Eq, Structural)]
pub enum ScanPolarity {
    Unknown,
    Positive,
    Negative,
}

/// The signal-continuity category of a converted spectrum.
#[derive(Debug, Clone, Copy, PartialEq, Eq, Structural)]
pub enum SignalContinuity {
    Unknown,
    Centroid,
    Profile,
}

/// The polarity category each reported polarity maps onto.
pub open spec fn scan_polarity_spec(p: Polarity) -> ScanPolarity {
    match p {
        Polarity::Negative => ScanPolarity::Negative,
        Polarity::Positive => ScanPolarity::Positive,
        Polarity::Unknown => ScanPolarity::Unknown,
    }
}

/// Translate a reported polarity into the converted category.
pub fn scan_polarity_of(p: Polarity) -> (r: ScanPolarity)
    ensures
        r == scan_polarity_spec(p),
{
    match p {
        Polarity::Negative => ScanPolarity::Negative,
        Polarity::Positive => ScanPolarity::Positive,
        Polarity::Unknown => ScanPolarity::Unknown,
    }
}

/// The continuity category each reported spectrum mode maps onto.
pub open spec fn signal_continuity_spec(m: SpectrumMode) -> SignalContinuity {
    match m {
        SpectrumMode::Centroid => SignalContinuity::Centroid,
        SpectrumMode::Profile => SignalContinuity::Profile,
        SpectrumMode::Unknown => SignalContinuity::Unknown,
    }
}

/// Translate a reported spectrum mode into the converted category.
pub fn signal_continuity_of(m: SpectrumMode) -> (r: SignalContinuity)
    ensures
        r == signal_continuity_spec(m),
{
    match m {
        SpectrumMode::Centroid => SignalContinuity::Centroid,
        SpectrumMode::Profile => SignalContinuity::Profile,
        SpectrumMode::Unknown => SignalContinuity::Unknown,
    }
}

/// The activation methods the conversion vocabulary distinguishes.
#[derive(Debug, Clone, Copy, PartialEq, Eq, Structural)]
pub enum ActivationMethod {
    CollisionInducedDissociation,
    BeamTypeCollisionInducedDissociation,
    ElectronCaptureDissociation,
    ElectronTransferDissociation,
    NegativeElectronTransferDissociation,
    SupplementalBeamTypeCollisionInducedDissociation,
    SupplementalCollisionInducedDissociation,
}

/// The primary activation method, and the supplemental one where the
/// dissociation combines two, for each dissociation method.  Methods outside
/// the table fall back to plain collision-induced dissociation.
pub open spec fn activation_spec(m: DissociationMethod) -> (
    ActivationMethod,
    Option<ActivationMethod>,
) {
    match m {
        DissociationMethod::CID => (ActivationMethod::CollisionInducedDissociation, None),
        DissociationMethod::HCD => (ActivationMethod::BeamTypeCollisionInducedDissociation, None),
        DissociationMethod::ECD => (ActivationMethod::ElectronCaptureDissociation, None),
        DissociationMethod::ETD => (ActivationMethod::ElectronTransferDissociation, None),
        DissociationMethod::ETHCD => (
            ActivationMethod::ElectronTransferDissociation,
            Some(ActivationMethod::SupplementalBeamTypeCollisionInducedDissociation),
        ),
        DissociationMethod::ETCID => (
            ActivationMethod::ElectronTransferDissociation,
            Some(ActivationMethod::SupplementalCollisionInducedDissociation),
        ),
        DissociationMethod::NETD => (
            ActivationMethod::NegativeElectronTransferDissociation,
            None,
        ),
        DissociationMethod::ECCID => (
            ActivationMethod::ElectronCaptureDissociation,
            Some(ActivationMethod::SupplementalCollisionInducedDissociation),
        ),
        DissociationMethod::ECHCD => (
            ActivationMethod::ElectronCaptureDissociation,
            Some(ActivationMethod::SupplementalBeamTypeCollisionInducedDissociation),
        ),
        _ => (ActivationMethod::CollisionInducedDissociation, None),
    }
}

/// Translate a dissociation method into the activation method(s) recorded on
/// the converted precursor.  Multi-photon and photon-transfer dissociation
/// have no mapping yet and are left out.
pub fn activation_of(m: DissociationMethod) -> (r: (ActivationMethod, Option<ActivationMethod>))
    requires
        !(m is MPD),
        !(m is PTD),
    ensures
        r == activation_spec(m),
{
    match m {
        DissociationMethod::CID => (ActivationMethod::CollisionInducedDissociation, None),
        DissociationMethod::HCD => (ActivationMethod::BeamTypeCollisionInducedDissociation, None),
        DissociationMethod::ECD => (ActivationMethod::ElectronCaptureDissociation, None),
        DissociationMethod::ETD => (ActivationMethod::ElectronTransferDissociation, None),
        DissociationMethod::ETHCD => (
            ActivationMethod::ElectronTransferDissociation,
            Some(ActivationMethod::SupplementalBeamTypeCollisionInducedDissociation),
        ),
        DissociationMethod::ETCID => (
            ActivationMethod::ElectronTransferDissociation,
            Some(ActivationMethod::SupplementalCollisionInducedDissociation),
        ),
        DissociationMethod::NETD => (
            ActivationMethod::NegativeElectronTransferDissociation,
            None,
        ),
        DissociationMethod::ECCID => (
            ActivationMethod::ElectronCaptureDissociation,
            Some(ActivationMethod::SupplementalCollisionInducedDissociation),
        ),
        DissociationMethod::ECHCD => (
            ActivationMethod::ElectronCaptureDissociation,
            Some(ActivationMethod::SupplementalBeamTypeCollisionInducedDissociation),
        ),
        _ => (ActivationMethod::CollisionInducedDissociation, None),
    }
}

/// One controlled-vocabulary parameter: an accession number and the term
/// name it stands for.
#[derive(Debug, Clone, PartialEq, Eq)]
pub struct CvParam {
    /// The accession number of the term.
    pub accession: u32,
    /// The term's name.
    pub name: String,
}

/// The accession/name pair a parameter carries.
pub open spec fn cv_of(p: CvParam) -> (u32, Seq<char>) {
    (p.accession, p.name@)
}

/// The kinds of instrument components the converted configuration lists.
#[derive(Debug, Clone, Copy, PartialEq, Eq, Structural)]
pub enum ComponentType {
    IonSource,
    Analyzer,
    Detector,
}

/// One instrument component of a converted configuration: its position in
/// the path, its kind, and the vocabulary terms describing it.
#[derive(Debug, Clone, PartialEq, Eq)]
pub struct Component {
    /// The position of the component in the instrument path.
    pub order: u32,
    /// Which kind of component this is.
    pub component_type: ComponentType,
    /// The vocabulary terms describing the component.
    pub params: Vec<CvParam>,
}

/// The inlet term an ionization mode implies, where it implies one.
pub open spec fn inlet_param_spec(m: IonizationMode) -> Option<(u32, Seq<char>)> {
    match m {
        IonizationMode::CardNanoSprayIonization => Some((1000485u32, "nanospray inlet"@)),
        IonizationMode::NanoSpray => Some((1000485u32, "nanospray inlet"@)),
        IonizationMode::ElectroSpray => Some((1000057u32, "electrospray inlet"@)),
        IonizationMode::ThermoSpray => Some((1000069u32, "thermospray inlet"@)),
        IonizationMode::FastAtomBombardment => Some(
            (1000055u32, "continuous flow fast atom bombardment"@),
        ),
        _ => None,
    }
}

/// The inlet term of an ionization mode, for the modes that determine one.
pub fn inlet_param(m: IonizationMode) -> (r: Option<CvParam>)
    ensures
        (r is Some) <==> (inlet_param_spec(m) is Some),
        r matches Some(p) ==> cv_of(p) == inlet_param_spec(m).unwrap(),
{
    match m {
        IonizationMode::CardNanoSprayIonization => Some(
            CvParam { accession: 1000485, name: "nanospray inlet".to_owned() },
        ),
        IonizationMode::NanoSpray => Some(
            CvParam { accession: 1000485, name: "nanospray inlet".to_owned() },
        ),
        IonizationMode::ElectroSpray => Some(
            CvParam { accession: 1000057, name: "electrospray inlet".to_owned() },
        ),
        IonizationMode::ThermoSpray => Some(
            CvParam { accession: 1000069, name: "thermospray inlet".to_owned() },
        ),
        IonizationMode::FastAtomBombardment => Some(
            CvParam {
                accession: 1000055,
                name: "continuous flow fast atom bombardment".to_owned(),
            },
        ),
        _ => None,
    }
}

/// The ionization term each ionization mode maps onto; modes without a
/// specific term fall back to the generic one.
pub open spec fn ionization_param_spec(m: IonizationMode) -> (u32, Seq<char>) {
    match m {
        IonizationMode::CardNanoSprayIonization => (1000398u32, "nanoelectrospray"@),
        IonizationMode::NanoSpray => (1000398u32, "nanoelectrospray"@),
        IonizationMode::ElectroSpray => (1000073u32, "electrospray ionization"@),
        IonizationMode::AtmosphericPressureChemicalIonization => (
            1000070u32,
            "atmospheric pressure chemical ionization"@,
        ),
        IonizationMode::FastAtomBombardment => (
            1000074u32,
            "fast atom bombardment ionization"@,
        ),
        IonizationMode::GlowDischarge => (1000259u32, "glow discharge ionization"@),
        IonizationMode::ElectronImpact => (1000389u32, "electron ionization"@),
        IonizationMode::MatrixAssistedLaserDesorptionIonization => (
            1000075u32,
            "matrix-assisted laser desorption ionization"@,
        ),
        IonizationMode::ChemicalIonization => (1000071u32, "chemical ionization"@),
        _ => (1000008u32, "ionization type"@),
    }
}

/// The ionization term of an ionization mode.
pub fn ionization_param(m: IonizationMode) -> (r: CvParam)
    ensures
        cv_of(r) == ionization_param_spec(m),
{
    match m {
        IonizationMode::CardNanoSprayIonization => CvParam {
            accession: 1000398,
            name: "nanoelectrospray".to_owned(),
        },
        IonizationMode::NanoSpray => CvParam {
            accession: 1000398,
            name: "nanoelectrospray".to_owned(),
        },
        IonizationMode::ElectroSpray => CvParam {
            accession: 1000073,
            name: "electrospray ionization".to_owned(),
        },
        IonizationMode::AtmosphericPressureChemicalIonization => CvParam {
            accession: 1000070,
            name: "atmospheric pressure chemical ionization".to_owned(),
        },
        IonizationMode::FastAtomBombardment => CvParam {
            accession: 1000074,
            name: "fast atom bombardment ionization".to_owned(),
        },
        IonizationMode::GlowDischarge => CvParam {
            accession: 1000259,
            name: "glow discharge ionization".to_owned(),
        },
        IonizationMode::ElectronImpact => CvParam {
            accession: 1000389,
            name: "electron ionization".to_owned(),
        },
        IonizationMode::MatrixAssistedLaserDesorptionIonization => CvParam {
            accession: 1000075,
            name: "matrix-assisted laser desorption ionization".to_owned(),
        },
        IonizationMode::ChemicalIonization => CvParam {
            accession: 1000071,
            name: "chemical ionization".to_owned(),
        },
        _ => CvParam { accession: 1000008, name: "ionization type".to_owned() },
    }
}

/// The analyzer term each mass analyzer maps onto; analyzers without a
/// specific term fall back to the generic one.
pub open spec fn analyzer_param_spec(a: MassAnalyzer) -> (u32, Seq<char>) {
    match a {
        MassAnalyzer::ITMS => (1000083u32, "radial ejection linear ion trap"@),
        MassAnalyzer::FTMS => (1000484u32, "orbitrap"@),
        MassAnalyzer::ASTMS => (
            1003379u32,
            "asymmetric track lossless time-of-flight analyzer"@,
        ),
        _ => (1000443u32, "mass analyzer type"@),
    }
}

/// The analyzer term of a mass analyzer.
pub fn analyzer_param(a: MassAnalyzer) -> (r: CvParam)
    ensures
        cv_of(r) == analyzer_param_spec(a),
{
    match a {
        MassAnalyzer::ITMS => CvParam {
            accession: 1000083,
            name: "radial ejection linear ion trap".to_owned(),
        },
        MassAnalyzer::FTMS => CvParam { accession: 1000484, name: "orbitrap".to_owned() },
        MassAnalyzer::ASTMS => CvParam {
            accession: 1003379,
            name: "asymmetric track lossless time-of-flight analyzer".to_owned(),
        },
        _ => CvParam { accession: 1000443, name: "mass analyzer type".to_owned() },
    }
}

/// The detector term each mass analyzer implies; analyzers without a
/// specific detector fall back to the generic term.
pub open spec fn detector_param_spec(a: MassAnalyzer) -> (u32, Seq<char>) {
    match a {
        MassAnalyzer::ITMS => (1000253u32, "electron multiplier"@),
        MassAnalyzer::ASTMS => (1000253u32, "electron multiplier"@),
        MassAnalyzer::FTMS => (1000624u32, "inductive detector"@),
        _ => (1000026u32, "detector type"@),
    }
}

/// The detector term implied by a mass analyzer.
pub fn detector_param(a: MassAnalyzer) -> (r: CvParam)
    ensures
        cv_of(r) == detector_param_spec(a),
{
    match a {
        MassAnalyzer::ITMS => CvParam { accession: 1000253, name: "electron multiplier".to_owned() },
        MassAnalyzer::ASTMS => CvParam {
            accession: 1000253,
            name: "electron multiplier".to_owned(),
        },
        MassAnalyzer::FTMS => CvParam { accession: 1000624, name: "inductive detector".to_owned() },
        _ => CvParam { accession: 1000026, name: "detector type".to_owned() },
    }
}

/// Assemble the component list of one instrument configuration: the ion
/// source at order 0 (its inlet term, where the ionization mode implies one,
/// followed by its ionization term), the analyzer at order 1, and the
/// detector at order 2.
pub fn instrument_components(conf: InstrumentConfiguration) -> (r: Vec<Component>)
    ensures
        r@.len() == 3,
        r@[0].component_type == ComponentType::IonSource && r@[0].order == 0,
        r@[1].component_type == ComponentType::Analyzer && r@[1].order == 1,
        r@[2].component_type == ComponentType::Detector && r@[2].order == 2,
        match inlet_param_spec(conf.ionization_mode) {
            Some(inlet) => r@[0].params@.len() == 2 && cv_of(r@[0].params@[0]) == inlet && cv_of(
                r@[0].params@[1],
            ) == ionization_param_spec(conf.ionization_mode),
            None => r@[0].params@.len() == 1 && cv_of(r@[0].params@[0]) == ionization_param_spec(
                conf.ionization_mode,
            ),
        },
        r@[1].params@.len() == 1 && cv_of(r@[1].params@[0]) == analyzer_param_spec(
            conf.mass_analyzer,
        ),
        r@[2].params@.len() == 1 && cv_of(r@[2].params@[0]) == detector_param_spec(
            conf.mass_analyzer,
        ),
{
    let mut source_params: Vec<CvParam> = Vec::new();
    match inlet_param(conf.ionization_mode) {
        Some(p) => source_params.push(p),
        None => (),
    }
    source_params.push(ionization_param(conf.ionization_mode));
    let ion_source = Component {
        order: 0,
        component_type: ComponentType::IonSource,
        params: source_params,
    };

    let mut analyzer_params: Vec<CvParam> = Vec::new();
    analyzer_params.push(analyzer_param(conf.mass_analyzer));
    let analyzer = Component {
        order: 1,
        component_type: ComponentType::Analyzer,
        params: analyzer_params,
    };

    let mut detector_params: Vec<CvParam> = Vec::new();
    detector_params.push(detector_param(conf.mass_analyzer));
    let detector = Component {
        order: 2,
        component_type: ComponentType::Detector,
        params: detector_params,
    };

    let mut components: Vec<Component> = Vec::new();
    components.push(ion_source);
    components.push(analyzer);
    components.push(detector);
    components
}

/// Look up the configuration identifier registered for a component key:
/// the identifier paired with the first matching key, if any entry matches.
pub fn config_id_for(
    components_to_instrument_id: &Vec<(InstrumentConfiguration, u32)>,
    key: InstrumentConfiguration,
) -> (r: Option<u32>)
    ensures
        r is None ==> forall|i: int|
            0 <= i < components_to_instrument_id@.len()
                ==> components_to_instrument_id@[i].0 != key,
        r matches Some(v) ==> exists|i: int|
            0 <= i < components_to_instrument_id@.len() && components_to_instrument_id@[i].0 == key
                && components_to_instrument_id@[i].1 == v,
{
    let mut i: usize = 0;
    while i < components_to_instrument_id.len()
        invariant
            i <= components_to_instrument_id@.len(),
            forall|j: int| 0 <= j < i ==> components_to_instrument_id@[j].0 != key,
        decreases components_to_instrument_id@.len() - i,
    {
        let entry = &components_to_instrument_id[i];
        if entry.0 == key {
            return Some(entry.1);
        }
        i += 1;
    }
    None
}

/// The resource holds MS1 spectra: the first per-level count is positive.
pub open spec fn has_ms1_spec(levels: Seq<u32>) -> bool {
    levels.len() > 0 && levels[0] > 0
}

/// The resource holds MSn spectra: some per-level count past the first is
/// positive.
pub open spec fn has_msn_spec(levels: Seq<u32>) -> bool {
    exists|i: int| 1 <= i < levels.len() && levels[i] > 0
}

/// Whether the per-MS-level counts report any MS1 spectra.
pub fn has_ms1_spectra(levels: &Vec<u32>) -> (r: bool)
    ensures
        r == has_ms1_spec(levels@),
{
    levels.len() > 0 && levels[0] > 0
}

/// Whether the per-MS-level counts report any spectra above MS level one.
pub fn has_msn_spectra(levels: &Vec<u32>) -> (r: bool)
    ensures
        r == has_msn_spec(levels@),
{
    let mut i: usize = 1;
    while i < levels.len()
        invariant
            1 <= i,
            forall|j: int| 1 <= j < i ==> levels@[j] == 0,
        decreases levels@.len() - i,
    {
        if levels[i] > 0 {
            return true;
        }
        i += 1;
    }
    false
}

/// The content-category terms a resource's per-MS-level spectrum counts
/// imply: the MS1 term when any MS1 spectra are present, then the MSn term
/// when any higher-level spectra are.
pub fn file_content_params(levels: &Vec<u32>) -> (r: Vec<CvParam>)
    ensures
        has_ms1_spec(levels@) && has_msn_spec(levels@) ==> r@.len() == 2 && cv_of(r@[0]) == (
            1000579u32,
            "MS1 spectrum"@,
        ) && cv_of(r@[1]) == (1000580u32, "MSn spectrum"@),
        has_ms1_spec(levels@) && !has_msn_spec(levels@) ==> r@.len() == 1 && cv_of(r@[0]) == (
            1000579u32,
            "MS1 spectrum"@,
        ),
        !has_ms1_spec(levels@) && has_msn_spec(levels@) ==> r@.len() == 1 && cv_of(r@[0]) == (
            1000580u32,
            "MSn spectrum"@,
        ),
        !has_ms1_spec(levels@) && !has_msn_spec(levels@) ==> r@.len() == 0,
{
    let mut contents: Vec<CvParam> = Vec::new();
    if has_ms1_spectra(levels) {
        contents.push(CvParam { accession: 1000579, name: "MS1 spectrum".to_owned() });
    }
    if has_msn_spectra(levels) {
        contents.push(CvParam { accession: 1000580, name: "MSn spectrum".to_owned() });
    }
    contents
}

/// A resource begins with a UTF-16 header whose code points 1 through 8
/// spell "Finnigan", each stored as a little-endian 16-bit unit.
pub open spec fn thermo_prefix_spec(b: Seq<u8>) -> bool {
    &&& b[2] == 0x46u8 && b[3] == 0u8
    &&& b[4] == 0x69u8 && b[5] == 0u8
    &&& b[6] == 0x6eu8 && b[7] == 0u8
    &&& b[8] == 0x6eu8 && b[9] == 0u8
    &&& b[10] == 0x69u8 && b[11] == 0u8
    &&& b[12] == 0x67u8 && b[13] == 0u8
    &&& b[14] == 0x61u8 && b[15] == 0u8
    &&& b[16] == 0x6eu8 && b[17] == 0u8
}

/// Check whether a buffer starts with the header of a RAW resource: a
/// UTF-16 marker spelling "Finnigan" at code points 1 through 8.
pub fn is_thermo_raw_prefix(buffer: &[u8]) -> (r: bool)
    requires
        buffer@.len() >= 18,
    ensures
        r == thermo_prefix_spec(buffer@),
{
    let checks: bool = buffer[2] == 0x46 && buffer[3] == 0 && buffer[4] == 0x69 && buffer[5] == 0
        && buffer[6] == 0x6e && buffer[7] == 0 && buffer[8] == 0x6e && buffer[9] == 0 && buffer[10]
        == 0x69 && buffer[11] == 0 && buffer[12] == 0x67 && buffer[13] == 0 && buffer[14] == 0x61
        && buffer[15] == 0 && buffer[16] == 0x6e && buffer[17] == 0;
    checks
}

} // verus!
