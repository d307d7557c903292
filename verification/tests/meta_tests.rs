use thermorawfilereader::constants::{IonizationMode, MSOrder, MassAnalyzer, TraceType};
use thermorawfilereader::meta::{
    activation_of, analyzer_param, config_id_for, detector_param, file_content_params,
    has_ms1_spectra, has_msn_spectra, inlet_param, instrument_components, ionization_param,
    is_thermo_raw_prefix, scan_polarity_of, signal_continuity_of, ActivationMethod,
    ComponentType, ScanPolarity, SignalContinuity,
};
use thermorawfilereader::records::{
    DissociationMethod, InstrumentConfiguration, Polarity, SpectrumMode,
};

#[test]
fn test_trace_type_codes() {
    assert_eq!(TraceType::from(-1i16), TraceType::StartMSChromatogramTraces);
    assert_eq!(TraceType::from(0i16), TraceType::MassRange);
    assert_eq!(TraceType::from(1i16), TraceType::TIC);
    assert_eq!(TraceType::from(2i16), TraceType::BasePeak);
    assert_eq!(TraceType::from(21i16), TraceType::WavelengthRange);
    assert_eq!(TraceType::from(48i16), TraceType::A2DChannel8);
    assert_eq!(TraceType::from(7i16), TraceType::EndAllChromatogramTraces);
    assert_eq!(TraceType::from(1000i16), TraceType::EndAllChromatogramTraces);
}

#[test]
fn test_ionization_mode_codes() {
    assert_eq!(IonizationMode::from(0u8), IonizationMode::ElectronImpact);
    assert_eq!(IonizationMode::from(3u8), IonizationMode::ElectroSpray);
    assert_eq!(IonizationMode::from(5u8), IonizationMode::NanoSpray);
    assert_eq!(IonizationMode::from(12u8), IonizationMode::CardNanoSprayIonization);
    assert_eq!(IonizationMode::from(22u8), IonizationMode::IonModeBeyondKnown);
    assert_eq!(IonizationMode::from(200u8), IonizationMode::IonModeBeyondKnown);
}

#[test]
fn test_ms_order_codes() {
    assert_eq!(MSOrder::from(-3i16), MSOrder::NeutralGain);
    assert_eq!(MSOrder::from(-1i16), MSOrder::ParentScan);
    assert_eq!(MSOrder::from(1i16), MSOrder::MS);
    assert_eq!(MSOrder::from(2i16), MSOrder::MS2);
    assert_eq!(MSOrder::from(10i16), MSOrder::MS10);
    assert_eq!(MSOrder::from(999i16), MSOrder::Unknown);
    assert_eq!(MSOrder::from(55i16), MSOrder::Unknown);
}

#[test]
fn test_mass_analyzer_codes() {
    assert_eq!(MassAnalyzer::from(0u8), MassAnalyzer::Unknown);
    assert_eq!(MassAnalyzer::from(1u8), MassAnalyzer::ITMS);
    assert_eq!(MassAnalyzer::from(5u8), MassAnalyzer::FTMS);
    assert_eq!(MassAnalyzer::from(7u8), MassAnalyzer::ASTMS);
    assert_eq!(MassAnalyzer::from(8u8), MassAnalyzer::Unknown);
}

#[test]
fn test_scan_polarity_mapping() {
    assert_eq!(scan_polarity_of(Polarity::Positive), ScanPolarity::Positive);
    assert_eq!(scan_polarity_of(Polarity::Negative), ScanPolarity::Negative);
    assert_eq!(scan_polarity_of(Polarity::Unknown), ScanPolarity::Unknown);
}

#[test]
fn test_signal_continuity_mapping() {
    assert_eq!(signal_continuity_of(SpectrumMode::Centroid), SignalContinuity::Centroid);
    assert_eq!(signal_continuity_of(SpectrumMode::Profile), SignalContinuity::Profile);
    assert_eq!(signal_continuity_of(SpectrumMode::Unknown), SignalContinuity::Unknown);
}

#[test]
fn test_activation_mappings() {
    assert_eq!(
        activation_of(DissociationMethod::CID),
        (ActivationMethod::CollisionInducedDissociation, None)
    );
    assert_eq!(
        activation_of(DissociationMethod::HCD),
        (ActivationMethod::BeamTypeCollisionInducedDissociation, None)
    );
    assert_eq!(
        activation_of(DissociationMethod::ETHCD),
        (
            ActivationMethod::ElectronTransferDissociation,
            Some(ActivationMethod::SupplementalBeamTypeCollisionInducedDissociation)
        )
    );
    assert_eq!(
        activation_of(DissociationMethod::ECCID),
        (
            ActivationMethod::ElectronCaptureDissociation,
            Some(ActivationMethod::SupplementalCollisionInducedDissociation)
        )
    );
    assert_eq!(
        activation_of(DissociationMethod::NETD),
        (ActivationMethod::NegativeElectronTransferDissociation, None)
    );
    assert_eq!(
        activation_of(DissociationMethod::Unknown),
        (ActivationMethod::CollisionInducedDissociation, None)
    );
}

#[test]
fn test_cv_term_mappings() {
    let inlet = inlet_param(IonizationMode::NanoSpray).unwrap();
    assert_eq!(inlet.accession, 1000485);
    assert_eq!(inlet.name, "nanospray inlet");
    assert!(inlet_param(IonizationMode::GlowDischarge).is_none());

    let ion = ionization_param(IonizationMode::ElectroSpray);
    assert_eq!(ion.accession, 1000073);
    assert_eq!(ion.name, "electrospray ionization");
    let fallback = ionization_param(IonizationMode::Any);
    assert_eq!(fallback.accession, 1000008);
    assert_eq!(fallback.name, "ionization type");

    let analyzer = analyzer_param(MassAnalyzer::FTMS);
    assert_eq!(analyzer.accession, 1000484);
    assert_eq!(analyzer.name, "orbitrap");

    let detector = detector_param(MassAnalyzer::ITMS);
    assert_eq!(detector.accession, 1000253);
    assert_eq!(detector.name, "electron multiplier");
    assert_eq!(detector_param(MassAnalyzer::TOFMS).accession, 1000026);
}

#[test]
fn test_instrument_components_shape() {
    let conf = InstrumentConfiguration {
        mass_analyzer: MassAnalyzer::FTMS,
        ionization_mode: IonizationMode::NanoSpray,
    };
    let components = instrument_components(conf);
    assert_eq!(components.len(), 3);

    assert_eq!(components[0].order, 0);
    assert_eq!(components[0].component_type, ComponentType::IonSource);
    assert_eq!(components[0].params.len(), 2);
    assert_eq!(components[0].params[0].accession, 1000485);
    assert_eq!(components[0].params[1].accession, 1000398);

    assert_eq!(components[1].order, 1);
    assert_eq!(components[1].component_type, ComponentType::Analyzer);
    assert_eq!(components[1].params.len(), 1);
    assert_eq!(components[1].params[0].name, "orbitrap");

    assert_eq!(components[2].order, 2);
    assert_eq!(components[2].component_type, ComponentType::Detector);
    assert_eq!(components[2].params.len(), 1);
    assert_eq!(components[2].params[0].name, "inductive detector");

    let no_inlet = InstrumentConfiguration {
        mass_analyzer: MassAnalyzer::TQMS,
        ionization_mode: IonizationMode::ElectronImpact,
    };
    let bare = instrument_components(no_inlet);
    assert_eq!(bare[0].params.len(), 1);
    assert_eq!(bare[0].params[0].accession, 1000389);
}

#[test]
fn test_config_id_lookup() {
    let a = InstrumentConfiguration {
        mass_analyzer: MassAnalyzer::FTMS,
        ionization_mode: IonizationMode::NanoSpray,
    };
    let b = InstrumentConfiguration {
        mass_analyzer: MassAnalyzer::ITMS,
        ionization_mode: IonizationMode::NanoSpray,
    };
    let c = InstrumentConfiguration {
        mass_analyzer: MassAnalyzer::TOFMS,
        ionization_mode: IonizationMode::ElectroSpray,
    };
    let table = vec![(a, 0u32), (b, 1u32)];
    assert_eq!(config_id_for(&table, a), Some(0));
    assert_eq!(config_id_for(&table, b), Some(1));
    assert_eq!(config_id_for(&table, c), None);
}

#[test]
fn test_file_content_categories() {
    let both = vec![14u32, 34, 0];
    assert!(has_ms1_spectra(&both));
    assert!(has_msn_spectra(&both));
    let params = file_content_params(&both);
    assert_eq!(params.len(), 2);
    assert_eq!(params[0].accession, 1000579);
    assert_eq!(params[0].name, "MS1 spectrum");
    assert_eq!(params[1].accession, 1000580);
    assert_eq!(params[1].name, "MSn spectrum");

    let ms1_only = vec![14u32, 0];
    let params = file_content_params(&ms1_only);
    assert_eq!(params.len(), 1);
    assert_eq!(params[0].accession, 1000579);

    let msn_only = vec![0u32, 0, 5];
    let params = file_content_params(&msn_only);
    assert_eq!(params.len(), 1);
    assert_eq!(params[0].accession, 1000580);

    let none: Vec<u32> = Vec::new();
    assert!(!has_ms1_spectra(&none));
    assert!(!has_msn_spectra(&none));
    assert!(file_content_params(&none).is_empty());
}

#[test]
fn test_thermo_raw_prefix() {
    let mut header = vec![0u8; 32];
    header[0] = 0x01;
    for (i, b) in "Finnigan".bytes().enumerate() {
        header[2 + 2 * i] = b;
        header[3 + 2 * i] = 0;
    }
    assert!(is_thermo_raw_prefix(&header));

    let mut wrong = header.clone();
    wrong[4] = b'X';
    assert!(!is_thermo_raw_prefix(&wrong));

    let mut wide = header.clone();
    wide[5] = 0x01;
    assert!(!is_thermo_raw_prefix(&wide));
}
