//! Typed, read-only records mirroring the structured payloads the foreign
//! reader returns: spectrum descriptions, trailer values, instrument and
//! file metadata, methods and chromatograms.
//!
//! The foreign side serializes these payloads into buffers; the schema
//! decoding itself is an external collaborator, so each record here holds the
//! decoded plain values the surrounding logic reads, and every accessor's
//! behaviour is stated exactly.  Floating-point signal arrays stay outside
//! the records.

use vstd::prelude::*;
use vstd::string::StrSliceExecFns;
use vstd::string::StringExecFns;

use crate::constants::{ms_order_of_code, trace_type_of_code, MSOrder, TraceType};
use crate::constants::{ionization_mode_of_code, mass_analyzer_of_code, IonizationMode,
    MassAnalyzer};

verus! {

/// Whether a spectrum was recorded in positive or negative mode.
#[derive(Debug, Clone, Copy, PartialEq, Eq, Hash, Structural)]
pub enum Polarity {
    Negative,
    Positive,
    Unknown,
}

/// Whether a spectrum is stored as centroided peaks or as a profile trace.
#[derive(Debug, Clone, Copy, PartialEq, Eq, Hash, Structural)]
pub enum SpectrumMode {
    Centroid,
    Profile,
    Unknown,
}

/// The dissociation methods a precursor's activation can report.
#[derive(Debug, Clone, Copy, PartialEq, Eq, Hash, Structural)]
pub enum DissociationMethod {
    CID,
    HCD,
    ECD,
    ETD,
    ETHCD,
    ETCID,
    NETD,
    MPD,
    PTD,
    ECCID,
    ECHCD,
    Unknown,
}

/// The decimal digit character for a value below ten.
pub open spec fn dec_digit(n: int) -> char {
    if n == 0 {
        '0'
    } else if n == 1 {
        '1'
    } else if n == 2 {
        '2'
    } else if n == 3 {
        '3'
    } else if n == 4 {
        '4'
    } else if n == 5 {
        '5'
    } else if n == 6 {
        '6'
    } else if n == 7 {
        '7'
    } else if n == 8 {
        '8'
    } else {
        '9'
    }
}

/// The decimal rendering of a natural number, most significant digit first,
/// without leading zeroes (a lone zero for zero).
pub open spec fn dec_str(n: nat) -> Seq<char>
    decreases n,
{
    if n < 10 {
        seq![dec_digit(n as int)]
    } else {
        dec_str(n / 10).push(dec_digit((n % 10) as int))
    }
}

/// The one-character string for a decimal digit.
fn digit_str(d: u32) -> (r: &'static str)
    requires
        d < 10,
    ensures
        r@ == seq![dec_digit(d as int)],
{
    let r: &'static str = if d == 0 {
        "0"
    } else if d == 1 {
        "1"
    } else if d == 2 {
        "2"
    } else if d == 3 {
        "3"
    } else if d == 4 {
        "4"
    } else if d == 5 {
        "5"
    } else if d == 6 {
        "6"
    } else if d == 7 {
        "7"
    } else if d == 8 {
        "8"
    } else {
        "9"
    };
    proof {
        reveal_strlit("0");
        reveal_strlit("1");
        reveal_strlit("2");
        reveal_strlit("3");
        reveal_strlit("4");
        reveal_strlit("5");
        reveal_strlit("6");
        reveal_strlit("7");
        reveal_strlit("8");
        reveal_strlit("9");
        assert(r@ =~= seq![dec_digit(d as int)]);
    }
    r
}

/// Render a number in decimal.
pub fn u32_to_decimal(n: u32) -> (r: String)
    ensures
        r@ == dec_str(n as nat),
    decreases n,
{
    if n < 10 {
        digit_str(n).to_owned()
    } else {
        let mut s = u32_to_decimal(n / 10);
        s.append(digit_str(n % 10));
        proof {
            assert(s@ =~= dec_str(n as nat));
        }
        s
    }
}

/// The native-ID text for a 1-based scan number.
pub open spec fn native_id_seq(scan: nat) -> Seq<char> {
    "controllerType=0 controllerNumber=1 scan="@ + dec_str(scan)
}

/// Generate the "native ID" string for the spectrum at 0-based `index`: the
/// scan number it names is one more than the index.
pub fn make_native_id(index: u32) -> (r: String)
    requires
        index < 0xffff_ffffu32,
    ensures
        r@ == native_id_seq((index + 1) as nat),
{
    let mut s = "controllerType=0 controllerNumber=1 scan=".to_owned();
    let digits = u32_to_decimal(index + 1);
    s.append(digits.as_str());
    s
}

/// Compare two strings character by character.
pub fn str_eq(a: &str, b: &str) -> (r: bool)
    ensures
        r == (a@ == b@),
{
    let la = a.unicode_len();
    let lb = b.unicode_len();
    if la != lb {
        return false;
    }
    let mut i: usize = 0;
    while i < la
        invariant
            i <= la,
            la == a@.len(),
            la == b@.len(),
            forall|j: int| 0 <= j < i ==> a@[j] == b@[j],
        decreases la - i,
    {
        if a.get_char(i) != b.get_char(i) {
            return false;
        }
        i += 1;
    }
    proof {
        assert(a@ =~= b@);
    }
    true
}

/// Borrow the contents of an optional string.
fn opt_str(o: &Option<String>) -> (r: Option<&str>)
    ensures
        (r is Some) <==> (o is Some),
        r matches Some(s) ==> s@ == o.unwrap()@,
{
    match o {
        Some(s) => Some(s.as_str()),
        None => None,
    }
}

/// The precursor selection of an MSn spectrum: the plain parts of the
/// description the conversion logic reads.
#[derive(Debug, Clone, PartialEq, Eq, Structural)]
pub struct Precursor {
    /// The reported charge state; zero means none was reported.
    pub charge_raw: i32,
    /// The 0-based index of the precursor's parent spectrum.
    pub parent_index: i32,
    /// How the precursor was activated.
    pub dissociation_method: DissociationMethod,
}

impl Precursor {
    /// The charge state, if one was reported: a raw charge of zero means
    /// none.
    pub fn charge(&self) -> (r: Option<i32>)
        ensures
            self.charge_raw == 0 ==> r is None,
            self.charge_raw != 0 ==> r == Some(self.charge_raw),
    {
        if self.charge_raw == 0 {
            None
        } else {
            Some(self.charge_raw)
        }
    }

    /// The native ID of the spectrum the precursor was selected from.
    pub fn precursor_id(&self) -> (r: String)
        requires
            0 <= self.parent_index < 0x7fff_ffff,
        ensures
            r@ == native_id_seq((self.parent_index + 1) as nat),
    {
        make_native_id(self.parent_index as u32)
    }
}

/// How one scan was acquired: the plain parts of the acquisition record the
/// conversion logic reads.
#[derive(Debug, Clone, Copy, PartialEq, Eq, Structural)]
pub struct Acquisition {
    mass_analyzer_code: u8,
    ionization_mode_code: u8,
    scan_event_number: i32,
}

impl Acquisition {
    pub closed spec fn spec_mass_analyzer_code(&self) -> u8 {
        self.mass_analyzer_code
    }

    pub closed spec fn spec_ionization_mode_code(&self) -> u8 {
        self.ionization_mode_code
    }

    pub closed spec fn spec_scan_event(&self) -> i32 {
        self.scan_event_number
    }

    pub fn new(mass_analyzer_code: u8, ionization_mode_code: u8, scan_event_number: i32) -> (r:
        Self)
        ensures
            r.spec_mass_analyzer_code() == mass_analyzer_code,
            r.spec_ionization_mode_code() == ionization_mode_code,
            r.spec_scan_event() == scan_event_number,
    {
        Acquisition { mass_analyzer_code, ionization_mode_code, scan_event_number }
    }

    /// The mass analyzer the scan used.
    pub fn mass_analyzer(&self) -> (r: MassAnalyzer)
        ensures
            r == mass_analyzer_of_code(self.spec_mass_analyzer_code()),
    {
        MassAnalyzer::from(self.mass_analyzer_code)
    }

    /// The ionization mode the scan used.
    pub fn ionization_mode(&self) -> (r: IonizationMode)
        ensures
            r == ionization_mode_of_code(self.spec_ionization_mode_code()),
    {
        IonizationMode::from(self.ionization_mode_code)
    }

    /// The preset scan-configuration number of the scan.
    pub fn scan_event(&self) -> (r: i32)
        ensures
            r == self.spec_scan_event(),
    {
        self.scan_event_number
    }
}

/// The description of one spectrum: the plain values decoded from the
/// structured payload the foreign side returned for one scan.
pub struct RawSpectrum {
    index: u32,
    ms_level: u8,
    polarity: Polarity,
    mode: SpectrumMode,
    ms_order_code: i16,
    precursor: Option<Precursor>,
    filter_string: Option<String>,
    acquisition: Option<Acquisition>,
}

impl RawSpectrum {
    pub closed spec fn spec_index(&self) -> u32 {
        self.index
    }

    pub closed spec fn spec_ms_level(&self) -> u8 {
        self.ms_level
    }

    pub closed spec fn spec_polarity(&self) -> Polarity {
        self.polarity
    }

    pub closed spec fn spec_mode(&self) -> SpectrumMode {
        self.mode
    }

    pub closed spec fn spec_ms_order_code(&self) -> i16 {
        self.ms_order_code
    }

    pub closed spec fn spec_precursor(&self) -> Option<Precursor> {
        self.precursor
    }

    pub closed spec fn spec_filter_string(&self) -> Option<Seq<char>> {
        match self.filter_string {
            Some(s) => Some(s@),
            None => None,
        }
    }

    pub closed spec fn spec_acquisition(&self) -> Option<Acquisition> {
        self.acquisition
    }

    /// Well-formedness: the 0-based index stays within the signed 32-bit
    /// range scan numbers are transmitted in.
    pub open spec fn wf(&self) -> bool {
        self.spec_index() < 0x7fff_ffffu32
    }

    /// Assemble a spectrum description from its decoded parts.
    pub fn new(
        index: u32,
        ms_level: u8,
        polarity: Polarity,
        mode: SpectrumMode,
        ms_order_code: i16,
        precursor: Option<Precursor>,
        filter_string: Option<String>,
        acquisition: Option<Acquisition>,
    ) -> (r: Self)
        requires
            index < 0x7fff_ffffu32,
        ensures
            r.wf(),
            r.spec_index() == index,
            r.spec_ms_level() == ms_level,
            r.spec_polarity() == polarity,
            r.spec_mode() == mode,
            r.spec_ms_order_code() == ms_order_code,
            r.spec_precursor() == precursor,
            (r.spec_filter_string() is Some) <==> (filter_string is Some),
            filter_string matches Some(s) ==> r.spec_filter_string() == Some(s@),
            r.spec_acquisition() == acquisition,
    {
        RawSpectrum {
            index,
            ms_level,
            polarity,
            mode,
            ms_order_code,
            precursor,
            filter_string,
            acquisition,
        }
    }

    /// The 0-based index of the spectrum.
    pub fn index(&self) -> (r: usize)
        ensures
            r == self.spec_index(),
    {
        self.index as usize
    }

    /// The MS exponentiation level.
    pub fn ms_level(&self) -> (r: u8)
        ensures
            r == self.spec_ms_level(),
    {
        self.ms_level
    }

    /// Whether the spectrum is positive or negative mode.
    pub fn polarity(&self) -> (r: Polarity)
        ensures
            r == self.spec_polarity(),
    {
        self.polarity
    }

    /// Whether the spectrum is profile or centroid.
    pub fn mode(&self) -> (r: SpectrumMode)
        ensures
            r == self.spec_mode(),
    {
        self.mode
    }

    /// The precursor description, for spectra above MS level one.
    pub fn precursor(&self) -> (r: Option<&Precursor>)
        ensures
            (r is Some) <==> (self.spec_precursor() is Some),
            r matches Some(p) ==> *p == self.spec_precursor().unwrap(),
    {
        self.precursor.as_ref()
    }

    /// The MS order of the scan.
    pub fn ms_order(&self) -> (r: MSOrder)
        ensures
            r == ms_order_of_code(self.spec_ms_order_code()),
    {
        MSOrder::from(self.ms_order_code)
    }

    /// The spectrum's filter string, where one was recorded.
    pub fn filter_string(&self) -> (r: Option<&str>)
        ensures
            (r is Some) <==> (self.spec_filter_string() is Some),
            r matches Some(s) ==> self.spec_filter_string() == Some(s@),
    {
        match &self.filter_string {
            Some(s) => Some(s.as_str()),
            None => None,
        }
    }

    /// Information about how the spectrum was acquired.
    pub fn acquisition(&self) -> (r: Option<&Acquisition>)
        ensures
            (r is Some) <==> (self.spec_acquisition() is Some),
            r matches Some(a) ==> *a == self.spec_acquisition().unwrap(),
    {
        self.acquisition.as_ref()
    }

    /// Generate the "native ID" string format for the spectrum: its 1-based
    /// scan number under the standard controller prefix.
    pub fn native_id(&self) -> (r: String)
        requires
            self.wf(),
        ensures
            r@ == native_id_seq((self.spec_index() + 1) as nat),
    {
        make_native_id(self.index)
    }
}

/// The bare signal-array payload of one spectrum.  The arrays themselves are
/// floating-point and stay outside the record; their common length is what
/// the surrounding logic reads.
pub struct OwnedSpectrumData {
    point_count: usize,
}

impl OwnedSpectrumData {
    pub closed spec fn spec_len(&self) -> usize {
        self.point_count
    }

    pub fn new(point_count: usize) -> (r: Self)
        ensures
            r.spec_len() == point_count,
    {
        OwnedSpectrumData { point_count }
    }

    /// The number of data points in the signal arrays.
    pub fn len(&self) -> (r: usize)
        ensures
            r == self.spec_len(),
    {
        self.point_count
    }

    pub fn is_empty(&self) -> (r: bool)
        ensures
            r == (self.spec_len() == 0),
    {
        self.point_count == 0
    }
}

/// A single trailer extra value entry: a human-readable label and the raw
/// value text recorded for it.
#[derive(Debug, Clone, PartialEq, Eq)]
pub struct TrailerValue {
    /// The human-readable label for this trailer.
    pub label: String,
    /// The raw value string for this trailer.
    pub value: String,
}

/// The trailer extra values of one scan: label/value pairs whose meaning
/// depends on the instrument and method used.
pub struct TrailerValues {
    entries: Vec<TrailerValue>,
}

impl View for TrailerValues {
    type V = Seq<TrailerValue>;

    closed spec fn view(&self) -> Seq<TrailerValue> {
        self.entries@
    }
}

impl TrailerValues {
    pub fn new(entries: Vec<TrailerValue>) -> (r: Self)
        ensures
            r@ == entries@,
    {
        TrailerValues { entries }
    }

    /// The number of trailer entries.
    pub fn len(&self) -> (r: usize)
        ensures
            r == self@.len(),
    {
        self.entries.len()
    }

    pub fn is_empty(&self) -> (r: bool)
        ensures
            r == (self@.len() == 0),
    {
        self.entries.len() == 0
    }

    /// All trailer entries, in order.
    pub fn iter(&self) -> (r: &Vec<TrailerValue>)
        ensures
            r@ == self@,
    {
        &self.entries
    }

    /// The entry at `index`, if the index is in range.
    pub fn get(&self, index: usize) -> (r: Option<&TrailerValue>)
        ensures
            (r is Some) <==> index < self@.len(),
            r matches Some(t) ==> *t == self@[index as int],
    {
        if index >= self.entries.len() {
            None
        } else {
            Some(&self.entries[index])
        }
    }

    /// The first entry carrying the given label, if any entry does.
    pub fn get_label(&self, label: &str) -> (r: Option<&TrailerValue>)
        ensures
            r is None ==> forall|i: int| 0 <= i < self@.len() ==> self@[i].label@ != label@,
            r matches Some(t) ==> t.label@ == label@ && exists|i: int|
                0 <= i < self@.len() && self@[i] == *t && (forall|j: int|
                    0 <= j < i ==> self@[j].label@ != label@),
    {
        let mut i: usize = 0;
        while i < self.entries.len()
            invariant
                i <= self@.len(),
                forall|j: int| 0 <= j < i ==> self@[j].label@ != label@,
            decreases self@.len() - i,
        {
            let entry = &self.entries[i];
            if str_eq(entry.label.as_str(), label) {
                return Some(entry);
            }
            i += 1;
        }
        None
    }
}

/// An instrument configuration: the set of hardware components one scan mode
/// runs through.
#[derive(Debug, Clone, Copy, PartialEq, Eq, Hash, Structural)]
pub struct InstrumentConfiguration {
    /// The mass analyzer used in this configuration.
    pub mass_analyzer: MassAnalyzer,
    /// The ionization mode used in this configuration.
    pub ionization_mode: IonizationMode,
}

/// A description of the instrument hardware and control software.
pub struct InstrumentModel {
    model: Option<String>,
    name: Option<String>,
    serial_number: Option<String>,
    hardware_version: Option<String>,
    software_version: Option<String>,
    configurations: Vec<InstrumentConfiguration>,
}

impl InstrumentModel {
    pub closed spec fn spec_model(&self) -> Option<String> {
        self.model
    }

    pub closed spec fn spec_name(&self) -> Option<String> {
        self.name
    }

    pub closed spec fn spec_serial_number(&self) -> Option<String> {
        self.serial_number
    }

    pub closed spec fn spec_hardware_version(&self) -> Option<String> {
        self.hardware_version
    }

    pub closed spec fn spec_software_version(&self) -> Option<String> {
        self.software_version
    }

    pub closed spec fn spec_configurations(&self) -> Seq<InstrumentConfiguration> {
        self.configurations@
    }

    /// Assemble an instrument description from its decoded parts.
    pub fn new(
        model: Option<String>,
        name: Option<String>,
        serial_number: Option<String>,
        hardware_version: Option<String>,
        software_version: Option<String>,
        configurations: Vec<InstrumentConfiguration>,
    ) -> (r: Self)
        ensures
            r.spec_model() == model,
            r.spec_name() == name,
            r.spec_serial_number() == serial_number,
            r.spec_hardware_version() == hardware_version,
            r.spec_software_version() == software_version,
            r.spec_configurations() == configurations@,
    {
        InstrumentModel {
            model,
            name,
            serial_number,
            hardware_version,
            software_version,
            configurations,
        }
    }

    /// The instrument model's name as a string.
    pub fn model(&self) -> (r: Option<&str>)
        ensures
            (r is Some) <==> (self.spec_model() is Some),
            r matches Some(s) ==> s@ == self.spec_model().unwrap()@,
    {
        opt_str(&self.model)
    }

    /// The instrument's name as configured by the operator.
    pub fn name(&self) -> (r: Option<&str>)
        ensures
            (r is Some) <==> (self.spec_name() is Some),
            r matches Some(s) ==> s@ == self.spec_name().unwrap()@,
    {
        opt_str(&self.name)
    }

    /// The instrument's serial number as specified by the manufacturer.
    pub fn serial_number(&self) -> (r: Option<&str>)
        ensures
            (r is Some) <==> (self.spec_serial_number() is Some),
            r matches Some(s) ==> s@ == self.spec_serial_number().unwrap()@,
    {
        opt_str(&self.serial_number)
    }

    /// The hardware version string.
    pub fn hardware_version(&self) -> (r: Option<&str>)
        ensures
            (r is Some) <==> (self.spec_hardware_version() is Some),
            r matches Some(s) ==> s@ == self.spec_hardware_version().unwrap()@,
    {
        opt_str(&self.hardware_version)
    }

    /// The acquisition software version string.
    pub fn software_version(&self) -> (r: Option<&str>)
        ensures
            (r is Some) <==> (self.spec_software_version() is Some),
            r matches Some(s) ==> s@ == self.spec_software_version().unwrap()@,
    {
        opt_str(&self.software_version)
    }

    /// The set of distinct instrument configurations, in order.
    pub fn configurations(&self) -> (r: &Vec<InstrumentConfiguration>)
        ensures
            r@ == self.spec_configurations(),
    {
        &self.configurations
    }
}

/// Descriptive metadata about the resource: what it contains and a little
/// about how it was created.
pub struct FileDescription {
    sample_id: Option<String>,
    sample_vial: Option<String>,
    sample_comment: Option<String>,
    sample_name: Option<String>,
    source_file: Option<String>,
    creation_date: Option<String>,
    spectra_per_ms_level: Vec<u32>,
    trailer_headers: Vec<String>,
}

impl FileDescription {
    pub closed spec fn spec_sample_id(&self) -> Option<String> {
        self.sample_id
    }

    pub closed spec fn spec_sample_vial(&self) -> Option<String> {
        self.sample_vial
    }

    pub closed spec fn spec_sample_comment(&self) -> Option<String> {
        self.sample_comment
    }

    pub closed spec fn spec_sample_name(&self) -> Option<String> {
        self.sample_name
    }

    pub closed spec fn spec_source_file(&self) -> Option<String> {
        self.source_file
    }

    pub closed spec fn spec_creation_date(&self) -> Option<String> {
        self.creation_date
    }

    pub closed spec fn spec_spectra_per_ms_level(&self) -> Seq<u32> {
        self.spectra_per_ms_level@
    }

    pub closed spec fn spec_trailer_headers(&self) -> Seq<String> {
        self.trailer_headers@
    }

    /// Assemble a file description from its decoded parts.
    pub fn new(
        sample_id: Option<String>,
        sample_vial: Option<String>,
        sample_comment: Option<String>,
        sample_name: Option<String>,
        source_file: Option<String>,
        creation_date: Option<String>,
        spectra_per_ms_level: Vec<u32>,
        trailer_headers: Vec<String>,
    ) -> (r: Self)
        ensures
            r.spec_sample_id() == sample_id,
            r.spec_sample_vial() == sample_vial,
            r.spec_sample_comment() == sample_comment,
            r.spec_sample_name() == sample_name,
            r.spec_source_file() == source_file,
            r.spec_creation_date() == creation_date,
            r.spec_spectra_per_ms_level() == spectra_per_ms_level@,
            r.spec_trailer_headers() == trailer_headers@,
    {
        FileDescription {
            sample_id,
            sample_vial,
            sample_comment,
            sample_name,
            source_file,
            creation_date,
            spectra_per_ms_level,
            trailer_headers,
        }
    }

    /// The sample identifier provided by the user, if one is present.
    pub fn sample_id(&self) -> (r: Option<&str>)
        ensures
            (r is Some) <==> (self.spec_sample_id() is Some),
            r matches Some(s) ==> s@ == self.spec_sample_id().unwrap()@,
    {
        opt_str(&self.sample_id)
    }

    /// The sample vial name provided by the user or sample handling system,
    /// if present.
    pub fn sample_vial(&self) -> (r: Option<&str>)
        ensures
            (r is Some) <==> (self.spec_sample_vial() is Some),
            r matches Some(s) ==> s@ == self.spec_sample_vial().unwrap()@,
    {
        opt_str(&self.sample_vial)
    }

    /// The comment describing the sample as provided by the user, if
    /// present.
    pub fn sample_comment(&self) -> (r: Option<&str>)
        ensures
            (r is Some) <==> (self.spec_sample_comment() is Some),
            r matches Some(s) ==> s@ == self.spec_sample_comment().unwrap()@,
    {
        opt_str(&self.sample_comment)
    }

    /// The sample name provided by the user, if one is present.
    pub fn sample_name(&self) -> (r: Option<&str>)
        ensures
            (r is Some) <==> (self.spec_sample_name() is Some),
            r matches Some(s) ==> s@ == self.spec_sample_name().unwrap()@,
    {
        opt_str(&self.sample_name)
    }

    /// The name of the resource being described, as the control software
    /// recorded it.
    pub fn source_file(&self) -> (r: Option<&str>)
        ensures
            (r is Some) <==> (self.spec_source_file() is Some),
            r matches Some(s) ==> s@ == self.spec_source_file().unwrap()@,
    {
        opt_str(&self.source_file)
    }

    /// The date the resource was created, or the instrument run was
    /// performed.
    pub fn creation_date(&self) -> (r: Option<&str>)
        ensures
            (r is Some) <==> (self.spec_creation_date() is Some),
            r matches Some(s) ==> s@ == self.spec_creation_date().unwrap()@,
    {
        opt_str(&self.creation_date)
    }

    /// The number of spectra at each MS level: index `i` holds the count of
    /// MS level `i + 1` spectra.
    pub fn spectra_per_ms_level(&self) -> (r: &Vec<u32>)
        ensures
            r@ == self.spec_spectra_per_ms_level(),
    {
        &self.spectra_per_ms_level
    }

    /// The trailer header labels of the resource.
    pub fn trailer_headers(&self) -> (r: &Vec<String>)
        ensures
            r@ == self.spec_trailer_headers(),
    {
        &self.trailer_headers
    }
}

/// The text describing how the instrument was told to operate.  There can be
/// several methods per resource; each carries its position and free-form
/// text.
pub struct InstrumentMethod {
    method_index: u8,
    text: Option<String>,
}

impl InstrumentMethod {
    pub closed spec fn spec_index(&self) -> u8 {
        self.method_index
    }

    pub closed spec fn spec_text(&self) -> Option<Seq<char>> {
        match self.text {
            Some(t) => Some(t@),
            None => None,
        }
    }

    pub fn new(method_index: u8, text: Option<String>) -> (r: Self)
        ensures
            r.spec_index() == method_index,
            (r.spec_text() is Some) <==> (text is Some),
            text matches Some(t) ==> r.spec_text() == Some(t@),
    {
        InstrumentMethod { method_index, text }
    }

    /// Which method slot this text came from.
    pub fn index(&self) -> (r: u8)
        ensures
            r == self.spec_index(),
    {
        self.method_index
    }

    /// The method text, where any was recorded.
    pub fn text(&self) -> (r: Option<&str>)
        ensures
            (r is Some) <==> (self.spec_text() is Some),
            r matches Some(s) ==> self.spec_text() == Some(s@),
    {
        match &self.text {
            Some(s) => Some(s.as_str()),
            None => None,
        }
    }

    /// Keep the method only if it holds actual text: the foreign library
    /// reports a missing method as an empty string, which callers expect as
    /// nothing at all.
    pub fn filter_empty(self) -> (r: Option<Self>)
        ensures
            (r is Some) <==> (self.spec_text() matches Some(t) && t.len() > 0),
            r matches Some(m) ==> m == self,
    {
        let keep = match &self.text {
            Some(t) => t.as_str().unicode_len() > 0,
            None => false,
        };
        if keep {
            Some(self)
        } else {
            None
        }
    }
}

/// Describes a chromatogram: a signal trace over time, bounded by two scan
/// numbers.  The trace arrays themselves are floating-point and stay outside
/// the record.
pub struct ChromatogramDescription {
    trace_type_code: i16,
    start_index_raw: i32,
    end_index_raw: i32,
}

impl ChromatogramDescription {
    pub closed spec fn spec_trace_type_code(&self) -> i16 {
        self.trace_type_code
    }

    pub closed spec fn spec_start_index_raw(&self) -> i32 {
        self.start_index_raw
    }

    pub closed spec fn spec_end_index_raw(&self) -> i32 {
        self.end_index_raw
    }

    pub open spec fn wf(&self) -> bool {
        self.spec_start_index_raw() >= 0 && self.spec_end_index_raw() >= 0
    }

    pub fn new(trace_type_code: i16, start_index_raw: i32, end_index_raw: i32) -> (r: Self)
        requires
            start_index_raw >= 0,
            end_index_raw >= 0,
        ensures
            r.wf(),
            r.spec_trace_type_code() == trace_type_code,
            r.spec_start_index_raw() == start_index_raw,
            r.spec_end_index_raw() == end_index_raw,
    {
        ChromatogramDescription { trace_type_code, start_index_raw, end_index_raw }
    }

    /// Read the trace type.
    pub fn trace_type(&self) -> (r: TraceType)
        ensures
            r == trace_type_of_code(self.spec_trace_type_code()),
    {
        TraceType::from(self.trace_type_code)
    }

    /// The 0-based index the chromatogram starts at: one less than the
    /// reported 1-based scan number, saturating at zero.
    pub fn start_index(&self) -> (r: usize)
        requires
            self.wf(),
        ensures
            self.spec_start_index_raw() >= 1 ==> r == self.spec_start_index_raw() - 1,
            self.spec_start_index_raw() < 1 ==> r == 0,
    {
        if self.start_index_raw >= 1 {
            (self.start_index_raw - 1) as usize
        } else {
            0
        }
    }

    /// The scan number the chromatogram ends at.
    pub fn end_index(&self) -> (r: usize)
        requires
            self.wf(),
        ensures
            r == self.spec_end_index_raw(),
    {
        self.end_index_raw as usize
    }
}

/// One status log of the instrument run: a named time series.  The series
/// data itself is floating-point-timed and stays outside the record; the
/// name and the lengths of the two columns are what the surrounding logic
/// reads.
#[derive(Debug, Clone, PartialEq, Eq)]
pub struct StatusLog {
    /// The name of the logged quantity.
    pub name: String,
    /// How many timestamps the log holds.
    pub time_count: usize,
    /// How many values the log holds.
    pub value_count: usize,
}

impl StatusLog {
    /// A log is consistent when it pairs every timestamp with a value.
    pub open spec fn consistent(&self) -> bool {
        self.time_count == self.value_count
    }
}

/// The status logs of an instrument run, grouped by the type of the logged
/// values.
pub struct StatusLogCollection {
    string_logs: Vec<StatusLog>,
    int_logs: Vec<StatusLog>,
    float_logs: Vec<StatusLog>,
    bool_logs: Vec<StatusLog>,
}

impl StatusLogCollection {
    pub closed spec fn spec_string_logs(&self) -> Seq<StatusLog> {
        self.string_logs@
    }

    pub closed spec fn spec_int_logs(&self) -> Seq<StatusLog> {
        self.int_logs@
    }

    pub closed spec fn spec_float_logs(&self) -> Seq<StatusLog> {
        self.float_logs@
    }

    pub closed spec fn spec_bool_logs(&self) -> Seq<StatusLog> {
        self.bool_logs@
    }

    pub fn new(
        string_logs: Vec<StatusLog>,
        int_logs: Vec<StatusLog>,
        float_logs: Vec<StatusLog>,
        bool_logs: Vec<StatusLog>,
    ) -> (r: Self)
        ensures
            r.spec_string_logs() == string_logs@,
            r.spec_int_logs() == int_logs@,
            r.spec_float_logs() == float_logs@,
            r.spec_bool_logs() == bool_logs@,
    {
        StatusLogCollection { string_logs, int_logs, float_logs, bool_logs }
    }

    /// The logs whose values are strings.
    pub fn str_logs(&self) -> (r: &Vec<StatusLog>)
        ensures
            r@ == self.spec_string_logs(),
    {
        &self.string_logs
    }

    /// The logs whose values are integers.
    pub fn int_logs(&self) -> (r: &Vec<StatusLog>)
        ensures
            r@ == self.spec_int_logs(),
    {
        &self.int_logs
    }

    /// The logs whose values are floating-point numbers.
    pub fn float_logs(&self) -> (r: &Vec<StatusLog>)
        ensures
            r@ == self.spec_float_logs(),
    {
        &self.float_logs
    }

    /// The logs whose values are booleans.
    pub fn bool_logs(&self) -> (r: &Vec<StatusLog>)
        ensures
            r@ == self.spec_bool_logs(),
    {
        &self.bool_logs
    }
}

} // verus!
