//! Safe modelling of the buffer-ownership and handle-lifecycle protocol used
//! to exchange data with a foreign, separately managed runtime.
//!
//! The heart of the crate is [`buffer::RawVec`], a growable byte buffer that
//! changes hands between two independent memory managers, together with the
//! lifecycle state machines for the shared runtime ([`runtime`]) and for one
//! open resource ([`handle`]).  Around them stand the typed records the
//! foreign reader's payloads decode into ([`records`]), the error taxonomy
//! ([`errors`]), the category tables the boundary transmits as integer codes
//! ([`constants`]), the conversion rules towards standard metadata terms
//! ([`meta`]), and content checksumming ([`checksum`]).

pub mod buffer;
pub mod checksum;
pub mod constants;
pub mod errors;
pub mod handle;
pub mod meta;
pub mod records;
pub mod runtime;

pub use buffer::RawVec;
pub use constants::{IonizationMode, MSOrder, MassAnalyzer, TraceType};
pub use errors::{DotNetRuntimeCreationError, RawFileReaderError};
pub use handle::{RawFileReader, RawFileReaderIntoIter, RawFileReaderIter, SpectrumRequest};
pub use records::{
    ChromatogramDescription, FileDescription, InstrumentConfiguration, InstrumentMethod,
    InstrumentModel, RawSpectrum, StatusLogCollection, TrailerValue, TrailerValues,
};
pub use runtime::{BundleStore, DotNetLibraryBundle};
