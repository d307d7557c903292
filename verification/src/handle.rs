//! The lifecycle state machine for one open foreign resource.
//!
//! A [`RawFileReader`] owns an opaque native token handed back by the foreign
//! runtime's open call.  The token is non-zero exactly while the resource is
//! open; closing nulls it and is idempotent.  Every per-spectrum access is
//! first bounds-checked against the cached spectrum count, and the 0-based
//! index the caller uses becomes the 1-based scan number the foreign
//! protocol expects; only in-range requests are ever sent across the
//! boundary.

use vstd::prelude::*;

use crate::buffer::RawVec;
use crate::errors::RawFileReaderError;

verus! {

/// The largest spectrum count a handle accepts: counts travel across the
/// boundary as non-negative signed 32-bit integers.
pub const MAX_SPECTRUM_COUNT: usize = 0x7fff_ffff;

/// One bounds-checked, boundary-ready request for a single spectrum: the
/// 1-based scan number the foreign side expects, plus the mode flags the
/// fetch call takes.
#[derive(Debug, Clone, Copy, PartialEq, Eq, Structural)]
pub struct SpectrumRequest {
    /// The 1-based native scan number (one more than the 0-based index).
    pub scan_number: i32,
    /// Whether the bulk signal data should accompany the description.
    pub include_signal: bool,
    /// Whether profile spectra should be centroided before return.
    pub centroid: bool,
}

/// The request a handle with the given flags produces for 0-based index `i`.
pub open spec fn spec_request(i: int, include_signal: bool, centroid: bool) -> SpectrumRequest {
    SpectrumRequest { scan_number: (i + 1) as i32, include_signal, centroid }
}

/// A handle to one open resource of the foreign reader.  It carries the
/// opaque native token the foreign runtime issued for the resource, a cached
/// spectrum count, and the mode flags applied to spectrum fetches.
///
/// The native token is non-zero exactly while the handle is open.  Accessors
/// that would dereference the foreign resource may only be used while the
/// handle is open: using a handle after close is a programming error, not a
/// recoverable condition.
#[derive(Debug)]
pub struct RawFileReader {
    /// The opaque token controlling the foreign resource; zero means closed.
    token: usize,
    /// The cached number of spectra in the resource.
    size: usize,
    include_signal: bool,
    centroid_spectra: bool,
}

impl RawFileReader {
    /// The opaque native token; zero once the handle is closed.
    pub closed spec fn spec_token(&self) -> usize {
        self.token
    }

    /// The handle is open: its native token is non-zero.
    pub open spec fn is_open(&self) -> bool {
        self.spec_token() != 0
    }

    /// The cached number of spectra.
    pub closed spec fn spec_len(&self) -> usize {
        self.size
    }

    pub closed spec fn spec_signal_loading(&self) -> bool {
        self.include_signal
    }

    pub closed spec fn spec_centroid_spectra(&self) -> bool {
        self.centroid_spectra
    }

    /// Well-formedness: the cached count stays within the signed 32-bit
    /// range the boundary protocol transmits counts in.
    pub open spec fn wf(&self) -> bool {
        self.spec_len() <= MAX_SPECTRUM_COUNT
    }

    /// Judge the outcome of the foreign open call: `token` is the native
    /// token the open call returned and `status_code` the code the status
    /// accessor reported immediately afterwards; `count` is the spectrum
    /// count fetched on success (and ignored on failure).
    ///
    /// Only a success status yields an open handle — an invalid resource is
    /// never handed back as open.  Every failure status maps onto exactly one
    /// typed error: 1 means the file was not found, 2 that it is not a valid
    /// RAW file, and any other non-zero code an unknown failure.  A fresh
    /// handle loads signal data and does not centroid.
    pub fn from_open_call(token: usize, status_code: u32, count: u32) -> (r: Result<
        RawFileReader,
        RawFileReaderError,
    >)
        requires
            token != 0,
            count <= MAX_SPECTRUM_COUNT as u32,
        ensures
            (r is Ok) <==> status_code == 0,
            r matches Ok(h) ==> {
                &&& h.wf()
                &&& h.is_open()
                &&& h.spec_token() == token
                &&& h.spec_len() == count
                &&& h.spec_signal_loading()
                &&& !h.spec_centroid_spectra()
            },
            status_code == 1 ==> r == Err::<RawFileReader, _>(RawFileReaderError::FileNotFound),
            status_code == 2 ==> r == Err::<RawFileReader, _>(RawFileReaderError::InvalidFormat),
            status_code != 0 && status_code != 1 && status_code != 2 ==> r == Err::<
                RawFileReader,
                _,
            >(RawFileReaderError::Error),
    {
        if status_code == 0 {
            Ok(
                RawFileReader {
                    token,
                    size: count as usize,
                    include_signal: true,
                    centroid_spectra: false,
                },
            )
        } else if status_code == 1 {
            Err(RawFileReaderError::FileNotFound)
        } else if status_code == 2 {
            Err(RawFileReaderError::InvalidFormat)
        } else {
            Err(RawFileReaderError::Error)
        }
    }

    /// The native token, for the caller that performs the foreign calls.
    pub fn token(&self) -> (r: usize)
        ensures
            r == self.spec_token(),
    {
        self.token
    }

    /// Get the number of spectra in the resource.
    pub fn len(&self) -> (r: usize)
        ensures
            r == self.spec_len(),
    {
        self.size
    }

    pub fn is_empty(&self) -> (r: bool)
        ensures
            r == (self.spec_len() == 0),
    {
        self.size == 0
    }

    /// Get whether spectrum signal data accompanies fetched spectra.
    pub fn get_signal_loading(&self) -> (r: bool)
        ensures
            r == self.spec_signal_loading(),
    {
        self.include_signal
    }

    /// Set whether spectrum signal data accompanies fetched spectra.
    pub fn set_signal_loading(&mut self, value: bool)
        ensures
            final(self).spec_signal_loading() == value,
            final(self).spec_token() == old(self).spec_token(),
            final(self).spec_len() == old(self).spec_len(),
            final(self).spec_centroid_spectra() == old(self).spec_centroid_spectra(),
    {
        self.include_signal = value;
    }

    /// Get whether profile spectra are centroided before return.
    pub fn get_centroid_spectra(&self) -> (r: bool)
        ensures
            r == self.spec_centroid_spectra(),
    {
        self.centroid_spectra
    }

    /// Set whether profile spectra are centroided before return.
    pub fn set_centroid_spectra(&mut self, value: bool)
        ensures
            final(self).spec_centroid_spectra() == value,
            final(self).spec_token() == old(self).spec_token(),
            final(self).spec_len() == old(self).spec_len(),
            final(self).spec_signal_loading() == old(self).spec_signal_loading(),
    {
        self.centroid_spectra = value;
    }

    /// Close the handle: null the native token, placing the handle in the
    /// terminal closed state.  Safe to call redundantly — a second close
    /// changes nothing.  The caller releases the foreign-side resource
    /// through the boundary before nulling the token here.
    pub fn close(&mut self)
        ensures
            !final(self).is_open(),
            final(self).spec_token() == 0,
            final(self).spec_len() == old(self).spec_len(),
            final(self).spec_signal_loading() == old(self).spec_signal_loading(),
            final(self).spec_centroid_spectra() == old(self).spec_centroid_spectra(),
            !old(self).is_open() ==> *final(self) == *old(self),
    {
        self.token = 0;
    }

    /// Plan the fetch of the spectrum at 0-based `index`.
    ///
    /// Out-of-range indices — every index at or past the count, for every
    /// count including zero — yield nothing and never reach the boundary.
    /// An in-range index yields exactly the request the foreign protocol
    /// expects: the 1-based scan number and the handle's current mode flags.
    /// Requesting an in-range spectrum from a closed handle is a programming
    /// error and is ruled out.
    pub fn get(&self, index: usize) -> (r: Option<SpectrumRequest>)
        requires
            self.wf(),
            index < self.spec_len() ==> self.is_open(),
        ensures
            (r is Some) <==> index < self.spec_len(),
            index < self.spec_len() ==> r == Some(
                spec_request(
                    index as int,
                    self.spec_signal_loading(),
                    self.spec_centroid_spectra(),
                ),
            ),
    {
        if index >= self.size {
            return None;
        }
        Some(
            SpectrumRequest {
                scan_number: (index as i32) + 1,
                include_signal: self.include_signal,
                centroid: self.centroid_spectra,
            },
        )
    }

    /// Plan the fetch of the supplemental signal arrays for the spectrum at
    /// `index`, with the caller's choice about sampled noise.  Bounds are
    /// enforced exactly as in [`RawFileReader::get`].
    pub fn get_extended_spectrum_data(&self, index: usize, include_sampled_noise: bool) -> (r:
        Option<SpectrumRequest>)
        requires
            self.wf(),
            index < self.spec_len() ==> self.is_open(),
        ensures
            (r is Some) <==> index < self.spec_len(),
            index < self.spec_len() ==> r == Some(
                spec_request(index as int, include_sampled_noise, false),
            ),
    {
        if index >= self.size {
            return None;
        }
        Some(
            SpectrumRequest {
                scan_number: (index as i32) + 1,
                include_signal: include_sampled_noise,
                centroid: false,
            },
        )
    }

    /// Plan the fetch of the bare signal data of the spectrum at `index`,
    /// with an explicit centroiding choice.  Bounds are enforced exactly as
    /// in [`RawFileReader::get`].
    pub fn get_spectrum_data(&self, index: usize, centroid_spectra: bool) -> (r: Option<
        SpectrumRequest,
    >)
        requires
            self.wf(),
            index < self.spec_len() ==> self.is_open(),
        ensures
            (r is Some) <==> index < self.spec_len(),
            index < self.spec_len() ==> r == Some(
                spec_request(index as int, true, centroid_spectra),
            ),
    {
        if index >= self.size {
            return None;
        }
        Some(
            SpectrumRequest {
                scan_number: (index as i32) + 1,
                include_signal: true,
                centroid: centroid_spectra,
            },
        )
    }

    /// Plan the fetch of the trailer extra values of the spectrum at
    /// `index`.  Bounds are enforced exactly as in [`RawFileReader::get`].
    pub fn get_raw_trailers_for(&self, index: usize) -> (r: Option<SpectrumRequest>)
        requires
            self.wf(),
            index < self.spec_len() ==> self.is_open(),
        ensures
            (r is Some) <==> index < self.spec_len(),
            index < self.spec_len() ==> r == Some(spec_request(index as int, false, false)),
    {
        if index >= self.size {
            return None;
        }
        Some(
            SpectrumRequest {
                scan_number: (index as i32) + 1,
                include_signal: false,
                centroid: false,
            },
        )
    }

    /// The fresh iterator state an iterator over this handle starts from.
    pub open spec fn spec_iter(&self) -> RawFileReaderIter {
        RawFileReaderIter {
            index: 0,
            size: self.spec_len(),
            include_signal: self.spec_signal_loading(),
            centroid: self.spec_centroid_spectra(),
        }
    }

    /// Create an iterator planning the fetch of every spectrum in order.
    pub fn iter(&self) -> (r: RawFileReaderIter)
        ensures
            r == self.spec_iter(),
    {
        RawFileReaderIter {
            index: 0,
            size: self.size,
            include_signal: self.include_signal,
            centroid: self.centroid_spectra,
        }
    }

    /// Consume the handle into an iterator planning the fetch of every
    /// spectrum in order.  The iterator keeps the handle so the caller can
    /// keep performing the planned fetches through it.
    pub fn into_iter(self) -> (r: RawFileReaderIntoIter)
        ensures
            r.iter == self.spec_iter(),
            r.handle == self,
    {
        let it = RawFileReaderIter {
            index: 0,
            size: self.size,
            include_signal: self.include_signal,
            centroid: self.centroid_spectra,
        };
        RawFileReaderIntoIter { handle: self, iter: it }
    }
}

/// Did the foreign error-message accessor return an actual message?  An
/// empty buffer, or a single NUL byte, means no message is available.
pub fn error_message_present(bytes: &RawVec) -> (r: bool)
    ensures
        r <==> !(bytes@.len() == 0 || (bytes@.len() == 1 && bytes@[0] == 0)),
{
    let n = bytes.len();
    if n == 0 {
        false
    } else if n == 1 {
        bytes.get(0) != 0
    } else {
        true
    }
}

/// Iterator state over a handle: plans the fetch of the spectra at indices
/// `[index, size)`, in order, with the handle's mode flags at the time the
/// iterator was made.
#[derive(Debug, Clone, Copy, PartialEq, Eq, Structural)]
pub struct RawFileReaderIter {
    /// The next 0-based index to yield.
    pub index: usize,
    /// The total spectrum count of the handle the iterator was made from.
    pub size: usize,
    pub include_signal: bool,
    pub centroid: bool,
}

impl RawFileReaderIter {
    /// Well-formedness: the cursor never passes the end and the count fits
    /// the boundary's signed 32-bit range.
    pub open spec fn wf(&self) -> bool {
        self.index <= self.size && self.size <= MAX_SPECTRUM_COUNT
    }

    /// The requests still to be yielded, in order.
    pub open spec fn pending(&self) -> Seq<SpectrumRequest> {
        Seq::new(
            (self.size - self.index) as nat,
            |k: int| spec_request(self.index + k, self.include_signal, self.centroid),
        )
    }

    /// Yield the next request, advancing the cursor; nothing is yielded once
    /// the cursor reaches the count.
    pub fn next(&mut self) -> (r: Option<SpectrumRequest>)
        requires
            old(self).wf(),
        ensures
            final(self).wf(),
            old(self).index < old(self).size ==> {
                &&& r == Some(old(self).pending()[0])
                &&& final(self).pending() == old(self).pending().skip(1)
                &&& final(self).index == old(self).index + 1
                &&& final(self).size == old(self).size
                &&& final(self).include_signal == old(self).include_signal
                &&& final(self).centroid == old(self).centroid
            },
            old(self).index >= old(self).size ==> r is None && *final(self) == *old(self),
    {
        if self.index < self.size {
            let req = SpectrumRequest {
                scan_number: (self.index as i32) + 1,
                include_signal: self.include_signal,
                centroid: self.centroid,
            };
            self.index = self.index + 1;
            proof {
                assert(final(self).pending() =~= old(self).pending().skip(1));
            }
            Some(req)
        } else {
            None
        }
    }

    /// The exact number of items the iterator ranges over.  As in the
    /// foreign-facing protocol, this reports the total count of the handle
    /// the iterator was made from, throughout the iteration.
    pub fn len(&self) -> (r: usize)
        ensures
            r == self.size,
    {
        self.size
    }
}

/// Iterator state that owns its handle, planning the fetch of every spectrum
/// in order.
pub struct RawFileReaderIntoIter {
    /// The handle the iterator was made from; fetches are performed
    /// through it.
    pub handle: RawFileReader,
    /// The cursor over the handle's spectra.
    pub iter: RawFileReaderIter,
}

impl RawFileReaderIntoIter {
    /// Yield the next request, advancing the cursor.
    pub fn next(&mut self) -> (r: Option<SpectrumRequest>)
        requires
            old(self).iter.wf(),
        ensures
            final(self).handle == old(self).handle,
            final(self).iter.wf(),
            old(self).iter.index < old(self).iter.size ==> {
                &&& r == Some(old(self).iter.pending()[0])
                &&& final(self).iter.pending() == old(self).iter.pending().skip(1)
            },
            old(self).iter.index >= old(self).iter.size ==> r is None && *final(self) == *old(
                self,
            ),
    {
        self.iter.next()
    }

    /// The exact number of items the iterator ranges over.
    pub fn len(&self) -> (r: usize)
        ensures
            r == self.iter.size,
    {
        self.iter.len()
    }
}

/// An iterator freshly made from a handle with count `C` yields exactly `C`
/// requests: one for each 0-based index in order, each carrying the 1-based
/// scan number and the handle's mode flags.  Restarting with another fresh
/// iterator from the same handle yields that same sequence again.
pub proof fn lemma_iterator_exactness(h: RawFileReader)
    requires
        h.wf(),
    ensures
        h.spec_iter().pending().len() == h.spec_len(),
        forall|k: int|
            0 <= k < h.spec_len() ==> h.spec_iter().pending()[k] == spec_request(
                k,
                h.spec_signal_loading(),
                h.spec_centroid_spectra(),
            ),
        h.spec_iter() == h.spec_iter(),
{
}

} // verus!
