use thermorawfilereader::{RawFileReader, RawFileReaderError, RawVec, SpectrumRequest};

use thermorawfilereader::handle::error_message_present;

#[test]
fn test_open_success_yields_open_handle() {
    let handle = RawFileReader::from_open_call(0x1234, 0, 48).unwrap();
    assert_eq!(handle.token(), 0x1234);
    assert_eq!(handle.len(), 48);
    assert!(!handle.is_empty());
    assert!(handle.get_signal_loading());
    assert!(!handle.get_centroid_spectra());
}

#[test]
fn test_open_failure_statuses() {
    assert_eq!(
        RawFileReader::from_open_call(0x1234, 1, 0).unwrap_err(),
        RawFileReaderError::FileNotFound
    );
    assert_eq!(
        RawFileReader::from_open_call(0x1234, 2, 0).unwrap_err(),
        RawFileReaderError::InvalidFormat
    );
    assert_eq!(
        RawFileReader::from_open_call(0x1234, 3, 0).unwrap_err(),
        RawFileReaderError::Error
    );
    assert_eq!(
        RawFileReader::from_open_call(0x1234, 999, 0).unwrap_err(),
        RawFileReaderError::Error
    );
}

#[test]
fn test_close_nulls_token_and_is_idempotent() {
    let mut handle = RawFileReader::from_open_call(0x77, 0, 3).unwrap();
    assert_eq!(handle.token(), 0x77);
    handle.close();
    assert_eq!(handle.token(), 0);
    assert_eq!(handle.len(), 3);
    handle.close();
    assert_eq!(handle.token(), 0);
    assert_eq!(handle.len(), 3);
}

#[test]
fn test_get_bounds() {
    let handle = RawFileReader::from_open_call(0x10, 0, 5).unwrap();
    for index in 0..5usize {
        let req = handle.get(index).unwrap();
        assert_eq!(req.scan_number, index as i32 + 1);
        assert!(req.include_signal);
        assert!(!req.centroid);
    }
    assert!(handle.get(5).is_none());
    assert!(handle.get(usize::MAX).is_none());
}

#[test]
fn test_get_bounds_empty_resource() {
    let handle = RawFileReader::from_open_call(0x10, 0, 0).unwrap();
    assert!(handle.get(0).is_none());
    assert!(handle.get(1).is_none());
}

#[test]
fn test_get_reflects_mode_flags() {
    let mut handle = RawFileReader::from_open_call(0x10, 0, 2).unwrap();
    handle.set_signal_loading(false);
    handle.set_centroid_spectra(true);
    let req = handle.get(1).unwrap();
    assert_eq!(req.scan_number, 2);
    assert!(!req.include_signal);
    assert!(req.centroid);

    let data_req = handle.get_spectrum_data(0, false).unwrap();
    assert_eq!(data_req.scan_number, 1);
    assert!(data_req.include_signal);
    assert!(!data_req.centroid);

    let trailer_req = handle.get_raw_trailers_for(1).unwrap();
    assert_eq!(trailer_req.scan_number, 2);
    assert!(!trailer_req.include_signal);

    let extended = handle.get_extended_spectrum_data(0, true).unwrap();
    assert_eq!(extended.scan_number, 1);
    assert!(extended.include_signal);
    assert!(handle.get_extended_spectrum_data(2, true).is_none());
    assert!(handle.get_spectrum_data(2, true).is_none());
    assert!(handle.get_raw_trailers_for(2).is_none());
}

#[test]
fn test_iterator_yields_exactly_count_items() {
    let handle = RawFileReader::from_open_call(0x99, 0, 48).unwrap();
    let mut iter = handle.iter();
    let mut collected: Vec<SpectrumRequest> = Vec::new();
    loop {
        assert_eq!(iter.len(), 48);
        match iter.next() {
            Some(req) => collected.push(req),
            None => break,
        }
    }
    assert_eq!(collected.len(), 48);
    for (i, req) in collected.iter().enumerate() {
        assert_eq!(req.scan_number, i as i32 + 1);
    }
    assert!(iter.next().is_none());
}

#[test]
fn test_iterator_restart_yields_same_items() {
    let handle = RawFileReader::from_open_call(0x99, 0, 7).unwrap();
    let mut first = handle.iter();
    let mut second = handle.iter();
    let mut a: Vec<SpectrumRequest> = Vec::new();
    let mut b: Vec<SpectrumRequest> = Vec::new();
    while let Some(req) = first.next() {
        a.push(req);
    }
    while let Some(req) = second.next() {
        b.push(req);
    }
    assert_eq!(a.len(), 7);
    assert_eq!(a, b);
}

#[test]
fn test_into_iter_owns_handle() {
    let handle = RawFileReader::from_open_call(0x42, 0, 2).unwrap();
    let mut iter = handle.into_iter();
    assert_eq!(iter.len(), 2);
    assert_eq!(iter.next().unwrap().scan_number, 1);
    assert_eq!(iter.next().unwrap().scan_number, 2);
    assert!(iter.next().is_none());
}

#[test]
fn test_known_resource_scenario() {
    let mut handle = RawFileReader::from_open_call(0xbeef, 0, 48).unwrap();
    assert_eq!(handle.len(), 48);

    let mut iter = handle.iter();
    let mut yielded = 0usize;
    let mut first_item: Option<SpectrumRequest> = None;
    while let Some(req) = iter.next() {
        if first_item.is_none() {
            first_item = Some(req);
        }
        yielded += 1;
    }
    assert_eq!(yielded, 48);
    assert_eq!(first_item.unwrap(), handle.get(0).unwrap());

    assert!(handle.get(47).is_some());
    assert!(handle.get(48).is_none());

    handle.close();
    assert_eq!(handle.token(), 0);
    // The handle is closed now: an in-range access would be a use-after-close
    // programming error, which the library's contract rules out rather than
    // answering silently.  An out-of-range index still answers nothing, as it
    // never touches the resource.
    assert!(handle.get(48).is_none());
}

#[test]
fn test_error_message_present() {
    let empty = RawVec::new(0);
    assert!(!error_message_present(&empty));

    let single_nul = RawVec::new(1);
    assert!(!error_message_present(&single_nul));

    let mut one_byte = RawVec::new(1);
    one_byte.set(0, b'x');
    assert!(error_message_present(&one_byte));

    let mut text = RawVec::new(2);
    text.set(0, b'h');
    text.set(1, b'i');
    assert!(error_message_present(&text));
}

#[test]
fn test_reader_error_messages() {
    assert_eq!(RawFileReaderError::from(0u32), RawFileReaderError::Success);
    assert_eq!(RawFileReaderError::from(1u32), RawFileReaderError::FileNotFound);
    assert_eq!(RawFileReaderError::from(2u32), RawFileReaderError::InvalidFormat);
    assert_eq!(RawFileReaderError::from(3u32), RawFileReaderError::Error);
    assert_eq!(RawFileReaderError::from(999u32), RawFileReaderError::Error);
    assert_eq!(RawFileReaderError::FileNotFound.message(), "FileNotFound");
}
