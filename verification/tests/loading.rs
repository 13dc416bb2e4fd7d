use basic_android_integration::mock_native::{
    conforming_resolution, resolution_missing, MOCK_IMAGE_HANDLE,
};
use basic_android_integration::{
    AmidiLibrary, EntryPoint, ImageResolution, LoadError, ENTRY_POINT_COUNT,
};

#[test]
fn load_resolves_exactly_fourteen_entry_points() {
    assert_eq!(ENTRY_POINT_COUNT, 14);
    let resolution = conforming_resolution();
    let lib = basic_android_integration::AmidiLibrary::builder()
        .path("libamidi.so")
        .build(&resolution)
        .expect("a conforming image must load");
    assert_eq!(lib.image, MOCK_IMAGE_HANDLE);
    let mut i: usize = 0;
    while i < ENTRY_POINT_COUNT {
        let e = EntryPoint::from_index(i);
        let expected: u64 = 0x1000 + 0x10 * (i as u64);
        assert_eq!(lib.table.addr(e), expected);
        assert_ne!(lib.table.addr(e), 0);
        i += 1;
    }
}

#[test]
fn load_names_the_missing_symbol() {
    let mut i: usize = 0;
    while i < ENTRY_POINT_COUNT {
        let absent = EntryPoint::from_index(i);
        let resolution = resolution_missing(absent);
        let r = AmidiLibrary::builder().path("libamidi.so").build(&resolution);
        match r {
            Err(LoadError::MissingSymbol(named)) => assert_eq!(named, absent),
            other => panic!("expected a missing-symbol error, got {:?}", other),
        }
        i += 1;
    }
}

#[test]
fn load_fails_when_image_cannot_be_opened() {
    let resolution = ImageResolution::OpenFailed(String::from("image not found"));
    let r = AmidiLibrary::builder().path("does_not_exist_libamidi.so").build(&resolution);
    match r {
        Err(LoadError::OpenFailed(cause)) => assert_eq!(cause, "image not found"),
        other => panic!("expected an open error, got {:?}", other),
    }
}

#[test]
fn load_fails_without_a_path() {
    let resolution = conforming_resolution();
    let r = AmidiLibrary::builder().build(&resolution);
    assert!(matches!(r, Err(LoadError::MissingPath)));
}

#[test]
fn builder_records_the_path() {
    let b = AmidiLibrary::builder();
    assert!(b.path_supplied().is_none());
    let b = b.path("libamidi.so");
    assert_eq!(b.path_supplied().as_deref(), Some("libamidi.so"));
}

#[test]
fn entry_points_use_their_exact_exported_names() {
    let expected: [(EntryPoint, &str); 14] = [
        (EntryPoint::DeviceFromJava, "AMidiDevice_fromJava"),
        (EntryPoint::DeviceRelease, "AMidiDevice_release"),
        (EntryPoint::DeviceGetType, "AMidiDevice_getType"),
        (EntryPoint::DeviceGetNumInputPorts, "AMidiDevice_getNumInputPorts"),
        (EntryPoint::DeviceGetNumOutputPorts, "AMidiDevice_getNumOutputPorts"),
        (EntryPoint::DeviceGetDefaultProtocol, "AMidiDevice_getDefaultProtocol"),
        (EntryPoint::OutputPortOpen, "AMidiOutputPort_open"),
        (EntryPoint::OutputPortClose, "AMidiOutputPort_close"),
        (EntryPoint::OutputPortReceive, "AMidiOutputPort_receive"),
        (EntryPoint::InputPortOpen, "AMidiInputPort_open"),
        (EntryPoint::InputPortSend, "AMidiInputPort_send"),
        (EntryPoint::InputPortSendWithTimestamp, "AMidiInputPort_sendWithTimestamp"),
        (EntryPoint::InputPortSendFlush, "AMidiInputPort_sendFlush"),
        (EntryPoint::InputPortClose, "AMidiInputPort_close"),
    ];
    let mut i: usize = 0;
    while i < expected.len() {
        let (e, name) = expected[i];
        assert_eq!(e.symbol_name(), name);
        assert_eq!(e.index_value(), i);
        assert_eq!(EntryPoint::from_index(i), e);
        i += 1;
    }
}
