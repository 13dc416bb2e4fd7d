use basic_android_integration::mock_native::conforming_resolution;
use basic_android_integration::{
    AmidiLibrary, EntryPoint, MidiDevice, MockNative, NativeCall,
};

#[test]
fn release_happens_exactly_once() {
    let mut mock = MockNative::new();
    let lib = AmidiLibrary::builder()
        .path("libamidi.so")
        .build(&conforming_resolution())
        .expect("load");
    let (status, raw_device) = mock.device_from_java();
    let mut dev = MidiDevice::from_java(lib.clone(), status, raw_device).expect("create");
    assert_eq!(dev.handle(), raw_device);

    let call = dev.release().expect("first release must reach the native image");
    assert_eq!(
        call,
        NativeCall {
            entry: EntryPoint::DeviceRelease,
            fn_addr: lib.table.addr(EntryPoint::DeviceRelease),
            target: raw_device,
        }
    );
    let status = mock.device_release(call.target);
    assert_eq!(status, 0);
    assert_eq!(mock.counts().count(EntryPoint::DeviceRelease), 1);
    assert_eq!(dev.handle(), 0);

    assert!(dev.release().is_none());
    assert!(dev.release().is_none());
    assert_eq!(mock.counts().count(EntryPoint::DeviceRelease), 1);
}

#[test]
fn closing_ports_twice_is_safe_and_silent() {
    let mut mock = MockNative::new();
    let lib = AmidiLibrary::builder()
        .path("libamidi.so")
        .build(&conforming_resolution())
        .expect("load");
    let (status, raw_device) = mock.device_from_java();
    let dev = MidiDevice::from_java(lib.clone(), status, raw_device).expect("create");

    let (status, raw_out) = mock.output_port_open(dev.handle(), 0);
    let mut out = dev.open_output_port(status, raw_out).expect("open output port");
    let (status, raw_in) = mock.input_port_open(dev.handle(), 0);
    let mut inp = dev.open_input_port(status, raw_in).expect("open input port");

    let call = out.close().expect("first close must reach the native image");
    assert_eq!(call.entry, EntryPoint::OutputPortClose);
    assert_eq!(call.target, raw_out);
    mock.output_port_close(call.target);
    assert!(out.close().is_none());
    assert_eq!(mock.counts().count(EntryPoint::OutputPortClose), 1);
    assert_eq!(out.handle(), 0);

    let call = inp.close().expect("first close must reach the native image");
    assert_eq!(call.entry, EntryPoint::InputPortClose);
    assert_eq!(call.target, raw_in);
    mock.input_port_close(call.target);
    assert!(inp.close().is_none());
    assert_eq!(mock.counts().count(EntryPoint::InputPortClose), 1);
    assert_eq!(inp.handle(), 0);
}

#[test]
fn ports_share_the_library_binding_of_their_device() {
    let mut mock = MockNative::new();
    let lib = AmidiLibrary::builder()
        .path("libamidi.so")
        .build(&conforming_resolution())
        .expect("load");
    let (status, raw_device) = mock.device_from_java();
    let dev = MidiDevice::from_java(lib.clone(), status, raw_device).expect("create");

    let (status, raw_out) = mock.output_port_open(dev.handle(), 0);
    let mut out = dev.open_output_port(status, raw_out).expect("open output port");
    let (status, raw_in) = mock.input_port_open(dev.handle(), 1);
    let mut inp = dev.open_input_port(status, raw_in).expect("open input port");

    assert_eq!(**out.library(), **dev.library());
    assert_eq!(**inp.library(), **dev.library());
    assert_eq!(**dev.library(), *lib);

    let close_out = out.close().expect("close");
    assert_eq!(close_out.fn_addr, lib.table.addr(EntryPoint::OutputPortClose));
    let close_in = inp.close().expect("close");
    assert_eq!(close_in.fn_addr, lib.table.addr(EntryPoint::InputPortClose));
}

#[test]
fn device_not_found_stores_no_handle_and_releases_nothing() {
    let mut mock = MockNative::new();
    mock.set_from_java_status(-19);
    let lib = AmidiLibrary::builder()
        .path("libamidi.so")
        .build(&conforming_resolution())
        .expect("load");
    let (status, raw_device) = mock.device_from_java();
    assert_eq!(status, -19);
    assert_eq!(raw_device, 0);
    let r = MidiDevice::from_java(lib, status, raw_device);
    match r {
        Err(e) => assert_eq!(e, -19),
        Ok(_) => panic!("device creation must fail with the native status"),
    }
    assert_eq!(mock.counts().count(EntryPoint::DeviceRelease), 0);
}

#[test]
fn device_queries_go_to_the_right_entry_points() {
    let mut mock = MockNative::new();
    let lib = AmidiLibrary::builder()
        .path("libamidi.so")
        .build(&conforming_resolution())
        .expect("load");
    let (status, raw_device) = mock.device_from_java();
    let dev = MidiDevice::from_java(lib.clone(), status, raw_device).expect("create");

    let call = dev.device_type();
    assert_eq!(call.entry, EntryPoint::DeviceGetType);
    assert_eq!(call.fn_addr, lib.table.addr(EntryPoint::DeviceGetType));
    assert_eq!(call.target, raw_device);
    assert_eq!(mock.device_get_type(call.target), 2);

    let call = dev.num_input_ports();
    assert_eq!(call.entry, EntryPoint::DeviceGetNumInputPorts);
    assert_eq!(mock.device_get_num_input_ports(call.target), 1);

    let call = dev.num_output_ports();
    assert_eq!(call.entry, EntryPoint::DeviceGetNumOutputPorts);
    assert_eq!(mock.device_get_num_output_ports(call.target), 1);

    let call = dev.default_protocol();
    assert_eq!(call.entry, EntryPoint::DeviceGetDefaultProtocol);
    assert_eq!(mock.device_get_default_protocol(call.target), 0);
}
