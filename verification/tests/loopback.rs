use basic_android_integration::mock_native::conforming_resolution;
use basic_android_integration::{
    AmidiLibrary, MidiDevice, MidiInputPort, MidiOutputPort, MockNative, ReceivedEvent,
};

fn open_pair(mock: &mut MockNative) -> (MidiDevice, MidiInputPort, MidiOutputPort) {
    let lib = AmidiLibrary::builder()
        .path("libamidi.so")
        .build(&conforming_resolution())
        .expect("load");
    let (status, raw_device) = mock.device_from_java();
    let dev = MidiDevice::from_java(lib, status, raw_device).expect("create");
    let (status, raw_in) = mock.input_port_open(dev.handle(), 0);
    let inp = dev.open_input_port(status, raw_in).expect("open input port");
    let (status, raw_out) = mock.output_port_open(dev.handle(), 0);
    let out = dev.open_output_port(status, raw_out).expect("open output port");
    (dev, inp, out)
}

#[test]
fn loopback_round_trip_preserves_bytes_opcode_and_timestamp() {
    let mut mock = MockNative::new();
    mock.set_inject_opcode(9);
    let (_dev, inp, out) = open_pair(&mut mock);

    let data: Vec<u8> = vec![1, 2, 3, 250];
    let reported = mock.input_port_send_with_timestamp(inp.handle(), &data, 77);
    let sent = inp.send_with_timestamp(&data, 77, reported).expect("send");
    assert_eq!(sent, data.len());

    let mut buffer: Vec<u8> = vec![0; 16];
    let (ret, opcode, delivered, timestamp) = mock.output_port_receive(out.handle(), buffer.len());
    buffer[..delivered.len()].copy_from_slice(&delivered);
    let event = out.receive(ret, opcode, delivered.len(), timestamp).expect("receive");
    assert_eq!(&buffer[..event.bytes_received], &data[..]);
    assert_eq!(
        event,
        ReceivedEvent { opcode: 9, bytes_received: data.len(), timestamp: 77 }
    );
    assert_eq!(mock.queue_len(), 0);
}

#[test]
fn plain_send_loops_back_with_timestamp_zero() {
    let mut mock = MockNative::new();
    let (_dev, inp, out) = open_pair(&mut mock);

    let data: Vec<u8> = vec![0x90, 0x45, 0x7F];
    let reported = mock.input_port_send(inp.handle(), &data);
    let sent = inp.send(&data, reported).expect("send");
    assert_eq!(sent, 3);

    let (ret, opcode, delivered, timestamp) = mock.output_port_receive(out.handle(), 8);
    let event = out.receive(ret, opcode, delivered.len(), timestamp).expect("receive");
    assert_eq!(delivered, data);
    assert_eq!(event.opcode, 1);
    assert_eq!(event.timestamp, 0);
    assert_eq!(event.bytes_received, 3);
}

#[test]
fn receive_into_zero_length_buffer_writes_nothing() {
    let mut mock = MockNative::new();
    let (_dev, inp, out) = open_pair(&mut mock);

    let reported = mock.input_port_send(inp.handle(), &[5, 6]);
    inp.send(&[5, 6], reported).expect("send");

    let (ret, opcode, delivered, timestamp) = mock.output_port_receive(out.handle(), 0);
    assert_eq!(delivered.len(), 0);
    let event = out.receive(ret, opcode, delivered.len(), timestamp).expect("receive");
    assert_eq!(event.bytes_received, 0);
}

#[test]
fn receive_reports_zero_bytes_when_nothing_waits() {
    let mut mock = MockNative::new();
    let (_dev, _inp, out) = open_pair(&mut mock);

    let (ret, opcode, delivered, timestamp) = mock.output_port_receive(out.handle(), 0);
    assert_eq!(ret, 0);
    assert_eq!(delivered.len(), 0);
    let event = out.receive(ret, opcode, delivered.len(), timestamp).expect("receive");
    assert_eq!(event.bytes_received, 0);
}

#[test]
fn receive_delivers_the_queued_event_verbatim() {
    let mut mock = MockNative::new();
    mock.set_inject_opcode(4);
    let lib = AmidiLibrary::builder()
        .path("libamidi.so")
        .build(&conforming_resolution())
        .expect("load");
    let dev = MidiDevice::from_java(lib, 0, 0x99).expect("create");

    let (status, raw_out) = mock.output_port_open(dev.handle(), 0);
    assert_eq!(status, 0);
    assert_eq!(raw_out, 0x1);
    let out = dev.open_output_port(status, raw_out).expect("open output port");

    let reported = mock.input_port_send_with_timestamp(0x2, &[10, 20, 30], 1000);
    assert_eq!(reported, 3);

    let (ret, opcode, delivered, timestamp) = mock.output_port_receive(out.handle(), 64);
    let event = out.receive(ret, opcode, delivered.len(), timestamp).expect("receive");
    assert_eq!(
        event,
        ReceivedEvent { opcode: 4, bytes_received: 3, timestamp: 1000 }
    );
    assert_eq!(delivered, vec![10, 20, 30]);
}

#[test]
fn send_error_is_surfaced_and_nothing_is_sent() {
    let mut mock = MockNative::new();
    let (_dev, inp, _out) = open_pair(&mut mock);
    mock.set_send_error(-6);

    let data: Vec<u8> = vec![1, 2, 3];
    let reported = mock.input_port_send(inp.handle(), &data);
    assert_eq!(reported, -6);
    let r = inp.send(&data, reported);
    assert_eq!(r, Err(-6));
    assert_eq!(mock.queue_len(), 0);

    let reported = mock.input_port_send_with_timestamp(inp.handle(), &data, 50);
    assert_eq!(inp.send_with_timestamp(&data, 50, reported), Err(-6));
    assert_eq!(mock.queue_len(), 0);
}

#[test]
fn partial_send_reports_the_accepted_count() {
    let mut mock = MockNative::new();
    let (_dev, inp, _out) = open_pair(&mut mock);
    let data: Vec<u8> = vec![1, 2, 3, 4];
    assert_eq!(inp.send(&data, 2), Ok(2));
}

#[test]
fn flush_surfaces_the_native_status() {
    let mut mock = MockNative::new();
    let (_dev, inp, _out) = open_pair(&mut mock);
    let status = mock.input_port_send_flush(inp.handle());
    assert_eq!(inp.send_flush(status), Ok(()));
    assert_eq!(inp.send_flush(3), Err(3));
}

#[test]
fn receive_error_is_surfaced_verbatim() {
    let mut mock = MockNative::new();
    let (_dev, _inp, out) = open_pair(&mut mock);
    assert_eq!(out.receive(-11, 0, 0, 0), Err(-11));
}
