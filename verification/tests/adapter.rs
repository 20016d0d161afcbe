use loco_client::client::{FlushStep, LocoClient, ReadError, ReadPoll};
use loco_client::codec::Command;
use loco_protocol::command::Method;

/// Drains the client's outbound buffer as a transport that accepts at most
/// `per_call` bytes per write would, returning every byte in the order it
/// was handed over.
fn drain_all<T>(client: &mut LocoClient<T>, per_call: usize) -> Vec<u8> {
    let mut out = Vec::new();
    loop {
        match client.poll_flush() {
            FlushStep::Write(chunk) => {
                let n = chunk.len().min(per_call);
                out.extend_from_slice(&chunk[..n]);
                client.consume(n);
            }
            FlushStep::Flush => break,
        }
    }
    out
}

/// The wire frame of one command, computed by the codec itself.
fn raw_frame(id: u32, method: &str, data: &[u8]) -> Vec<u8> {
    let mut sink = loco_protocol::command::client::LocoSink::new();
    sink.send(loco_protocol::command::Command {
        header: loco_protocol::command::Header {
            id,
            status: 0,
            method: Method::new(method).unwrap(),
            data_type: 0,
        },
        data,
    });
    sink.write_buffer.iter().copied().collect()
}

/// Drives reads against already-fed bytes until a command or failure arrives;
/// panics if the adapter asks for more input.
fn read_now<T>(client: &mut LocoClient<T>) -> Result<Command, ReadError> {
    match client.poll_read() {
        ReadPoll::Ready(command) => Ok(command),
        ReadPoll::Failed(e) => Err(e),
        ReadPoll::NeedRead => panic!("adapter wants more input"),
    }
}

#[test]
fn round_trip_single_command() {
    let mut writer = LocoClient::new(());
    let id = writer.write(Method::new("LOGIN").unwrap(), b"hello");
    assert_eq!(id, 1);

    let bytes = drain_all(&mut writer, usize::MAX);
    assert_eq!(bytes, raw_frame(1, "LOGIN", b"hello"));

    let mut reader = LocoClient::new(());
    reader.feed(&bytes);
    let command = read_now(&mut reader).unwrap();
    assert_eq!(command.header.id, 1);
    assert_eq!(command.header.status, 0);
    assert_eq!(command.header.data_type, 0);
    assert_eq!(&*command.header.method, "LOGIN");
    assert_eq!(command.data, b"hello".to_vec());
}

#[test]
fn chunked_delivery_matches_single_chunk() {
    let bytes = raw_frame(7, "PING", b"payload bytes");

    let mut whole = LocoClient::new(());
    whole.feed(&bytes);
    let expected = read_now(&mut whole).unwrap();

    let mut chunked = LocoClient::new(());
    let mut got = None;
    let mut offset = 0;
    while got.is_none() {
        match chunked.poll_read() {
            ReadPoll::Ready(command) => got = Some(command),
            ReadPoll::Failed(e) => panic!("unexpected failure: {:?}", e),
            ReadPoll::NeedRead => {
                assert!(offset < bytes.len(), "adapter read past the frame");
                chunked.feed(&bytes[offset..offset + 1]);
                offset += 1;
            }
        }
    }
    let got = got.unwrap();

    assert_eq!(got.header.id, expected.header.id);
    assert_eq!(got.header.status, expected.header.status);
    assert_eq!(got.header.data_type, expected.header.data_type);
    assert_eq!(&*got.header.method, &*expected.header.method);
    assert_eq!(got.data, expected.data);
}

#[test]
fn ids_start_at_one_and_increase() {
    let mut client = LocoClient::new(());
    assert_eq!(client.write(Method::new("A").unwrap(), b""), 1);
    assert_eq!(client.write(Method::new("B").unwrap(), b"x"), 2);
    assert_eq!(client.write(Method::new("C").unwrap(), b"yz"), 3);
}

#[test]
fn oversized_packet_is_rejected_and_sticky() {
    let too_big = vec![0u8; 16 * 1024 * 1024 + 1];
    let frame = raw_frame(1, "BIG", &too_big);
    let header_only = &frame[..22];

    let mut client = LocoClient::new(());
    client.feed(header_only);
    assert_eq!(read_now(&mut client).unwrap_err(), ReadError::PacketTooLarge);
    assert_eq!(read_now(&mut client).unwrap_err(), ReadError::PacketTooLarge);

    // Later input cannot clear the rejection.
    client.feed(b"more bytes");
    assert_eq!(read_now(&mut client).unwrap_err(), ReadError::PacketTooLarge);
}

#[test]
fn malformed_method_field_is_rejected_and_sticky() {
    // A complete header whose method field holds a byte no text can contain.
    let mut frame = raw_frame(1, "EVIL", b"payload");
    frame[6] = 0xFF;

    let mut client = LocoClient::new(());
    client.feed(&frame);
    assert_eq!(read_now(&mut client).unwrap_err(), ReadError::MalformedHeader);
    assert_eq!(read_now(&mut client).unwrap_err(), ReadError::MalformedHeader);

    // Later input cannot clear the rejection.
    client.feed(b"more bytes");
    assert_eq!(read_now(&mut client).unwrap_err(), ReadError::MalformedHeader);
}

#[test]
fn malformed_header_found_under_chunked_delivery() {
    let mut frame = raw_frame(5, "EVIL", b"payload");
    frame[16] = 0xC0; // a lone continuation-start byte is not text

    let mut client = LocoClient::new(());
    client.feed(&frame[..21]);
    assert!(matches!(client.poll_read(), ReadPoll::NeedRead));
    client.feed(&frame[21..22]);
    assert_eq!(read_now(&mut client).unwrap_err(), ReadError::MalformedHeader);
}

#[test]
fn boundary_size_packet_is_accepted() {
    let data = vec![7u8; 16 * 1024 * 1024];
    let frame = raw_frame(2, "MAX", &data);

    let mut client = LocoClient::new(());
    client.feed(&frame);
    let command = read_now(&mut client).unwrap();
    assert_eq!(command.header.id, 2);
    assert_eq!(command.data.len(), 16 * 1024 * 1024);
}

#[test]
fn end_of_stream_mid_frame_reports_eof_and_repeats() {
    let frame = raw_frame(1, "HALF", b"unfinished");

    let mut client = LocoClient::new(());
    client.feed(&frame[..10]);
    assert!(matches!(client.poll_read(), ReadPoll::NeedRead));

    // The transport returns 0 bytes: end-of-stream mid-frame.
    client.feed(&[]);
    assert_eq!(read_now(&mut client).unwrap_err(), ReadError::UnexpectedEof);
    // The closed state is stable: the same error repeats.
    assert_eq!(read_now(&mut client).unwrap_err(), ReadError::UnexpectedEof);
}

#[test]
fn flush_is_fifo_against_tiny_writes() {
    let mut client = LocoClient::new(());
    let id_a = client.write(Method::new("MethodA").unwrap(), b"hello");
    let id_b = client.write(Method::new("MethodB").unwrap(), b"world");
    assert_eq!((id_a, id_b), (1, 2));

    let sent = drain_all(&mut client, 3);

    let frame_a = raw_frame(1, "MethodA", b"hello");
    let frame_b = raw_frame(2, "MethodB", b"world");
    let mut expected = frame_a.clone();
    expected.extend_from_slice(&frame_b);

    // Both frames left completely, in enqueue order, without interleaving.
    assert_eq!(sent, expected);
    assert_eq!(&sent[..frame_a.len()], &frame_a[..]);
}

#[test]
fn flush_on_empty_buffer_asks_for_transport_flush() {
    let client: LocoClient<()> = LocoClient::new(());
    assert!(matches!(client.poll_flush(), FlushStep::Flush));
}

#[test]
fn request_resolves_on_matching_id_and_discards_others() {
    let mut client = LocoClient::new(());
    let pending = client.request(Method::new("CHAT").unwrap(), b"query");
    assert_eq!(pending.id, 1);
    let _sent = drain_all(&mut client, usize::MAX);

    // Two inbound commands: an unrelated one first, then the response.
    let unrelated = raw_frame(99, "PUSH", b"noise");
    let response = raw_frame(1, "CHAT", b"answer");
    client.feed(&unrelated);
    client.feed(&response);

    let first = read_now(&mut client).unwrap();
    assert_eq!(first.header.id, 99);
    assert!(pending.accept(first).is_none());

    let second = read_now(&mut client).unwrap();
    let resolved = pending.accept(second).expect("matching command kept");
    assert_eq!(resolved.header.id, 1);
    assert_eq!(resolved.data, b"answer".to_vec());
}

#[test]
fn partial_header_needs_more_bytes() {
    let frame = raw_frame(3, "WAIT", b"data");

    let mut client = LocoClient::new(());
    client.feed(&frame[..21]);
    assert!(matches!(client.poll_read(), ReadPoll::NeedRead));
    client.feed(&frame[21..22]);
    // A full header with a small declared size still waits for the payload.
    assert!(matches!(client.poll_read(), ReadPoll::NeedRead));
    client.feed(&frame[22..]);
    let command = read_now(&mut client).unwrap();
    assert_eq!(command.data, b"data".to_vec());
}

#[test]
fn transport_accessors_hand_back_the_transport() {
    let mut client = LocoClient::new(41u8);
    assert_eq!(*client.inner(), 41);
    *client.inner_mut() = 42;
    assert_eq!(*client.inner(), 42);
    assert_eq!(client.into_inner(), 42);
}
