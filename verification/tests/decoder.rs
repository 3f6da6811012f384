use minicap_bridge::byte_stream::ByteStream;
use minicap_bridge::minicap_client::{FrameError, MinicapClient, Phase, ReadOutcome};
use minicap_bridge::wire::read_u32_le;

fn banner() -> Vec<u8> {
    (0u8..24).collect()
}

fn framed(payload: &[u8]) -> Vec<u8> {
    let mut out = (payload.len() as u32).to_le_bytes().to_vec();
    out.extend_from_slice(payload);
    out
}

#[test]
fn frames_come_out_in_wire_order() {
    let mut bytes = banner();
    bytes.extend(framed(&[1, 2, 3]));
    bytes.extend(framed(&[]));
    bytes.extend(framed(&[9; 300]));
    let mut stream = ByteStream::new(bytes);
    let mut client = MinicapClient::new();
    assert_eq!(&client.read_frame(&mut stream).unwrap()[..], &[1, 2, 3]);
    assert_eq!(&client.read_frame(&mut stream).unwrap()[..], &[] as &[u8]);
    let third = client.read_frame(&mut stream).unwrap();
    assert_eq!(third.len(), 300);
    assert!(third.iter().all(|b| *b == 9));
    assert_eq!(stream.available(), 0);
}

#[test]
fn zero_length_frame_is_an_empty_payload() {
    let mut bytes = banner();
    bytes.extend_from_slice(&[0, 0, 0, 0]);
    let mut stream = ByteStream::new(bytes);
    let mut client = MinicapClient::new();
    let frame = client.read_frame(&mut stream).unwrap();
    assert_eq!(frame.len(), 0);
    assert_eq!(client.current_phase(), Phase::Length);
}

#[test]
fn end_of_stream_after_a_whole_frame_is_a_protocol_error() {
    let mut bytes = banner();
    bytes.extend(framed(&[5]));
    let mut stream = ByteStream::new(bytes);
    let mut client = MinicapClient::new();
    assert!(client.read_frame(&mut stream).is_ok());
    assert_eq!(client.read_frame(&mut stream).unwrap_err(), FrameError::Protocol);
    assert_eq!(client.current_phase(), Phase::Length);
}

#[test]
fn stream_cut_in_the_banner_fails() {
    let mut stream = ByteStream::new(vec![0; 23]);
    let mut client = MinicapClient::new();
    assert_eq!(client.read_frame(&mut stream).unwrap_err(), FrameError::Protocol);
    assert_eq!(client.current_phase(), Phase::Banner);
    assert_eq!(stream.available(), 0);
}

#[test]
fn stream_cut_in_the_length_prefix_fails() {
    let mut bytes = banner();
    bytes.extend_from_slice(&[5, 0]);
    let mut stream = ByteStream::new(bytes);
    let mut client = MinicapClient::new();
    assert_eq!(client.read_frame(&mut stream).unwrap_err(), FrameError::Protocol);
    assert_eq!(client.current_phase(), Phase::Length);
}

#[test]
fn stream_cut_in_the_payload_fails() {
    let mut bytes = banner();
    bytes.extend_from_slice(&[5, 0, 0, 0, 1, 2]);
    let mut stream = ByteStream::new(bytes);
    let mut client = MinicapClient::new();
    assert_eq!(client.read_frame(&mut stream).unwrap_err(), FrameError::Protocol);
    assert_eq!(client.current_phase(), Phase::Payload(5));
    assert_eq!(stream.available(), 0);
}

#[test]
fn banner_is_skipped_once() {
    let mut bytes = vec![0xff; 24];
    bytes.extend(framed(&[7]));
    bytes.extend(framed(&[8]));
    let mut stream = ByteStream::new(bytes);
    let mut client = MinicapClient::new();
    assert_eq!(client.read_banner(&mut stream), Ok(()));
    assert_eq!(stream.available(), 10);
    assert_eq!(&client.read_frame(&mut stream).unwrap()[..], &[7]);
    assert_eq!(&client.read_frame(&mut stream).unwrap()[..], &[8]);
}

#[test]
fn read_banner_on_a_short_stream_fails() {
    let mut stream = ByteStream::new(vec![1, 2, 3]);
    let mut client = MinicapClient::new();
    assert_eq!(client.read_banner(&mut stream), Err(FrameError::Protocol));
    assert_eq!(client.current_phase(), Phase::Banner);
}

#[test]
fn length_prefix_is_little_endian() {
    assert_eq!(read_u32_le(&[0x01, 0x02, 0x00, 0x00]), 513);
    assert_eq!(read_u32_le(&[0x78, 0x56, 0x34, 0x12]), 0x1234_5678);
    assert_eq!(read_u32_le(&[0xff, 0xff, 0xff, 0xff]), u32::MAX);
}

#[test]
fn decoder_asks_for_banner_then_prefix_then_payload() {
    let mut client = MinicapClient::new();
    assert_eq!(client.wanted(), 24);
    assert_eq!(client.advance(ReadOutcome::Data(vec![0; 24])).unwrap(), None);
    assert_eq!(client.wanted(), 4);
    assert_eq!(client.advance(ReadOutcome::Data(vec![3, 1, 0, 0])).unwrap(), None);
    assert_eq!(client.current_phase(), Phase::Payload(259));
    assert_eq!(client.wanted(), 259);
    let frame = client.advance(ReadOutcome::Data(vec![4; 259])).unwrap().unwrap();
    assert_eq!(frame.len(), 259);
    assert_eq!(client.wanted(), 4);
}

#[test]
fn empty_payload_is_read_with_an_empty_chunk() {
    let mut client = MinicapClient::new();
    client.advance(ReadOutcome::Data(vec![0; 24])).unwrap();
    client.advance(ReadOutcome::Data(vec![0, 0, 0, 0])).unwrap();
    assert_eq!(client.wanted(), 0);
    let frame = client.advance(ReadOutcome::Data(Vec::new())).unwrap();
    assert_eq!(frame.map(|f| f.len()), Some(0));
}

#[test]
fn closed_stream_is_a_protocol_error_and_failure_an_io_error() {
    let mut client = MinicapClient::new();
    assert_eq!(client.advance(ReadOutcome::Closed).unwrap_err(), FrameError::Protocol);
    assert_eq!(client.advance(ReadOutcome::Failed).unwrap_err(), FrameError::Io);
    assert_eq!(client.current_phase(), Phase::Banner);
}

#[test]
fn chunk_of_the_wrong_size_is_a_protocol_error() {
    let mut client = MinicapClient::new();
    assert_eq!(
        client.advance(ReadOutcome::Data(vec![0; 23])).unwrap_err(),
        FrameError::Protocol
    );
    assert_eq!(
        client.advance(ReadOutcome::Data(vec![0; 25])).unwrap_err(),
        FrameError::Protocol
    );
    assert_eq!(client.current_phase(), Phase::Banner);
}

#[test]
fn exact_read_closes_the_stream_when_it_runs_short() {
    let mut stream = ByteStream::new(vec![1, 2, 3]);
    match stream.read_exact(2) {
        ReadOutcome::Data(chunk) => assert_eq!(chunk, vec![1, 2]),
        other => panic!("unexpected {:?}", other),
    }
    assert!(matches!(stream.read_exact(2), ReadOutcome::Closed));
    assert_eq!(stream.available(), 0);
}

#[test]
fn whole_stream_gives_its_frames_and_then_the_error() {
    let mut bytes = banner();
    bytes.extend(framed(&[1]));
    bytes.extend(framed(&[]));
    bytes.extend(framed(&[2, 3]));
    let mut stream = ByteStream::new(bytes);
    let mut client = MinicapClient::new();
    let (frames, error) = client.read_frames(&mut stream);
    let frames: Vec<Vec<u8>> = frames.iter().map(|f| f.to_vec()).collect();
    assert_eq!(frames, vec![vec![1], vec![], vec![2, 3]]);
    assert_eq!(error, FrameError::Protocol);
}

#[test]
fn cut_stream_gives_only_the_whole_frames() {
    let mut bytes = banner();
    bytes.extend(framed(&[1, 1]));
    bytes.extend(framed(&[2, 2, 2]));
    let whole = bytes.len();
    for cut in 0..whole {
        let mut stream = ByteStream::new(bytes[..cut].to_vec());
        let mut client = MinicapClient::new();
        let (frames, error) = client.read_frames(&mut stream);
        let expected = if cut >= 24 + 6 { 1 } else { 0 };
        assert_eq!(frames.len(), expected);
        assert!(frames.iter().all(|f| &f[..] == &[1, 1]));
        assert_eq!(error, FrameError::Protocol);
    }
}

#[test]
fn stream_without_frames_gives_none() {
    let mut client = MinicapClient::new();
    let (frames, error) = client.read_frames(&mut ByteStream::new(Vec::new()));
    assert!(frames.is_empty());
    assert_eq!(error, FrameError::Protocol);
    let mut client = MinicapClient::new();
    let (frames, _) = client.read_frames(&mut ByteStream::new(banner()));
    assert!(frames.is_empty());
    assert_eq!(client.current_phase(), Phase::Length);
}
