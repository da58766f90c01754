use ipc_socket::channel::{ChannelState, Role, TeardownPlan};
use ipc_socket::codec::{decode_message_u32, encode_message_u32};
use ipc_socket::error::Error;
use ipc_socket::protocol::{
    blocking_step, classify_read, on_payload_read, on_prefix_read, BlockingStep, PayloadOutcome,
    PrefixOutcome, ReadEvent,
};
use ipc_socket::wire::{build_frame, frame_prefix, u32_from_be_bytes, u32_to_be_bytes};

#[test]
fn encode_u32_wire_bytes() {
    let (prefix, payload) = encode_message_u32(69).unwrap();
    assert_eq!(prefix, vec![0, 0, 0, 4]);
    assert_eq!(payload, vec![69, 0, 0, 0]);
}

#[test]
fn decode_u32_wire_bytes() {
    let payload = vec![69, 0, 0, 0];
    assert_eq!(decode_message_u32(&payload), Ok(69));
}

#[test]
fn codec_round_trip() {
    for v in [0u32, 1, 42, 69, 0x0102_0304, u32::MAX] {
        let (_, payload) = encode_message_u32(v).unwrap();
        assert_eq!(decode_message_u32(&payload), Ok(v));
    }
}

#[test]
fn decode_too_short_is_decode_error() {
    assert_eq!(decode_message_u32(&vec![]), Err(Error::Decode));
    assert_eq!(decode_message_u32(&vec![1]), Err(Error::Decode));
    assert_eq!(decode_message_u32(&vec![1, 2, 3]), Err(Error::Decode));
}

#[test]
fn decode_ignores_trailing_bytes() {
    let payload = vec![42, 0, 0, 0, 99];
    assert_eq!(decode_message_u32(&payload), Ok(42));
}

#[test]
fn length_field_round_trip() {
    let b = u32_to_be_bytes(0x0102_0304);
    assert_eq!(b, vec![1, 2, 3, 4]);
    assert_eq!(u32_from_be_bytes(&b), 0x0102_0304);
    let z = u32_to_be_bytes(4);
    assert_eq!(z, vec![0, 0, 0, 4]);
}

#[test]
fn frame_layout() {
    let payload = vec![7, 8, 9];
    assert_eq!(frame_prefix(&payload), Ok(vec![0, 0, 0, 3]));
    assert_eq!(build_frame(&payload), Ok(vec![0, 0, 0, 3, 7, 8, 9]));
}

#[test]
fn zero_length_payload_is_a_legal_frame() {
    let empty: Vec<u8> = vec![];
    assert_eq!(build_frame(&empty), Ok(vec![0, 0, 0, 0]));
    // The u32 codec cannot decode from zero bytes, so such a frame is a
    // decode error — not "no message".
    assert_eq!(decode_message_u32(&empty), Err(Error::Decode));
}

#[test]
fn clean_close_at_frame_boundary_is_no_message() {
    let unused = vec![0, 0, 0, 0];
    assert_eq!(
        on_prefix_read(&ReadEvent::CleanClose, &unused),
        PrefixOutcome::NoMessage
    );
}

#[test]
fn mid_frame_close_is_a_transport_error() {
    let unused = vec![0, 0, 0, 0];
    assert_eq!(
        on_prefix_read(&ReadEvent::MidClose, &unused),
        PrefixOutcome::Fail(Error::Transport)
    );
    assert_eq!(
        on_prefix_read(&ReadEvent::Failed, &unused),
        PrefixOutcome::Fail(Error::Transport)
    );
    // Once the prefix is consumed, even a close with zero payload bytes is
    // mid-frame: an error, never "no message".
    assert_eq!(
        on_payload_read(&ReadEvent::CleanClose),
        PayloadOutcome::Fail(Error::Transport)
    );
    assert_eq!(
        on_payload_read(&ReadEvent::MidClose),
        PayloadOutcome::Fail(Error::Transport)
    );
    assert_eq!(
        on_payload_read(&ReadEvent::Failed),
        PayloadOutcome::Fail(Error::Transport)
    );
}

#[test]
fn complete_reads_advance_the_frame() {
    let prefix = vec![0, 0, 0, 5];
    assert_eq!(
        on_prefix_read(&ReadEvent::Complete, &prefix),
        PrefixOutcome::NeedPayload(5)
    );
    assert_eq!(on_payload_read(&ReadEvent::Complete), PayloadOutcome::Decode);
}

#[test]
fn read_classification() {
    assert_eq!(classify_read(4, 4, false), ReadEvent::Complete);
    assert_eq!(classify_read(4, 0, false), ReadEvent::CleanClose);
    assert_eq!(classify_read(4, 2, false), ReadEvent::MidClose);
    assert_eq!(classify_read(4, 0, true), ReadEvent::Failed);
    assert_eq!(classify_read(0, 0, false), ReadEvent::Complete);
}

#[test]
fn blocking_receive_steps() {
    assert_eq!(blocking_step(&Ok(Some(7))), BlockingStep::Deliver(7));
    assert_eq!(blocking_step(&Ok(None)), BlockingStep::Retry);
    assert_eq!(
        blocking_step(&Err(Error::Transport)),
        BlockingStep::Fail(Error::Transport)
    );
}

#[test]
fn frames_stay_in_order_on_the_stream() {
    // Two frames written in turn parse back in the same order.
    let a = vec![1, 2];
    let b = vec![3];
    let mut stream = build_frame(&a).unwrap();
    stream.extend_from_slice(&build_frame(&b).unwrap());

    let l1 = u32_from_be_bytes(&stream[0..4].to_vec()) as usize;
    assert_eq!(l1, 2);
    assert_eq!(&stream[4..4 + l1], &a[..]);
    let rest = &stream[4 + l1..];
    let l2 = u32_from_be_bytes(&rest[0..4].to_vec()) as usize;
    assert_eq!(l2, 1);
    assert_eq!(&rest[4..4 + l2], &b[..]);
    assert_eq!(rest.len(), 4 + l2);
}

#[test]
fn teardown_runs_its_side_effects_once() {
    let mut listener = ChannelState::new(Role::Listener);
    let first = listener.disconnect_step();
    assert_eq!(
        first,
        TeardownPlan {
            shutdown: true,
            remove_path: true
        }
    );
    let second = listener.disconnect_step();
    assert_eq!(
        second,
        TeardownPlan {
            shutdown: false,
            remove_path: false
        }
    );

    let mut connector = ChannelState::new(Role::Connector);
    let first = connector.disconnect_step();
    assert_eq!(
        first,
        TeardownPlan {
            shutdown: true,
            remove_path: false
        }
    );
}

#[test]
fn errors_describe_themselves() {
    let all = [
        Error::Bind,
        Error::Connect,
        Error::Transport,
        Error::Encode,
        Error::Decode,
    ];
    for (i, e) in all.iter().enumerate() {
        assert!(!e.describe().is_empty());
        for other in &all[i + 1..] {
            assert_ne!(e.describe(), other.describe());
        }
    }
}
