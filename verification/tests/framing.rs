use codex_plus_core::encoding::{sha256_hex_of, to_hex_lower, u32_from_le, u32_to_le};
use codex_plus_core::frame::{
    broker_input_step, chunk_frame, client_output_step, decode_frame, decode_mux_frame,
    encode_frame, encode_mux_frame, exit_frame, frame_length, BrokerInputAction,
    ClientOutputAction, ClientOutputState, FrameError, MuxFrame, RelayError, MAX_MUX_PAYLOAD,
    MUX_EXIT, MUX_STDERR_DATA, MUX_STDERR_EOF, MUX_STDIN_DATA, MUX_STDIN_EOF, MUX_STDOUT_DATA,
    MUX_STDOUT_EOF,
};

fn frame(channel: u8, payload: &[u8]) -> MuxFrame {
    MuxFrame { channel, payload: payload.to_vec() }
}

#[test]
fn frames_are_length_prefixed_little_endian() {
    assert_eq!(encode_frame(b"abc").unwrap(), vec![3, 0, 0, 0, b'a', b'b', b'c']);
    assert_eq!(frame_length([0x01, 0x10, 0, 0], 4096), Err(FrameError::TooLarge));
    assert_eq!(frame_length([0x00, 0x10, 0, 0], 4096), Ok(4096));
}

#[test]
fn a_decoded_frame_is_what_was_encoded() {
    let payload = b"serialized-secret-hello".to_vec();
    let mut bytes = encode_frame(&payload).unwrap();
    bytes.extend_from_slice(b"next");
    assert_eq!(decode_frame(&bytes, 1024), Ok((payload.clone(), 4 + payload.len())));
    assert_eq!(decode_frame(&bytes[..10], 1024), Err(FrameError::Incomplete));
    assert_eq!(decode_frame(&bytes[..3], 1024), Err(FrameError::Incomplete));
    assert_eq!(decode_frame(&bytes, 4), Err(FrameError::TooLarge));
}

#[test]
fn framed_reader_rejects_authentication_response_over_4_kib() {
    let header = u32_to_le((4 * 1024 + 1) as u32);
    assert_eq!(frame_length(header, 4 * 1024), Err(FrameError::TooLarge));
}

#[test]
fn a_decoded_mux_frame_is_what_was_encoded() {
    let bytes = encode_mux_frame(MUX_STDOUT_DATA, b"out").unwrap();
    assert_eq!(bytes, vec![MUX_STDOUT_DATA, 0, 3, 0, 0, 0, b'o', b'u', b't']);
    assert_eq!(decode_mux_frame(&bytes), Ok((frame(MUX_STDOUT_DATA, b"out"), bytes.len())));
    let mut flagged = bytes.clone();
    flagged[1] = 1;
    assert_eq!(decode_mux_frame(&flagged), Err(FrameError::UnsupportedFlags));
    assert_eq!(
        encode_mux_frame(MUX_STDIN_DATA, &vec![0u8; MAX_MUX_PAYLOAD + 1]),
        Err(FrameError::TooLarge)
    );
    assert!(encode_mux_frame(MUX_STDIN_DATA, &vec![0u8; MAX_MUX_PAYLOAD]).is_ok());
}

#[test]
fn exit_codes_travel_as_little_endian_words() {
    let exit = exit_frame(-3);
    assert_eq!(exit.channel, MUX_EXIT);
    assert_eq!(exit.payload, (-3i32).to_le_bytes().to_vec());
    let mut state = ClientOutputState { stdout_eof: true, stderr_eof: true };
    assert_eq!(client_output_step(&mut state, exit), Ok(ClientOutputAction::Exit(-3)));
    assert_eq!(u32_from_le(1, 2, 0, 0), 0x0201);
}

#[test]
fn client_relays_output_until_both_streams_end_then_the_exit() {
    let mut state = ClientOutputState { stdout_eof: false, stderr_eof: false };
    assert_eq!(
        client_output_step(&mut state, frame(MUX_STDOUT_DATA, b"out")),
        Ok(ClientOutputAction::WriteStdout(b"out".to_vec()))
    );
    assert_eq!(
        client_output_step(&mut state, frame(MUX_EXIT, &0i32.to_le_bytes())),
        Err(RelayError::ExitBeforeEof)
    );
    assert_eq!(
        client_output_step(&mut state, frame(MUX_STDOUT_EOF, b"")),
        Ok(ClientOutputAction::CloseStdout)
    );
    assert!(state.stdout_eof);
    assert_eq!(
        client_output_step(&mut state, frame(MUX_STDOUT_DATA, b"late")),
        Err(RelayError::DataAfterEof)
    );
    assert_eq!(
        client_output_step(&mut state, frame(MUX_STDOUT_EOF, b"")),
        Err(RelayError::DuplicateEof)
    );
    assert_eq!(
        client_output_step(&mut state, frame(MUX_STDERR_DATA, b"")),
        Err(RelayError::EmptyData)
    );
    assert_eq!(
        client_output_step(&mut state, frame(MUX_STDERR_EOF, b"x")),
        Err(RelayError::EofPayloadNotEmpty)
    );
    assert_eq!(
        client_output_step(&mut state, frame(MUX_STDERR_DATA, b"err")),
        Ok(ClientOutputAction::WriteStderr(b"err".to_vec()))
    );
    assert_eq!(
        client_output_step(&mut state, frame(MUX_STDERR_EOF, b"")),
        Ok(ClientOutputAction::CloseStderr)
    );
    assert_eq!(
        client_output_step(&mut state, frame(MUX_EXIT, b"\x01")),
        Err(RelayError::BadExitPayload)
    );
    assert_eq!(
        client_output_step(&mut state, frame(MUX_STDIN_DATA, b"x")),
        Err(RelayError::InvalidChannel)
    );
    assert_eq!(
        client_output_step(&mut state, frame(MUX_EXIT, &23i32.to_le_bytes())),
        Ok(ClientOutputAction::Exit(23))
    );
}

#[test]
fn broker_forwards_client_input_to_the_helper() {
    let mut open = true;
    assert_eq!(
        broker_input_step(&mut open, frame(MUX_STDIN_DATA, b"in")),
        Ok(BrokerInputAction::WriteStdin(b"in".to_vec()))
    );
    assert!(open);
    assert_eq!(
        broker_input_step(&mut open, frame(MUX_STDIN_EOF, b"")),
        Ok(BrokerInputAction::CloseStdin)
    );
    assert!(!open);
    assert_eq!(
        broker_input_step(&mut open, frame(MUX_STDIN_DATA, b"in")),
        Err(RelayError::DataAfterEof)
    );
    assert_eq!(
        broker_input_step(&mut open, frame(MUX_STDIN_EOF, b"")),
        Err(RelayError::DuplicateEof)
    );
    assert_eq!(
        broker_input_step(&mut open, frame(MUX_STDOUT_DATA, b"x")),
        Err(RelayError::InvalidChannel)
    );
}

#[test]
fn helper_output_chunks_become_data_or_end_frames() {
    assert_eq!(
        chunk_frame(b"data", MUX_STDOUT_DATA, MUX_STDOUT_EOF),
        frame(MUX_STDOUT_DATA, b"data")
    );
    assert_eq!(chunk_frame(b"", MUX_STDERR_DATA, MUX_STDERR_EOF), frame(MUX_STDERR_EOF, b""));
}

#[test]
fn digests_are_lowercase_hexadecimal() {
    assert_eq!(to_hex_lower(&[0x00, 0xab, 0x10]), "00ab10");
    assert_eq!(
        sha256_hex_of(b"abc"),
        "ba7816bf8f01cfea414140de5dae2223b00361a396177a9cb410ff61f20015ad"
    );
}
