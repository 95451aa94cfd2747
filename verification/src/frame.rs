//! The two wire formats between shims and brokers: length-prefixed frames
//! (a little-endian `u32` length, then the payload) and multiplexed frames
//! (channel byte, zero flags byte, little-endian `u32` length, payload), with
//! the per-frame decisions both ends of a multiplexed relay take.
use vstd::prelude::*;
use crate::encoding::le_u32;
use crate::encoding::le_value;
use crate::encoding::u32_to_le;
use crate::encoding::u32_from_le;
use crate::encoding::lemma_le_round_trip;

verus! {

/// Largest payload of a multiplexed frame.
pub const MAX_MUX_PAYLOAD: usize = 65536;

/// Client to broker: bytes for the helper's standard input.
pub const MUX_STDIN_DATA: u8 = 1;

/// Client to broker: the client's standard input ended.
pub const MUX_STDIN_EOF: u8 = 2;

/// Broker to client: bytes of the helper's standard output.
pub const MUX_STDOUT_DATA: u8 = 3;

/// Broker to client: the helper's standard output ended.
pub const MUX_STDOUT_EOF: u8 = 4;

/// Broker to client: bytes of the helper's standard error.
pub const MUX_STDERR_DATA: u8 = 5;

/// Broker to client: the helper's standard error ended.
pub const MUX_STDERR_EOF: u8 = 6;

/// Broker to client: the helper's exit code, four little-endian bytes.
pub const MUX_EXIT: u8 = 7;

/// Why a frame could not be written or read.
#[derive(Debug, Clone, Copy, PartialEq, Eq, Structural)]
pub enum FrameError {
    /// The payload is longer than the limit.
    TooLarge,
    /// The bytes end before the frame does.
    Incomplete,
    /// A multiplexed frame carries flags other than zero.
    UnsupportedFlags,
}

/// A multiplexed frame.
#[derive(Debug, PartialEq, Eq)]
pub struct MuxFrame {
    pub channel: u8,
    pub payload: Vec<u8>,
}

/// The bytes of a length-prefixed frame.
pub open spec fn frame_bytes(payload: Seq<u8>) -> Seq<u8> {
    le_u32(payload.len() as u32) + payload
}

/// Reading one length-prefixed frame from the front of `bytes`: the payload
/// and the number of bytes it took.
pub open spec fn read_frame_spec(bytes: Seq<u8>, maximum: nat) -> Result<(Seq<u8>, nat), FrameError> {
    if bytes.len() < 4 {
        Err(FrameError::Incomplete)
    } else {
        let n = le_value(bytes.take(4));
        if n > maximum {
            Err(FrameError::TooLarge)
        } else if bytes.len() < 4 + n {
            Err(FrameError::Incomplete)
        } else {
            Ok((bytes.subrange(4, 4 + n), (4 + n) as nat))
        }
    }
}

/// The bytes of a multiplexed frame.
pub open spec fn mux_frame_bytes(channel: u8, payload: Seq<u8>) -> Seq<u8> {
    seq![channel, 0u8] + le_u32(payload.len() as u32) + payload
}

/// Reading one multiplexed frame from the front of `bytes`: its channel,
/// payload and the number of bytes it took.
pub open spec fn read_mux_frame_spec(bytes: Seq<u8>) -> Result<(u8, Seq<u8>, nat), FrameError> {
    if bytes.len() < 2 {
        Err(FrameError::Incomplete)
    } else if bytes[1] != 0 {
        Err(FrameError::UnsupportedFlags)
    } else if bytes.len() < 6 {
        Err(FrameError::Incomplete)
    } else {
        let n = le_value(bytes.subrange(2, 6));
        if n > MAX_MUX_PAYLOAD {
            Err(FrameError::TooLarge)
        } else if bytes.len() < 6 + n {
            Err(FrameError::Incomplete)
        } else {
            Ok((bytes[0], bytes.subrange(6, 6 + n), (6 + n) as nat))
        }
    }
}

fn push_slice(v: &mut Vec<u8>, s: &[u8])
    ensures
        final(v)@ == old(v)@ + s@,
{
    let ghost start = v@;
    let mut i: usize = 0;
    while i < s.len()
        invariant
            i <= s.len(),
            v@ == start + s@.take(i as int),
        decreases s.len() - i,
    {
        v.push(s[i]);
        i += 1;
        assert(s@.take(i as int) == s@.take(i - 1).push(s@[i - 1]));
    }
    assert(s@.take(s.len() as int) == s@);
}

fn copy_range(s: &[u8], start: usize, end: usize) -> (r: Vec<u8>)
    requires
        start <= end <= s.len(),
    ensures
        r@ == s@.subrange(start as int, end as int),
{
    let mut r: Vec<u8> = Vec::new();
    let mut i = start;
    while i < end
        invariant
            start <= i <= end <= s.len(),
            r@ == s@.subrange(start as int, i as int),
        decreases end - i,
    {
        r.push(s[i]);
        i += 1;
        assert(s@.subrange(start as int, i as int) == s@.subrange(start as int, i - 1).push(
            s@[i - 1],
        ));
    }
    r
}

/// The bytes of a length-prefixed frame; `TooLarge` when the payload length
/// does not fit in 32 bits.
pub fn encode_frame(payload: &[u8]) -> (r: Result<Vec<u8>, FrameError>)
    ensures
        payload@.len() > u32::MAX ==> r == Err::<Vec<u8>, FrameError>(FrameError::TooLarge),
        payload@.len() <= u32::MAX ==> (r matches Ok(b) && b@ == frame_bytes(payload@)),
{
    if payload.len() > 4294967295 {
        return Err(FrameError::TooLarge);
    }
    let header = u32_to_le(payload.len() as u32);
    let mut bytes: Vec<u8> = Vec::new();
    push_slice(&mut bytes, &header);
    push_slice(&mut bytes, payload);
    Ok(bytes)
}

/// The payload length announced by a frame header, checked against
/// `maximum`.
pub fn frame_length(header: [u8; 4], maximum: usize) -> (r: Result<usize, FrameError>)
    ensures
        le_value(header@) > maximum ==> r == Err::<usize, FrameError>(FrameError::TooLarge),
        le_value(header@) <= maximum ==> r == Ok::<usize, FrameError>(le_value(header@) as usize),
{
    let n = u32_from_le(header[0], header[1], header[2], header[3]);
    assert(header@ == seq![header@[0], header@[1], header@[2], header@[3]]);
    if n as usize > maximum {
        Err(FrameError::TooLarge)
    } else {
        Ok(n as usize)
    }
}

/// Reads one length-prefixed frame from the front of `bytes`.
pub fn decode_frame(bytes: &[u8], maximum: usize) -> (r: Result<(Vec<u8>, usize), FrameError>)
    ensures
        r matches Ok((p, n)) ==> read_frame_spec(bytes@, maximum as nat) == Ok::<
            (Seq<u8>, nat),
            FrameError,
        >((p@, n as nat)),
        r matches Err(e) ==> read_frame_spec(bytes@, maximum as nat) == Err::<
            (Seq<u8>, nat),
            FrameError,
        >(e),
{
    if bytes.len() < 4 {
        return Err(FrameError::Incomplete);
    }
    let n = u32_from_le(bytes[0], bytes[1], bytes[2], bytes[3]);
    assert(bytes@.take(4) == seq![bytes@[0], bytes@[1], bytes@[2], bytes@[3]]);
    let n = n as usize;
    if n > maximum {
        return Err(FrameError::TooLarge);
    }
    if bytes.len() - 4 < n {
        return Err(FrameError::Incomplete);
    }
    let payload = copy_range(bytes, 4, 4 + n);
    Ok((payload, 4 + n))
}

/// The bytes of a multiplexed frame; `TooLarge` when the payload exceeds
/// the multiplex limit.
pub fn encode_mux_frame(channel: u8, payload: &[u8]) -> (r: Result<Vec<u8>, FrameError>)
    ensures
        payload@.len() > MAX_MUX_PAYLOAD ==> r == Err::<Vec<u8>, FrameError>(FrameError::TooLarge),
        payload@.len() <= MAX_MUX_PAYLOAD ==> (r matches Ok(b) && b@ == mux_frame_bytes(
            channel,
            payload@,
        )),
{
    if payload.len() > MAX_MUX_PAYLOAD {
        return Err(FrameError::TooLarge);
    }
    let mut bytes: Vec<u8> = Vec::new();
    bytes.push(channel);
    bytes.push(0);
    let header = u32_to_le(payload.len() as u32);
    push_slice(&mut bytes, &header);
    push_slice(&mut bytes, payload);
    assert(bytes@ == seq![channel, 0u8] + le_u32(payload@.len() as u32) + payload@);
    Ok(bytes)
}

/// Reads one multiplexed frame from the front of `bytes`.
pub fn decode_mux_frame(bytes: &[u8]) -> (r: Result<(MuxFrame, usize), FrameError>)
    ensures
        r matches Ok((f, n)) ==> read_mux_frame_spec(bytes@) == Ok::<
            (u8, Seq<u8>, nat),
            FrameError,
        >((f.channel, f.payload@, n as nat)),
        r matches Err(e) ==> read_mux_frame_spec(bytes@) == Err::<(u8, Seq<u8>, nat), FrameError>(
            e,
        ),
{
    if bytes.len() < 2 {
        return Err(FrameError::Incomplete);
    }
    if bytes[1] != 0 {
        return Err(FrameError::UnsupportedFlags);
    }
    if bytes.len() < 6 {
        return Err(FrameError::Incomplete);
    }
    let n = u32_from_le(bytes[2], bytes[3], bytes[4], bytes[5]);
    assert(bytes@.subrange(2, 6) == seq![bytes@[2], bytes@[3], bytes@[4], bytes@[5]]);
    let n = n as usize;
    if n > MAX_MUX_PAYLOAD {
        return Err(FrameError::TooLarge);
    }
    if bytes.len() - 6 < n {
        return Err(FrameError::Incomplete);
    }
    let payload = copy_range(bytes, 6, 6 + n);
    Ok((MuxFrame { channel: bytes[0], payload }, 6 + n))
}

/// Law: a length-prefixed frame read back from its bytes, followed by any
/// further bytes, gives the payload and exactly the frame's length, whenever
/// the payload is within the reader's limit.
pub proof fn lemma_frame_round_trip(payload: Seq<u8>, rest: Seq<u8>, maximum: nat)
    requires
        payload.len() <= maximum,
        payload.len() <= u32::MAX,
    ensures
        read_frame_spec(frame_bytes(payload) + rest, maximum) == Ok::<(Seq<u8>, nat), FrameError>(
            (payload, (4 + payload.len()) as nat),
        ),
{
    let n = payload.len() as u32;
    lemma_le_round_trip(n);
    let bytes = frame_bytes(payload) + rest;
    assert(bytes.take(4) =~= le_u32(n));
    assert(bytes.subrange(4, 4 + payload.len() as int) =~= payload);
}

/// Law: a multiplexed frame read back from its bytes, followed by any further
/// bytes, gives its channel, its payload and exactly its length.
pub proof fn lemma_mux_frame_round_trip(channel: u8, payload: Seq<u8>, rest: Seq<u8>)
    requires
        payload.len() <= MAX_MUX_PAYLOAD,
    ensures
        read_mux_frame_spec(mux_frame_bytes(channel, payload) + rest) == Ok::<
            (u8, Seq<u8>, nat),
            FrameError,
        >((channel, payload, (6 + payload.len()) as nat)),
{
    let n = payload.len() as u32;
    lemma_le_round_trip(n);
    let bytes = mux_frame_bytes(channel, payload) + rest;
    assert(bytes.subrange(2, 6) =~= le_u32(n));
    assert(bytes.subrange(6, 6 + payload.len() as int) =~= payload);
    assert(bytes[0] == channel);
    assert(bytes[1] == 0);
}

/// Why a multiplexed relay stops on a frame.
#[derive(Debug, Clone, Copy, PartialEq, Eq, Structural)]
pub enum RelayError {
    /// Data arrived on a stream after its end was announced.
    DataAfterEof,
    /// A data frame carried no bytes.
    EmptyData,
    /// An end-of-stream frame carried bytes.
    EofPayloadNotEmpty,
    /// A stream's end was announced twice.
    DuplicateEof,
    /// The exit code arrived before both output streams ended.
    ExitBeforeEof,
    /// The exit frame did not carry exactly four bytes.
    BadExitPayload,
    /// The frame's channel is not one this direction carries.
    InvalidChannel,
}

/// What the client has seen of the helper's two output streams.
#[derive(Debug, Clone, Copy, PartialEq, Eq, Structural)]
pub struct ClientOutputState {
    pub stdout_eof: bool,
    pub stderr_eof: bool,
}

/// What the client does with one frame from the broker.
#[derive(Debug, PartialEq, Eq)]
pub enum ClientOutputAction {
    WriteStdout(Vec<u8>),
    CloseStdout,
    WriteStderr(Vec<u8>),
    CloseStderr,
    Exit(i32),
}

/// The signed exit code carried by four little-endian bytes.
pub open spec fn exit_code_of(payload: Seq<u8>) -> i32 {
    (le_value(payload) as u32) as i32
}

/// The client's decision on one broker frame, given the state before it:
/// the action and the state after it, or the error that ends the relay.
pub open spec fn client_output_spec(state: ClientOutputState, channel: u8, payload: Seq<u8>) -> Result<
    (ClientOutputState, int, Seq<u8>),
    RelayError,
> {
    if channel == MUX_STDOUT_DATA {
        if state.stdout_eof {
            Err(RelayError::DataAfterEof)
        } else if payload.len() == 0 {
            Err(RelayError::EmptyData)
        } else {
            Ok((state, MUX_STDOUT_DATA as int, payload))
        }
    } else if channel == MUX_STDOUT_EOF {
        if payload.len() != 0 {
            Err(RelayError::EofPayloadNotEmpty)
        } else if state.stdout_eof {
            Err(RelayError::DuplicateEof)
        } else {
            Ok((ClientOutputState { stdout_eof: true, ..state }, MUX_STDOUT_EOF as int, payload))
        }
    } else if channel == MUX_STDERR_DATA {
        if state.stderr_eof {
            Err(RelayError::DataAfterEof)
        } else if payload.len() == 0 {
            Err(RelayError::EmptyData)
        } else {
            Ok((state, MUX_STDERR_DATA as int, payload))
        }
    } else if channel == MUX_STDERR_EOF {
        if payload.len() != 0 {
            Err(RelayError::EofPayloadNotEmpty)
        } else if state.stderr_eof {
            Err(RelayError::DuplicateEof)
        } else {
            Ok((ClientOutputState { stderr_eof: true, ..state }, MUX_STDERR_EOF as int, payload))
        }
    } else if channel == MUX_EXIT {
        if !(state.stdout_eof && state.stderr_eof) {
            Err(RelayError::ExitBeforeEof)
        } else if payload.len() != 4 {
            Err(RelayError::BadExitPayload)
        } else {
            Ok((state, MUX_EXIT as int, payload))
        }
    } else {
        Err(RelayError::InvalidChannel)
    }
}

/// The channel an action answers and the bytes it carries.
pub open spec fn action_shape(action: ClientOutputAction) -> (int, Seq<u8>) {
    match action {
        ClientOutputAction::WriteStdout(b) => (MUX_STDOUT_DATA as int, b@),
        ClientOutputAction::CloseStdout => (MUX_STDOUT_EOF as int, Seq::empty()),
        ClientOutputAction::WriteStderr(b) => (MUX_STDERR_DATA as int, b@),
        ClientOutputAction::CloseStderr => (MUX_STDERR_EOF as int, Seq::empty()),
        ClientOutputAction::Exit(_) => (MUX_EXIT as int, Seq::empty()),
    }
}

/// One step of the client's output relay: checks a broker frame against
/// what has been seen and says what to do with it.
pub fn client_output_step(state: &mut ClientOutputState, frame: MuxFrame) -> (r: Result<
    ClientOutputAction,
    RelayError,
>)
    ensures
        r matches Err(e) ==> client_output_spec(*old(state), frame.channel, frame.payload@) == Err::<
            (ClientOutputState, int, Seq<u8>),
            RelayError,
        >(e) && *final(state) == *old(state),
        r matches Ok(a) ==> {
            &&& client_output_spec(*old(state), frame.channel, frame.payload@) matches Ok(
                (next, channel, bytes),
            )
            &&& *final(state) == next
            &&& channel == action_shape(a).0
            &&& (channel != MUX_EXIT ==> bytes == action_shape(a).1)
            &&& (a matches ClientOutputAction::Exit(code) ==> code == exit_code_of(bytes))
        },
{
    let channel = frame.channel;
    let payload = frame.payload;
    if channel == MUX_STDOUT_DATA {
        if state.stdout_eof {
            return Err(RelayError::DataAfterEof);
        }
        if payload.len() == 0 {
            return Err(RelayError::EmptyData);
        }
        Ok(ClientOutputAction::WriteStdout(payload))
    } else if channel == MUX_STDOUT_EOF {
        if payload.len() != 0 {
            return Err(RelayError::EofPayloadNotEmpty);
        }
        if state.stdout_eof {
            return Err(RelayError::DuplicateEof);
        }
        state.stdout_eof = true;
        assert(payload@ =~= Seq::<u8>::empty());
        Ok(ClientOutputAction::CloseStdout)
    } else if channel == MUX_STDERR_DATA {
        if state.stderr_eof {
            return Err(RelayError::DataAfterEof);
        }
        if payload.len() == 0 {
            return Err(RelayError::EmptyData);
        }
        Ok(ClientOutputAction::WriteStderr(payload))
    } else if channel == MUX_STDERR_EOF {
        if payload.len() != 0 {
            return Err(RelayError::EofPayloadNotEmpty);
        }
        if state.stderr_eof {
            return Err(RelayError::DuplicateEof);
        }
        state.stderr_eof = true;
        assert(payload@ =~= Seq::<u8>::empty());
        Ok(ClientOutputAction::CloseStderr)
    } else if channel == MUX_EXIT {
        if !(state.stdout_eof && state.stderr_eof) {
            return Err(RelayError::ExitBeforeEof);
        }
        if payload.len() != 4 {
            return Err(RelayError::BadExitPayload);
        }
        let n = u32_from_le(payload[0], payload[1], payload[2], payload[3]);
        assert(payload@ == seq![payload@[0], payload@[1], payload@[2], payload@[3]]);
        Ok(ClientOutputAction::Exit(n as i32))
    } else {
        Err(RelayError::InvalidChannel)
    }
}

/// What the broker does with one frame from the client.
#[derive(Debug, PartialEq, Eq)]
pub enum BrokerInputAction {
    WriteStdin(Vec<u8>),
    CloseStdin,
}

/// The broker's decision on one client frame while the helper's standard
/// input is (or is not) still open: whether it stays open afterwards, or the
/// error that ends the relay.
pub open spec fn broker_input_spec(stdin_open: bool, channel: u8, payload: Seq<u8>) -> Result<bool, RelayError> {
    if channel == MUX_STDIN_DATA {
        if !stdin_open {
            Err(RelayError::DataAfterEof)
        } else if payload.len() == 0 {
            Err(RelayError::EmptyData)
        } else {
            Ok(true)
        }
    } else if channel == MUX_STDIN_EOF {
        if payload.len() != 0 {
            Err(RelayError::EofPayloadNotEmpty)
        } else if !stdin_open {
            Err(RelayError::DuplicateEof)
        } else {
            Ok(false)
        }
    } else {
        Err(RelayError::InvalidChannel)
    }
}

/// One step of the broker's input relay.
pub fn broker_input_step(stdin_open: &mut bool, frame: MuxFrame) -> (r: Result<BrokerInputAction, RelayError>)
    ensures
        r matches Err(e) ==> broker_input_spec(*old(stdin_open), frame.channel, frame.payload@)
            == Err::<bool, RelayError>(e) && *final(stdin_open) == *old(stdin_open),
        r matches Ok(a) ==> broker_input_spec(*old(stdin_open), frame.channel, frame.payload@)
            == Ok::<bool, RelayError>(*final(stdin_open)) && match a {
            BrokerInputAction::WriteStdin(b) => frame.channel == MUX_STDIN_DATA && b@ == frame.payload@,
            BrokerInputAction::CloseStdin => frame.channel == MUX_STDIN_EOF,
        },
{
    let channel = frame.channel;
    if channel == MUX_STDIN_DATA {
        if !*stdin_open {
            return Err(RelayError::DataAfterEof);
        }
        if frame.payload.len() == 0 {
            return Err(RelayError::EmptyData);
        }
        Ok(BrokerInputAction::WriteStdin(frame.payload))
    } else if channel == MUX_STDIN_EOF {
        if frame.payload.len() != 0 {
            return Err(RelayError::EofPayloadNotEmpty);
        }
        if !*stdin_open {
            return Err(RelayError::DuplicateEof);
        }
        *stdin_open = false;
        Ok(BrokerInputAction::CloseStdin)
    } else {
        Err(RelayError::InvalidChannel)
    }
}

/// The frame that carries one chunk read from a stream: a data frame for a
/// non-empty chunk, the end-of-stream frame (empty) for an empty read.
pub fn chunk_frame(chunk: &[u8], data_channel: u8, eof_channel: u8) -> (f: MuxFrame)
    requires
        chunk@.len() <= MAX_MUX_PAYLOAD,
    ensures
        chunk@.len() == 0 ==> f.channel == eof_channel && f.payload@.len() == 0,
        chunk@.len() > 0 ==> f.channel == data_channel && f.payload@ == chunk@,
{
    if chunk.len() == 0 {
        MuxFrame { channel: eof_channel, payload: Vec::new() }
    } else {
        MuxFrame { channel: data_channel, payload: copy_range(chunk, 0, chunk.len()) }
    }
}

/// The little-endian bytes of a signed exit code.
pub open spec fn exit_payload(code: i32) -> Seq<u8> {
    le_u32(code as u32)
}

/// The frame that reports the helper's exit code.
pub fn exit_frame(code: i32) -> (f: MuxFrame)
    ensures
        f.channel == MUX_EXIT,
        f.payload@ == exit_payload(code),
{
    let bytes = u32_to_le(code as u32);
    let mut payload: Vec<u8> = Vec::new();
    push_slice(&mut payload, &bytes);
    MuxFrame { channel: MUX_EXIT, payload }
}

/// Law: an exit frame the broker builds is read by the client, once both
/// output streams have ended, as the same exit code.
pub proof fn lemma_exit_code_round_trip(code: i32)
    ensures
        exit_code_of(exit_payload(code)) == code,
        client_output_spec(
            ClientOutputState { stdout_eof: true, stderr_eof: true },
            MUX_EXIT,
            exit_payload(code),
        ) matches Ok((_, channel, _)) && channel == MUX_EXIT,
{
    lemma_le_round_trip(code as u32);
    let u = code as u32;
    assert(((u as u32) as i32) == code) by (bit_vector)
        requires
            u == code as u32,
    ;
}

/// Law: the client never accepts an exit code before it has seen the end of
/// both output streams, and never accepts data on a stream it has seen end.
pub proof fn lemma_client_output_order(state: ClientOutputState, channel: u8, payload: Seq<u8>)
    ensures
        client_output_spec(state, channel, payload) matches Ok((_, c, _)) ==> {
            &&& (c == MUX_EXIT ==> state.stdout_eof && state.stderr_eof)
            &&& (c == MUX_STDOUT_DATA ==> !state.stdout_eof)
            &&& (c == MUX_STDERR_DATA ==> !state.stderr_eof)
        },
        client_output_spec(state, channel, payload) matches Ok((next, _, _)) ==> {
            &&& (state.stdout_eof ==> next.stdout_eof)
            &&& (state.stderr_eof ==> next.stderr_eof)
        },
{
}

} // verus!
