//! Framing for the worker channel.
//!
//! Each frame is a 1-byte kind, a 4-byte big-endian length, then the payload.
//! Control messages carry JSON; pixel data travels as raw bytes in a blob
//! frame.
//!
//! The frame limit is a security control: a reader validates the declared
//! length before it takes any payload, so a hostile sender cannot make the
//! receiver allocate an arbitrary amount.
//!
//! Here a channel is an in-memory byte stream: writers append to a `Vec<u8>`
//! and readers consume from the front of a `&[u8]`, exactly as `std::io`'s
//! implementations for those types do.
use crate::decimal::{decimal, push_decimal};
use crate::wire::push_all;
use crate::ext::io_error_text;
use vstd::prelude::*;

verus! {

/// Largest accepted frame, in bytes.
pub const MAX_FRAME_BYTES: usize = 256 * 1024 * 1024;

/// Bytes in a frame header: the kind, then the big-endian length.
pub const FRAME_HEADER_BYTES: usize = 5;

/// A JSON control message.
pub const KIND_MESSAGE: u8 = 0;

/// A raw byte payload, currently pixels.
pub const KIND_BLOB: u8 = 1;

/// Why a frame could not be read or written.
#[derive(Debug)]
#[non_exhaustive]
pub enum FrameError {
    /// The declared frame length exceeds [`MAX_FRAME_BYTES`].
    TooLarge {
        /// The length the sender declared.
        declared: usize,
    },
    /// The channel closed, usually because the worker died.
    Closed,
    /// The payload was not valid JSON for the expected type.
    Malformed(String),
    /// The frame kind byte was not recognized.
    UnknownKind {
        /// The byte that was read.
        kind: u8,
    },
    /// A blob was expected but a message arrived, or the reverse.
    WrongKind {
        /// What the reader wanted.
        expected: &'static str,
        /// What it got.
        actual: &'static str,
    },
    /// Underlying I/O failure.
    Io(std::io::Error),
}

impl FrameError {
    /// The message for every variant but [`FrameError::Io`], whose text
    /// comes from the operating system.
    pub open spec fn spec_message(&self) -> Seq<char> {
        match self {
            FrameError::TooLarge { declared } => "frame of "@ + decimal(*declared as nat)
                + " bytes exceeds the "@ + decimal(MAX_FRAME_BYTES as nat) + " byte limit"@,
            FrameError::Closed => "channel closed"@,
            FrameError::Malformed(what) => "malformed frame payload: "@ + what@,
            FrameError::UnknownKind { kind } => "unknown frame kind "@ + decimal(*kind as nat),
            FrameError::WrongKind { expected, actual } => "expected a "@ + expected@
                + " frame, got a "@ + actual@ + " frame"@,
            FrameError::Io(_) => "i/o error: "@,
        }
    }

    /// Whether `text` describes this error: exactly [`FrameError::spec_message`],
    /// followed, for an I/O failure, by the operating system's description.
    pub open spec fn is_described_by(&self, text: Seq<char>) -> bool {
        if self is Io {
            exists|detail: Seq<char>| text == self.spec_message() + detail
        } else {
            text == self.spec_message()
        }
    }

    /// A human-readable description of the error.
    pub fn message(&self) -> (text: String)
        ensures
            self.is_described_by(text@),
    {
        match self {
            FrameError::TooLarge { declared } => {
                let mut text = String::from_str("frame of ");
                push_decimal(&mut text, *declared as u128);
                text.append(" bytes exceeds the ");
                push_decimal(&mut text, MAX_FRAME_BYTES as u128);
                text.append(" byte limit");
                text
            },
            FrameError::Closed => String::from_str("channel closed"),
            FrameError::Malformed(what) => {
                let mut text = String::from_str("malformed frame payload: ");
                text.append(what.as_str());
                text
            },
            FrameError::UnknownKind { kind } => {
                let mut text = String::from_str("unknown frame kind ");
                push_decimal(&mut text, *kind as u128);
                text
            },
            FrameError::WrongKind { expected, actual } => {
                let mut text = String::from_str("expected a ");
                text.append(expected);
                text.append(" frame, got a ");
                text.append(actual);
                text.append(" frame");
                text
            },
            FrameError::Io(error) => {
                let mut text = String::from_str("i/o error: ");
                let detail = io_error_text(error);
                text.append(detail.as_str());
                assert(text@ =~= self.spec_message() + detail@);
                text
            },
        }
    }
}

/// The four big-endian bytes of `value`.
pub open spec fn be_bytes(value: u32) -> Seq<u8> {
    seq![
        (value / 16777216) as u8,
        ((value / 65536) % 256) as u8,
        ((value / 256) % 256) as u8,
        (value % 256) as u8,
    ]
}

/// The `u32` whose big-endian bytes start `bytes` at `at`.
pub open spec fn be_value(bytes: Seq<u8>, at: int) -> u32 {
    (bytes[at] * 16777216 + bytes[at + 1] * 65536 + bytes[at + 2] * 256 + bytes[at + 3]) as u32
}

/// Reading back the bytes of a value gives the value.
pub proof fn lemma_be_round_trip(value: u32)
    ensures
        be_value(be_bytes(value), 0) == value,
{
    let b = be_bytes(value);
    assert(b[0] * 16777216 + b[1] * 65536 + b[2] * 256 + b[3] == value) by (nonlinear_arith)
        requires
            b[0] == value / 16777216,
            b[1] == (value / 65536) % 256,
            b[2] == (value / 256) % 256,
            b[3] == value % 256,
            value < 4294967296,
    ;
}

/// The header announcing a frame of `kind` with `length` payload bytes.
pub open spec fn header_bytes(kind: u8, length: nat) -> Seq<u8> {
    seq![kind] + be_bytes(length as u32)
}

/// A whole frame: header, then payload.
pub open spec fn frame_bytes(kind: u8, payload: Seq<u8>) -> Seq<u8> {
    header_bytes(kind, payload.len()) + payload
}

/// The payload length a header at the front of `input` declares.
pub open spec fn declared_length(input: Seq<u8>) -> nat {
    be_value(input, 1) as nat
}

/// Why a frame of `kind` is refused by a reader that wants a message.
pub open spec fn message_kind_refusal(kind: u8) -> Option<FrameError> {
    if kind == KIND_MESSAGE {
        None
    } else if kind == KIND_BLOB {
        Some(FrameError::WrongKind { expected: "message", actual: "blob" })
    } else {
        Some(FrameError::UnknownKind { kind })
    }
}

/// Why a frame of `kind` is refused by a reader that wants a blob.
pub open spec fn blob_kind_refusal(kind: u8) -> Option<FrameError> {
    if kind == KIND_BLOB {
        None
    } else if kind == KIND_MESSAGE {
        Some(FrameError::WrongKind { expected: "blob", actual: "message" })
    } else {
        Some(FrameError::UnknownKind { kind })
    }
}

/// What `read_exact` leaves of `input` after asking for `count` bytes: the
/// rest when they were there, nothing when the input ran out.
pub open spec fn after_taking(input: Seq<u8>, count: nat) -> Seq<u8> {
    if input.len() >= count {
        input.subrange(count as int, input.len() as int)
    } else {
        Seq::empty()
    }
}

/// Reading one frame from `input` whose kind `refusal` judges: the outcome,
/// and what remains of the input.
///
/// A header cut short means the channel closed. An oversized declaration is
/// refused before any payload is taken. A frame of the wrong kind is refused
/// but its payload is still consumed, so the stream stays aligned.
pub open spec fn frame_read(input: Seq<u8>, refusal: spec_fn(u8) -> Option<FrameError>) -> (
    Result<Seq<u8>, FrameError>,
    Seq<u8>,
) {
    if input.len() < 5 {
        (Err(FrameError::Closed), Seq::empty())
    } else {
        let declared = declared_length(input);
        let body = input.subrange(5, input.len() as int);
        if declared > MAX_FRAME_BYTES {
            (Err(FrameError::TooLarge { declared: declared as usize }), body)
        } else if refusal(input[0]) is Some {
            (Err(refusal(input[0])->Some_0), after_taking(body, declared))
        } else if body.len() < declared {
            (Err(FrameError::Closed), Seq::empty())
        } else {
            (Ok(body.subrange(0, declared as int)), body.subrange(declared as int, body.len() as int))
        }
    }
}

/// Reading a control message's payload from the front of `input`.
pub open spec fn message_read(input: Seq<u8>) -> (Result<Seq<u8>, FrameError>, Seq<u8>) {
    frame_read(input, |kind: u8| message_kind_refusal(kind))
}

/// Reading a blob from the front of `input`.
pub open spec fn blob_read(input: Seq<u8>) -> (Result<Seq<u8>, FrameError>, Seq<u8>) {
    frame_read(input, |kind: u8| blob_kind_refusal(kind))
}

/// The exec outcome `result` is the spec outcome `expected`.
pub open spec fn read_matches(result: Result<Vec<u8>, FrameError>, expected: Result<Seq<u8>, FrameError>) -> bool {
    match result {
        Ok(payload) => expected == Ok::<Seq<u8>, FrameError>(payload@),
        Err(error) => expected == Err::<Seq<u8>, FrameError>(error),
    }
}

/// A frame written by this module reads back as its payload, and the reader
/// is left exactly at whatever followed it.
pub proof fn law_frame_round_trip(kind: u8, payload: Seq<u8>, rest: Seq<u8>)
    requires
        payload.len() <= MAX_FRAME_BYTES,
    ensures
        kind == KIND_MESSAGE ==> message_read(frame_bytes(kind, payload) + rest) == (
            Ok::<Seq<u8>, FrameError>(payload),
            rest,
        ),
        kind == KIND_BLOB ==> blob_read(frame_bytes(kind, payload) + rest) == (
            Ok::<Seq<u8>, FrameError>(payload),
            rest,
        ),
{
    lemma_frame_layout(kind, payload, rest);
}

/// A frame of the wrong kind is refused without desynchronising the stream:
/// the reader is left at the frame that follows.
pub proof fn law_wrong_kind_keeps_alignment(kind: u8, payload: Seq<u8>, rest: Seq<u8>)
    requires
        payload.len() <= MAX_FRAME_BYTES,
    ensures
        kind != KIND_MESSAGE ==> message_read(frame_bytes(kind, payload) + rest) == (
            Err::<Seq<u8>, FrameError>(message_kind_refusal(kind)->Some_0),
            rest,
        ),
        kind != KIND_BLOB ==> blob_read(frame_bytes(kind, payload) + rest) == (
            Err::<Seq<u8>, FrameError>(blob_kind_refusal(kind)->Some_0),
            rest,
        ),
{
    lemma_frame_layout(kind, payload, rest);
}

proof fn lemma_frame_layout(kind: u8, payload: Seq<u8>, rest: Seq<u8>)
    requires
        payload.len() <= MAX_FRAME_BYTES,
    ensures
        (frame_bytes(kind, payload) + rest).len() >= 5,
        (frame_bytes(kind, payload) + rest)[0] == kind,
        declared_length(frame_bytes(kind, payload) + rest) == payload.len(),
        (frame_bytes(kind, payload) + rest).subrange(5, (frame_bytes(kind, payload) + rest).len() as int)
            == payload + rest,
        after_taking(payload + rest, payload.len()) == rest,
        (payload + rest).subrange(0, payload.len() as int) == payload,
        (payload + rest).subrange(payload.len() as int, (payload + rest).len() as int) == rest,
{
    let input = frame_bytes(kind, payload) + rest;
    let length = payload.len() as u32;
    lemma_be_round_trip(length);
    assert(input.subrange(1, 5) =~= be_bytes(length));
    assert(be_value(input, 1) == be_value(be_bytes(length), 0));
    assert(input.subrange(5, input.len() as int) =~= payload + rest);
    assert((payload + rest).subrange(0, payload.len() as int) =~= payload);
    assert((payload + rest).subrange(payload.len() as int, (payload + rest).len() as int) =~= rest);
}

/// Writes a frame header: kind byte then big-endian length.
///
/// A length beyond [`MAX_FRAME_BYTES`] is refused and nothing is written.
pub fn write_header(writer: &mut Vec<u8>, kind: u8, length: usize) -> (result: Result<(), FrameError>)
    ensures
        length > MAX_FRAME_BYTES ==> (result matches Err(FrameError::TooLarge { declared })
            && declared == length && final(writer)@ == old(writer)@),
        length <= MAX_FRAME_BYTES ==> result is Ok && final(writer)@ == old(writer)@
            + header_bytes(kind, length as nat),
{
    if length > MAX_FRAME_BYTES {
        return Err(FrameError::TooLarge { declared: length });
    }
    let length = length as u32;
    writer.push(kind);
    writer.push((length / 16777216) as u8);
    writer.push(((length / 65536) % 256) as u8);
    writer.push(((length / 256) % 256) as u8);
    writer.push((length % 256) as u8);
    assert(final(writer)@ =~= old(writer)@ + header_bytes(kind, length as nat));
    Ok(())
}

/// Writes one frame of `kind` carrying `payload`.
fn write_payload(writer: &mut Vec<u8>, kind: u8, payload: &[u8]) -> (result: Result<(), FrameError>)
    ensures
        payload@.len() > MAX_FRAME_BYTES ==> (result matches Err(FrameError::TooLarge { declared })
            && declared == payload@.len() && final(writer)@ == old(writer)@),
        payload@.len() <= MAX_FRAME_BYTES ==> result is Ok && final(writer)@ == old(writer)@
            + frame_bytes(kind, payload@),
{
    write_header(writer, kind, payload.len())?;
    push_all(writer, payload);
    assert(final(writer)@ =~= old(writer)@ + frame_bytes(kind, payload@));
    Ok(())
}

/// Writes one control message whose JSON encoding is `payload`.
pub fn write_message(writer: &mut Vec<u8>, payload: &[u8]) -> (result: Result<(), FrameError>)
    ensures
        payload@.len() > MAX_FRAME_BYTES ==> (result matches Err(FrameError::TooLarge { declared })
            && declared == payload@.len() && final(writer)@ == old(writer)@),
        payload@.len() <= MAX_FRAME_BYTES ==> result is Ok && final(writer)@ == old(writer)@
            + frame_bytes(KIND_MESSAGE, payload@),
{
    write_payload(writer, KIND_MESSAGE, payload)
}

/// Writes one raw byte payload.
///
/// Used for pixels, which must never go through JSON: the encoding inflates
/// them by 3.6x.
pub fn write_blob(writer: &mut Vec<u8>, bytes: &[u8]) -> (result: Result<(), FrameError>)
    ensures
        bytes@.len() > MAX_FRAME_BYTES ==> (result matches Err(FrameError::TooLarge { declared })
            && declared == bytes@.len() && final(writer)@ == old(writer)@),
        bytes@.len() <= MAX_FRAME_BYTES ==> result is Ok && final(writer)@ == old(writer)@
            + frame_bytes(KIND_BLOB, bytes@),
{
    write_payload(writer, KIND_BLOB, bytes)
}

/// Interprets a 5-byte frame header, refusing an oversized declaration.
pub fn decode_header(header: &[u8]) -> (result: Result<(u8, usize), FrameError>)
    requires
        header@.len() == FRAME_HEADER_BYTES,
    ensures
        declared_length(header@) > MAX_FRAME_BYTES ==> (result matches Err(
            FrameError::TooLarge { declared },
        ) && declared == declared_length(header@)),
        declared_length(header@) <= MAX_FRAME_BYTES ==> result == Ok::<(u8, usize), FrameError>(
            (header@[0], declared_length(header@) as usize),
        ),
{
    let kind = header[0];
    let declared = header[1] as u32 * 16777216 + header[2] as u32 * 65536 + header[3] as u32 * 256
        + header[4] as u32;
    let declared = declared as usize;
    if declared > MAX_FRAME_BYTES {
        return Err(FrameError::TooLarge { declared });
    }
    Ok((kind, declared))
}

/// Takes `count` bytes from the front of the reader, or consumes everything
/// and reports the channel closed when fewer remain.
fn take<'a>(reader: &mut &'a [u8], count: usize) -> (taken: Option<&'a [u8]>)
    ensures
        final(reader)@ == after_taking(old(reader)@, count as nat),
        match taken {
            Some(bytes) => old(reader)@.len() >= count && bytes@ == old(reader)@.subrange(
                0,
                count as int,
            ),
            None => old(reader)@.len() < count,
        },
{
    let current: &'a [u8] = *reader;
    if current.len() < count {
        let (_, rest) = current.split_at(current.len());
        *reader = rest;
        assert(rest@ =~= Seq::<u8>::empty());
        None
    } else {
        let (front, rest) = current.split_at(count);
        *reader = rest;
        Some(front)
    }
}

/// Reads a frame header, returning its kind and length.
fn read_header(reader: &mut &[u8]) -> (result: Result<(u8, usize), FrameError>)
    ensures
        old(reader)@.len() < 5 ==> (result matches Err(FrameError::Closed) && final(reader)@
            == Seq::<u8>::empty()),
        old(reader)@.len() >= 5 ==> final(reader)@ == old(reader)@.subrange(
            5,
            old(reader)@.len() as int,
        ),
        old(reader)@.len() >= 5 && declared_length(old(reader)@) > MAX_FRAME_BYTES
            ==> (result matches Err(FrameError::TooLarge { declared }) && declared
            == declared_length(old(reader)@)),
        old(reader)@.len() >= 5 && declared_length(old(reader)@) <= MAX_FRAME_BYTES ==> result
            == Ok::<(u8, usize), FrameError>(
            (old(reader)@[0], declared_length(old(reader)@) as usize),
        ),
{
    match take(reader, FRAME_HEADER_BYTES) {
        None => Err(FrameError::Closed),
        Some(header) => decode_header(header),
    }
}

/// Reads exactly `length` payload bytes.
fn read_exact_payload(reader: &mut &[u8], length: usize) -> (result: Result<Vec<u8>, FrameError>)
    ensures
        final(reader)@ == after_taking(old(reader)@, length as nat),
        old(reader)@.len() < length ==> (result matches Err(FrameError::Closed)),
        old(reader)@.len() >= length ==> (result matches Ok(payload) && payload@ == old(
            reader,
        )@.subrange(0, length as int)),
{
    match take(reader, length) {
        None => Err(FrameError::Closed),
        Some(bytes) => {
            let mut payload: Vec<u8> = Vec::new();
            push_all(&mut payload, bytes);
            Ok(payload)
        },
    }
}

/// Decides whether a frame of `kind` is acceptable to a reader that wants a
/// control message.
pub fn check_message_kind(kind: u8) -> (result: Result<(), FrameError>)
    ensures
        match message_kind_refusal(kind) {
            None => result is Ok,
            Some(error) => result == Err::<(), FrameError>(error),
        },
{
    if kind == KIND_MESSAGE {
        Ok(())
    } else if kind == KIND_BLOB {
        Err(FrameError::WrongKind { expected: "message", actual: "blob" })
    } else {
        Err(FrameError::UnknownKind { kind })
    }
}

/// Decides whether a frame of `kind` is acceptable to a reader that wants a
/// blob.
pub fn check_blob_kind(kind: u8) -> (result: Result<(), FrameError>)
    ensures
        match blob_kind_refusal(kind) {
            None => result is Ok,
            Some(error) => result == Err::<(), FrameError>(error),
        },
{
    if kind == KIND_BLOB {
        Ok(())
    } else if kind == KIND_MESSAGE {
        Err(FrameError::WrongKind { expected: "blob", actual: "message" })
    } else {
        Err(FrameError::UnknownKind { kind })
    }
}

/// Reads one control message and returns its JSON payload.
///
/// A frame of another kind is refused, and its payload is still consumed so
/// the stream stays aligned.
pub fn read_message(reader: &mut &[u8]) -> (result: Result<Vec<u8>, FrameError>)
    ensures
        read_matches(result, message_read(old(reader)@).0),
        final(reader)@ == message_read(old(reader)@).1,
{
    let ghost input = reader@;
    let (kind, declared) = read_header(reader)?;
    let ghost body = reader@;
    assert(body == input.subrange(5, input.len() as int));
    if let Err(refusal) = check_message_kind(kind) {
        let _ = read_exact_payload(reader, declared);
        return Err(refusal);
    }
    read_exact_payload(reader, declared)
}

/// Reads one raw byte payload.
pub fn read_blob(reader: &mut &[u8]) -> (result: Result<Vec<u8>, FrameError>)
    ensures
        read_matches(result, blob_read(old(reader)@).0),
        final(reader)@ == blob_read(old(reader)@).1,
{
    let ghost input = reader@;
    let (kind, declared) = read_header(reader)?;
    let ghost body = reader@;
    assert(body == input.subrange(5, input.len() as int));
    if let Err(refusal) = check_blob_kind(kind) {
        let _ = read_exact_payload(reader, declared);
        return Err(refusal);
    }
    read_exact_payload(reader, declared)
}

} // verus!
