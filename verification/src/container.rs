//! Bitstream container parser.
//!
//! A bitstream program may arrive wrapped in a container: a fixed 6-byte magic
//! tag, a little-endian 32-bit payload length at byte offset 12, and the
//! payload itself starting at byte offset 16. A buffer without the tag is the
//! payload as-is. Parsing is a pure transform and never extracts partially.

use vstd::prelude::*;

use crate::errors::LoadError;

verus! {

/// The 6-byte magic tag that announces a wrapped bitstream.
pub open spec fn magic_tag() -> Seq<u8> {
    seq![0x4du8, 0x69u8, 0x53u8, 0x54u8, 0x65u8, 0x72u8]
}

/// Offset of the little-endian 32-bit payload-length field.
pub open spec fn length_offset() -> int {
    12
}

/// Offset at which the payload of a wrapped buffer begins.
pub open spec fn payload_offset() -> int {
    16
}

/// Whether the buffer starts with the magic tag.
pub open spec fn has_magic(s: Seq<u8>) -> bool {
    s.len() >= 6 && s.subrange(0, 6) == magic_tag()
}

/// The payload length a wrapped buffer declares in its header.
pub open spec fn declared_len(s: Seq<u8>) -> int
    recommends
        s.len() >= payload_offset(),
{
    (s[12] as int) + 0x100 * (s[13] as int) + 0x1_0000 * (s[14] as int) + 0x100_0000 * (
    s[15] as int)
}

/// The payload of a wrapped buffer: the declared number of bytes after the
/// header, as if tag and header were stripped manually.
pub open spec fn stripped(s: Seq<u8>) -> Seq<u8>
    recommends
        s.len() >= payload_offset(),
        payload_offset() + declared_len(s) <= s.len(),
{
    s.subrange(payload_offset(), payload_offset() + declared_len(s))
}

/// What parsing a buffer yields: the buffer itself when the magic tag is
/// absent; the stripped payload when the tag is present and the declared
/// length fits; a malformed-container failure otherwise.
pub open spec fn spec_parse(s: Seq<u8>) -> Result<Seq<u8>, LoadError> {
    if !has_magic(s) {
        Ok(s)
    } else if s.len() < payload_offset() || payload_offset() + declared_len(s) > s.len() {
        Err(LoadError::MalformedContainer)
    } else {
        Ok(stripped(s))
    }
}

/// Relies on byteorder's `LittleEndian::read_u32`: reads the little-endian
/// 32-bit integer held by four bytes of the buffer. It panics only when fewer
/// than four bytes remain, which the precondition rules out.
#[verifier::external_body]
fn read_u32_le(buf: &[u8], offset: usize) -> (r: u32)
    requires
        offset + 4 <= buf@.len(),
    ensures
        r as int == (buf@[offset as int] as int) + 0x100 * (buf@[offset + 1] as int) + 0x1_0000
            * (buf@[offset + 2] as int) + 0x100_0000 * (buf@[offset + 3] as int),
{
    <byteorder::LittleEndian as byteorder::ByteOrder>::read_u32(&buf[offset..])
}

/// Whether the buffer starts with the magic tag.
pub fn check_magic(program: &[u8]) -> (r: bool)
    ensures
        r == has_magic(program@),
{
    if program.len() < 6 {
        return false;
    }
    let r = program[0] == 0x4d && program[1] == 0x69 && program[2] == 0x53 && program[3] == 0x54
        && program[4] == 0x65 && program[5] == 0x72;
    proof {
        if r {
            assert(program@.subrange(0, 6) =~= magic_tag());
        } else {
            if program@.subrange(0, 6) == magic_tag() {
                assert(forall|i: int|
                    0 <= i < 6 ==> program@[i] == #[trigger] program@.subrange(0, 6)[i]);
                assert(false);
            }
        }
    }
    r
}

/// Detects and strips the container. Returns the payload slice when the tag
/// is present and its declared length fits the buffer, the input unchanged
/// when the tag is absent, and `MalformedContainer` otherwise. No partial
/// extraction: the input buffer is never modified.
pub fn parse_container(program: &[u8]) -> (r: Result<&[u8], LoadError>)
    ensures
        r is Ok <==> spec_parse(program@) is Ok,
        r is Ok ==> r->Ok_0@ == spec_parse(program@)->Ok_0,
        r is Err ==> r->Err_0 == spec_parse(program@)->Err_0,
{
    if !check_magic(program) {
        return Ok(program);
    }
    if program.len() < 16 {
        return Err(LoadError::MalformedContainer);
    }
    let size = read_u32_le(program, 12) as usize;
    if size > program.len() - 16 {
        return Err(LoadError::MalformedContainer);
    }
    Ok(vstd::slice::slice_subrange(program, 16, 16 + size))
}

/// A buffer carrying the magic tag whose declared length fits parses to
/// exactly the payload obtained by stripping the tag and header manually.
pub proof fn lemma_parse_strips_container(s: Seq<u8>)
    requires
        has_magic(s),
        s.len() >= payload_offset(),
        payload_offset() + declared_len(s) <= s.len(),
    ensures
        spec_parse(s) == Ok::<Seq<u8>, LoadError>(stripped(s)),
{
}

/// A buffer without the magic tag parses to itself, unchanged.
pub proof fn lemma_parse_passthrough(s: Seq<u8>)
    requires
        !has_magic(s),
    ensures
        spec_parse(s) == Ok::<Seq<u8>, LoadError>(s),
{
}

/// A container whose declared length exceeds the buffer's remaining bytes
/// fails with `MalformedContainer`, and nothing is extracted.
pub proof fn lemma_parse_malformed(s: Seq<u8>)
    requires
        has_magic(s),
        s.len() < payload_offset() || payload_offset() + declared_len(s) > s.len(),
    ensures
        spec_parse(s) == Err::<Seq<u8>, LoadError>(LoadError::MalformedContainer),
{
}

/// A container built from the magic tag, six filler bytes, a four-byte
/// little-endian length field, and the payload itself.
pub open spec fn wrapped(filler: Seq<u8>, len_bytes: Seq<u8>, payload: Seq<u8>) -> Seq<u8> {
    magic_tag() + filler + len_bytes + payload
}

/// Round trip: wrapping a payload in the container format and parsing the
/// result gives back exactly the payload that was wrapped.
pub proof fn lemma_wrap_round_trip(filler: Seq<u8>, len_bytes: Seq<u8>, payload: Seq<u8>)
    requires
        filler.len() == 6,
        len_bytes.len() == 4,
        (len_bytes[0] as int) + 0x100 * (len_bytes[1] as int) + 0x1_0000 * (len_bytes[2] as int)
            + 0x100_0000 * (len_bytes[3] as int) == payload.len(),
    ensures
        spec_parse(wrapped(filler, len_bytes, payload)) == Ok::<Seq<u8>, LoadError>(payload),
{
    let s = wrapped(filler, len_bytes, payload);
    assert(s.len() == 16 + payload.len());
    assert(s.subrange(0, 6) =~= magic_tag());
    assert(s[12] == len_bytes[0] && s[13] == len_bytes[1] && s[14] == len_bytes[2] && s[15]
        == len_bytes[3]);
    assert(declared_len(s) == payload.len());
    assert(stripped(s) =~= payload);
}

} // verus!
