//! The framing codec: the binary layout of the batch header (a signed 16-bit
//! little-endian file count) and of the per-file header (one name-length
//! byte, a 256-byte zero-padded name field, and an 8-byte little-endian
//! size), plus the rule that turns a local path into the transmitted name.

use vstd::prelude::*;
use vstd::bytes::*;
use vstd::slice::*;
use vstd::string::StringSliceAdditionalSpecFns;
use vstd::utf8::*;

verus! {

/// Width of the zero-padded name field of a file header.
pub const NAME_FIELD_LEN: usize = 256;

/// Longest name the name field can carry.
pub const MAX_NAME_LEN: usize = 255;

/// Total width of an encoded file header: 1 + 256 + 8 bytes.
pub const FILE_HEADER_LEN: usize = 265;

/// Both peers copy payload bytes in chunks of at most this many bytes.
pub const CHUNK_SIZE: usize = 2048;

/// Encoding a file header fails on exactly one condition: a name too long
/// for the 256-byte name field.  It is reported distinctly, never mended by
/// silent truncation.
#[derive(Clone, Copy, Debug, PartialEq, Eq, Structural)]
pub enum EncodeError {
    NameTooLong,
}

// ---------------------------------------------------------------------------
// Batch header
// ---------------------------------------------------------------------------

/// The unsigned 16-bit value whose little-endian bytes carry this signed
/// count on the wire (two's complement).
pub open spec fn count_to_u16(count: i16) -> u16 {
    if count >= 0 {
        count as u16
    } else {
        (count + 0x10000) as u16
    }
}

/// The signed count carried by an unsigned 16-bit wire value (two's
/// complement).
pub open spec fn u16_to_count(x: u16) -> i16 {
    if x < 0x8000 {
        x as i16
    } else {
        (x - 0x10000) as i16
    }
}

/// Encodes a batch file count as its two-byte little-endian wire form.
pub fn encode_batch_header(count: i16) -> (r: Vec<u8>)
    ensures
        r@ == spec_u16_to_le_bytes(count_to_u16(count)),
        r@.len() == 2,
{
    let x: u16 = if count >= 0 {
        count as u16
    } else {
        ((count as i32) + 0x10000) as u16
    };
    u16_to_le_bytes(x)
}

/// Decodes a two-byte little-endian batch header into its signed file
/// count.  A negative result is a protocol violation; rejecting it is the
/// listener's duty, not the codec's.
pub fn decode_batch_header(bytes: &[u8]) -> (r: i16)
    requires
        bytes@.len() == 2,
    ensures
        r == u16_to_count(spec_u16_from_le_bytes(bytes@)),
{
    let x = u16_from_le_bytes(bytes);
    if x < 0x8000 {
        x as i16
    } else {
        ((x as i32) - 0x10000) as i16
    }
}

/// Law: the batch header round-trips: every count decodes back to itself,
/// and every two-byte wire form re-encodes to the same bytes.
pub proof fn lemma_batch_header_round_trip(count: i16, bytes: Seq<u8>)
    requires
        bytes.len() == 2,
    ensures
        u16_to_count(count_to_u16(count)) == count,
        spec_u16_to_le_bytes(count_to_u16(u16_to_count(spec_u16_from_le_bytes(bytes)))) == bytes,
{
    lemma_auto_spec_u16_to_from_le_bytes();
}

// ---------------------------------------------------------------------------
// Transmitted names
// ---------------------------------------------------------------------------

/// An absolute path begins with a slash.
pub open spec fn is_absolute(path: Seq<u8>) -> bool {
    path.len() > 0 && path[0] == 47u8
}

/// The bytes left after dropping every trailing slash.
pub open spec fn strip_trailing_slashes(s: Seq<u8>) -> Seq<u8>
    decreases s.len(),
{
    if s.len() > 0 && s[s.len() - 1] == 47u8 {
        strip_trailing_slashes(s.drop_last())
    } else {
        s
    }
}

/// The bytes after the last slash, or all of them when there is no slash.
pub open spec fn after_last_slash(s: Seq<u8>) -> Seq<u8>
    decreases s.len(),
{
    if s.len() == 0 {
        s
    } else if s[s.len() - 1] == 47u8 {
        Seq::empty()
    } else {
        after_last_slash(s.drop_last()).push(s[s.len() - 1])
    }
}

/// The name transmitted for a local path: an absolute path sends only its
/// final component (trailing slashes ignored); a relative path is sent
/// verbatim.
pub open spec fn wire_name(path: Seq<u8>) -> Seq<u8> {
    if is_absolute(path) {
        after_last_slash(strip_trailing_slashes(path))
    } else {
        path
    }
}

proof fn lemma_strip_trailing_slashes_range(s: Seq<u8>, e: int)
    requires
        0 <= e <= s.len(),
        forall|k: int| e <= k < s.len() ==> s[k] == 47u8,
        e == 0 || s[e - 1] != 47u8,
    ensures
        strip_trailing_slashes(s) == s.subrange(0, e),
    decreases s.len(),
{
    if s.len() > e {
        assert(s[s.len() - 1] == 47u8);
        lemma_strip_trailing_slashes_range(s.drop_last(), e);
        assert(s.drop_last().subrange(0, e) =~= s.subrange(0, e));
    } else {
        assert(strip_trailing_slashes(s) == s);
        assert(s =~= s.subrange(0, e));
    }
}

proof fn lemma_after_last_slash_range(s: Seq<u8>, j: int)
    requires
        0 <= j <= s.len(),
        forall|k: int| j <= k < s.len() ==> s[k] != 47u8,
        j == 0 || s[j - 1] == 47u8,
    ensures
        after_last_slash(s) == s.subrange(j, s.len() as int),
    decreases s.len(),
{
    if s.len() == 0 {
        assert(s =~= s.subrange(j, s.len() as int));
    } else if s.len() == j {
        assert(s[s.len() - 1] == 47u8);
        assert(Seq::<u8>::empty() =~= s.subrange(j, s.len() as int));
    } else {
        assert(s[s.len() - 1] != 47u8);
        lemma_after_last_slash_range(s.drop_last(), j);
        assert(s.drop_last().subrange(j, s.drop_last().len() as int).push(s[s.len() - 1]) =~= s.subrange(j, s.len() as int));
    }
}

/// Law: a relative path is transmitted verbatim.
pub proof fn lemma_relative_name_verbatim(path: Seq<u8>)
    requires
        !is_absolute(path),
    ensures
        wire_name(path) == path,
{
}

/// The half-open byte range of `bytes@` that holds the transmitted name.
fn effective_range(bytes: &[u8]) -> (r: (usize, usize))
    ensures
        r.0 <= r.1 <= bytes@.len(),
        wire_name(bytes@) == bytes@.subrange(r.0 as int, r.1 as int),
{
    let n = bytes.len();
    if n > 0 && *slice_index_get(bytes, 0) == 47u8 {
        let mut end: usize = n;
        while end > 0 && *slice_index_get(bytes, end - 1) == 47u8
            invariant
                0 <= end <= n == bytes@.len(),
                forall|k: int| end <= k < n ==> bytes@[k] == 47u8,
            decreases end,
        {
            end = end - 1;
        }
        let mut start: usize = end;
        while start > 0 && *slice_index_get(bytes, start - 1) != 47u8
            invariant
                0 <= start <= end <= bytes@.len(),
                forall|k: int| start <= k < end ==> bytes@[k] != 47u8,
            decreases start,
        {
            start = start - 1;
        }
        proof {
            lemma_strip_trailing_slashes_range(bytes@, end as int);
            lemma_after_last_slash_range(bytes@.subrange(0, end as int), start as int);
            assert(bytes@.subrange(0, end as int).subrange(start as int, end as int) =~= bytes@.subrange(start as int, end as int));
        }
        (start, end)
    } else {
        proof {
            assert(bytes@.subrange(0, n as int) =~= bytes@);
        }
        (0, n)
    }
}

/// Turns a local path into the transmitted form: the 256-byte zero-padded
/// name field and the name's length.  A name longer than 255 bytes cannot
/// be represented in that field, so it fails with the distinct
/// [`EncodeError::NameTooLong`] — never by silent truncation.
pub fn convert_name(file_name: &str) -> (r: Result<(Vec<u8>, u8), EncodeError>)
    ensures
        r is Ok <==> wire_name(file_name.spec_bytes()).len() <= MAX_NAME_LEN,
        r matches Ok((field, len)) ==> {
            &&& field@.len() == NAME_FIELD_LEN
            &&& len == wire_name(file_name.spec_bytes()).len()
            &&& field@.subrange(0, len as int) == wire_name(file_name.spec_bytes())
            &&& forall|i: int| len <= i < NAME_FIELD_LEN ==> field@[i] == 0u8
        },
        r matches Err(e) ==> e == EncodeError::NameTooLong,
{
    let bytes = file_name.as_bytes();
    let (start, end) = effective_range(bytes);
    let len = end - start;
    if len > MAX_NAME_LEN {
        return Err(EncodeError::NameTooLong);
    }
    let mut field: Vec<u8> = Vec::new();
    let mut i: usize = start;
    while i < end
        invariant
            start <= i <= end <= bytes@.len(),
            field@ == bytes@.subrange(start as int, i as int),
        decreases end - i,
    {
        field.push(*slice_index_get(bytes, i));
        proof {
            assert(bytes@.subrange(start as int, i as int).push(bytes@[i as int]) =~= bytes@.subrange(start as int, i + 1));
        }
        i = i + 1;
    }
    while field.len() < NAME_FIELD_LEN
        invariant
            len <= field@.len() <= NAME_FIELD_LEN,
            field@.subrange(0, len as int) == bytes@.subrange(start as int, end as int),
            forall|k: int| len <= k < field@.len() ==> field@[k] == 0u8,
        decreases NAME_FIELD_LEN - field.len(),
    {
        field.push(0u8);
        proof {
            assert(field@.subrange(0, len as int) =~= bytes@.subrange(start as int, end as int));
        }
    }
    Ok((field, len as u8))
}

// ---------------------------------------------------------------------------
// File header
// ---------------------------------------------------------------------------

/// The 265 wire bytes of a file header carrying `name` (at most 255 bytes)
/// and `size`: the name's length, the zero-padded name field, and the
/// little-endian size.
pub open spec fn file_header_bytes(name: Seq<u8>, size: u64) -> Seq<u8> {
    seq![name.len() as u8] + name + Seq::new((NAME_FIELD_LEN - name.len()) as nat, |i: int| 0u8)
        + spec_u64_to_le_bytes(size)
}

/// The name bytes a 265-byte header carries: the first length-byte-many
/// bytes of its name field.
pub open spec fn header_name_field(header: Seq<u8>) -> Seq<u8> {
    header.subrange(1, 1 + header[0] as int)
}

/// The size a 265-byte header carries.
pub open spec fn header_size_field(header: Seq<u8>) -> u64 {
    spec_u64_from_le_bytes(header.subrange(257, 265))
}

/// Encodes a file header for a local path and a size.  It fails, distinctly
/// and without truncating, exactly when the transmitted name would exceed
/// 255 bytes.
#[verifier::rlimit(50)]
pub fn encode_file_header(file_name: &str, size: u64) -> (r: Result<Vec<u8>, EncodeError>)
    ensures
        r is Ok <==> wire_name(file_name.spec_bytes()).len() <= MAX_NAME_LEN,
        r matches Ok(v) ==> v@ == file_header_bytes(wire_name(file_name.spec_bytes()), size),
        r matches Err(e) ==> e == EncodeError::NameTooLong,
{
    let (field, len) = match convert_name(file_name) {
        Ok(converted) => converted,
        Err(e) => {
            return Err(e);
        },
    };
    let mut header: Vec<u8> = Vec::new();
    header.push(len);
    let mut i: usize = 0;
    while i < field.len()
        invariant
            i <= field@.len(),
            field@.len() == NAME_FIELD_LEN,
            header@ == seq![len].add(field@.subrange(0, i as int)),
        decreases field.len() - i,
    {
        header.push(field[i]);
        proof {
            assert(seq![len].add(field@.subrange(0, i as int)).push(field@[i as int]) =~= seq![len].add(field@.subrange(0, i + 1)));
        }
        i = i + 1;
    }
    let mut size_bytes = u64_to_le_bytes(size);
    header.append(&mut size_bytes);
    proof {
        let name = wire_name(file_name.spec_bytes());
        let pad = Seq::new((NAME_FIELD_LEN - name.len()) as nat, |k: int| 0u8);
        assert(field@.subrange(0, field@.len() as int) =~= field@);
        assert forall|k: int| 0 <= k < field@.len() implies field@[k] == (name + pad)[k] by {
            if k < name.len() {
                assert(field@[k] == field@.subrange(0, name.len() as int)[k]);
            }
        }
        assert(field@ =~= name + pad);
        assert(header@ =~= file_header_bytes(name, size));
    }
    Ok(header)
}

/// Relies on `str::from_utf8`, which succeeds exactly on valid UTF-8 and
/// views the bytes as the characters they encode, and on `str::to_owned`,
/// which copies the characters; both stated over vstd's model of UTF-8.
#[verifier::external_body]
fn utf8_to_string(bytes: &[u8]) -> (r: Option<String>)
    ensures
        r is Some <==> valid_utf8(bytes@),
        r matches Some(s) ==> s@ == decode_utf8(bytes@),
{
    match std::str::from_utf8(bytes) {
        Ok(s) => Some(s.to_owned()),
        Err(_) => None,
    }
}

/// Decodes a 265-byte file header.  It yields the name and the size when
/// the length-prefixed name bytes are valid text, and `None` otherwise;
/// either way the caller has already consumed all 265 bytes, so the stream
/// stays aligned.
pub fn decode_file_header(bytes: &[u8]) -> (r: Option<(String, u64)>)
    requires
        bytes@.len() == FILE_HEADER_LEN,
    ensures
        r is Some <==> valid_utf8(header_name_field(bytes@)),
        r matches Some((name, size)) ==> {
            &&& name@ == decode_utf8(header_name_field(bytes@))
            &&& size == header_size_field(bytes@)
        },
{
    let len = *slice_index_get(bytes, 0) as usize;
    let name_bytes = slice_subrange(bytes, 1, 1 + len);
    match utf8_to_string(name_bytes) {
        Some(name) => {
            let size = u64_from_le_bytes(slice_subrange(bytes, 257, 265));
            Some((name, size))
        },
        None => None,
    }
}

/// Law: a file header round-trips.  For every name of at most 255 bytes and
/// every size, the encoded header decodes to the same name bytes and size.
pub proof fn lemma_file_header_round_trip(name: Seq<u8>, size: u64)
    requires
        name.len() <= MAX_NAME_LEN,
    ensures
        file_header_bytes(name, size).len() == FILE_HEADER_LEN,
        header_name_field(file_header_bytes(name, size)) == name,
        header_size_field(file_header_bytes(name, size)) == size,
{
    lemma_auto_spec_u64_to_from_le_bytes();
    let h = file_header_bytes(name, size);
    assert(h[0] == name.len() as u8);
    assert(h.subrange(1, 1 + name.len() as int) =~= name);
    assert(h.subrange(257, 265) =~= spec_u64_to_le_bytes(size));
}

/// Law: a name of valid text survives the trip through the name field.  Its
/// UTF-8 bytes fit the field, are valid, and decode to the same characters.
pub proof fn lemma_name_text_round_trip(name: Seq<char>)
    ensures
        valid_utf8(encode_utf8(name)),
        decode_utf8(encode_utf8(name)) == name,
{
    encode_utf8_valid_utf8(name);
    encode_utf8_decode_utf8(name);
}

/// Law: the whole file header round-trips for every name of at most 255
/// valid-text bytes and every 64-bit size.  A relative name goes onto the
/// wire verbatim, and the header it yields decodes back to exactly that
/// name and size.
pub proof fn lemma_file_header_text_round_trip(name: Seq<char>, size: u64)
    requires
        encode_utf8(name).len() <= MAX_NAME_LEN,
        !is_absolute(encode_utf8(name)),
    ensures
        ({
            let header = file_header_bytes(wire_name(encode_utf8(name)), size);
            &&& header.len() == FILE_HEADER_LEN
            &&& valid_utf8(header_name_field(header))
            &&& decode_utf8(header_name_field(header)) == name
            &&& header_size_field(header) == size
        }),
{
    lemma_relative_name_verbatim(encode_utf8(name));
    lemma_file_header_round_trip(encode_utf8(name), size);
    lemma_name_text_round_trip(name);
}

} // verus!
