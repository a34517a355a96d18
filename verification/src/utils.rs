//! Byte and string helpers shared by the record parsers.
use vstd::prelude::*;
use vstd::string::StringExecFns;

verus! {

/// Number of zero bits below the lowest set bit of `mask` (0 for a zero mask).
pub open spec fn trailing_zero_count(mask: u8) -> u8 {
    if mask == 0 || mask & 0x01 != 0 {
        0
    } else if mask & 0x02 != 0 {
        1
    } else if mask & 0x04 != 0 {
        2
    } else if mask & 0x08 != 0 {
        3
    } else if mask & 0x10 != 0 {
        4
    } else if mask & 0x20 != 0 {
        5
    } else if mask & 0x40 != 0 {
        6
    } else {
        7
    }
}

/// The bits of `byte` selected by `mask`, shifted down so that the lowest
/// bit of the mask lands on bit 0.
#[verifier::opaque]
pub open spec fn spec_sub_byte_field(byte: u8, mask: u8) -> u8 {
    (byte & mask) >> trailing_zero_count(mask)
}

/// Extracts the bits of `byte` selected by `mask` and aligns them on the
/// least significant bit.
///
/// `sub_byte_field(0b1010_1100, 0b1110_0000) == 0b101`.
pub fn sub_byte_field(byte: u8, mask: u8) -> (r: u8)
    ensures
        r == spec_sub_byte_field(byte, mask),
{
    reveal(spec_sub_byte_field);
    let ghost orig_byte = byte;
    let ghost orig_mask = mask;
    let ghost tz = trailing_zero_count(mask);
    let mut byte = byte;
    byte &= mask;
    let mut mask = mask;
    let mut shifted: u8 = 0;
    proof {
        assert((orig_byte & orig_mask) >> 0u8 == orig_byte & orig_mask) by (bit_vector);
        assert(orig_mask >> 0u8 == orig_mask) by (bit_vector);
    }
    while mask != 0x00 && (mask & 0x01) == 0
        invariant
            shifted <= tz,
            tz == trailing_zero_count(orig_mask),
            mask == orig_mask >> shifted,
            byte == (orig_byte & orig_mask) >> shifted,
        decreases 8 - shifted,
    {
        proof {
            assert(mask == orig_mask >> shifted && shifted <= trailing_zero_count(orig_mask)
                && mask != 0 && mask & 0x01 == 0 ==> shifted < trailing_zero_count(orig_mask))
                by (bit_vector);
            let x = orig_byte & orig_mask;
            assert(shifted < 7 ==> (x >> shifted) >> 1u8 == x >> ((shifted + 1) as u8))
                by (bit_vector);
            assert(shifted < 7 ==> (orig_mask >> shifted) >> 1u8 == orig_mask >> ((shifted
                + 1) as u8)) by (bit_vector);
        }
        byte >>= 1;
        mask >>= 1;
        shifted = shifted + 1;
    }
    proof {
        assert(mask == orig_mask >> shifted && shifted <= trailing_zero_count(orig_mask) && (
        mask == 0 || mask & 0x01 != 0) ==> (orig_byte & orig_mask) >> shifted == (orig_byte
            & orig_mask) >> trailing_zero_count(orig_mask)) by (bit_vector);
    }
    byte
}


/// The field holds exactly the masked bits: shifted back into place it
/// gives `byte & mask`.
pub proof fn lemma_sub_byte_field_restores_masked_bits(byte: u8, mask: u8)
    ensures
        (spec_sub_byte_field(byte, mask) << trailing_zero_count(mask)) == byte & mask,
{
    reveal(spec_sub_byte_field);
    assert(((byte & mask) >> trailing_zero_count(mask)) << trailing_zero_count(mask) == byte & mask)
        by (bit_vector);
}

/// `input` extended with zero bytes up to `min_length`.
pub open spec fn spec_pad_with_zeros(input: Seq<u8>, min_length: nat) -> Seq<u8> {
    if input.len() < min_length {
        input + Seq::new((min_length - input.len()) as nat, |i: int| 0u8)
    } else {
        input
    }
}

/// Padding keeps the input as its prefix, reaches at least `min_length`
/// bytes, and adds only zero bytes.
pub proof fn lemma_pad_with_zeros_keeps_input(input: Seq<u8>, min_length: nat)
    ensures
        spec_pad_with_zeros(input, min_length).len() == if input.len() < min_length {
            min_length
        } else {
            input.len()
        },
        spec_pad_with_zeros(input, min_length).subrange(0, input.len() as int) == input,
        forall|i: int|
            input.len() <= i < spec_pad_with_zeros(input, min_length).len() ==> #[trigger] spec_pad_with_zeros(
                input,
                min_length,
            )[i] == 0,
{
    assert(spec_pad_with_zeros(input, min_length).subrange(0, input.len() as int) =~= input);
}

/// Copies `input` and appends zero bytes until the copy is at least
/// `min_length` bytes long.
pub fn pad_with_zeros(input: &[u8], min_length: usize) -> (r: Vec<u8>)
    ensures
        r@ == spec_pad_with_zeros(input@, min_length as nat),
{
    let mut output: Vec<u8> = Vec::new();
    let mut i: usize = 0;
    while i < input.len()
        invariant
            i <= input.len(),
            output@ == input@.subrange(0, i as int),
        decreases input.len() - i,
    {
        output.push(input[i]);
        i = i + 1;
    }
    assert(output@ == input@);
    while output.len() < min_length
        invariant
            input@.len() <= output@.len(),
            output@.subrange(0, input@.len() as int) == input@,
            forall|k: int| input@.len() <= k < output@.len() ==> output@[k] == 0u8,
            output@.len() <= if input@.len() < min_length { min_length as nat } else { input@.len() },
        decreases min_length - output.len(),
    {
        output.push(0u8);
    }
    assert(output@ == spec_pad_with_zeros(input@, min_length as nat));
    output
}

/// `existing` joined to `message` with `"; "`; an empty `message` leaves
/// `existing` unchanged, and an empty `existing` gives `message` alone.
pub open spec fn spec_append_message(existing: Seq<char>, message: Seq<char>) -> Seq<char> {
    if message.len() == 0 {
        existing
    } else if existing.len() == 0 {
        message
    } else {
        existing + seq![';', ' '] + message
    }
}

/// Appending a message: two non-empty texts are joined by a semicolon and a
/// space; an empty message changes nothing; a message added to an empty
/// text is the text. In every case the result starts with the existing text
/// and ends with the message.
pub proof fn lemma_append_message_joins(existing: Seq<char>, message: Seq<char>)
    ensures
        existing.len() > 0 && message.len() > 0 ==> spec_append_message(existing, message)
            == existing + "; "@ + message,
        message.len() == 0 ==> spec_append_message(existing, message) == existing,
        existing.len() == 0 ==> spec_append_message(existing, message) == message,
        spec_append_message(existing, message).subrange(0, existing.len() as int) == existing,
        spec_append_message(existing, message).subrange(
            spec_append_message(existing, message).len() - message.len(),
            spec_append_message(existing, message).len() as int,
        ) == message,
{
    reveal_strlit("; ");
    let r = spec_append_message(existing, message);
    if existing.len() > 0 && message.len() > 0 {
        assert(r.subrange(0, existing.len() as int) =~= existing);
        assert(r.subrange(r.len() - message.len(), r.len() as int) =~= message);
    } else if message.len() == 0 {
        assert(r.subrange(0, existing.len() as int) =~= existing);
        assert(r.subrange(r.len() - message.len(), r.len() as int) =~= message);
    } else {
        assert(r.subrange(0, existing.len() as int) =~= existing);
        assert(r.subrange(r.len() - message.len(), r.len() as int) =~= message);
    }
}

/// Adds `message` to `original_message`, separated by `"; "`.
pub fn append_message(original_message: String, message: &str) -> (r: String)
    ensures
        r@ == spec_append_message(original_message@, message@),
{
    if message.is_empty() {
        original_message
    } else if original_message.as_str().is_empty() {
        message.to_owned()
    } else {
        let mut out = original_message;
        let sep = "; ";
        proof {
            reveal_strlit("; ");
        }
        out.append(sep);
        out.append(message);
        out
    }
}

/// Appends one character to a string (`String::push`).
#[verifier::external_body]
pub(crate) fn push_char(s: &mut String, c: char)
    ensures
        final(s)@ == old(s)@.push(c),
{
    s.push(c);
}

/// What `String::from_utf8_lossy` makes of `bytes`: the UTF-8 decoding, with
/// U+FFFD in place of each invalid sequence.
pub uninterp spec fn utf8_lossy(bytes: Seq<u8>) -> Seq<char>;

/// True when every byte is below 0x80.
pub open spec fn all_ascii(bytes: Seq<u8>) -> bool {
    forall|i: int| 0 <= i < bytes.len() ==> bytes[i] < 0x80
}

/// The characters that ASCII bytes stand for.
pub open spec fn ascii_chars(bytes: Seq<u8>) -> Seq<char> {
    Seq::new(bytes.len(), |i: int| bytes[i] as char)
}

/// `String::from_utf8_lossy` of `bytes`, as an owned string. Its contract
/// names the result `utf8_lossy(bytes)` and states that ASCII input decodes
/// to the characters of its bytes, as UTF-8 defines it; nothing more of the
/// decoding is stated.
#[verifier::external_body]
fn lossy_string(bytes: &[u8]) -> (s: String)
    ensures
        s@ == utf8_lossy(bytes@),
        all_ascii(bytes@) ==> s@ == ascii_chars(bytes@),
{
    String::from_utf8_lossy(bytes).into_owned()
}

/// `bytes` without its trailing zero bytes.
pub open spec fn trim_trailing_zeros(bytes: Seq<u8>) -> Seq<u8>
    decreases bytes.len(),
{
    if bytes.len() > 0 && bytes.last() == 0 {
        trim_trailing_zeros(bytes.drop_last())
    } else {
        bytes
    }
}

/// The text of a fixed-width field: the bytes decoded as lossy UTF-8, with
/// trailing NUL characters removed. A NUL byte always decodes to one NUL
/// character of its own, so removing trailing zero bytes before decoding
/// removes exactly the trailing NULs of the decoded text.
pub open spec fn spec_fixed_string(bytes: Seq<u8>) -> Seq<char> {
    utf8_lossy(trim_trailing_zeros(bytes))
}

proof fn lemma_trim_prefix(bytes: Seq<u8>, n: int)
    requires
        0 <= n <= bytes.len(),
        forall|k: int| n <= k < bytes.len() ==> bytes[k] == 0,
    ensures
        trim_trailing_zeros(bytes) == trim_trailing_zeros(bytes.subrange(0, n)),
    decreases bytes.len(),
{
    if n < bytes.len() {
        assert(bytes.drop_last().subrange(0, n) == bytes.subrange(0, n));
        lemma_trim_prefix(bytes.drop_last(), n);
    } else {
        assert(bytes.subrange(0, n) == bytes);
    }
}

/// Decodes a fixed-width text field (see `spec_fixed_string`).
pub fn fixed_string(bytes: &[u8]) -> (s: String)
    ensures
        s@ == spec_fixed_string(bytes@),
        all_ascii(trim_trailing_zeros(bytes@)) ==> s@ == ascii_chars(trim_trailing_zeros(bytes@)),
{
    let mut n = bytes.len();
    while n > 0 && bytes[n - 1] == 0
        invariant
            n <= bytes.len(),
            forall|k: int| n <= k < bytes.len() ==> bytes@[k] == 0,
        decreases n,
    {
        n = n - 1;
    }
    proof {
        lemma_trim_prefix(bytes@, n as int);
        let t = bytes@.subrange(0, n as int);
        if n > 0 {
            assert(t.last() != 0);
        }
        assert(trim_trailing_zeros(t) == t);
    }
    let trimmed = slice_prefix(bytes, n);
    lossy_string(trimmed.as_slice())
}

/// Position of the first zero byte of `bytes` at or after `i`, or the length
/// where there is none.
pub open spec fn first_nul_from(bytes: Seq<u8>, i: int) -> int
    decreases bytes.len() - i,
{
    if i < 0 || i >= bytes.len() {
        bytes.len() as int
    } else if bytes[i] == 0 {
        i
    } else {
        first_nul_from(bytes, i + 1)
    }
}

/// The bytes before the first zero byte (all of them where there is none).
pub open spec fn until_nul(bytes: Seq<u8>) -> Seq<u8> {
    bytes.take(first_nul_from(bytes, 0))
}

/// The text of a NUL-terminated field: the bytes before the first zero
/// byte, decoded as lossy UTF-8.
pub open spec fn spec_nul_terminated_string(bytes: Seq<u8>) -> Seq<char> {
    utf8_lossy(until_nul(bytes))
}

/// Decodes a NUL-terminated text field (see `spec_nul_terminated_string`).
pub fn nul_terminated_string(bytes: &[u8]) -> (s: String)
    ensures
        s@ == spec_nul_terminated_string(bytes@),
        all_ascii(until_nul(bytes@)) ==> s@ == ascii_chars(until_nul(bytes@)),
{
    let mut n: usize = 0;
    while n < bytes.len() && bytes[n] != 0
        invariant
            n <= bytes.len(),
            first_nul_from(bytes@, n as int) == first_nul_from(bytes@, 0),
        decreases bytes.len() - n,
    {
        n = n + 1;
    }
    proof {
        assert(first_nul_from(bytes@, n as int) == n);
    }
    let prefix = slice_prefix(bytes, n);
    assert(prefix@ == until_nul(bytes@));
    lossy_string(prefix.as_slice())
}

/// The first `n` bytes of `bytes`, copied.
pub fn slice_prefix(bytes: &[u8], n: usize) -> (r: Vec<u8>)
    requires
        n <= bytes.len(),
    ensures
        r@ == bytes@.subrange(0, n as int),
{
    slice_range(bytes, 0, n)
}

/// The bytes `bytes[from..to]`, copied.
pub fn slice_range(bytes: &[u8], from: usize, to: usize) -> (r: Vec<u8>)
    requires
        from <= to <= bytes.len(),
    ensures
        r@ == bytes@.subrange(from as int, to as int),
{
    let mut out: Vec<u8> = Vec::new();
    let mut i = from;
    while i < to
        invariant
            from <= i <= to <= bytes.len(),
            out@ == bytes@.subrange(from as int, i as int),
        decreases to - i,
    {
        out.push(bytes[i]);
        i = i + 1;
    }
    out
}

// ---------------------------------------------------------------------------
// Little-endian integers
// ---------------------------------------------------------------------------

/// Unsigned 16-bit little-endian value at `off`.
pub open spec fn le_u16(b: Seq<u8>, off: int) -> u16 {
    (b[off] as int + 256 * (b[off + 1] as int)) as u16
}

/// Unsigned 32-bit little-endian value at `off`.
pub open spec fn le_u32(b: Seq<u8>, off: int) -> u32 {
    (le_u16(b, off) as int + 65536 * (le_u16(b, off + 2) as int)) as u32
}

/// Unsigned 64-bit little-endian value at `off`.
pub open spec fn le_u64(b: Seq<u8>, off: int) -> u64 {
    (le_u32(b, off) as int + 0x1_0000_0000 * (le_u32(b, off + 4) as int)) as u64
}

/// The two's-complement reading of a byte.
pub open spec fn as_i8(x: u8) -> i8 {
    (if x < 0x80 { x as int } else { x as int - 0x100 }) as i8
}

/// The two's-complement reading of a 16-bit value.
pub open spec fn as_i16(x: u16) -> i16 {
    (if x < 0x8000 { x as int } else { x as int - 0x1_0000 }) as i16
}

/// The two's-complement reading of a 32-bit value.
pub open spec fn as_i32(x: u32) -> i32 {
    (if x < 0x8000_0000 { x as int } else { x as int - 0x1_0000_0000 }) as i32
}

/// The two's-complement reading of a 64-bit value.
pub open spec fn as_i64(x: u64) -> i64 {
    (if x < 0x8000_0000_0000_0000 {
        x as int
    } else {
        x as int - 0x1_0000_0000_0000_0000
    }) as i64
}

/// Reads the unsigned 16-bit little-endian value at `off`.
pub fn read_u16_le(b: &[u8], off: usize) -> (r: u16)
    requires
        off + 2 <= b.len(),
    ensures
        r == le_u16(b@, off as int),
{
    b[off] as u16 + 256 * (b[off + 1] as u16)
}

/// Reads the unsigned 32-bit little-endian value at `off`.
pub fn read_u32_le(b: &[u8], off: usize) -> (r: u32)
    requires
        off + 4 <= b.len(),
    ensures
        r == le_u32(b@, off as int),
{
    let lo = read_u16_le(b, off);
    let hi = read_u16_le(b, off + 2);
    lo as u32 + 65536 * (hi as u32)
}

/// Reads the unsigned 64-bit little-endian value at `off`.
pub fn read_u64_le(b: &[u8], off: usize) -> (r: u64)
    requires
        off + 8 <= b.len(),
    ensures
        r == le_u64(b@, off as int),
{
    let lo = read_u32_le(b, off);
    let hi = read_u32_le(b, off + 4);
    lo as u64 + 0x1_0000_0000 * (hi as u64)
}

/// Two's-complement reading of a byte.
pub fn to_i8(x: u8) -> (r: i8)
    ensures
        r == as_i8(x),
{
    if x < 0x80 {
        x as i8
    } else {
        ((x - 0x80) as i8) - 0x7f - 1
    }
}

/// Two's-complement reading of a 16-bit value.
pub fn to_i16(x: u16) -> (r: i16)
    ensures
        r == as_i16(x),
{
    if x < 0x8000 {
        x as i16
    } else {
        ((x - 0x8000) as i16) - 0x7fff - 1
    }
}

/// Two's-complement reading of a 32-bit value.
pub fn to_i32(x: u32) -> (r: i32)
    ensures
        r == as_i32(x),
{
    if x < 0x8000_0000 {
        x as i32
    } else {
        ((x - 0x8000_0000) as i32) - 0x7fff_ffff - 1
    }
}

/// Two's-complement reading of a 64-bit value.
pub fn to_i64(x: u64) -> (r: i64)
    ensures
        r == as_i64(x),
{
    if x < 0x8000_0000_0000_0000 {
        x as i64
    } else {
        ((x - 0x8000_0000_0000_0000) as i64) - 0x7fff_ffff_ffff_ffff - 1
    }
}

/// The decimal digit character of `d` (0 to 9).
pub open spec fn digit_char(d: nat) -> char {
    (48 + d) as char
}

/// The decimal representation of `n`, without leading zeros.
pub open spec fn decimal(n: nat) -> Seq<char>
    decreases n,
{
    if n < 10 {
        seq![digit_char(n)]
    } else {
        decimal(n / 10).push(digit_char(n % 10))
    }
}

/// Appends the decimal representation of `n` to `s`.
pub fn push_decimal(s: &mut String, n: u8)
    ensures
        final(s)@ == old(s)@ + decimal(n as nat),
{
    let ghost before = s@;
    if n >= 100 {
        push_char(s, ((n / 100) + 48) as char);
        push_char(s, (((n / 10) % 10) + 48) as char);
        push_char(s, ((n % 10) + 48) as char);
        proof {
            reveal_with_fuel(decimal, 3);
            assert(decimal((n / 10) as nat) == seq![digit_char((n / 100) as nat)].push(
                digit_char(((n / 10) % 10) as nat),
            ));
            assert(s@ =~= before + decimal(n as nat));
        }
    } else if n >= 10 {
        push_char(s, ((n / 10) + 48) as char);
        push_char(s, ((n % 10) + 48) as char);
        proof {
            reveal_with_fuel(decimal, 2);
            assert(s@ =~= before + decimal(n as nat));
        }
    } else {
        push_char(s, (n + 48) as char);
        proof {
            assert(s@ =~= before + decimal(n as nat));
        }
    }
}

/// Appends the decimal representation of `n` to `s`.
pub fn push_decimal_u64(s: &mut String, n: u64)
    ensures
        final(s)@ == old(s)@ + decimal(n as nat),
    decreases n,
{
    let ghost before = s@;
    if n >= 10 {
        push_decimal_u64(s, n / 10);
    }
    let ghost mid = s@;
    let d = (n % 10) as u8;
    push_char(s, (d + 48) as char);
    proof {
        if n >= 10 {
            assert(mid == before + decimal((n / 10) as nat));
            assert(s@ =~= before + decimal(n as nat));
        } else {
            assert(s@ =~= before + decimal(n as nat));
        }
    }
}

/// The number that a string of decimal digits stands for.
pub open spec fn digits_value(s: Seq<char>) -> int
    decreases s.len(),
{
    if s.len() == 0 {
        0
    } else {
        digits_value(s.drop_last()) * 10 + (s.last() as int - 48)
    }
}

/// `decimal(n)` is the usual decimal writing of `n`: decimal digits only,
/// no leading zero (but for 0 itself), and it reads back as `n`.
pub proof fn lemma_decimal_reads_back(n: nat)
    ensures
        decimal(n).len() >= 1,
        forall|i: int| 0 <= i < decimal(n).len() ==> '0' <= #[trigger] decimal(n)[i] <= '9',
        n > 0 ==> decimal(n)[0] != '0',
        n == 0 ==> decimal(n) == seq!['0'],
        digits_value(decimal(n)) == n,
    decreases n,
{
    if n >= 10 {
        lemma_decimal_reads_back(n / 10);
        let d = decimal(n);
        assert(d.drop_last() == decimal(n / 10));
        assert forall|i: int| 0 <= i < d.len() implies '0' <= #[trigger] d[i] <= '9' by {
            if i < d.len() - 1 {
                assert(d[i] == decimal(n / 10)[i]);
            }
        }
        assert(d[0] == decimal(n / 10)[0]);
        assert(d.last() == digit_char(n % 10));
        assert(digit_char(n % 10) as int == 48 + n % 10);
        assert(n == (n / 10) * 10 + n % 10);
        assert(digits_value(d) == digits_value(d.drop_last()) * 10 + (d.last() as int - 48));
    } else {
        let d = decimal(n);
        assert(d.drop_last() =~= Seq::<char>::empty());
        assert(d.last() == digit_char(n));
        assert(digit_char(n) as int == 48 + n);
        assert(digits_value(d.drop_last()) == 0);
        assert(digits_value(d) == digits_value(d.drop_last()) * 10 + (d.last() as int - 48));
    }
}

/// The text of a fixed-width field is the decoding of the field's bytes up
/// to its last nonzero byte: what is cut off is zero bytes only, and what is
/// kept does not end in a zero byte.
pub proof fn lemma_trailing_zeros_trimmed(bytes: Seq<u8>)
    ensures
        trim_trailing_zeros(bytes).len() <= bytes.len(),
        trim_trailing_zeros(bytes) == bytes.subrange(0, trim_trailing_zeros(bytes).len() as int),
        forall|k: int| trim_trailing_zeros(bytes).len() <= k < bytes.len() ==> #[trigger] bytes[k] == 0,
        trim_trailing_zeros(bytes).len() > 0 ==> trim_trailing_zeros(bytes).last() != 0,
        spec_fixed_string(bytes) == utf8_lossy(trim_trailing_zeros(bytes)),
    decreases bytes.len(),
{
    if bytes.len() > 0 && bytes.last() == 0 {
        lemma_trailing_zeros_trimmed(bytes.drop_last());
        let t = trim_trailing_zeros(bytes.drop_last());
        assert(bytes.drop_last().subrange(0, t.len() as int) == bytes.subrange(0, t.len() as int));
        assert forall|k: int| t.len() <= k < bytes.len() implies #[trigger] bytes[k] == 0 by {
            if k < bytes.len() - 1 {
                assert(bytes[k] == bytes.drop_last()[k]);
            }
        }
    } else {
        assert(bytes.subrange(0, bytes.len() as int) == bytes);
    }
}

/// `a.b.c`, each part in decimal.
pub open spec fn dotted_version(a: u8, b: u8, c: u8) -> Seq<char> {
    decimal(a as nat) + seq!['.'] + decimal(b as nat) + seq!['.'] + decimal(c as nat)
}

/// Formats three version numbers as `a.b.c`.
pub fn format_dotted_version(a: u8, b: u8, c: u8) -> (r: String)
    ensures
        r@ == dotted_version(a, b, c),
{
    let mut r = String::new();
    push_decimal(&mut r, a);
    push_char(&mut r, '.');
    push_decimal(&mut r, b);
    push_char(&mut r, '.');
    push_decimal(&mut r, c);
    proof {
        assert(r@ =~= dotted_version(a, b, c));
    }
    r
}

} // verus!
