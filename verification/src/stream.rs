//! The record stream: reading one record at a position, and reading all
//! records of a range with the keychain that each part of the log needs.
use vstd::prelude::*;

use crate::wire::{le_bytes, lemma_le_16};

use crate::decoder::{
    length_field_size, payload_end, payload_position, payload_prefix, payload_read, payload_wf,
    decodable, record_decoder, spec_record_decoder, Payload, PayloadView,
};
use crate::keychain::{keychain_of, FeaturePoint, Keychain, KeychainFeaturePoint};
use crate::record::{
    is_known_record_type, is_known_type, parse_body, spec_parse_body, Record, RecordView,
};
use crate::utils::{le_u16, read_u16_le, slice_range};

verus! {

/// The outcome of reading one record.
#[derive(Debug)]
pub enum RecordStep {
    /// A record, and the position just after it.
    Parsed(Record, usize),
    /// No record can be read at the position.
    Failed,
    /// The payload cannot be decoded: the seed byte or the encrypted bytes
    /// lie past the end of the file, or the keychain entry or the payload is
    /// unusable for AES.
    Aborted,
}

/// The outcome of reading one record, as values.
pub enum StepView {
    Parsed(RecordView, int),
    Failed,
    Aborted,
}

impl View for RecordStep {
    type V = StepView;

    open spec fn view(&self) -> StepView {
        match self {
            RecordStep::Parsed(r, next) => StepView::Parsed(r@, *next as int),
            RecordStep::Failed => StepView::Failed,
            RecordStep::Aborted => StepView::Aborted,
        }
    }
}

/// A keychain, as values.
pub type KeychainView = Map<FeaturePoint, (Seq<u8>, Seq<u8>)>;

/// The length field that starts at `at`: one byte up to format 12, two bytes
/// little-endian from format 13; `None` past the end of the file.
pub open spec fn spec_length_field(file: Seq<u8>, at: int, version: u8) -> Option<u16> {
    if version <= 12 {
        if 0 <= at < file.len() {
            Some(file[at] as u16)
        } else {
            None
        }
    } else if 0 <= at && at + 1 < file.len() {
        Some(le_u16(file, at))
    } else {
        None
    }
}

/// Reads a length field (see `spec_length_field`).
pub fn read_length_field(file: &[u8], at: usize, version: u8) -> (r: Option<u16>)
    ensures
        r == spec_length_field(file@, at as int, version),
{
    if version <= 12 {
        if at < file.len() {
            Some(file[at] as u16)
        } else {
            None
        }
    } else if at < file.len() && at + 1 < file.len() {
        Some(read_u16_le(file, at))
    } else {
        None
    }
}

/// The record at `pos` when its type byte `t` names a known layout or the
/// recovery marker, with the keychain after decoding.
#[verifier::opaque]
pub open spec fn spec_known_record(
    file: Seq<u8>,
    pos: int,
    t: u8,
    version: u8,
    kc: KeychainView,
) -> (StepView, KeychainView) {
    match spec_length_field(file, pos + 1, version) {
        None => (StepView::Failed, kc),
        Some(size) => {
            let rs = pos + 1 + length_field_size(version);
            if t == 50 {
                if rs + size < file.len() && file[rs + size] == 0xFF {
                    (
                        StepView::Parsed(
                            RecordView::KeyStorageRecover(file.subrange(rs, rs + size)),
                            rs + size + 1,
                        ),
                        kc,
                    )
                } else {
                    (StepView::Failed, kc)
                }
            } else {
                match spec_record_decoder(file, rs, t, version, kc, size) {
                    None => (StepView::Aborted, kc),
                    Some((p, kc1)) => match spec_parse_body(file, p, t, version, size) {
                        None => (StepView::Failed, kc1),
                        Some((rec, n)) => {
                            let end = if rs + size >= payload_end(p, n) {
                                rs + size
                            } else {
                                payload_end(p, n)
                            };
                            if end < file.len() && file[end] == 0xFF {
                                (StepView::Parsed(rec, end + 1), kc1)
                            } else {
                                (StepView::Failed, kc1)
                            }
                        },
                    },
                }
            }
        },
    }
}

/// The record at `pos` read as an unknown type: type byte, a length above 2,
/// the decoded payload (all of it up to format 6, all but two bytes later)
/// and the end byte.
#[verifier::opaque]
pub open spec fn spec_unknown_record(file: Seq<u8>, pos: int, version: u8, kc: KeychainView) -> (
    StepView,
    KeychainView,
) {
    let t = file[pos];
    match spec_length_field(file, pos + 1, version) {
        None => (StepView::Failed, kc),
        Some(size) => if size <= 2 {
            (StepView::Failed, kc)
        } else {
            let rs = pos + 1 + length_field_size(version);
            match spec_record_decoder(file, rs, t, version, kc, size) {
                None => (StepView::Aborted, kc),
                Some((p, kc1)) => {
                    let count: nat = if version <= 6 {
                        size as nat
                    } else {
                        (size - 2) as nat
                    };
                    match payload_prefix(file, p, count) {
                        None => (StepView::Failed, kc1),
                        Some(b) => {
                            let end = if rs + size >= payload_end(p, count) {
                                rs + size
                            } else {
                                payload_end(p, count)
                            };
                            if end < file.len() && file[end] == 0xFF {
                                (StepView::Parsed(RecordView::Unknown(t, b), end + 1), kc1)
                            } else {
                                (StepView::Failed, kc1)
                            }
                        },
                    }
                },
            }
        },
    }
}

/// How records are framed: a type byte, then the length field (one byte up
/// to format 12, two little-endian bytes from format 13), then the payload
/// and the end byte `0xFF`. A key storage recovery record (type 50) is its
/// payload as is, and reading goes on after its end byte.
pub proof fn lemma_record_framing(file: Seq<u8>, pos: int, version: u8, kc: KeychainView)
    requires
        0 <= pos,
        pos + 3 <= file.len(),
    ensures
        length_field_size(version) == if version <= 12 { 1int } else { 2int },
        version <= 12 ==> spec_length_field(file, pos + 1, version) == Some(file[pos + 1] as u16),
        version > 12 ==> (spec_length_field(file, pos + 1, version) matches Some(s) && s as int
            == le_bytes(file, pos + 1, 2)),
        ({
            let w: int = if version <= 12 { 1 } else { 2 };
            let size = if version <= 12 { file[pos + 1] as int } else { le_bytes(file, pos + 1, 2) };
            let start = pos + 1 + w;
            start + size < file.len() && file[start + size] == 0xFF ==> spec_known_record(
                file,
                pos,
                50,
                version,
                kc,
            ) == (
                StepView::Parsed(
                    RecordView::KeyStorageRecover(file.subrange(start, start + size)),
                    start + size + 1,
                ),
                kc,
            )
        }),
{
    reveal(spec_known_record);
    lemma_le_16(file, pos + 1);
}

/// A JPEG image starts at `pos` (bytes `FF D8`).
pub open spec fn jpeg_starts(file: Seq<u8>, pos: int) -> bool {
    0 <= pos && pos + 1 < file.len() && file[pos] == 0xFF && file[pos + 1] == 0xD8
}

/// The image bytes from `c` on up to the end marker `FF D9`, the marker not
/// included, and the position after the marker; a stream that ends first
/// gives its bytes but the last, and the end of the file.
pub open spec fn jpeg_scan(file: Seq<u8>, c: int) -> (Seq<u8>, int)
    decreases file.len() - c,
{
    if c < 0 || c + 1 >= file.len() {
        (Seq::empty(), file.len() as int)
    } else if file[c] == 0xFF && file[c + 1] == 0xD9 {
        (Seq::empty(), c + 2)
    } else {
        let (rest, e) = jpeg_scan(file, c + 1);
        (seq![file[c]] + rest, e)
    }
}

/// The bytes from `c` on up to the next record boundary: up to a JPEG start
/// (excluded, the position left at it) or up to and including an end marker
/// `0xFF` (the position left just after it); a stream that ends first gives
/// its bytes but the last, and the end of the file.
pub open spec fn invalid_scan(file: Seq<u8>, c: int) -> (Seq<u8>, int)
    decreases file.len() - c,
{
    if c < 0 || c + 1 >= file.len() {
        (Seq::empty(), file.len() as int)
    } else if file[c] == 0xFF && file[c + 1] == 0xD8 {
        (Seq::empty(), c)
    } else if file[c] == 0xFF {
        (seq![0xFFu8], c + 1)
    } else {
        let (rest, e) = invalid_scan(file, c + 1);
        (seq![file[c]] + rest, e)
    }
}

/// An image runs up to its first end marker: when the first `FF D9` from
/// `c` on starts at `m`, the image bytes are those from `c` to `m` and
/// reading goes on after the marker.
pub proof fn lemma_jpeg_scan_until_marker(file: Seq<u8>, c: int, m: int)
    requires
        0 <= c <= m,
        m + 1 < file.len(),
        file[m] == 0xFF && file[m + 1] == 0xD9,
        forall|k: int| c <= k < m ==> !(#[trigger] file[k] == 0xFF && file[k + 1] == 0xD9),
    ensures
        jpeg_scan(file, c) == (file.subrange(c, m), m + 2),
    decreases m - c,
{
    if c < m {
        assert(!(file[c] == 0xFF && file[c + 1] == 0xD9));
        lemma_jpeg_scan_until_marker(file, c + 1, m);
        assert(seq![file[c]] + file.subrange(c + 1, m) =~= file.subrange(c, m));
    } else {
        assert(file.subrange(c, c) =~= Seq::<u8>::empty());
    }
}

/// An unreadable stretch runs up to its first `0xFF` byte at `m`: when that
/// byte starts an image (`FF D8`) the stretch stops before it and reading
/// goes on at the image; otherwise the stretch ends with that byte and
/// reading goes on after it.
pub proof fn lemma_invalid_scan_until_end_byte(file: Seq<u8>, c: int, m: int)
    requires
        0 <= c <= m,
        m + 1 < file.len(),
        file[m] == 0xFF,
        forall|k: int| c <= k < m ==> #[trigger] file[k] != 0xFF,
    ensures
        file[m + 1] == 0xD8 ==> invalid_scan(file, c) == (file.subrange(c, m), m),
        file[m + 1] != 0xD8 ==> invalid_scan(file, c) == (file.subrange(c, m + 1), m + 1),
    decreases m - c,
{
    if c < m {
        assert(file[c] != 0xFF);
        lemma_invalid_scan_until_end_byte(file, c + 1, m);
        assert(seq![file[c]] + file.subrange(c + 1, m) =~= file.subrange(c, m));
        assert(seq![file[c]] + file.subrange(c + 1, m + 1) =~= file.subrange(c, m + 1));
    } else {
        assert(file.subrange(c, c) =~= Seq::<u8>::empty());
        assert(file.subrange(c, c + 1) =~= seq![0xFFu8]);
    }
}

/// The record at `pos`, with the keychain after it. The type byte selects a
/// layout; where that fails, a JPEG image, then an unknown record, then a
/// stretch of invalid bytes is tried, in that order. The keychain keeps the
/// IV moves of every decoding that took place.
pub open spec fn spec_parse_record(file: Seq<u8>, pos: int, version: u8, kc: KeychainView) -> (
    StepView,
    KeychainView,
) {
    if pos < 0 || pos >= file.len() {
        (StepView::Failed, kc)
    } else {
        let t = file[pos];
        let (known, kc1) = if is_known_record_type(t) || t == 50 {
            spec_known_record(file, pos, t, version, kc)
        } else {
            (StepView::Failed, kc)
        };
        match known {
            StepView::Failed => if jpeg_starts(file, pos) {
                let (rest, e) = jpeg_scan(file, pos + 2);
                (StepView::Parsed(RecordView::JPEG(seq![0xFFu8, 0xD8u8] + rest), e), kc1)
            } else {
                let (u, kc2) = spec_unknown_record(file, pos, version, kc1);
                match u {
                    StepView::Failed => {
                        let (b, e) = invalid_scan(file, pos);
                        if b.len() > 0 {
                            (StepView::Parsed(RecordView::Invalid(b), e), kc2)
                        } else {
                            (StepView::Failed, kc2)
                        }
                    },
                    _ => (u, kc2),
                }
            },
            _ => (known, kc1),
        }
    }
}


/// The position of the payload of the record at `pos`: after the type byte
/// and the length field.
fn payload_start(pos: usize, version: u8) -> (r: usize)
    requires
        pos + 1 + length_field_size(version) <= usize::MAX,
    ensures
        r == pos + 1 + length_field_size(version),
{
    if version <= 12 {
        pos + 2
    } else {
        pos + 3
    }
}

/// The position after the payload: the larger of the end of the declared
/// length and the end of what the body read; `None` where it exceeds the
/// address space.
fn payload_stop(p: &Payload, n: usize, rs: usize, size: u16) -> (r: Option<usize>)
    ensures
        match r {
            Some(e) => e == (if rs + size >= payload_end(p@, n as nat) {
                rs + size
            } else {
                payload_end(p@, n as nat)
            }),
            None => rs + size > usize::MAX || payload_end(p@, n as nat) > usize::MAX,
        },
{
    let declared = match rs.checked_add(size as usize) {
        Some(d) => d,
        None => {
            return None;
        },
    };
    match payload_position(p, n) {
        Some(e) => if declared >= e {
            Some(declared)
        } else {
            Some(e)
        },
        None => None,
    }
}

/// Reads the record at `pos` whose type byte `t` names a known layout or the
/// recovery marker (see `spec_known_record`).
fn parse_known_record(file: &[u8], pos: usize, t: u8, version: u8, keychain: &mut Keychain) -> (r:
    RecordStep)
    requires
        old(keychain).wf(),
        pos < file@.len(),
    ensures
        final(keychain).wf(),
        (r@, final(keychain)@) == spec_known_record(file@, pos as int, t, version, old(keychain)@),
{
    reveal(spec_known_record);
    assert(file@.len() == file.len());
    let size = match read_length_field(file, pos + 1, version) {
        Some(s) => s,
        None => {
            return RecordStep::Failed;
        },
    };
    let rs = payload_start(pos, version);
    if t == 50 {
        if (size as usize) < file.len() - rs && file[rs + size as usize] == 0xFF {
            let bytes = slice_range(file, rs, rs + size as usize);
            return RecordStep::Parsed(Record::KeyStorageRecover(bytes), rs + size as usize + 1);
        } else {
            return RecordStep::Failed;
        }
    }
    if !decodable(file, rs, t, version, keychain, size) {
        return RecordStep::Aborted;
    }
    let p = record_decoder(file, rs, t, version, keychain, size);
    let (rec, n) = match parse_body(file, &p, t, version, size) {
        Some(x) => x,
        None => {
            return RecordStep::Failed;
        },
    };
    match payload_stop(&p, n, rs, size) {
        Some(end) => if end < file.len() && file[end] == 0xFF {
            RecordStep::Parsed(rec, end + 1)
        } else {
            RecordStep::Failed
        },
        None => RecordStep::Failed,
    }
}

/// Reads the record at `pos` as a record of an unknown type (see
/// `spec_unknown_record`).
fn parse_unknown_record(file: &[u8], pos: usize, version: u8, keychain: &mut Keychain) -> (r:
    RecordStep)
    requires
        old(keychain).wf(),
        pos < file@.len(),
    ensures
        final(keychain).wf(),
        (r@, final(keychain)@) == spec_unknown_record(file@, pos as int, version, old(keychain)@),
{
    reveal(spec_unknown_record);
    assert(file@.len() == file.len());
    let t = file[pos];
    let size = match read_length_field(file, pos + 1, version) {
        Some(s) => s,
        None => {
            return RecordStep::Failed;
        },
    };
    if size <= 2 {
        return RecordStep::Failed;
    }
    let rs = payload_start(pos, version);
    if !decodable(file, rs, t, version, keychain, size) {
        return RecordStep::Aborted;
    }
    let p = record_decoder(file, rs, t, version, keychain, size);
    let count: usize = if version <= 6 {
        size as usize
    } else {
        size as usize - 2
    };
    let bytes = match payload_read(file, &p, count) {
        Some(b) => b,
        None => {
            return RecordStep::Failed;
        },
    };
    match payload_stop(&p, count, rs, size) {
        Some(end) => if end < file.len() && file[end] == 0xFF {
            RecordStep::Parsed(Record::Unknown(t, bytes), end + 1)
        } else {
            RecordStep::Failed
        },
        None => RecordStep::Failed,
    }
}

/// Collects the bytes of an image from `c` on (see `jpeg_scan`).
fn scan_jpeg(file: &[u8], c: usize) -> (r: (Vec<u8>, usize))
    requires
        c <= file@.len(),
    ensures
        (r.0@, r.1 as int) == jpeg_scan(file@, c as int),
{
    assert(file@.len() == file.len());
    let mut out: Vec<u8> = Vec::new();
    let mut i = c;
    while file.len() - i > 1
        invariant
            c <= i <= file@.len(),
            file@.len() == file.len(),
            out@ + jpeg_scan(file@, i as int).0 == jpeg_scan(file@, c as int).0,
            jpeg_scan(file@, i as int).1 == jpeg_scan(file@, c as int).1,
        decreases file.len() - i,
    {
        if file[i] == 0xFF && file[i + 1] == 0xD9 {
            proof {
                assert(out@ + Seq::<u8>::empty() =~= out@);
            }
            return (out, i + 2);
        }
        let ghost before = out@;
        out.push(file[i]);
        proof {
            let rest = jpeg_scan(file@, i + 1);
            assert(jpeg_scan(file@, i as int).0 == seq![file@[i as int]] + rest.0);
            assert(out@ + rest.0 =~= before + (seq![file@[i as int]] + rest.0));
        }
        i = i + 1;
    }
    proof {
        assert(jpeg_scan(file@, i as int).0 =~= Seq::<u8>::empty());
        assert(out@ + Seq::<u8>::empty() =~= out@);
    }
    (out, file.len())
}

/// Collects the bytes from `c` on up to the next record boundary (see
/// `invalid_scan`).
fn scan_invalid(file: &[u8], c: usize) -> (r: (Vec<u8>, usize))
    requires
        c <= file@.len(),
    ensures
        (r.0@, r.1 as int) == invalid_scan(file@, c as int),
{
    assert(file@.len() == file.len());
    let mut out: Vec<u8> = Vec::new();
    let mut i = c;
    while file.len() - i > 1
        invariant
            c <= i <= file@.len(),
            file@.len() == file.len(),
            out@ + invalid_scan(file@, i as int).0 == invalid_scan(file@, c as int).0,
            invalid_scan(file@, i as int).1 == invalid_scan(file@, c as int).1,
        decreases file.len() - i,
    {
        if file[i] == 0xFF && file[i + 1] == 0xD8 {
            proof {
                assert(out@ + Seq::<u8>::empty() =~= out@);
            }
            return (out, i);
        }
        if file[i] == 0xFF {
            out.push(0xFF);
            proof {
                assert(out@ =~= invalid_scan(file@, c as int).0);
            }
            return (out, i + 1);
        }
        let ghost before = out@;
        out.push(file[i]);
        proof {
            let rest = invalid_scan(file@, i + 1);
            assert(invalid_scan(file@, i as int).0 == seq![file@[i as int]] + rest.0);
            assert(out@ + rest.0 =~= before + (seq![file@[i as int]] + rest.0));
        }
        i = i + 1;
    }
    proof {
        assert(invalid_scan(file@, i as int).0 =~= Seq::<u8>::empty());
        assert(out@ + Seq::<u8>::empty() =~= out@);
    }
    (out, file.len())
}

/// Reads the record at `pos` with the keychain of its part of the log (see
/// `spec_parse_record`). The keychain moves on as the records it decodes
/// are read.
pub fn parse_record(file: &[u8], pos: usize, version: u8, keychain: &mut Keychain) -> (r: RecordStep)
    requires
        old(keychain).wf(),
    ensures
        final(keychain).wf(),
        (r@, final(keychain)@) == spec_parse_record(file@, pos as int, version, old(keychain)@),
{
    assert(file@.len() == file.len());
    if pos >= file.len() {
        return RecordStep::Failed;
    }
    let t = file[pos];
    let known = if is_known_type(t) || t == 50 {
        parse_known_record(file, pos, t, version, keychain)
    } else {
        RecordStep::Failed
    };
    match known {
        RecordStep::Failed => {},
        _ => {
            return known;
        },
    }
    if pos + 1 < file.len() && file[pos] == 0xFF && file[pos + 1] == 0xD8 {
        let (rest, e) = scan_jpeg(file, pos + 2);
        let mut img: Vec<u8> = Vec::new();
        img.push(0xFF);
        img.push(0xD8);
        let mut k: usize = 0;
        while k < rest.len()
            invariant
                k <= rest@.len(),
                img@ == seq![0xFFu8, 0xD8u8] + rest@.subrange(0, k as int),
            decreases rest.len() - k,
        {
            img.push(rest[k]);
            proof {
                assert(img@ =~= seq![0xFFu8, 0xD8u8] + rest@.subrange(0, k + 1));
            }
            k = k + 1;
        }
        proof {
            assert(rest@.subrange(0, rest@.len() as int) =~= rest@);
        }
        return RecordStep::Parsed(Record::JPEG(img), e);
    }
    let u = parse_unknown_record(file, pos, version, keychain);
    match u {
        RecordStep::Failed => {},
        _ => {
            return u;
        },
    }
    let (b, e) = scan_invalid(file, pos);
    if b.len() > 0 {
        RecordStep::Parsed(Record::Invalid(b), e)
    } else {
        RecordStep::Failed
    }
}


/// An image scan from `c` within the file ends at or after `c`.
proof fn lemma_jpeg_scan_bounds(file: Seq<u8>, c: int)
    requires
        0 <= c <= file.len(),
    ensures
        c <= jpeg_scan(file, c).1 <= file.len(),
    decreases file.len() - c,
{
    if c + 1 < file.len() && !(file[c] == 0xFF && file[c + 1] == 0xD9) {
        lemma_jpeg_scan_bounds(file, c + 1);
    }
}

/// A scan for the next record boundary from `c` within the file ends at or
/// after `c`, and after `c` when it collected any byte.
proof fn lemma_invalid_scan_bounds(file: Seq<u8>, c: int)
    requires
        0 <= c <= file.len(),
    ensures
        c <= invalid_scan(file, c).1 <= file.len(),
        invalid_scan(file, c).0.len() > 0 ==> invalid_scan(file, c).1 > c,
    decreases file.len() - c,
{
    if c + 1 < file.len() && !(file[c] == 0xFF) {
        lemma_invalid_scan_bounds(file, c + 1);
    }
}

/// Reading a record moves forward: the position after a record read at
/// `pos` lies after `pos`, and within the file.
pub proof fn lemma_parse_record_progress(file: Seq<u8>, pos: int, version: u8, kc: KeychainView)
    ensures
        spec_parse_record(file, pos, version, kc).0 matches StepView::Parsed(_, next) ==> pos < next
            <= file.len(),
{
    reveal(spec_known_record);
    reveal(spec_unknown_record);
    if 0 <= pos < file.len() {
        if jpeg_starts(file, pos) {
            lemma_jpeg_scan_bounds(file, pos + 2);
        }
        lemma_invalid_scan_bounds(file, pos);
    }
}

/// Reading a record with an empty keychain leaves the keychain empty: no
/// payload is AES-decoded, so no IV moves on.
pub proof fn lemma_parse_record_keeps_empty_keychain(file: Seq<u8>, pos: int, version: u8)
    ensures
        spec_parse_record(file, pos, version, Map::empty()).1 == Map::<
            FeaturePoint,
            (Seq<u8>, Seq<u8>),
        >::empty(),
{
    reveal(spec_known_record);
    reveal(spec_unknown_record);
    reveal(spec_record_decoder);
}

/// The keychain of the part of the log after `idx` recovery markers, and
/// the index of the next one: the entries of `chains[idx]`, or an empty
/// keychain once the list is used up.
pub open spec fn next_keychain(chains: Seq<Vec<KeychainFeaturePoint>>, idx: int) -> (KeychainView, int) {
    if 0 <= idx < chains.len() {
        (keychain_of(chains[idx]@), idx + 1)
    } else {
        (Map::empty(), idx)
    }
}

/// The records read from `pos` on while the position is before `end`, the
/// keychain `kc` decoding the current part of the log and `chains[idx..]`
/// the keychains of the parts after each recovery marker. Reading stops at
/// the first position where no record can be read; `None` where a payload
/// cannot be decoded.
pub open spec fn spec_records(
    file: Seq<u8>,
    pos: int,
    end: int,
    version: u8,
    kc: KeychainView,
    chains: Seq<Vec<KeychainFeaturePoint>>,
    idx: int,
) -> Option<Seq<RecordView>>
    decreases (if end > pos { end - pos } else { 0 }),
{
    if pos >= end {
        Some(Seq::empty())
    } else {
        let (step, kc1) = spec_parse_record(file, pos, version, kc);
        match step {
            StepView::Failed => Some(Seq::empty()),
            StepView::Aborted => None,
            StepView::Parsed(rec, next) => {
                proof {
                    lemma_parse_record_progress(file, pos, version, kc);
                }
                let (kc2, idx2) = if rec is KeyStorageRecover {
                    next_keychain(chains, idx)
                } else {
                    (kc1, idx)
                };
                match spec_records(file, next, end, version, kc2, chains, idx2) {
                    Some(rest) => Some(seq![rec] + rest),
                    None => None,
                }
            },
        }
    }
}

/// Two lists of keychains whose entries, list for list, decode to the same
/// (IV, key) pairs.
pub open spec fn same_keychains(
    chains1: Seq<Vec<KeychainFeaturePoint>>,
    chains2: Seq<Vec<KeychainFeaturePoint>>,
) -> bool {
    &&& chains1.len() == chains2.len()
    &&& forall|i: int|
        0 <= i < chains1.len() ==> #[trigger] keychain_of(chains1[i]@) == keychain_of(chains2[i]@)
}

proof fn lemma_records_from_same_keychains(
    file: Seq<u8>,
    pos: int,
    end: int,
    version: u8,
    kc: KeychainView,
    chains1: Seq<Vec<KeychainFeaturePoint>>,
    chains2: Seq<Vec<KeychainFeaturePoint>>,
    idx: int,
)
    requires
        same_keychains(chains1, chains2),
    ensures
        spec_records(file, pos, end, version, kc, chains1, idx) == spec_records(
            file,
            pos,
            end,
            version,
            kc,
            chains2,
            idx,
        ),
    decreases (if end > pos { end - pos } else { 0 }),
{
    if pos < end {
        let (step, kc1) = spec_parse_record(file, pos, version, kc);
        lemma_parse_record_progress(file, pos, version, kc);
        if let StepView::Parsed(rec, next) = step {
            if 0 <= idx < chains1.len() {
                assert(keychain_of(chains1[idx]@) == keychain_of(chains2[idx]@));
            }
            let (kc2, idx2) = if rec is KeyStorageRecover {
                next_keychain(chains1, idx)
            } else {
                (kc1, idx)
            };
            lemma_records_from_same_keychains(file, next, end, version, kc2, chains1, chains2, idx2);
        }
    }
}

/// The records read depend on the keychains only through what they hold:
/// lists of keychains that decode to the same (IV, key) pairs give the same
/// records. In particular the IVs that move on while one read decodes its
/// payloads are local to that read, so reading twice with the same
/// keychains gives the same records.
pub proof fn lemma_records_depend_on_keychain_contents(
    file: Seq<u8>,
    pos: int,
    end: int,
    version: u8,
    chains1: Seq<Vec<KeychainFeaturePoint>>,
    chains2: Seq<Vec<KeychainFeaturePoint>>,
)
    requires
        same_keychains(chains1, chains2),
    ensures
        spec_records(
            file,
            pos,
            end,
            version,
            next_keychain(chains1, 0).0,
            chains1,
            next_keychain(chains1, 0).1,
        ) == spec_records(
            file,
            pos,
            end,
            version,
            next_keychain(chains2, 0).0,
            chains2,
            next_keychain(chains2, 0).1,
        ),
{
    if chains1.len() > 0 {
        assert(keychain_of(chains1[0]@) == keychain_of(chains2[0]@));
    }
    lemma_records_from_same_keychains(
        file,
        pos,
        end,
        version,
        next_keychain(chains1, 0).0,
        chains1,
        chains2,
        next_keychain(chains1, 0).1,
    );
}

/// `rest` read after the records `done`.
pub open spec fn after(done: Seq<RecordView>, rest: Option<Seq<RecordView>>) -> Option<Seq<RecordView>> {
    match rest {
        Some(r) => Some(done + r),
        None => None,
    }
}

/// The views of a list of records.
pub open spec fn record_views(records: Seq<Record>) -> Seq<RecordView> {
    records.map_values(|r: Record| r@)
}

/// Reads the records from `pos` on while the position is before `end` (see
/// `spec_records`), starting with the keychain of `chains[0]` (or none) and
/// moving to the next keychain after each recovery marker; `None` where a
/// payload cannot be decoded.
pub fn read_records(
    file: &[u8],
    pos: u64,
    end: u64,
    version: u8,
    chains: &Vec<Vec<KeychainFeaturePoint>>,
) -> (r: Option<Vec<Record>>)
    ensures
        match spec_records(
            file@,
            pos as int,
            end as int,
            version,
            next_keychain(chains@, 0).0,
            chains@,
            next_keychain(chains@, 0).1,
        ) {
            Some(s) => r matches Some(v) && record_views(v@) == s,
            None => r is None,
        },
{
    assert(file@.len() == file.len());
    let ghost kc0 = next_keychain(chains@, 0).0;
    let ghost idx0 = next_keychain(chains@, 0).1;
    let mut idx: usize = 0;
    let mut keychain = if chains.len() > 0 {
        idx = 1;
        Keychain::from_feature_points(&chains[0])
    } else {
        Keychain::empty()
    };
    let mut out: Vec<Record> = Vec::new();
    let mut at: u64 = pos;
    let mut stop = false;
    proof {
        assert(record_views(out@) =~= Seq::<RecordView>::empty());
        assert(Seq::<RecordView>::empty() + Seq::<RecordView>::empty() =~= Seq::<RecordView>::empty());
    }
    while !stop && at < end
        invariant
            keychain.wf(),
            idx <= chains@.len(),
            file@.len() == file.len(),
            kc0 == next_keychain(chains@, 0).0,
            idx0 == next_keychain(chains@, 0).1,
            !stop ==> spec_records(file@, pos as int, end as int, version, kc0, chains@, idx0 as int)
                == after(
                record_views(out@),
                spec_records(file@, at as int, end as int, version, keychain@, chains@, idx as int),
            ),
            stop ==> spec_records(file@, pos as int, end as int, version, kc0, chains@, idx0 as int)
                == Some(record_views(out@)),
        decreases (if at < end { end - at } else { 0int }) + (if stop { 0int } else { 1int }),
    {
        let ghost before = keychain@;
        let ghost rest = spec_records(file@, at as int, end as int, version, before, chains@, idx as int);
        if at >= file.len() as u64 {
            proof {
                assert(spec_parse_record(file@, at as int, version, before).0 == StepView::Failed);
                assert(rest == Some(Seq::<RecordView>::empty()));
                assert(record_views(out@) + Seq::<RecordView>::empty() =~= record_views(out@));
            }
            stop = true;
        } else {
            let p = at as usize;
            assert(p as int == at as int);
            let step = parse_record(file, p, version, &mut keychain);
            match step {
                RecordStep::Failed => {
                    proof {
                        assert(rest == Some(Seq::<RecordView>::empty()));
                        assert(record_views(out@) + Seq::<RecordView>::empty() =~= record_views(out@));
                    }
                    stop = true;
                },
                RecordStep::Aborted => {
                    assert(rest is None);
                    assert(spec_records(file@, pos as int, end as int, version, kc0, chains@, idx0 as int) is None);
                    return None;
                },
                RecordStep::Parsed(rec, next) => {
                    proof {
                        lemma_parse_record_progress(file@, at as int, version, before);
                    }
                    let recover = match &rec {
                        Record::KeyStorageRecover(_) => true,
                        _ => false,
                    };
                    let ghost rv = rec@;
                    let ghost old_out = record_views(out@);
                    if recover {
                        if idx < chains.len() {
                            keychain = Keychain::from_feature_points(&chains[idx]);
                            idx = idx + 1;
                        } else {
                            keychain = Keychain::empty();
                        }
                    }
                    out.push(rec);
                    proof {
                        assert(record_views(out@) =~= old_out + seq![rv]);
                        let tail = spec_records(
                            file@,
                            next as int,
                            end as int,
                            version,
                            keychain@,
                            chains@,
                            idx as int,
                        );
                        match tail {
                            Some(t) => {
                                assert(old_out + (seq![rv] + t) =~= (old_out + seq![rv]) + t);
                            },
                            None => {},
                        }
                    }
                    assert(next as u64 as int == next as int);
                    at = next as u64;
                },
            }
        }
    }
    proof {
        if !stop {
            assert(record_views(out@) + Seq::<RecordView>::empty() =~= record_views(out@));
        }
    }
    Some(out)
}

} // verus!
