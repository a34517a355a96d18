//! The XOR and AES layers that protect record payloads.
//!
//! From format version 7 on, the first payload byte of a record seeds an
//! 8-byte XOR key (a CRC-64 of the seed and the record type) that masks the
//! rest of the payload. From version 13 on, records of most feature points
//! are in addition AES-256-CBC encrypted, with the key and IV that the
//! keychain holds for the feature point; each decryption moves the IV of the
//! feature point on to the last ciphertext block.
use aes::cipher::block_padding::Pkcs7;
use aes::cipher::{BlockDecryptMut, KeyIvInit};
use vstd::prelude::*;
use crate::wire::le_bytes;

use crate::keychain::{opt_bytes, pair_view, FeaturePoint, Keychain};

verus! {

/// The multiplier that spreads the seed byte over the CRC input.
pub const XOR_MAGIC: u64 = 0x123456789ABCDEF0;

/// The reflected form of the CRC-64 "Jones" polynomial 0xad93d23594c935a9.
pub const CRC64_JONES_REFLECTED: u64 = 0x95ac9329ac4bc9b5;

/// One bit of a reflected CRC: shift right, folding the polynomial in where
/// the bit shifted out is set.
pub open spec fn crc64_bit(c: u64) -> u64 {
    if c & 1 == 1 {
        (c >> 1) ^ CRC64_JONES_REFLECTED
    } else {
        c >> 1
    }
}

/// `c` after `n` bits.
pub open spec fn crc64_bits(c: u64, n: nat) -> u64
    decreases n,
{
    if n == 0 {
        c
    } else {
        crc64_bits(crc64_bit(c), (n - 1) as nat)
    }
}

/// The CRC-64 "Jones" checksum of `data` from the value `crc`, as
/// `crc64::crc64` computes it: each byte is XORed into the low bits and
/// eight bits are shifted out; there is no final XOR.
pub open spec fn crc64_jones(crc: u64, data: Seq<u8>) -> u64
    decreases data.len(),
{
    if data.len() == 0 {
        crc
    } else {
        crc64_bits(crc64_jones(crc, data.drop_last()) ^ (data.last() as u64), 8)
    }
}

/// The CRC-64 step table of the `crc64` crate: one byte of value 1 gives
/// 0x7ad870c830358979 and one of value 128 gives the reflected polynomial
/// 0x95ac9329ac4bc9b5; a one-byte checksum runs the eight bit steps on the
/// byte XORed into the low bits.
pub proof fn lemma_crc64_table_entries(crc: u64, byte: u8)
    ensures
        crc64_bits(1, 8) == 0x7ad870c830358979u64,
        crc64_bits(128, 8) == 0x95ac9329ac4bc9b5u64,
        crc64_jones(crc, seq![byte]) == crc64_bits(crc ^ (byte as u64), 8),
{
    reveal_with_fuel(crc64_bits, 9);
    assert(crc64_bit(1) == 0x95ac9329ac4bc9b5u64 && crc64_bit(0x95ac9329ac4bc9b5u64)
        == 0xdf7adabd7a6e2d6fu64 && crc64_bit(0xdf7adabd7a6e2d6fu64) == 0xfa11fe77117cdf02u64
        && crc64_bit(0xfa11fe77117cdf02u64) == 0x7d08ff3b88be6f81u64 && crc64_bit(
        0x7d08ff3b88be6f81u64,
    ) == 0xab28ecb46814fe75u64 && crc64_bit(0xab28ecb46814fe75u64) == 0xc038e5739841b68fu64
        && crc64_bit(0xc038e5739841b68fu64) == 0xf5b0e190606b12f2u64 && crc64_bit(
        0xf5b0e190606b12f2u64,
    ) == 0x7ad870c830358979u64 && crc64_bit(128) == 0x40 && crc64_bit(0x40) == 0x20
        && crc64_bit(0x20) == 0x10 && crc64_bit(0x10) == 0x8 && crc64_bit(0x8) == 0x4
        && crc64_bit(0x4) == 0x2 && crc64_bit(0x2) == 0x1) by (bit_vector);
    let one = seq![byte];
    assert(one.drop_last() =~= Seq::<u8>::empty());
    assert(crc64_jones(crc, one.drop_last()) == crc);
    assert(one.last() == byte);
}

/// `crc64::crc64`, whose table-driven loops compute `crc64_jones`.
#[verifier::external_body]
fn crc64_checksum(crc: u64, data: &[u8]) -> (r: u64)
    ensures
        r == crc64_jones(crc, data@),
{
    crc64::crc64(crc, data)
}

/// What AES-256-CBC decryption with PKCS#7 unpadding (crates `aes` and
/// `cbc`) makes of `data` under `key` and `iv`, or `None` where unpadding
/// fails.
pub uninterp spec fn aes256_cbc_pkcs7_decrypt(key: Seq<u8>, iv: Seq<u8>, data: Seq<u8>) -> Option<
    Seq<u8>,
>;

/// Decrypts `data` with `cbc::Decryptor::<aes::Aes256>`: `new_from_slices`
/// (which cannot fail for a 32-byte key and a 16-byte IV) then
/// `decrypt_padded_mut::<Pkcs7>`. The contract names the result and states,
/// as the `cipher` crate documents, that a length that is not a multiple of
/// the 16-byte block fails; the decryption itself is not stated.
#[verifier::external_body]
fn aes256_cbc_decrypt(key: &[u8], iv: &[u8], data: &[u8]) -> (r: Option<Vec<u8>>)
    requires
        key@.len() == 32,
        iv@.len() == 16,
    ensures
        opt_bytes(r) == aes256_cbc_pkcs7_decrypt(key@, iv@, data@),
        data@.len() % 16 != 0 ==> r is None,
{
    let mut buffer = data.to_vec();
    let decryptor = cbc::Decryptor::<aes::Aes256>::new_from_slices(key, iv).unwrap();
    decryptor.decrypt_padded_mut::<Pkcs7>(&mut buffer).ok().map(|plain| plain.to_vec())
}

/// The eight little-endian bytes of `x`.
pub open spec fn u64_le_bytes(x: u64) -> Seq<u8> {
    seq![
        (x % 0x100) as u8,
        ((x / 0x100) % 0x100) as u8,
        ((x / 0x1_0000) % 0x100) as u8,
        ((x / 0x100_0000) % 0x100) as u8,
        ((x / 0x1_0000_0000) % 0x100) as u8,
        ((x / 0x100_0000_0000) % 0x100) as u8,
        ((x / 0x1_0000_0000_0000) % 0x100) as u8,
        ((x / 0x100_0000_0000_0000) % 0x100) as u8,
    ]
}

/// The eight little-endian bytes of `x`.
pub fn u64_to_le_bytes(x: u64) -> (r: Vec<u8>)
    ensures
        r@ == u64_le_bytes(x),
{
    let mut r: Vec<u8> = Vec::new();
    r.push((x % 0x100) as u8);
    r.push(((x / 0x100) % 0x100) as u8);
    r.push(((x / 0x1_0000) % 0x100) as u8);
    r.push(((x / 0x100_0000) % 0x100) as u8);
    r.push(((x / 0x1_0000_0000) % 0x100) as u8);
    r.push(((x / 0x100_0000_0000) % 0x100) as u8);
    r.push(((x / 0x1_0000_0000_0000) % 0x100) as u8);
    r.push(((x / 0x100_0000_0000_0000) % 0x100) as u8);
    assert(r@ =~= u64_le_bytes(x));
    r
}

/// The XOR key of a record whose first payload byte is `seed`:
/// the little-endian bytes of
/// `crc64(seed + record_type, le_bytes(XOR_MAGIC * seed))`, both operations
/// wrapping.
pub open spec fn xor_key(seed: u8, record_type: u8) -> Seq<u8> {
    u64_le_bytes(
        crc64_jones(
            ((seed as int + record_type as int) % 0x100) as u64,
            u64_le_bytes(((XOR_MAGIC as int * seed as int) % 0x1_0000_0000_0000_0000) as u64),
        ),
    )
}

/// `u64_le_bytes` gives the eight bytes whose little-endian value is `x`.
pub proof fn lemma_u64_le_bytes_value(x: u64)
    ensures
        u64_le_bytes(x).len() == 8,
        le_bytes(u64_le_bytes(x), 0, 8) == x as int,
{
    let b = u64_le_bytes(x);
    reveal_with_fuel(le_bytes, 9);
    let x0 = x as int;
    let x1 = x0 / 0x100;
    let x2 = x1 / 0x100;
    let x3 = x2 / 0x100;
    let x4 = x3 / 0x100;
    let x5 = x4 / 0x100;
    let x6 = x5 / 0x100;
    let x7 = x6 / 0x100;
    assert(x1 == x0 / 0x100);
    assert(x2 == x0 / 0x1_0000) by (nonlinear_arith)
        requires x1 == x0 / 0x100, x2 == x1 / 0x100, x0 >= 0;
    assert(x3 == x0 / 0x100_0000) by (nonlinear_arith)
        requires x2 == x0 / 0x1_0000, x3 == x2 / 0x100, x0 >= 0;
    assert(x4 == x0 / 0x1_0000_0000) by (nonlinear_arith)
        requires x3 == x0 / 0x100_0000, x4 == x3 / 0x100, x0 >= 0;
    assert(x5 == x0 / 0x100_0000_0000) by (nonlinear_arith)
        requires x4 == x0 / 0x1_0000_0000, x5 == x4 / 0x100, x0 >= 0;
    assert(x6 == x0 / 0x1_0000_0000_0000) by (nonlinear_arith)
        requires x5 == x0 / 0x100_0000_0000, x6 == x5 / 0x100, x0 >= 0;
    assert(x7 == x0 / 0x100_0000_0000_0000) by (nonlinear_arith)
        requires x6 == x0 / 0x1_0000_0000_0000, x7 == x6 / 0x100, x0 >= 0;
    assert(x7 < 0x100);
}

/// Computes the XOR key of a record (see `xor_key`).
pub fn make_xor_key(seed: u8, record_type: u8) -> (r: Vec<u8>)
    ensures
        r@ == xor_key(seed, record_type),
        r@.len() == 8,
{
    let crc_seed = ((seed as u16 + record_type as u16) % 0x100) as u64;
    assert(XOR_MAGIC as u128 * seed as u128 <= XOR_MAGIC as u128 * 255) by (nonlinear_arith)
        requires
            seed <= 255,
    ;
    let product = ((XOR_MAGIC as u128 * seed as u128) % 0x1_0000_0000_0000_0000) as u64;
    let data = u64_to_le_bytes(product);
    let crc = crc64_checksum(crc_seed, data.as_slice());
    u64_to_le_bytes(crc)
}

/// The XOR layer of one record: the payload bytes from `start` on, masked
/// with `key` (8 bytes), the first masked byte using `key[0]`.
#[derive(Debug)]
pub struct XorDecoder {
    pub start: usize,
    pub key: Vec<u8>,
}

/// The AES layer of one record: the plaintext of its encrypted bytes, the IV
/// that the feature point moves on to, and the file position just after the
/// encrypted bytes.
#[derive(Debug)]
pub struct AesDecoder {
    pub buffer: Vec<u8>,
    pub next_iv: Vec<u8>,
    pub end: usize,
}

/// The decoded byte source of a record's payload.
#[derive(Debug)]
pub enum Payload {
    /// Unmasked bytes of the file from `start` on (formats up to 6).
    Raw(usize),
    /// XOR-masked bytes of the file.
    Xor(XorDecoder),
    /// AES plaintext; reads past its end give zero bytes.
    Aes(AesDecoder),
}

/// The decoded byte source of a payload, as values.
pub enum PayloadView {
    Raw { start: int },
    Xor { start: int, key: Seq<u8> },
    Plain { data: Seq<u8>, end: int },
}

impl View for Payload {
    type V = PayloadView;

    open spec fn view(&self) -> PayloadView {
        match self {
            Payload::Raw(start) => PayloadView::Raw { start: *start as int },
            Payload::Xor(x) => PayloadView::Xor { start: x.start as int, key: x.key@ },
            Payload::Aes(a) => PayloadView::Plain { data: a.buffer@, end: a.end as int },
        }
    }
}

/// Byte `i` of an XOR-masked stream.
pub open spec fn xor_byte(file: Seq<u8>, start: int, key: Seq<u8>, i: int) -> u8 {
    file[start + i] ^ key[i % 8]
}

/// The first `n` decoded bytes of a payload, or `None` where the file ends
/// before them. AES plaintext is followed by zero bytes.
pub open spec fn payload_prefix(file: Seq<u8>, p: PayloadView, n: nat) -> Option<Seq<u8>> {
    match p {
        PayloadView::Raw { start } => if start + n <= file.len() {
            Some(file.subrange(start, start + n))
        } else {
            None
        },
        PayloadView::Xor { start, key } => if start + n <= file.len() {
            Some(Seq::new(n, |i: int| xor_byte(file, start, key, i)))
        } else {
            None
        },
        PayloadView::Plain { data, end } => Some(
            Seq::new(n, |i: int| if i < data.len() { data[i] } else { 0u8 }),
        ),
    }
}

/// The first `m` decoded bytes of a payload are the start of its first `n`
/// bytes, for `m <= n`.
pub proof fn lemma_payload_prefix_prefixes(file: Seq<u8>, p: PayloadView, n: nat, m: nat)
    requires
        m <= n,
        payload_wf(file, p),
    ensures
        payload_prefix(file, p, n) matches Some(b) ==> b.len() == n && payload_prefix(file, p, m)
            == Some(b.subrange(0, m as int)),
{
    match p {
        PayloadView::Raw { start } => {
            if let Some(b) = payload_prefix(file, p, n) {
                assert(file.subrange(start, start + m) =~= b.subrange(0, m as int));
            }
        },
        PayloadView::Xor { start, key } => {
            if let Some(b) = payload_prefix(file, p, n) {
                assert(Seq::new(m, |i: int| xor_byte(file, start, key, i)) =~= b.subrange(0, m as int));
            }
        },
        PayloadView::Plain { data, end } => {
            let b = payload_prefix(file, p, n)->0;
            assert(Seq::new(m, |i: int| if i < data.len() { data[i] } else { 0u8 }) =~= b.subrange(
                0,
                m as int,
            ));
        },
    }
}

/// The file position reached once `n` decoded bytes of a payload have been
/// read; the AES layer has read all of its encrypted bytes up front.
pub open spec fn payload_end(p: PayloadView, n: nat) -> int {
    match p {
        PayloadView::Raw { start } => start + n,
        PayloadView::Xor { start, .. } => start + n,
        PayloadView::Plain { end, .. } => end,
    }
}

/// A payload whose positions lie within the file.
pub open spec fn payload_wf(file: Seq<u8>, p: PayloadView) -> bool {
    match p {
        PayloadView::Raw { start } => 0 <= start <= file.len(),
        PayloadView::Xor { start, key } => 0 <= start <= file.len() && key.len() == 8,
        PayloadView::Plain { end, .. } => 0 <= end <= file.len(),
    }
}

impl XorDecoder {
    /// Reads the seed byte at `position` and derives the key; masked bytes
    /// start right after the seed.
    pub fn new(file: &[u8], position: usize, record_type: u8) -> (r: XorDecoder)
        requires
            position < file@.len(),
        ensures
            r.start == position + 1,
            r.key@ == xor_key(file@[position as int], record_type),
            r.key@.len() == 8,
    {
        let key = make_xor_key(file[position], record_type);
        XorDecoder { start: position + 1, key }
    }

    /// The first `n` unmasked bytes, or `None` where the file ends before
    /// them.
    pub fn read(&self, file: &[u8], n: usize) -> (r: Option<Vec<u8>>)
        requires
            self.key@.len() == 8,
            self.start <= file@.len(),
        ensures
            opt_bytes(r) == payload_prefix(
                file@,
                PayloadView::Xor { start: self.start as int, key: self.key@ },
                n as nat,
            ),
    {
        assert(file@.len() == file.len());
        if n > file.len() - self.start {
            return None;
        }
        let mut out: Vec<u8> = Vec::new();
        let mut i: usize = 0;
        while i < n
            invariant
                i <= n,
                self.start + n <= file@.len(),
                self.key@.len() == 8,
                out@ == Seq::new(i as nat, |k: int| xor_byte(file@, self.start as int, self.key@, k)),
            decreases n - i,
        {
            assert(self.start + i < file.len());
            let b = file[self.start + i] ^ self.key[i % 8];
            out.push(b);
            proof {
                assert(out@ =~= Seq::new(
                    (i + 1) as nat,
                    |k: int| xor_byte(file@, self.start as int, self.key@, k),
                ));
            }
            i = i + 1;
        }
        Some(out)
    }
}

impl AesDecoder {
    /// Reads `size` masked bytes through `xor`, keeps the last 16 of them as
    /// the next IV, and decrypts them with `key` and `iv`; where unpadding
    /// fails the plaintext is empty.
    pub fn new(file: &[u8], xor: &XorDecoder, iv: &[u8], key: &[u8], size: u16) -> (r: AesDecoder)
        requires
            xor.key@.len() == 8,
            xor.start + size <= file@.len(),
            size >= 16,
            iv@.len() == 16,
            key@.len() == 32,
        ensures
            ({
                let cipher = payload_prefix(
                    file@,
                    PayloadView::Xor { start: xor.start as int, key: xor.key@ },
                    size as nat,
                )->0;
                &&& r.next_iv@ == cipher.subrange(cipher.len() - 16, cipher.len() as int)
                &&& r.buffer@ == plain_or_empty(aes256_cbc_pkcs7_decrypt(key@, iv@, cipher))
                &&& r.end == xor.start + size
            }),
    {
        let cipher = match xor.read(file, size as usize) {
            Some(c) => c,
            None => Vec::new(),
        };
        let next_iv = crate::utils::slice_range(cipher.as_slice(), cipher.len() - 16, cipher.len());
        let plain = aes256_cbc_decrypt(key, iv, cipher.as_slice());
        let buffer = match plain {
            Some(p) => p,
            None => Vec::new(),
        };
        assert(file@.len() == file.len());
        AesDecoder { buffer, next_iv, end: xor.start + size as usize }
    }
}

/// Decrypted bytes, or none where decryption failed.
pub open spec fn plain_or_empty(o: Option<Seq<u8>>) -> Seq<u8> {
    match o {
        Some(p) => p,
        None => Seq::empty(),
    }
}

/// Length of the length field of a record in a log of format `version`.
pub open spec fn length_field_size(version: u8) -> int {
    if version <= 12 { 1 } else { 2 }
}

/// The decoded source of the payload of a record of type `record_type` that
/// starts at `position` and spans `size` bytes, with the keychain after
/// decoding; `None` where decoding cannot proceed (the seed byte or the
/// encrypted bytes lie past the end of the file, the payload is too short to
/// hold an IV, or the keychain entry has no 16-byte IV and 32-byte key).
#[verifier::opaque]
pub open spec fn spec_record_decoder(
    file: Seq<u8>,
    position: int,
    record_type: u8,
    version: u8,
    keychain: Map<FeaturePoint, (Seq<u8>, Seq<u8>)>,
    size: u16,
) -> Option<(PayloadView, Map<FeaturePoint, (Seq<u8>, Seq<u8>)>)> {
    let xor = PayloadView::Xor { start: position + 1, key: xor_key(file[position], record_type) };
    if version <= 6 {
        Some((PayloadView::Raw { start: position }, keychain))
    } else if position >= file.len() {
        None
    } else if version <= 12 {
        Some((xor, keychain))
    } else {
        let fp = FeaturePoint::spec_from_record_type(record_type, version);
        if fp == FeaturePoint::PlaintextFeature || !keychain.contains_key(fp) {
            Some((xor, keychain))
        } else {
            spec_aes_payload(file, position, record_type, keychain, fp, size)
        }
    }
}

/// The AES branch of `spec_record_decoder`, for a feature point that the
/// keychain holds.
pub open spec fn spec_aes_payload(
    file: Seq<u8>,
    position: int,
    record_type: u8,
    keychain: Map<FeaturePoint, (Seq<u8>, Seq<u8>)>,
    fp: FeaturePoint,
    size: u16,
) -> Option<(PayloadView, Map<FeaturePoint, (Seq<u8>, Seq<u8>)>)> {
    let xor = PayloadView::Xor { start: position + 1, key: xor_key(file[position], record_type) };
    let iv = keychain[fp].0;
    let key = keychain[fp].1;
    let n = size as int - 2;
    if n < 16 || position + 1 + n > file.len() || iv.len() != 16 || key.len() != 32 {
        None
    } else {
        let cipher = payload_prefix(file, xor, n as nat)->0;
        let next_iv = cipher.subrange(n - 16, n);
        Some(
            (
                PayloadView::Plain {
                    data: plain_or_empty(aes256_cbc_pkcs7_decrypt(key, iv, cipher)),
                    end: position + 1 + n,
                },
                keychain.insert(fp, (next_iv, key)),
            ),
        )
    }
}

/// The AES branch of `record_decoder` (see `spec_aes_payload`).
fn aes_payload(
    file: &[u8],
    position: usize,
    record_type: u8,
    keychain: &mut Keychain,
    feature_point: FeaturePoint,
    size: u16,
) -> (r: Payload)
    requires
        old(keychain).wf(),
        old(keychain)@.contains_key(feature_point),
        position < file@.len(),
        spec_aes_payload(file@, position as int, record_type, old(keychain)@, feature_point, size)
            is Some,
    ensures
        final(keychain).wf(),
        spec_aes_payload(file@, position as int, record_type, old(keychain)@, feature_point, size)
            == Some((r@, final(keychain)@)),
        payload_wf(file@, r@),
{
    assert(file@.len() == file.len());
    let xor = XorDecoder::new(file, position, record_type);
    let pair = keychain.get(&feature_point).unwrap();
    let iv = crate::utils::slice_prefix(pair.0.as_slice(), pair.0.len());
    let key = crate::utils::slice_prefix(pair.1.as_slice(), pair.1.len());
    proof {
        assert(iv@ == old(keychain)@[feature_point].0);
        assert(key@ == old(keychain)@[feature_point].1);
    }
    let aes = AesDecoder::new(file, &xor, iv.as_slice(), key.as_slice(), size - 2);
    let next_iv = crate::utils::slice_prefix(aes.next_iv.as_slice(), aes.next_iv.len());
    proof {
        assert(aes.next_iv@.subrange(0, aes.next_iv@.len() as int) == aes.next_iv@);
    }
    keychain.insert(feature_point, (next_iv, key));
    Payload::Aes(aes)
}

/// The layers of a record's payload: up to format 6 the bytes from the
/// payload start as they are; from format 7 the first byte is a seed and the
/// bytes after it are XOR masked with the seed's key, which is the
/// little-endian CRC-64 of the little-endian bytes of
/// `0x123456789ABCDEF0 * seed` (wrapping) from `seed + record_type`
/// (wrapping); from format 13 payloads whose feature point the keychain
/// holds are AES encrypted under that mask, the others only masked.
pub proof fn lemma_payload_layers(
    file: Seq<u8>,
    position: int,
    record_type: u8,
    version: u8,
    keychain: Map<FeaturePoint, (Seq<u8>, Seq<u8>)>,
    size: u16,
    seed: u8,
)
    ensures
        xor_key(seed, record_type) == u64_le_bytes(
            crc64_jones(
                ((seed as int + record_type as int) % 256) as u64,
                u64_le_bytes(((0x123456789ABCDEF0 * seed as int) % 0x1_0000_0000_0000_0000) as u64),
            ),
        ),
        version <= 6 ==> spec_record_decoder(file, position, record_type, version, keychain, size)
            == Some((PayloadView::Raw { start: position }, keychain)),
        7 <= version <= 12 && 0 <= position < file.len() ==> spec_record_decoder(
            file,
            position,
            record_type,
            version,
            keychain,
            size,
        ) == Some(
            (
                PayloadView::Xor { start: position + 1, key: xor_key(file[position], record_type) },
                keychain,
            ),
        ),
        version >= 13 && 0 <= position < file.len() && !keychain.contains_key(
            FeaturePoint::spec_from_record_type(record_type, version),
        ) ==> spec_record_decoder(file, position, record_type, version, keychain, size) == Some(
            (
                PayloadView::Xor { start: position + 1, key: xor_key(file[position], record_type) },
                keychain,
            ),
        ),
        version >= 13 && 0 <= position < file.len() && FeaturePoint::spec_from_record_type(
            record_type,
            version,
        ) != FeaturePoint::PlaintextFeature && keychain.contains_key(
            FeaturePoint::spec_from_record_type(record_type, version),
        ) ==> spec_record_decoder(file, position, record_type, version, keychain, size)
            == spec_aes_payload(
            file,
            position,
            record_type,
            keychain,
            FeaturePoint::spec_from_record_type(record_type, version),
            size,
        ),
        forall|i: int| 0 <= i ==> #[trigger] xor_byte(file, position + 1, xor_key(seed, record_type), i)
            == file[position + 1 + i] ^ xor_key(seed, record_type)[i % 8],
{
    reveal(spec_record_decoder);
}

/// How an AES-encrypted record moves its feature point's keychain entry on:
/// the encrypted bytes are the `size - 2` bytes after the seed byte,
/// unmasked with the seed's XOR key; the new IV is their last 16 bytes, the
/// key stays, and no other feature point's entry changes. Reading resumes
/// after the encrypted bytes.
pub proof fn lemma_aes_iv_chaining(
    file: Seq<u8>,
    position: int,
    record_type: u8,
    keychain: Map<FeaturePoint, (Seq<u8>, Seq<u8>)>,
    fp: FeaturePoint,
    size: u16,
)
    requires
        0 <= position < file.len(),
        keychain.contains_key(fp),
        spec_aes_payload(file, position, record_type, keychain, fp, size) is Some,
    ensures
        ({
            let (p, kc) = spec_aes_payload(file, position, record_type, keychain, fp, size)->0;
            let key = xor_key(file[position], record_type);
            &&& size >= 18
            &&& kc.contains_key(fp)
            &&& kc[fp].1 == keychain[fp].1
            &&& kc[fp].0.len() == 16
            &&& forall|k: int|
                0 <= k < 16 ==> #[trigger] kc[fp].0[k] == file[position + 1 + (size - 18) + k]
                    ^ key[(size - 18 + k) % 8]
            &&& forall|other: FeaturePoint| other != fp ==> #[trigger] kc.contains_key(other)
                == keychain.contains_key(other) && (keychain.contains_key(other) ==> kc[other]
                == keychain[other])
            &&& p matches PayloadView::Plain { end, .. } && end == position + size - 1
        }),
{
}

/// Whether the payload of a record can be decoded (see
/// `spec_record_decoder`): formats up to 6 always; later formats need the
/// seed byte in the file, and an AES-encrypted payload needs at least 18
/// bytes, its encrypted bytes within the file, and a 16-byte IV and a
/// 32-byte key in the keychain.
pub open spec fn decoder_defined(
    file: Seq<u8>,
    position: int,
    record_type: u8,
    version: u8,
    keychain: Map<FeaturePoint, (Seq<u8>, Seq<u8>)>,
    size: u16,
) -> bool {
    let fp = FeaturePoint::spec_from_record_type(record_type, version);
    ||| version <= 6
    ||| position < file.len() && (version <= 12 || fp == FeaturePoint::PlaintextFeature
        || !keychain.contains_key(fp))
    ||| position < file.len() && size >= 18 && position + 1 + (size - 2) <= file.len()
        && keychain[fp].0.len() == 16 && keychain[fp].1.len() == 32
}

/// The payloads that `decoder_defined` admits are those that
/// `spec_record_decoder` decodes.
pub proof fn lemma_decoder_defined(
    file: Seq<u8>,
    position: int,
    record_type: u8,
    version: u8,
    keychain: Map<FeaturePoint, (Seq<u8>, Seq<u8>)>,
    size: u16,
)
    ensures
        decoder_defined(file, position, record_type, version, keychain, size) <==> spec_record_decoder(
            file,
            position,
            record_type,
            version,
            keychain,
            size,
        ) is Some,
{
    reveal(spec_record_decoder);
}

/// Tells whether the payload of a record can be decoded (see
/// `decoder_defined`), without moving the keychain on.
pub fn decodable(
    file: &[u8],
    position: usize,
    record_type: u8,
    version: u8,
    keychain: &Keychain,
    size: u16,
) -> (r: bool)
    requires
        keychain.wf(),
    ensures
        r == decoder_defined(file@, position as int, record_type, version, keychain@, size),
        r == spec_record_decoder(file@, position as int, record_type, version, keychain@, size)
            is Some,
{
    proof {
        lemma_decoder_defined(file@, position as int, record_type, version, keychain@, size);
    }
    assert(file@.len() == file.len());
    if version <= 6 {
        return true;
    }
    if position >= file.len() {
        return false;
    }
    let feature_point = FeaturePoint::from_record_type(record_type, version);
    if version <= 12 || feature_point == FeaturePoint::PlaintextFeature {
        return true;
    }
    match keychain.get(&feature_point) {
        None => true,
        Some(pair) => size >= 18 && size as usize - 2 <= file.len() - position - 1
            && pair.0.len() == 16 && pair.1.len() == 32,
    }
}

/// Builds the decoded source of a record payload of `size` bytes starting at
/// `position` (see `spec_record_decoder`), moving the keychain's IV on when
/// the record is AES encrypted.
pub fn record_decoder(
    file: &[u8],
    position: usize,
    record_type: u8,
    version: u8,
    keychain: &mut Keychain,
    size: u16,
) -> (r: Payload)
    requires
        old(keychain).wf(),
        position <= file@.len(),
        decoder_defined(file@, position as int, record_type, version, old(keychain)@, size),
    ensures
        final(keychain).wf(),
        spec_record_decoder(file@, position as int, record_type, version, old(keychain)@, size)
            == Some((r@, final(keychain)@)),
        payload_wf(file@, r@),
{
    reveal(spec_record_decoder);
    if version <= 6 {
        return Payload::Raw(position);
    }
    let feature_point = FeaturePoint::from_record_type(record_type, version);
    let has_key = keychain.get(&feature_point).is_some();
    if version <= 12 || feature_point == FeaturePoint::PlaintextFeature || !has_key {
        return Payload::Xor(XorDecoder::new(file, position, record_type));
    }
    aes_payload(file, position, record_type, keychain, feature_point, size)
}

/// The first `n` decoded bytes of a payload (see `payload_prefix`).
pub fn payload_read(file: &[u8], p: &Payload, n: usize) -> (r: Option<Vec<u8>>)
    requires
        payload_wf(file@, p@),
    ensures
        opt_bytes(r) == payload_prefix(file@, p@, n as nat),
{
    match p {
        Payload::Raw(start) => {
            if n > file.len() - *start {
                None
            } else {
                Some(crate::utils::slice_range(file, *start, *start + n))
            }
        },
        Payload::Xor(x) => x.read(file, n),
        Payload::Aes(a) => {
            let mut out: Vec<u8> = Vec::new();
            let mut i: usize = 0;
            while i < n
                invariant
                    i <= n,
                    out@ == Seq::new(
                        i as nat,
                        |k: int| if k < a.buffer@.len() { a.buffer@[k] } else { 0u8 },
                    ),
                decreases n - i,
            {
                let b = if i < a.buffer.len() { a.buffer[i] } else { 0u8 };
                out.push(b);
                proof {
                    assert(out@ =~= Seq::new(
                        (i + 1) as nat,
                        |k: int| if k < a.buffer@.len() { a.buffer@[k] } else { 0u8 },
                    ));
                }
                i = i + 1;
            }
            Some(out)
        },
    }
}

/// The file position reached once `n` decoded bytes have been read.
pub fn payload_position(p: &Payload, n: usize) -> (r: Option<usize>)
    ensures
        match r {
            Some(v) => v == payload_end(p@, n as nat),
            None => payload_end(p@, n as nat) > usize::MAX,
        },
{
    match p {
        Payload::Raw(start) => start.checked_add(n),
        Payload::Xor(x) => x.start.checked_add(n),
        Payload::Aes(a) => Some(a.end),
    }
}

} // verus!
