//! Keychains: the AES keys and IVs that decrypt records of version 13 and
//! later logs, one entry per feature point.
use base64::Engine;
use std::collections::HashMap;
use vstd::prelude::*;

pub mod api;
pub mod feature_point;
pub mod request;

pub use feature_point::FeaturePoint;

verus! {

/// A keychain entry as sent to the keychain service: the feature point and
/// the base64 text of the encrypted key material found in the log.
#[derive(Debug, Clone)]
pub struct EncodedKeychainFeaturePoint {
    pub feature_point: FeaturePoint,
    pub aes_ciphertext: String,
}

/// A keychain entry as answered by the keychain service: the feature point
/// with its AES key and IV, both in base64.
#[derive(Debug, Clone)]
pub struct KeychainFeaturePoint {
    pub feature_point: FeaturePoint,
    pub aes_key: String,
    pub aes_iv: String,
}

/// What the standard base64 engine of the `base64` crate decodes `text` to,
/// or `None` where it reports an error.
pub uninterp spec fn base64_standard_decode(text: Seq<char>) -> Option<Seq<u8>>;

/// What the standard base64 engine of the `base64` crate encodes `data` to.
pub uninterp spec fn base64_standard_encode(data: Seq<u8>) -> Seq<char>;

/// The contents of an optional byte vector.
pub open spec fn opt_bytes(o: Option<Vec<u8>>) -> Option<Seq<u8>> {
    match o {
        Some(v) => Some(v@),
        None => None,
    }
}

/// `Engine::decode` of the standard base64 engine (`base64` crate) applied
/// to the bytes of `text`; an error becomes `None`. The contract names the
/// result and states nothing more of it.
#[verifier::external_body]
pub(crate) fn base64_decode(text: &str) -> (r: Option<Vec<u8>>)
    ensures
        opt_bytes(r) == base64_standard_decode(text@),
{
    base64::engine::general_purpose::STANDARD.decode(text).ok()
}

/// `Engine::encode` of the standard base64 engine (`base64` crate). The
/// contract names the result and states nothing more of it.
#[verifier::external_body]
pub(crate) fn base64_encode(data: &[u8]) -> (r: String)
    ensures
        r@ == base64_standard_encode(data@),
{
    base64::engine::general_purpose::STANDARD.encode(data)
}

/// The bytes that base64 `text` decodes to, or no bytes where it is not
/// valid base64.
pub open spec fn decoded_or_empty(text: Seq<char>) -> Seq<u8> {
    match base64_standard_decode(text) {
        Some(b) => b,
        None => Seq::empty(),
    }
}

/// Decodes base64 `text`, giving no bytes where it is not valid base64.
pub fn decode_or_empty(text: &str) -> (r: Vec<u8>)
    ensures
        r@ == decoded_or_empty(text@),
{
    match base64_decode(text) {
        Some(v) => v,
        None => Vec::new(),
    }
}

/// The contents of an (IV, key) pair.
pub open spec fn pair_view(p: (Vec<u8>, Vec<u8>)) -> (Seq<u8>, Seq<u8>) {
    (p.0@, p.1@)
}

/// The IV and key of each feature point, in a hash map keyed by the
/// feature point's wire value.
#[derive(Debug)]
pub struct Keychain {
    entries: HashMap<u16, (Vec<u8>, Vec<u8>)>,
}

impl View for Keychain {
    type V = Map<FeaturePoint, (Seq<u8>, Seq<u8>)>;

    /// The (IV, key) pair of each feature point that has one.
    closed spec fn view(&self) -> Map<FeaturePoint, (Seq<u8>, Seq<u8>)> {
        Map::new(
            |fp: FeaturePoint| self.entries@.contains_key(fp.spec_code()),
            |fp: FeaturePoint| pair_view(self.entries@[fp.spec_code()]),
        )
    }
}

impl Keychain {
    /// Every key of the map is the wire value of a feature point.
    pub closed spec fn wf(&self) -> bool {
        forall|code: u16| #[trigger]
            self.entries@.contains_key(code) ==> FeaturePoint::spec_from_code(code) is Some
    }

    /// A keychain without entries.
    pub fn empty() -> (r: Self)
        ensures
            r.wf(),
            r@ == Map::<FeaturePoint, (Seq<u8>, Seq<u8>)>::empty(),
    {
        let r = Keychain { entries: HashMap::new() };
        assert(r@ =~= Map::<FeaturePoint, (Seq<u8>, Seq<u8>)>::empty());
        r
    }

    /// The (IV, key) pair of `key`, if the keychain has one.
    pub fn get(&self, key: &FeaturePoint) -> (r: Option<&(Vec<u8>, Vec<u8>)>)
        requires
            self.wf(),
        ensures
            r is Some <==> self@.contains_key(*key),
            r matches Some(p) ==> pair_view(*p) == self@[*key],
    {
        broadcast use vstd::std_specs::hash::group_hash_axioms;

        let code = key.code();
        self.entries.get(&code)
    }

    /// Sets the (IV, key) pair of `key`, returning the pair it replaces.
    pub fn insert(&mut self, key: FeaturePoint, value: (Vec<u8>, Vec<u8>)) -> (r: Option<
        (Vec<u8>, Vec<u8>),
    >)
        requires
            old(self).wf(),
        ensures
            final(self).wf(),
            final(self)@ == old(self)@.insert(key, pair_view(value)),
            r is Some <==> old(self)@.contains_key(key),
            r matches Some(p) ==> pair_view(p) == old(self)@[key],
    {
        broadcast use vstd::std_specs::hash::group_hash_axioms;

        let code = key.code();
        let previous = self.entries.insert(code, value);
        proof {
            feature_point::lemma_feature_point_code_round_trip(key);
            assert forall|fp: FeaturePoint| fp.spec_code() == code implies fp == key by {
                feature_point::lemma_feature_point_code_round_trip(fp);
            }
            assert(self@ =~= old(self)@.insert(key, pair_view(value)));
        }
        previous
    }

    /// Builds a keychain from the entries answered by the keychain service,
    /// decoding each IV and key from base64 (no bytes where the text is not
    /// valid base64); a later entry for a feature point replaces an earlier
    /// one.
    pub fn from_feature_points(keychain_entries: &Vec<KeychainFeaturePoint>) -> (r: Self)
        ensures
            r.wf(),
            r@ == keychain_of(keychain_entries@),
    {
        let mut keychain = Keychain::empty();
        let mut i: usize = 0;
        while i < keychain_entries.len()
            invariant
                i <= keychain_entries@.len(),
                keychain.wf(),
                keychain@ == keychain_of(keychain_entries@.subrange(0, i as int)),
            decreases keychain_entries.len() - i,
        {
            let entry = &keychain_entries[i];
            let iv = decode_or_empty(entry.aes_iv.as_str());
            let key = decode_or_empty(entry.aes_key.as_str());
            keychain.insert(entry.feature_point, (iv, key));
            proof {
                let s = keychain_entries@.subrange(0, i + 1);
                assert(s.drop_last() == keychain_entries@.subrange(0, i as int));
            }
            i = i + 1;
        }
        assert(keychain_entries@.subrange(0, i as int) == keychain_entries@);
        keychain
    }
}

/// The keychain that a list of service entries describes: each entry's IV
/// and key decoded from base64, later entries replacing earlier ones.
pub open spec fn keychain_of(entries: Seq<KeychainFeaturePoint>) -> Map<
    FeaturePoint,
    (Seq<u8>, Seq<u8>),
>
    decreases entries.len(),
{
    if entries.len() == 0 {
        Map::empty()
    } else {
        let last = entries.last();
        keychain_of(entries.drop_last()).insert(
            last.feature_point,
            (decoded_or_empty(last.aes_iv@), decoded_or_empty(last.aes_key@)),
        )
    }
}


/// A read after a write: the entry written is read back, and the entries of
/// the other feature points are unchanged.
pub proof fn lemma_keychain_read_after_write(
    before: Map<FeaturePoint, (Seq<u8>, Seq<u8>)>,
    key: FeaturePoint,
    value: (Seq<u8>, Seq<u8>),
    other: FeaturePoint,
)
    ensures
        before.insert(key, value).contains_key(key),
        before.insert(key, value)[key] == value,
        other != key ==> (before.insert(key, value).contains_key(other) == before.contains_key(
            other,
        ) && (before.contains_key(other) ==> before.insert(key, value)[other] == before[other])),
{
}


/// The position of the last entry that names `fp`, or -1 where none does.
pub open spec fn last_entry_of(entries: Seq<KeychainFeaturePoint>, fp: FeaturePoint) -> int
    decreases entries.len(),
{
    if entries.len() == 0 {
        -1
    } else if entries.last().feature_point == fp {
        entries.len() - 1
    } else {
        last_entry_of(entries.drop_last(), fp)
    }
}

/// The keychain of a list of service entries holds a feature point exactly
/// when some entry names it, and then holds the decoded IV and key of the
/// last entry that names it.
pub proof fn lemma_keychain_of_last_entry(entries: Seq<KeychainFeaturePoint>, fp: FeaturePoint)
    ensures
        -1 <= last_entry_of(entries, fp) < entries.len(),
        last_entry_of(entries, fp) >= 0 ==> entries[last_entry_of(entries, fp)].feature_point == fp,
        forall|j: int|
            last_entry_of(entries, fp) < j < entries.len() ==> #[trigger] entries[j].feature_point
                != fp,
        keychain_of(entries).contains_key(fp) == (last_entry_of(entries, fp) >= 0),
        last_entry_of(entries, fp) >= 0 ==> keychain_of(entries)[fp] == (
            decoded_or_empty(entries[last_entry_of(entries, fp)].aes_iv@),
            decoded_or_empty(entries[last_entry_of(entries, fp)].aes_key@),
        ),
    decreases entries.len(),
{
    if entries.len() > 0 {
        let init = entries.drop_last();
        lemma_keychain_of_last_entry(init, fp);
        if entries.last().feature_point != fp {
            let li = last_entry_of(init, fp);
            if li >= 0 {
                assert(init[li] == entries[li]);
            }
            assert forall|j: int| li < j < entries.len() implies #[trigger] entries[j].feature_point
                != fp by {
                if j < init.len() {
                    assert(init[j] == entries[j]);
                }
            }
        }
    }
}

} // verus!
