//! Request and response shapes of the first keychain service protocol.
use vstd::prelude::*;

use super::feature_point::FeaturePoint;
use super::{base64_decode, base64_standard_decode, opt_bytes, Keychain};

verus! {

/// An encrypted keychain entry of the first protocol.
#[derive(Debug)]
pub struct KeychainCipherText {
    pub feature_point: FeaturePoint,
    pub aes_ciphertext: String,
}

/// Request body of the first protocol.
#[derive(Debug)]
pub struct KeychainRequest {
    pub version: u16,
    pub department: u8,
    pub keychains: Vec<Vec<KeychainCipherText>>,
}

/// Response body of the first protocol.
#[derive(Debug)]
pub struct KeychainResponse {
    pub data: Vec<Vec<KeychainAES>>,
}

/// A decrypted keychain entry of the first protocol, key and IV in base64.
#[derive(Debug, Clone)]
pub struct KeychainAES {
    pub feature_point: FeaturePoint,
    pub aes_key: String,
    pub aes_iv: String,
}


/// The keychain that a group of decrypted entries describes, each IV and key
/// decoded from base64, later entries replacing earlier ones; `None` where a
/// text is not valid base64.
pub open spec fn aes_keychain(entries: Seq<KeychainAES>) -> Option<
    Map<FeaturePoint, (Seq<u8>, Seq<u8>)>,
>
    decreases entries.len(),
{
    if entries.len() == 0 {
        Some(Map::empty())
    } else {
        let last = entries.last();
        match (
            aes_keychain(entries.drop_last()),
            base64_standard_decode(last.aes_iv@),
            base64_standard_decode(last.aes_key@),
        ) {
            (Some(m), Some(iv), Some(key)) => Some(m.insert(last.feature_point, (iv, key))),
            _ => None,
        }
    }
}

/// Builds the keychain of one group of decrypted entries (see
/// `aes_keychain`).
fn keychain_of_group(entries: &Vec<KeychainAES>) -> (r: Option<Keychain>)
    ensures
        match aes_keychain(entries@) {
            Some(m) => r matches Some(k) && k.wf() && k@ == m,
            None => r is None,
        },
{
    let mut keychain = Keychain::empty();
    let mut i: usize = 0;
    while i < entries.len()
        invariant
            i <= entries@.len(),
            keychain.wf(),
            aes_keychain(entries@.subrange(0, i as int)) == Some(keychain@),
        decreases entries.len() - i,
    {
        let entry = &entries[i];
        let ghost s = entries@.subrange(0, i + 1);
        proof {
            assert(s.drop_last() =~= entries@.subrange(0, i as int));
            assert(s.last() == entries@[i as int]);
        }
        let iv = match base64_decode(entry.aes_iv.as_str()) {
            Some(v) => v,
            None => {
                proof {
                    lemma_aes_keychain_fails_after(entries@, i + 1);
                }
                return None;
            },
        };
        let key = match base64_decode(entry.aes_key.as_str()) {
            Some(v) => v,
            None => {
                proof {
                    lemma_aes_keychain_fails_after(entries@, i + 1);
                }
                return None;
            },
        };
        keychain.insert(entry.feature_point, (iv, key));
        i = i + 1;
    }
    assert(entries@.subrange(0, i as int) =~= entries@);
    Some(keychain)
}

/// Once a prefix of the entries fails to decode, so do all the entries.
proof fn lemma_aes_keychain_fails_after(entries: Seq<KeychainAES>, n: int)
    requires
        0 <= n <= entries.len(),
        aes_keychain(entries.subrange(0, n)) is None,
    ensures
        aes_keychain(entries) is None,
    decreases entries.len() - n,
{
    if n < entries.len() {
        let s = entries.subrange(0, n + 1);
        assert(s.drop_last() =~= entries.subrange(0, n));
        lemma_aes_keychain_fails_after(entries, n + 1);
    } else {
        assert(entries.subrange(0, n) =~= entries);
    }
}

impl KeychainResponse {
    /// The keychains of a decrypted response, one per group (see
    /// `aes_keychain`); `None` where an IV or key is not valid base64.
    pub fn keychains(&self) -> (r: Option<Vec<Keychain>>)
        ensures
            (forall|i: int| 0 <= i < self.data@.len() ==> aes_keychain(#[trigger] self.data@[i]@) is Some)
                <==> r is Some,
            r matches Some(v) ==> v@.len() == self.data@.len() && forall|i: int|
                0 <= i < v@.len() ==> #[trigger] v@[i].wf() && v@[i]@ == aes_keychain(
                    self.data@[i]@,
                )->0,
    {
        let mut out: Vec<Keychain> = Vec::new();
        let mut i: usize = 0;
        while i < self.data.len()
            invariant
                i <= self.data@.len(),
                out@.len() == i,
                forall|j: int| 0 <= j < i ==> aes_keychain(#[trigger] self.data@[j]@) is Some,
                forall|j: int|
                    0 <= j < i ==> #[trigger] out@[j].wf() && out@[j]@ == aes_keychain(
                        self.data@[j]@,
                    )->0,
            decreases self.data.len() - i,
        {
            match keychain_of_group(&self.data[i]) {
                Some(k) => {
                    let ghost before = out@;
                    out.push(k);
                    proof {
                        assert forall|j: int| 0 <= j < i + 1 implies #[trigger] out@[j].wf()
                            && out@[j]@ == aes_keychain(self.data@[j]@)->0 by {
                            if j < i {
                                assert(out@[j] == before[j]);
                            }
                        }
                    }
                },
                None => {
                    return None;
                },
            }
            i = i + 1;
        }
        Some(out)
    }
}

} // verus!
