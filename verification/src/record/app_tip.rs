//! The app tip record (type 9).
use vstd::prelude::*;
use crate::utils::{trim_trailing_zeros, utf8_lossy};

use crate::decoder::{payload_prefix, payload_read, payload_wf, Payload, PayloadView};
use crate::utils::{fixed_string, spec_fixed_string};

verus! {

/// A message shown by the app.
#[derive(Debug, Clone)]
pub struct AppTip {
    pub message: String,
}

impl View for AppTip {
    type V = Seq<char>;

    open spec fn view(&self) -> Seq<char> {
        self.message@
    }
}

impl AppTip {
    /// The message of a record whose length field is `length`: that many
    /// payload bytes, read as NUL-padded text, and the number of bytes read.
    pub open spec fn spec_parse_payload(file: Seq<u8>, p: PayloadView, length: u16) -> Option<
        (Seq<char>, nat),
    > {
        match payload_prefix(file, p, length as nat) {
            Some(b) => Some((spec_fixed_string(b), length as nat)),
            None => None,
        }
    }

    /// Reads the message from a record payload.
    pub fn parse_payload(file: &[u8], p: &Payload, length: u16) -> (r: Option<(AppTip, usize)>)
        requires
            payload_wf(file@, p@),
        ensures
            match AppTip::spec_parse_payload(file@, p@, length) {
                Some((v, n)) => r matches Some((t, m)) && t@ == v && m == n,
                None => r is None,
            },
    {
        match payload_read(file, p, length as usize) {
            Some(b) => Some((AppTip { message: fixed_string(b.as_slice()) }, length as usize)),
            None => None,
        }
    }
}

/// A message record is its whole payload, as many bytes as its length
/// field gives, read as text without its trailing NUL bytes.
pub proof fn lemma_app_tip_layout(file: Seq<u8>, p: PayloadView, length: u16)
    ensures
        payload_prefix(file, p, length as nat) matches Some(b) ==> AppTip::spec_parse_payload(
            file,
            p,
            length,
        ) == Some((utf8_lossy(trim_trailing_zeros(b)), length as nat)),
        payload_prefix(file, p, length as nat) is None ==> AppTip::spec_parse_payload(file, p, length)
            is None,
{
}

} // verus!
