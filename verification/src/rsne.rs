//! Security-parameter elements (RSNEs) and their negotiation.
//!
//! Suites are modelled by their suite-type codes. Negotiation intersects
//! the two advertised elements: it adopts the shared group-data cipher and
//! the station's first pairwise cipher and first AKM that the peer also
//! supports, and fails when no common choice exists.

use crate::Error;
use vstd::prelude::*;

verus! {

/// Mathematical image of an [`Rsne`].
pub struct RsneModel {
    pub group_data_cipher_suite: Option<u8>,
    pub pairwise_cipher_suites: Seq<u8>,
    pub akm_suites: Seq<u8>,
}

/// An advertised set of supported ciphers and authentication methods.
#[derive(Debug, Clone, PartialEq)]
pub struct Rsne {
    pub group_data_cipher_suite: Option<u8>,
    pub pairwise_cipher_suites: Vec<u8>,
    pub akm_suites: Vec<u8>,
}

impl View for Rsne {
    type V = RsneModel;

    open spec fn view(&self) -> RsneModel {
        RsneModel {
            group_data_cipher_suite: self.group_data_cipher_suite,
            pairwise_cipher_suites: self.pairwise_cipher_suites@,
            akm_suites: self.akm_suites@,
        }
    }
}

/// Some element of `xs` also occurs in `ys`.
pub open spec fn has_common_suite(xs: Seq<u8>, ys: Seq<u8>) -> bool {
    exists|i: int| 0 <= i < xs.len() && ys.contains(xs[i])
}

/// `x` is the first element of `xs` that also occurs in `ys`.
pub open spec fn is_first_common_suite(xs: Seq<u8>, ys: Seq<u8>, x: u8) -> bool {
    exists|i: int|
        {
            &&& 0 <= i < xs.len()
            &&& xs[i] == x
            &&& ys.contains(x)
            &&& forall|j: int| 0 <= j < i ==> !ys.contains(#[trigger] xs[j])
        }
}

/// The two elements agree on everything negotiation adopts: a shared
/// group-data cipher and at least one shared pairwise cipher and AKM.
pub open spec fn compatible_rsnes(s: RsneModel, a: RsneModel) -> bool {
    &&& s.group_data_cipher_suite is Some
    &&& s.group_data_cipher_suite == a.group_data_cipher_suite
    &&& has_common_suite(s.pairwise_cipher_suites, a.pairwise_cipher_suites)
    &&& has_common_suite(s.akm_suites, a.akm_suites)
}

/// The outcome of negotiating two security-parameter elements: one group
/// data cipher, one pairwise cipher and one AKM.
#[derive(Debug, Clone, Copy, PartialEq, Eq, Structural)]
pub struct NegotiatedRsne {
    pub group_data: u8,
    pub pairwise: u8,
    pub akm: u8,
}

/// Whether the byte `x` occurs in `v`.
fn contains_suite(v: &Vec<u8>, x: u8) -> (r: bool)
    ensures
        r == v@.contains(x),
{
    let mut i: usize = 0;
    while i < v.len()
        invariant
            0 <= i <= v@.len(),
            forall|j: int| 0 <= j < i ==> v@[j] != x,
        decreases v@.len() - i,
    {
        if v[i] == x {
            return true;
        }
        i += 1;
    }
    false
}

/// The first element of `xs` that also occurs in `ys`, if any.
fn first_common_suite(xs: &Vec<u8>, ys: &Vec<u8>) -> (r: Option<u8>)
    ensures
        match r {
            Some(x) => is_first_common_suite(xs@, ys@, x),
            None => !has_common_suite(xs@, ys@),
        },
{
    let mut i: usize = 0;
    while i < xs.len()
        invariant
            0 <= i <= xs@.len(),
            forall|j: int| 0 <= j < i ==> !ys@.contains(#[trigger] xs@[j]),
        decreases xs@.len() - i,
    {
        if contains_suite(ys, xs[i]) {
            return Some(xs[i]);
        }
        i += 1;
    }
    None
}

impl NegotiatedRsne {
    /// Negotiates the station's element `s_rsne` against the peer's element
    /// `a_rsne`; fails exactly when they share no group-data cipher, no
    /// pairwise cipher or no AKM.
    pub fn negotiate(s_rsne: &Rsne, a_rsne: &Rsne) -> (r: Result<NegotiatedRsne, Error>)
        ensures
            r is Ok <==> compatible_rsnes(s_rsne@, a_rsne@),
            r matches Ok(n) ==> {
                &&& Some(n.group_data) == s_rsne@.group_data_cipher_suite
                &&& is_first_common_suite(
                    s_rsne@.pairwise_cipher_suites,
                    a_rsne@.pairwise_cipher_suites,
                    n.pairwise,
                )
                &&& is_first_common_suite(s_rsne@.akm_suites, a_rsne@.akm_suites, n.akm)
            },
            r matches Err(e) ==> e == Error::ConfigNegotiationFailed,
    {
        let group_data = match (&s_rsne.group_data_cipher_suite, &a_rsne.group_data_cipher_suite) {
            (Some(s), Some(a)) if *s == *a => *s,
            _ => {
                return Err(Error::ConfigNegotiationFailed);
            },
        };
        let pairwise = match first_common_suite(
            &s_rsne.pairwise_cipher_suites,
            &a_rsne.pairwise_cipher_suites,
        ) {
            Some(x) => x,
            None => {
                return Err(Error::ConfigNegotiationFailed);
            },
        };
        let akm = match first_common_suite(&s_rsne.akm_suites, &a_rsne.akm_suites) {
            Some(x) => x,
            None => {
                return Err(Error::ConfigNegotiationFailed);
            },
        };
        Ok(NegotiatedRsne { group_data, pairwise, akm })
    }
}

} // verus!
