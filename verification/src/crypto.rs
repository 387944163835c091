//! Key derivation for the handshake: the IEEE Std 802.11-2016, 12.7.1.2
//! pseudo-random function built on HMAC-SHA-1, and the pairwise transient
//! key derived with it. The HMAC itself and the random-byte source are the
//! only outside calls; everything around them is verified.

use vstd::prelude::*;

verus! {

/// Length in bytes of one HMAC-SHA-1 output block.
pub const HMAC_SHA1_OUTPUT_LEN: usize = 20;

/// Length in bytes of the pairwise transient key (key confirmation key,
/// key encryption key and temporal key of 16 bytes each).
pub const PTK_LEN: usize = 48;

/// What HMAC-SHA-1 returns for a key and a message. The digest is a
/// function of its two arguments alone; its 20-byte value is not spelled
/// out here.
pub uninterp spec fn hmac_sha1_of(key: Seq<u8>, data: Seq<u8>) -> Seq<u8>;

/// Relies on `hmac::Hmac<sha1::Sha1>`: computes HMAC-SHA-1 of `data` under
/// `key`. The output is 20 bytes and depends on the two arguments alone.
/// `new_from_slice` accepts keys of any length for an HMAC, so it never
/// fails.
#[verifier::external_body]
pub(crate) fn hmac_sha1(key: &[u8], data: &[u8]) -> (r: Vec<u8>)
    ensures
        r@ == hmac_sha1_of(key@, data@),
        r@.len() == HMAC_SHA1_OUTPUT_LEN,
{
    let mut mac = <hmac::Hmac<sha1::Sha1> as hmac::KeyInit>::new_from_slice(key).expect(
        "HMAC accepts keys of any length",
    );
    hmac::Mac::update(&mut mac, data);
    let out = hmac::Mac::finalize(mac).into_bytes();
    out.as_slice().to_vec()
}

/// Relies on `rand::rng` and `rand::Rng::fill_bytes`: fills a buffer of
/// `n` bytes from the thread-local generator. Nothing is assumed of the
/// values drawn.
#[verifier::external_body]
pub(crate) fn random_bytes(n: usize) -> (r: Vec<u8>)
    ensures
        r@.len() == n,
{
    let mut buf = vec![0u8; n];
    rand::Rng::fill_bytes(&mut rand::rng(), buf.as_mut_slice());
    buf
}

/// Appends `src` to `dst`.
pub fn append_bytes(dst: &mut Vec<u8>, src: &[u8])
    ensures
        final(dst)@ == old(dst)@ + src@,
{
    dst.extend_from_slice(src);
    proof {
        assert(dst@ =~= old(dst)@ + src@);
    }
}

/// Copies a slice into an owned vector.
pub fn copy_bytes(src: &[u8]) -> (r: Vec<u8>)
    ensures
        r@ == src@,
{
    let mut v: Vec<u8> = Vec::new();
    append_bytes(&mut v, src);
    proof {
        assert(v@ =~= src@);
    }
    v
}

/// `a` is lexicographically at most `b` (byte-wise comparison, shorter
/// prefixes first), the order in which key-derivation inputs are arranged.
pub open spec fn lex_le(a: Seq<u8>, b: Seq<u8>) -> bool
    decreases a.len(),
{
    if a.len() == 0 {
        true
    } else if b.len() == 0 {
        false
    } else if a[0] < b[0] {
        true
    } else if a[0] > b[0] {
        false
    } else {
        lex_le(a.skip(1), b.skip(1))
    }
}

/// The lexicographically smaller of the two sequences.
pub open spec fn min_bytes(a: Seq<u8>, b: Seq<u8>) -> Seq<u8> {
    if lex_le(a, b) {
        a
    } else {
        b
    }
}

/// The lexicographically larger of the two sequences.
pub open spec fn max_bytes(a: Seq<u8>, b: Seq<u8>) -> Seq<u8> {
    if lex_le(a, b) {
        b
    } else {
        a
    }
}

/// Whether `a` is lexicographically at most `b`.
pub fn lex_le_bytes(a: &[u8], b: &[u8]) -> (r: bool)
    ensures
        r == lex_le(a@, b@),
    decreases a@.len(),
{
    if a.len() == 0 {
        true
    } else if b.len() == 0 {
        false
    } else if a[0] < b[0] {
        true
    } else if a[0] > b[0] {
        false
    } else {
        lex_le_bytes(&a[1..a.len()], &b[1..b.len()])
    }
}

/// The label that binds the pseudo-random function to pairwise key
/// expansion: the bytes of "Pairwise key expansion".
pub open spec fn pairwise_expansion_label() -> Seq<u8> {
    seq![
        0x50u8,
        0x61u8,
        0x69u8,
        0x72u8,
        0x77u8,
        0x69u8,
        0x73u8,
        0x65u8,
        0x20u8,
        0x6Bu8,
        0x65u8,
        0x79u8,
        0x20u8,
        0x65u8,
        0x78u8,
        0x70u8,
        0x61u8,
        0x6Eu8,
        0x73u8,
        0x69u8,
        0x6Fu8,
        0x6Eu8,
    ]
}

/// The bytes of "Pairwise key expansion".
pub fn pairwise_expansion_label_bytes() -> (r: Vec<u8>)
    ensures
        r@ == pairwise_expansion_label(),
{
    let label: [u8; 22] = [
        0x50u8, 0x61u8, 0x69u8, 0x72u8, 0x77u8, 0x69u8, 0x73u8, 0x65u8, 0x20u8, 0x6Bu8, 0x65u8,
        0x79u8, 0x20u8, 0x65u8, 0x78u8, 0x70u8, 0x61u8, 0x6Eu8, 0x73u8, 0x69u8, 0x6Fu8, 0x6Eu8,
    ];
    let r = copy_bytes(label.as_slice());
    proof {
        assert(r@ =~= pairwise_expansion_label());
    }
    r
}

/// The first `k` output blocks of the pseudo-random function: block `i` is
/// HMAC-SHA-1 of `label || 0x00 || data || i` under the key.
pub open spec fn prf_blocks(key: Seq<u8>, label: Seq<u8>, data: Seq<u8>, k: nat) -> Seq<u8>
    decreases k,
{
    if k == 0 {
        Seq::empty()
    } else {
        prf_blocks(key, label, data, (k - 1) as nat) + hmac_sha1_of(
            key,
            label + seq![0u8] + data + seq![((k - 1) as u8)],
        )
    }
}

/// The pseudo-random function of IEEE Std 802.11-2016, 12.7.1.2: as many
/// 20-byte blocks as needed, truncated to `out_len` bytes.
pub open spec fn prf_of(key: Seq<u8>, label: Seq<u8>, data: Seq<u8>, out_len: nat) -> Seq<u8> {
    prf_blocks(key, label, data, (out_len + 19) / 20).take(out_len as int)
}

/// Computes the pseudo-random function. The block counter is a single
/// octet, which caps the output at 255 blocks.
pub fn prf(key: &[u8], label: &[u8], data: &[u8], out_len: usize) -> (r: Vec<u8>)
    requires
        out_len <= 5100,
    ensures
        r@ == prf_of(key@, label@, data@, out_len as nat),
{
    let mut out: Vec<u8> = Vec::new();
    let mut counter: u8 = 0;
    while out.len() < out_len
        invariant
            out_len <= 5100,
            out@ == prf_blocks(key@, label@, data@, counter as nat),
            out@.len() == 20 * (counter as int),
            counter == 0 || 20 * (counter as int - 1) < out_len,
        decreases out_len + 20 - out.len(),
    {
        let mut msg: Vec<u8> = Vec::new();
        append_bytes(&mut msg, label);
        msg.push(0u8);
        append_bytes(&mut msg, data);
        msg.push(counter);
        proof {
            assert(msg@ =~= label@ + seq![0u8] + data@ + seq![counter]);
        }
        let mut block = hmac_sha1(key, msg.as_slice());
        out.append(&mut block);
        counter = counter + 1;
    }
    proof {
        assert(counter as int == (out_len + 19) / 20 as int) by (nonlinear_arith)
            requires
                out@.len() == 20 * (counter as int),
                out@.len() >= out_len,
                counter == 0 || 20 * (counter as int - 1) < out_len,
                out_len <= 5100,
        ;
    }
    out.truncate(out_len);
    proof {
        assert(out@ =~= prf_of(key@, label@, data@, out_len as nat));
    }
    out
}

/// The pairwise transient key: the pseudo-random function applied to the
/// pairwise master key over the label and the sorted concatenation of the
/// two link-layer addresses and the two nonces.
pub open spec fn ptk_of(
    pmk: Seq<u8>,
    a_addr: Seq<u8>,
    s_addr: Seq<u8>,
    anonce: Seq<u8>,
    snonce: Seq<u8>,
) -> Seq<u8> {
    prf_of(
        pmk,
        pairwise_expansion_label(),
        min_bytes(a_addr, s_addr) + max_bytes(a_addr, s_addr) + min_bytes(anonce, snonce)
            + max_bytes(anonce, snonce),
        PTK_LEN as nat,
    )
}

/// Derives the pairwise transient key from the pairwise master key, the
/// two link-layer addresses and the two nonces.
pub fn derive_ptk(
    pmk: &[u8],
    a_addr: &[u8; 6],
    s_addr: &[u8; 6],
    anonce: &[u8],
    snonce: &[u8],
) -> (r: Vec<u8>)
    ensures
        r@ == ptk_of(pmk@, a_addr@, s_addr@, anonce@, snonce@),
{
    let mut data: Vec<u8> = Vec::new();
    if lex_le_bytes(a_addr.as_slice(), s_addr.as_slice()) {
        append_bytes(&mut data, a_addr.as_slice());
        append_bytes(&mut data, s_addr.as_slice());
    } else {
        append_bytes(&mut data, s_addr.as_slice());
        append_bytes(&mut data, a_addr.as_slice());
    }
    if lex_le_bytes(anonce, snonce) {
        append_bytes(&mut data, anonce);
        append_bytes(&mut data, snonce);
    } else {
        append_bytes(&mut data, snonce);
        append_bytes(&mut data, anonce);
    }
    proof {
        assert(data@ =~= min_bytes(a_addr@, s_addr@) + max_bytes(a_addr@, s_addr@) + min_bytes(
            anonce@,
            snonce@,
        ) + max_bytes(anonce@, snonce@));
    }
    let label = pairwise_expansion_label_bytes();
    prf(pmk, label.as_slice(), data.as_slice(), PTK_LEN)
}

} // verus!
