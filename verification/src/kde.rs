//! Key-data encapsulations (IEEE Std 802.11-2016, 12.7.2, Figure 12-34):
//! the format in which the group temporal key travels inside the third
//! message's (already decrypted) key data. The Authenticator encodes a GTK
//! encapsulation; the Supplicant scans the key data, skipping other
//! elements such as the peer's RSNE, and extracts the first GTK.

use vstd::prelude::*;

verus! {

/// Element identifier of a key-data encapsulation.
pub const KDE_TYPE: u8 = 0xDD;

/// First byte of the IEEE 802.11 organizationally unique identifier.
pub const KDE_OUI_0: u8 = 0x00;

/// Second byte of the IEEE 802.11 organizationally unique identifier.
pub const KDE_OUI_1: u8 = 0x0F;

/// Third byte of the IEEE 802.11 organizationally unique identifier.
pub const KDE_OUI_2: u8 = 0xAC;

/// Data type of the GTK encapsulation.
pub const KDE_GTK_DATA_TYPE: u8 = 0x01;

/// Bytes of header before the key in a GTK encapsulation: identifier,
/// length, the three OUI bytes, the data type, key-id flags and a
/// reserved byte.
pub const GTK_KDE_HEADER_LEN: usize = 8;

/// Largest key that fits the one-byte element length.
pub const GTK_KDE_MAX_KEY_LEN: usize = 249;

/// A GTK encapsulation: identifier, length of everything after the length
/// byte, the OUI and data type, one flags byte and one reserved byte, then
/// the key itself.
pub open spec fn gtk_kde_model(gtk: Seq<u8>) -> Seq<u8> {
    seq![
        KDE_TYPE,
        (gtk.len() + 6) as u8,
        KDE_OUI_0,
        KDE_OUI_1,
        KDE_OUI_2,
        KDE_GTK_DATA_TYPE,
        0u8,
        0u8,
    ] + gtk
}

/// The key carried by the first GTK encapsulation in the key data, if the
/// data holds one; elements of other types or data types are skipped by
/// their declared length.
pub open spec fn spec_extract_gtk(kd: Seq<u8>) -> Option<Seq<u8>>
    decreases kd.len(),
{
    if kd.len() < 2 {
        None
    } else {
        let l = kd[1] as int;
        if 2 + l > kd.len() {
            None
        } else if kd[0] == KDE_TYPE && l >= 6 && kd[2] == KDE_OUI_0 && kd[3] == KDE_OUI_1 && kd[4]
            == KDE_OUI_2 && kd[5] == KDE_GTK_DATA_TYPE {
            Some(kd.subrange(GTK_KDE_HEADER_LEN as int, 2 + l))
        } else {
            spec_extract_gtk(kd.skip(2 + l))
        }
    }
}

/// Encodes a GTK encapsulation around the key.
pub fn gtk_kde(gtk: &[u8]) -> (r: Vec<u8>)
    requires
        gtk@.len() <= GTK_KDE_MAX_KEY_LEN,
    ensures
        r@ == gtk_kde_model(gtk@),
{
    let mut r: Vec<u8> = Vec::new();
    r.push(KDE_TYPE);
    r.push((gtk.len() + 6) as u8);
    r.push(KDE_OUI_0);
    r.push(KDE_OUI_1);
    r.push(KDE_OUI_2);
    r.push(KDE_GTK_DATA_TYPE);
    r.push(0u8);
    r.push(0u8);
    crate::crypto::append_bytes(&mut r, gtk);
    proof {
        assert(r@ =~= gtk_kde_model(gtk@));
    }
    r
}

/// Extracts the key of the first GTK encapsulation in the key data.
pub fn extract_gtk(kd: &[u8]) -> (r: Option<Vec<u8>>)
    ensures
        match r {
            Some(v) => spec_extract_gtk(kd@) == Some(v@),
            None => spec_extract_gtk(kd@) is None,
        },
    decreases kd@.len(),
{
    if kd.len() < 2 {
        None
    } else {
        let l = kd[1] as usize;
        if l > kd.len() - 2 {
            None
        } else if kd[0] == KDE_TYPE && l >= 6 && kd[2] == KDE_OUI_0 && kd[3] == KDE_OUI_1 && kd[4]
            == KDE_OUI_2 && kd[5] == KDE_GTK_DATA_TYPE {
            Some(crate::crypto::copy_bytes(&kd[GTK_KDE_HEADER_LEN..2 + l]))
        } else {
            extract_gtk(&kd[2 + l..kd.len()])
        }
    }
}

/// Decoding inverts encoding: a key data that is exactly one GTK
/// encapsulation yields the encapsulated key back.
pub proof fn lemma_gtk_kde_round_trip(gtk: Seq<u8>)
    requires
        gtk.len() <= GTK_KDE_MAX_KEY_LEN,
    ensures
        spec_extract_gtk(gtk_kde_model(gtk)) == Some(gtk),
{
    let kd = gtk_kde_model(gtk);
    assert(kd[1] == (gtk.len() + 6) as u8);
    assert(kd.subrange(GTK_KDE_HEADER_LEN as int, gtk.len() as int + 8) =~= gtk);
}

} // verus!
