//! The player identifier an offline-mode server expects: the name-based
//! (MD5, version 3) UUID of the bytes of "OfflinePlayer:" followed by the
//! player's name.

use md5::Digest;
use vstd::prelude::*;
use vstd::utf8::{encode_utf8, is_ascii_chars, is_ascii_chars_encode_utf8};

verus! {

/// The 16-byte MD5 digest of `data`, as the `md-5` crate computes it.
pub uninterp spec fn md5_digest(data: Seq<u8>) -> Seq<u8>;

/// A name-based version-3 UUID made from an MD5 digest: the version nibble
/// (high half of byte 6) set to 3, the variant bits (top two of byte 8) set
/// to `10`, every other byte as in the digest.
pub open spec fn md5_name_uuid(digest: Seq<u8>) -> Seq<u8> {
    digest.update(6, (digest[6] & 0x0f) | 0x30).update(8, (digest[8] & 0x3f) | 0x80)
}

/// The bytes an offline player identifier is derived from: the UTF-8 bytes
/// of "OfflinePlayer:" followed by those of the name.
pub open spec fn offline_seed(name: Seq<char>) -> Seq<u8> {
    encode_utf8("OfflinePlayer:"@) + encode_utf8(name)
}

/// The offline-mode player identifier of a name, as 16 bytes, most
/// significant first.
pub open spec fn offline_player_uuid(name: Seq<char>) -> Seq<u8> {
    md5_name_uuid(md5_digest(offline_seed(name)))
}

/// Calls `md5::Md5::digest` (crate `md-5`) on `data` and copies the 16-byte
/// output into an array. The contract names the digest and claims nothing
/// about its value beyond being a function of `data`.
#[verifier::external_body]
fn md5(data: &[u8]) -> (digest: [u8; 16])
    ensures
        digest@ == md5_digest(data@),
{
    let out = md5::Md5::digest(data);
    let mut digest = [0u8; 16];
    digest.copy_from_slice(&out);
    digest
}

/// The name-based version-3 UUID of a digest: the version nibble set to 3
/// and the variant bits to RFC 4122's `10`.
fn uuid_from_md5(hash: [u8; 16]) -> (id: [u8; 16])
    ensures
        id@ == md5_name_uuid(hash@),
{
    let mut id = hash;
    id[6] = (hash[6] & 0x0f) | 0x30;
    id[8] = (hash[8] & 0x3f) | 0x80;
    assert(id@ =~= md5_name_uuid(hash@));
    id
}

/// The offline-mode player identifier of `name`; a name always gives the
/// same identifier, and it is a version-3 RFC 4122 UUID.
pub fn offline_uuid(name: &str) -> (id: [u8; 16])
    ensures
        id@ == offline_player_uuid(name@),
        id@[6] >> 4u8 == 3,
        id@[8] >> 6u8 == 2,
{
    let prefix = "OfflinePlayer:";
    let prefix_bytes = prefix.as_bytes();
    let name_bytes = name.as_bytes();
    let mut seed: Vec<u8> = Vec::new();
    let mut i: usize = 0;
    while i < prefix_bytes.len()
        invariant
            i <= prefix_bytes@.len(),
            seed@ == prefix_bytes@.subrange(0, i as int),
        decreases prefix_bytes@.len() - i,
    {
        seed.push(prefix_bytes[i]);
        assert(prefix_bytes@.subrange(0, i + 1) == prefix_bytes@.subrange(0, i as int).push(
            prefix_bytes@[i as int],
        ));
        i = i + 1;
    }
    assert(prefix_bytes@.subrange(0, prefix_bytes@.len() as int) == prefix_bytes@);
    let mut j: usize = 0;
    while j < name_bytes.len()
        invariant
            j <= name_bytes@.len(),
            seed@ == prefix_bytes@ + name_bytes@.subrange(0, j as int),
        decreases name_bytes@.len() - j,
    {
        seed.push(name_bytes[j]);
        assert(name_bytes@.subrange(0, j + 1) == name_bytes@.subrange(0, j as int).push(
            name_bytes@[j as int],
        ));
        j = j + 1;
    }
    assert(name_bytes@.subrange(0, name_bytes@.len() as int) == name_bytes@);
    assert(seed@ == offline_seed(name@));
    let digest = md5(seed.as_slice());
    let id = uuid_from_md5(digest);
    let d6 = digest[6];
    let d8 = digest[8];
    assert(((d6 & 0x0f) | 0x30) >> 4u8 == 3 && ((d8 & 0x3f) | 0x80) >> 6u8 == 2) by (bit_vector);
    id
}

/// Equal names give equal offline identifiers, and every offline identifier
/// is a version-3 RFC 4122 UUID.
pub proof fn lemma_offline_uuid_is_name_based(name1: Seq<char>, name2: Seq<char>)
    requires
        md5_digest(offline_seed(name1)).len() == 16,
    ensures
        name1 == name2 ==> offline_player_uuid(name1) == offline_player_uuid(name2),
        offline_player_uuid(name1).len() == 16,
        offline_player_uuid(name1)[6] >> 4u8 == 3,
        offline_player_uuid(name1)[8] >> 6u8 == 2,
{
    let d = md5_digest(offline_seed(name1));
    let d6 = d[6];
    let d8 = d[8];
    assert(((d6 & 0x0f) | 0x30) >> 4u8 == 3 && ((d8 & 0x3f) | 0x80) >> 6u8 == 2) by (bit_vector);
}

/// The offline identifier is the MD5 digest of the seed with only the
/// version and variant marked: every byte but 6 and 8 is the digest's byte,
/// byte 6 keeps the digest's low nibble under a version nibble of 3, and
/// byte 8 keeps the digest's low six bits under the variant bits `10`.
pub proof fn lemma_offline_uuid_marks_only_version_and_variant(name: Seq<char>)
    requires
        md5_digest(offline_seed(name)).len() == 16,
    ensures
        ({
            let d = md5_digest(offline_seed(name));
            let u = offline_player_uuid(name);
            &&& u.len() == 16
            &&& forall|i: int| 0 <= i < 16 && i != 6 && i != 8 ==> #[trigger] u[i] == d[i]
            &&& u[6] >> 4u8 == 3 && u[6] & 0x0f == d[6] & 0x0f
            &&& u[8] >> 6u8 == 2 && u[8] & 0x3f == d[8] & 0x3f
        }),
{
    let d = md5_digest(offline_seed(name));
    let d6 = d[6];
    let d8 = d[8];
    assert(((d6 & 0x0f) | 0x30) >> 4u8 == 3 && ((d6 & 0x0f) | 0x30) & 0x0f == d6 & 0x0f
        && ((d8 & 0x3f) | 0x80) >> 6u8 == 2 && ((d8 & 0x3f) | 0x80) & 0x3f == d8 & 0x3f) by (bit_vector);
}

/// The seed of an offline identifier is the 14 ASCII bytes of
/// "OfflinePlayer:" followed by the UTF-8 bytes of the name.
pub proof fn lemma_offline_seed_bytes(name: Seq<char>)
    ensures
        offline_seed(name) == seq![
            0x4fu8, 0x66u8, 0x66u8, 0x6cu8, 0x69u8, 0x6eu8, 0x65u8, 0x50u8, 0x6cu8, 0x61u8, 0x79u8,
            0x65u8, 0x72u8, 0x3au8,
        ] + encode_utf8(name),
{
    reveal_strlit("OfflinePlayer:");
    let p = "OfflinePlayer:"@;
    assert(is_ascii_chars(p));
    is_ascii_chars_encode_utf8(p);
    assert(encode_utf8(p) =~= seq![
        0x4fu8, 0x66u8, 0x66u8, 0x6cu8, 0x69u8, 0x6eu8, 0x65u8, 0x50u8, 0x6cu8, 0x61u8, 0x79u8,
        0x65u8, 0x72u8, 0x3au8,
    ]);
}

} // verus!
