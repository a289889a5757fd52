use vstd::prelude::*;

verus! {

/// The SHA-256 digest of a byte sequence.
pub uninterp spec fn sha256_of(data: Seq<u8>) -> Seq<u8>;

/// Relies on `sha2::Sha256::digest` (trait `digest::Digest`): the SHA-256
/// digest of the bytes, whose output type holds 32 bytes.
#[verifier::external_body]
fn sha256(data: &[u8]) -> (r: Vec<u8>)
    ensures
        r@ == sha256_of(data@),
        r@.len() == 32,
{
    <sha2::Sha256 as sha2::Digest>::digest(data).to_vec()
}

/// The fingerprint of the content of a watched file.
pub fn fingerprint(content: &[u8]) -> (r: Vec<u8>)
    ensures
        r@ == sha256_of(content@),
        r@.len() == 32,
{
    sha256(content)
}

/// Whether two fingerprint lists differ: in length, or at some position.
pub fn fingerprints_differ(before: &Vec<Vec<u8>>, after: &Vec<Vec<u8>>) -> (r: bool)
    ensures
        r == (before@.map_values(|d: Vec<u8>| d@) != after@.map_values(|d: Vec<u8>| d@)),
{
    let ghost bv = before@.map_values(|d: Vec<u8>| d@);
    let ghost av = after@.map_values(|d: Vec<u8>| d@);
    if before.len() != after.len() {
        assert(bv.len() != av.len());
        return true;
    }
    let mut i: usize = 0;
    while i < before.len()
        invariant
            before.len() == after.len(),
            0 <= i <= before.len(),
            bv == before@.map_values(|d: Vec<u8>| d@),
            av == after@.map_values(|d: Vec<u8>| d@),
            forall|k: int| 0 <= k < i ==> bv[k] == av[k],
        decreases before.len() - i,
    {
        if !bytes_equal(&before[i], &after[i]) {
            assert(bv[i as int] != av[i as int]);
            return true;
        }
        i = i + 1;
    }
    assert(bv =~= av);
    false
}

/// Byte-for-byte equality of two byte strings.
pub fn bytes_equal(a: &[u8], b: &[u8]) -> (r: bool)
    ensures
        r == (a@ == b@),
{
    if a.len() != b.len() {
        return false;
    }
    let mut i: usize = 0;
    while i < a.len()
        invariant
            a@.len() == b@.len(),
            0 <= i <= a@.len(),
            forall|k: int| 0 <= k < i ==> a@[k] == b@[k],
        decreases a@.len() - i,
    {
        if a[i] != b[i] {
            return false;
        }
        i = i + 1;
    }
    assert(a@ =~= b@);
    true
}

} // verus!
