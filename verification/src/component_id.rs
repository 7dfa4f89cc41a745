use vstd::prelude::*;
use sha2::Digest;

verus! {

/// The sixteen digits of lower-case hexadecimal, in order.
pub open spec fn hex_digits() -> Seq<char> {
    seq!['0', '1', '2', '3', '4', '5', '6', '7', '8', '9', 'a', 'b', 'c', 'd', 'e', 'f']
}

/// Lower-case hex text of `bytes`: two digits per byte, the high nibble first.
pub open spec fn hex_lower(bytes: Seq<u8>) -> Seq<char>
    decreases bytes.len(),
{
    if bytes.len() == 0 {
        Seq::empty()
    } else {
        let b = bytes.last();
        hex_lower(bytes.drop_last()) + seq![hex_digits()[(b / 16) as int], hex_digits()[(b % 16) as int]]
    }
}

/// The text every component id starts with.
pub open spec fn component_id_prefix() -> Seq<char> {
    seq!['c', 'o', 'm', 'p', 'o', 'n', 'e', 'n', 't', '-']
}

/// The registry id of a component whose digest is `hash`.
pub open spec fn component_id_of(hash: Seq<u8>) -> Seq<char> {
    component_id_prefix() + hex_lower(hash)
}

/// What `sha2::Sha256` computes of `data`.
pub uninterp spec fn sha256(data: Seq<u8>) -> Seq<u8>;

/// The registry id of a component with these bytes.
pub open spec fn component_id_of_bytes(bytes: Seq<u8>) -> Seq<char> {
    component_id_of(sha256(bytes))
}

/// `sha2::Sha256::digest`: the SHA-256 digest of `component_bytes`, a function
/// of the bytes alone, given the name `sha256`.
#[verifier::external_body]
pub(crate) fn hash_component(component_bytes: &[u8]) -> (hash: [u8; 32])
    ensures
        hash@ == sha256(component_bytes@),
{
    sha2::Sha256::digest(component_bytes).into()
}

/// `hex::encode`: lower-case hex text, two digits per byte, high nibble first.
#[verifier::external_body]
fn hex_encode(data: &[u8]) -> (text: String)
    ensures
        text@ == hex_lower(data@),
{
    hex::encode(data)
}

pub proof fn lemma_hex_lower_len(bytes: Seq<u8>)
    ensures
        hex_lower(bytes).len() == 2 * bytes.len(),
    decreases bytes.len(),
{
    if bytes.len() > 0 {
        lemma_hex_lower_len(bytes.drop_last());
    }
}

proof fn lemma_hex_digit_injective(a: u8, b: u8)
    requires
        a < 16,
        b < 16,
        hex_digits()[a as int] == hex_digits()[b as int],
    ensures
        a == b,
{
}

/// Hex text determines the bytes it encodes.
pub proof fn lemma_hex_lower_injective(a: Seq<u8>, b: Seq<u8>)
    requires
        hex_lower(a) == hex_lower(b),
    ensures
        a == b,
    decreases a.len(),
{
    lemma_hex_lower_len(a);
    lemma_hex_lower_len(b);
    if a.len() > 0 {
        let ha = hex_lower(a);
        let hb = hex_lower(b);
        let n = ha.len();
        lemma_hex_lower_len(a.drop_last());
        lemma_hex_lower_len(b.drop_last());
        assert(ha[n - 2] == hb[n - 2]);
        assert(ha[n - 1] == hb[n - 1]);
        lemma_hex_digit_injective(a.last() / 16, b.last() / 16);
        lemma_hex_digit_injective(a.last() % 16, b.last() % 16);
        assert(hex_lower(a.drop_last()) =~= ha.subrange(0, n - 2));
        assert(hex_lower(b.drop_last()) =~= hb.subrange(0, n - 2));
        lemma_hex_lower_injective(a.drop_last(), b.drop_last());
        assert(a =~= a.drop_last().push(a.last()));
        assert(b =~= b.drop_last().push(b.last()));
    }
}

/// Distinct digests give distinct component ids.
pub proof fn lemma_component_id_injective(h1: Seq<u8>, h2: Seq<u8>)
    requires
        component_id_of(h1) == component_id_of(h2),
    ensures
        h1 == h2,
{
    let p = component_id_prefix();
    assert(hex_lower(h1) =~= component_id_of(h1).subrange(p.len() as int, component_id_of(h1).len() as int));
    assert(hex_lower(h2) =~= component_id_of(h2).subrange(p.len() as int, component_id_of(h2).len() as int));
    lemma_hex_lower_injective(h1, h2);
}

/// The registry id of a component with digest `hash`: `component-` followed by
/// the digest in lower-case hex.
pub fn component_id_from_hash(hash: &[u8; 32]) -> (id: String)
    ensures
        id@ == component_id_of(hash@),
{
    let hex = hex_encode(hash);
    let mut id = String::from_str("component-");
    proof {
        reveal_strlit("component-");
    }
    assert("component-"@ =~= component_id_prefix());
    id.append(hex.as_str());
    id
}

} // verus!
