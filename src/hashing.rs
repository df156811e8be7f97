use vstd::prelude::*;
use vstd::multiset::*;
use vstd::seq_lib::*;
use vstd::string::*;
use vstd::utf8::*;
use sha2::Digest;

use crate::order::{sort_strings, str_leq};
use crate::scan::ScanResult;

verus! {

/// The SHA-256 digest of a byte string.
pub uninterp spec fn sha256_of(data: Seq<u8>) -> Seq<u8>;

/// Relies on sha2::Sha256::digest: a 32-byte digest that depends on the input bytes alone.
#[verifier::external_body]
fn sha256(data: &[u8]) -> (r: Vec<u8>)
    ensures
        r@ == sha256_of(data@),
        r@.len() == 32,
{
    sha2::Sha256::digest(data).to_vec()
}

/// Lower-case hexadecimal digit of a value below 16.
pub open spec fn hex_digit(n: u8) -> char {
    seq!['0', '1', '2', '3', '4', '5', '6', '7', '8', '9', 'a', 'b', 'c', 'd', 'e', 'f'][n as int]
}

/// Lower-case hexadecimal text of a byte string, two digits per byte.
pub open spec fn hex_of(b: Seq<u8>) -> Seq<char>
    decreases b.len(),
{
    if b.len() == 0 {
        Seq::empty()
    } else {
        hex_of(b.drop_last()) + seq![hex_digit(b.last() / 16), hex_digit(b.last() % 16)]
    }
}

/// Relies on hex::encode: each byte becomes two lower-case hex digits, high nibble first.
#[verifier::external_body]
fn hex_encode(b: &[u8]) -> (r: String)
    ensures
        r@ == hex_of(b@),
{
    hex::encode(b)
}

proof fn lemma_hex_len(b: Seq<u8>)
    ensures
        hex_of(b).len() == 2 * b.len(),
    decreases b.len(),
{
    if b.len() > 0 {
        lemma_hex_len(b.drop_last());
    }
}

/// The hash strings, each followed by the separator byte `|`, as one byte string.
pub open spec fn joined_bytes(hs: Seq<Seq<char>>) -> Seq<u8>
    decreases hs.len(),
{
    if hs.len() == 0 {
        Seq::empty()
    } else {
        joined_bytes(hs.drop_last()) + encode_utf8(hs.last()) + seq![124u8]
    }
}

/// One hash standing for a list of hashes, whatever their order.
pub open spec fn combined_hash(hs: Seq<Seq<char>>) -> Seq<char> {
    "sha256:"@ + hex_of(sha256_of(joined_bytes(hs.sort_by(str_leq()))))
}

pub open spec fn content_hashes(rs: Seq<ScanResult>) -> Seq<Seq<char>> {
    rs.map_values(|r: ScanResult| r.content_hash@)
}

pub open spec fn evidence_hashes(rs: Seq<ScanResult>) -> Seq<Seq<char>> {
    rs.map_values(|r: ScanResult| r.evidence_hash@)
}

/// The (content, evidence) hash pair of a non-empty list of scan results.
pub open spec fn combine_spec(rs: Seq<ScanResult>) -> (Seq<char>, Seq<char>) {
    if rs.len() == 1 {
        (rs[0].content_hash@, rs[0].evidence_hash@)
    } else {
        (combined_hash(content_hashes(rs)), combined_hash(evidence_hashes(rs)))
    }
}

/// Errors of output generation.
#[derive(Debug)]
pub enum OutputError {
    Build(String),
    Serialization(String),
}

/// Appends the bytes of a string to a buffer.
fn push_str_bytes(buf: &mut Vec<u8>, s: &str)
    ensures
        final(buf)@ == old(buf)@ + encode_utf8(s@),
{
    let b = s.as_bytes();
    let ghost start = buf@;
    let mut j: usize = 0;
    while j < b.len()
        invariant
            j <= b@.len(),
            b@ == encode_utf8(s@),
            buf@ == start + b@.subrange(0, j as int),
        decreases b.len() - j,
    {
        buf.push(b[j]);
        j = j + 1;
        assert(buf@ =~= start + b@.subrange(0, j as int));
    }
    assert(b@.subrange(0, b@.len() as int) =~= b@);
}

/// Combines several hashes into one: sorted, joined with `|`, digested, and prefixed
/// with `sha256:`.
pub fn combine_hashes_sorted(hashes: &Vec<String>) -> (r: String)
    ensures
        r@ == combined_hash(hashes@.map_values(|s: String| s@)),
        r@.len() == 71,
{
    let sorted = sort_strings(hashes);
    let ghost sv = sorted@.map_values(|s: String| s@);
    let mut combined: Vec<u8> = Vec::new();
    let mut i: usize = 0;
    assert(sv.subrange(0, 0) =~= Seq::<Seq<char>>::empty());
    while i < sorted.len()
        invariant
            i <= sorted.len(),
            sv == sorted@.map_values(|s: String| s@),
            combined@ == joined_bytes(sv.subrange(0, i as int)),
        decreases sorted.len() - i,
    {
        push_str_bytes(&mut combined, sorted[i].as_str());
        combined.push(124u8);
        assert(sv.subrange(0, i + 1).drop_last() =~= sv.subrange(0, i as int));
        i = i + 1;
    }
    assert(sv.subrange(0, sorted.len() as int) =~= sv);
    let digest = sha256(combined.as_slice());
    let hex = hex_encode(digest.as_slice());
    proof {
        lemma_hex_len(digest@);
        reveal_strlit("sha256:");
    }
    let mut out = String::from_str("sha256:");
    out.append(hex.as_str());
    out
}

/// The combined (content, evidence) hashes of a scan run. A single result keeps its own
/// hashes; several are combined independently of their order. No result is an error.
pub fn combine_scan_hashes(results: &Vec<ScanResult>) -> (r: Result<(String, String), OutputError>)
    ensures
        r is Err <==> results.len() == 0,
        r is Err ==> r->Err_0 is Build,
        r matches Ok(p) ==> (p.0@, p.1@) == combine_spec(results@),
        results.len() > 1 ==> (r matches Ok(p) && p.0@.len() == 71 && p.1@.len() == 71),
{
    if results.len() == 0 {
        return Err(OutputError::Build(String::from_str("At least one scan result is required")));
    }
    if results.len() == 1 {
        return Ok((results[0].content_hash.clone(), results[0].evidence_hash.clone()));
    }
    let mut contents: Vec<String> = Vec::new();
    let mut evidences: Vec<String> = Vec::new();
    let mut i: usize = 0;
    while i < results.len()
        invariant
            i <= results.len(),
            contents.len() == i,
            evidences.len() == i,
            forall|j: int| 0 <= j < i ==> (#[trigger] contents@[j])@ == results@[j].content_hash@,
            forall|j: int| 0 <= j < i ==> (#[trigger] evidences@[j])@ == results@[j].evidence_hash@,
        decreases results.len() - i,
    {
        contents.push(results[i].content_hash.clone());
        evidences.push(results[i].evidence_hash.clone());
        i = i + 1;
    }
    assert(contents@.map_values(|s: String| s@) =~= content_hashes(results@));
    assert(evidences@.map_values(|s: String| s@) =~= evidence_hashes(results@));
    let c = combine_hashes_sorted(&contents);
    let e = combine_hashes_sorted(&evidences);
    Ok((c, e))
}

/// The bytes that a signature covers: SHA-256 of the content hash followed by the
/// evidence hash.
pub open spec fn signed_data_spec(content_hash: Seq<char>, evidence_hash: Seq<char>) -> Seq<u8> {
    sha256_of(signed_payload(content_hash, evidence_hash))
}

/// The content hash's bytes followed by the evidence hash's bytes.
pub open spec fn signed_payload(content_hash: Seq<char>, evidence_hash: Seq<char>) -> Seq<u8> {
    encode_utf8(content_hash) + encode_utf8(evidence_hash)
}

/// Computes `SHA256(content_hash || evidence_hash)`.
pub fn compute_signed_data(content_hash: &str, evidence_hash: &str) -> (r: Vec<u8>)
    ensures
        r@ == signed_data_spec(content_hash@, evidence_hash@),
        r@.len() == 32,
{
    let mut buf: Vec<u8> = Vec::new();
    push_str_bytes(&mut buf, content_hash);
    push_str_bytes(&mut buf, evidence_hash);
    assert(buf@ =~= encode_utf8(content_hash@) + encode_utf8(evidence_hash@));
    sha256(buf.as_slice())
}

/// Hex text of the first eight bytes of the SHA-256 digest of a public key.
pub open spec fn key_fingerprint_spec(public_key: Seq<u8>) -> Seq<char> {
    hex_of(sha256_of(public_key).subrange(0, 8))
}

/// The 16-hex-digit fingerprint of a public key.
pub fn compute_key_fingerprint(public_key_bytes: &[u8]) -> (r: String)
    ensures
        r@ == key_fingerprint_spec(public_key_bytes@),
{
    let digest = sha256(public_key_bytes);
    let mut head: Vec<u8> = Vec::new();
    let mut i: usize = 0;
    while i < 8
        invariant
            i <= 8,
            digest@.len() == 32,
            head@ == digest@.subrange(0, i as int),
        decreases 8 - i,
    {
        head.push(digest[i]);
        i = i + 1;
        assert(head@ =~= digest@.subrange(0, i as int));
    }
    hex_encode(head.as_slice())
}

/// Two results lists with the same elements give hash lists with the same elements.
proof fn lemma_map_same_multiset(a: Seq<ScanResult>, b: Seq<ScanResult>, f: spec_fn(ScanResult) -> Seq<char>)
    requires
        a.to_multiset() == b.to_multiset(),
    ensures
        a.map_values(f).to_multiset() == b.map_values(f).to_multiset(),
    decreases a.len(),
{
    broadcast use group_to_multiset_ensures, group_multiset_axioms;

    if a.len() == 0 {
        assert(b.to_multiset().len() == 0);
        assert(b.len() == 0);
        assert(a.map_values(f) =~= b.map_values(f));
    } else {
        let x = a[0];
        assert(a.to_multiset().contains(x));
        assert(b.contains(x));
        let i = choose|i: int| 0 <= i < b.len() && b[i] == x;
        let a1 = a.remove(0);
        let b1 = b.remove(i);
        to_multiset_remove(a, 0);
        to_multiset_remove(b, i);
        lemma_map_same_multiset(a1, b1, f);
        let fa = a.map_values(f);
        let fb = b.map_values(f);
        assert(fa.remove(0) =~= a1.map_values(f));
        assert(fb.remove(i) =~= b1.map_values(f));
        to_multiset_remove(fa, 0);
        to_multiset_remove(fb, i);
        assert(fa.to_multiset().contains(f(x)));
        assert(fb.to_multiset().contains(f(x)));
        assert(fa.to_multiset() =~= fb.to_multiset()) by {
            assert forall|v: Seq<char>| fa.to_multiset().count(v) == fb.to_multiset().count(v) by {
                if v == f(x) {
                    assert(fa.to_multiset().remove(v).count(v) == fb.to_multiset().remove(v).count(v));
                } else {
                    assert(fa.to_multiset().remove(f(x)).count(v) == fb.to_multiset().remove(f(x)).count(v));
                }
            }
        }
    }
}

/// Hash determinism: two lists of scan results that hold the same results, in any
/// order, combine to the same (content, evidence) hash pair.
pub proof fn lemma_combine_order_independent(a: Seq<ScanResult>, b: Seq<ScanResult>)
    requires
        a.len() > 0,
        a.to_multiset() == b.to_multiset(),
    ensures
        combine_spec(a) == combine_spec(b),
{
    broadcast use group_to_multiset_ensures;

    crate::order::lemma_str_le_total();
    lemma_map_same_multiset(a, b, |r: ScanResult| r.content_hash@);
    lemma_map_same_multiset(a, b, |r: ScanResult| r.evidence_hash@);
    let ca = content_hashes(a);
    let cb = content_hashes(b);
    let ea = evidence_hashes(a);
    let eb = evidence_hashes(b);
    assert(ca =~= a.map_values(|r: ScanResult| r.content_hash@));
    assert(cb =~= b.map_values(|r: ScanResult| r.content_hash@));
    assert(ea =~= a.map_values(|r: ScanResult| r.evidence_hash@));
    assert(eb =~= b.map_values(|r: ScanResult| r.evidence_hash@));
    ca.lemma_sort_by_ensures(str_leq());
    cb.lemma_sort_by_ensures(str_leq());
    ea.lemma_sort_by_ensures(str_leq());
    eb.lemma_sort_by_ensures(str_leq());
    lemma_sorted_unique(ca.sort_by(str_leq()), cb.sort_by(str_leq()), str_leq());
    lemma_sorted_unique(ea.sort_by(str_leq()), eb.sort_by(str_leq()), str_leq());
    assert(a.to_multiset().len() == a.len());
    assert(b.len() == a.len());
    if a.len() == 1 {
        assert(a.to_multiset().contains(b[0]));
        assert(a.contains(b[0]));
    }
}

/// Hash identity for one result: a single result's hashes pass through unchanged.
pub proof fn lemma_combine_single(r: ScanResult)
    ensures
        combine_spec(seq![r]) == (r.content_hash@, r.evidence_hash@),
{
}

/// Changing either the content hash or the evidence hash, the other kept, changes the
/// payload whose digest is signed.
pub proof fn lemma_signed_payload_covers_both(c1: Seq<char>, e1: Seq<char>, c2: Seq<char>, e2: Seq<char>)
    requires
        (c1 == c2 && e1 != e2) || (c1 != c2 && e1 == e2),
    ensures
        signed_payload(c1, e1) != signed_payload(c2, e2),
{
    broadcast use encode_utf8_decode_utf8;

    let first = signed_payload(c1, e1);
    let second = signed_payload(c2, e2);
    if first == second {
        if c1 == c2 {
            let n = encode_utf8(c1).len() as int;
            assert(first.subrange(n, first.len() as int) =~= encode_utf8(e1));
            assert(second.subrange(n, second.len() as int) =~= encode_utf8(e2));
            assert(decode_utf8(encode_utf8(e1)) == e1);
            assert(decode_utf8(encode_utf8(e2)) == e2);
        } else {
            let m = encode_utf8(e1).len() as int;
            assert(first.subrange(0, first.len() - m) =~= encode_utf8(c1));
            assert(second.subrange(0, second.len() - m) =~= encode_utf8(c2));
            assert(decode_utf8(encode_utf8(c1)) == c1);
            assert(decode_utf8(encode_utf8(c2)) == c2);
        }
    }
}

} // verus!
