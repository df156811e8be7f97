use vstd::prelude::*;
use vstd::relations::*;
use vstd::string::*;

verus! {

/// Lexicographic order on character sequences, by code point.
pub open spec fn str_le(a: Seq<char>, b: Seq<char>) -> bool
    decreases a.len(),
{
    if a.len() == 0 {
        true
    } else if b.len() == 0 {
        false
    } else if a[0] != b[0] {
        (a[0] as int) < (b[0] as int)
    } else {
        str_le(a.drop_first(), b.drop_first())
    }
}

pub open spec fn str_leq() -> spec_fn(Seq<char>, Seq<char>) -> bool {
    |a: Seq<char>, b: Seq<char>| str_le(a, b)
}

proof fn lemma_str_le_reflexive(a: Seq<char>)
    ensures
        str_le(a, a),
    decreases a.len(),
{
    if a.len() > 0 {
        lemma_str_le_reflexive(a.drop_first());
    }
}

proof fn lemma_str_le_antisymmetric(a: Seq<char>, b: Seq<char>)
    requires
        str_le(a, b),
        str_le(b, a),
    ensures
        a == b,
    decreases a.len(),
{
    if a.len() > 0 && b.len() > 0 {
        if a[0] == b[0] {
            lemma_str_le_antisymmetric(a.drop_first(), b.drop_first());
            assert(a =~= seq![a[0]] + a.drop_first());
            assert(b =~= seq![b[0]] + b.drop_first());
        } else {
            assert((a[0] as int) != (b[0] as int));
        }
    }
}

proof fn lemma_str_le_transitive(a: Seq<char>, b: Seq<char>, c: Seq<char>)
    requires
        str_le(a, b),
        str_le(b, c),
    ensures
        str_le(a, c),
    decreases a.len(),
{
    if a.len() > 0 && b.len() > 0 && c.len() > 0 {
        if a[0] == b[0] && b[0] == c[0] {
            lemma_str_le_transitive(a.drop_first(), b.drop_first(), c.drop_first());
        }
    }
}

proof fn lemma_str_le_connected(a: Seq<char>, b: Seq<char>)
    ensures
        str_le(a, b) || str_le(b, a),
    decreases a.len(),
{
    if a.len() > 0 && b.len() > 0 {
        if a[0] == b[0] {
            lemma_str_le_connected(a.drop_first(), b.drop_first());
        } else {
            assert((a[0] as int) != (b[0] as int));
        }
    }
}

/// The lexicographic order is a total order.
pub proof fn lemma_str_le_total()
    ensures
        total_ordering(str_leq()),
{
    assert forall|a: Seq<char>| #[trigger] str_leq()(a, a) by {
        lemma_str_le_reflexive(a);
    }
    assert forall|a: Seq<char>, b: Seq<char>|
        #[trigger] str_leq()(a, b) && #[trigger] str_leq()(b, a) implies a == b by {
        lemma_str_le_antisymmetric(a, b);
    }
    assert forall|a: Seq<char>, b: Seq<char>, c: Seq<char>|
        #[trigger] str_leq()(a, b) && #[trigger] str_leq()(b, c) implies str_leq()(a, c) by {
        lemma_str_le_transitive(a, b, c);
    }
    assert forall|a: Seq<char>, b: Seq<char>| #[trigger]
        str_leq()(a, b) || #[trigger] str_leq()(b, a) by {
        lemma_str_le_connected(a, b);
    }
}

/// Compares two strings lexicographically by code point.
pub fn str_le_exec(a: &str, b: &str) -> (r: bool)
    ensures
        r == str_le(a@, b@),
{
    let la = a.unicode_len();
    let lb = b.unicode_len();
    let mut i: usize = 0;
    assert(a@.skip(0) =~= a@);
    assert(b@.skip(0) =~= b@);
    while i < la && i < lb
        invariant
            la == a@.len(),
            lb == b@.len(),
            i <= la,
            i <= lb,
            str_le(a@, b@) == str_le(a@.skip(i as int), b@.skip(i as int)),
        decreases la - i,
    {
        let ca = a.get_char(i);
        let cb = b.get_char(i);
        assert(a@.skip(i as int).drop_first() =~= a@.skip(i + 1));
        assert(b@.skip(i as int).drop_first() =~= b@.skip(i + 1));
        if ca != cb {
            return (ca as u32) < (cb as u32);
        }
        i = i + 1;
    }
    i == la
}

/// Sorts strings in lexicographic order.
pub fn sort_strings(v: &Vec<String>) -> (r: Vec<String>)
    ensures
        r@.map_values(|s: String| s@) == v@.map_values(|s: String| s@).sort_by(str_leq()),
{
    let ghost input = v@.map_values(|s: String| s@);
    let mut out: Vec<String> = Vec::new();
    let ghost mut g: Seq<Seq<char>> = Seq::empty();
    proof {
        lemma_str_le_total();
    }
    let mut k: usize = 0;
    assert(input.subrange(0, 0) =~= Seq::<Seq<char>>::empty());
    while k < v.len()
        invariant
            k <= v.len(),
            input == v@.map_values(|s: String| s@),
            g == out@.map_values(|s: String| s@),
            sorted_by(g, str_leq()),
            g.to_multiset() == input.subrange(0, k as int).to_multiset(),
            total_ordering(str_leq()),
        decreases v.len() - k,
    {
        let x = v[k].clone();
        let mut pos: usize = 0;
        while pos < out.len() && str_le_exec(out[pos].as_str(), x.as_str())
            invariant
                pos <= out.len(),
                g == out@.map_values(|s: String| s@),
                forall|j: int| 0 <= j < pos ==> str_le(#[trigger] g[j], x@),
            decreases out.len() - pos,
        {
            pos = pos + 1;
        }
        proof {
            assert forall|j: int| pos <= j < g.len() implies str_le(x@, #[trigger] g[j]) by {
                assert(str_leq()(g[pos as int], g[j]));
                assert(!str_le(g[pos as int], x@));
                lemma_str_le_connected(g[pos as int], x@);
                lemma_str_le_transitive(x@, g[pos as int], g[j]);
            }
        }
        let ghost old_g = g;
        out.insert(pos, x);
        proof {
            g = old_g.insert(pos as int, x@);
            assert(g =~= out@.map_values(|s: String| s@));
            assert(input.subrange(0, k + 1) =~= input.subrange(0, k as int).push(input[k as int]));
            vstd::seq_lib::to_multiset_build(input.subrange(0, k as int), input[k as int]);
            vstd::seq_lib::to_multiset_insert(old_g, pos as int, x@);
            assert forall|i: int, j: int| 0 <= i < j < g.len() implies #[trigger] str_leq()(
                g[i],
                g[j],
            ) by {
                if j < pos {
                } else if j == pos {
                } else if i < pos {
                    lemma_str_le_transitive(g[i], x@, g[j]);
                } else if i == pos {
                } else {
                    assert(g[i] == old_g[i - 1] && g[j] == old_g[j - 1]);
                }
            }
        }
        k = k + 1;
    }
    proof {
        assert(input.subrange(0, v.len() as int) =~= input);
        input.lemma_sort_by_ensures(str_leq());
        vstd::seq_lib::lemma_sorted_unique(g, input.sort_by(str_leq()), str_leq());
    }
    out
}

} // verus!
