//! Rewriting the two Central European zone names that `date` prints into the
//! numeric offsets that the calendar format reads.
//!
//! This is plain text substitution, not a time-zone lookup: any occurrence of
//! the letters is rewritten, also where they mean something else.

use vstd::prelude::*;

verus! {

/// `s` with every match of `pat` replaced by `rep`, scanning left to right and
/// resuming after each match, so that matches never overlap.
pub open spec fn replace_all(s: Seq<char>, pat: Seq<char>, rep: Seq<char>) -> Seq<char>
    decreases s.len(),
{
    if s.len() == 0 {
        s
    } else if 0 < pat.len() <= s.len() && s.subrange(0, pat.len() as int) == pat {
        rep + replace_all(s.subrange(pat.len() as int, s.len() as int), pat, rep)
    } else {
        seq![s[0]] + replace_all(s.drop_first(), pat, rep)
    }
}

/// The text after `CET` becomes `+0100` and then `CEST` becomes `+0200`.
pub open spec fn with_numeric_offsets(s: Seq<char>) -> Seq<char> {
    replace_all(replace_all(s, "CET"@, "+0100"@), "CEST"@, "+0200"@)
}

/// `s` holds no `C`, the letter that both zone names start with.
pub open spec fn free_of_c(s: Seq<char>) -> bool {
    forall|i: int| 0 <= i < s.len() ==> s[i] != 'C'
}

/// Text without the first letter of the pattern passes through unchanged.
proof fn lemma_replace_skips(a: Seq<char>, x: Seq<char>, pat: Seq<char>, rep: Seq<char>)
    requires
        pat.len() > 0,
        pat[0] == 'C',
        free_of_c(a),
    ensures
        replace_all(a + x, pat, rep) == a + replace_all(x, pat, rep),
    decreases a.len(),
{
    let s = a + x;
    if a.len() == 0 {
        assert(s =~= x);
    } else {
        assert(s[0] == a[0]);
        if pat.len() <= s.len() {
            assert(s.subrange(0, pat.len() as int)[0] != pat[0]);
        }
        lemma_replace_skips(a.drop_first(), x, pat, rep);
        assert(s.drop_first() =~= a.drop_first() + x);
        assert(seq![a[0]] + (a.drop_first() + replace_all(x, pat, rep)) =~= a + replace_all(
            x,
            pat,
            rep,
        ));
    }
}

proof fn lemma_replace_none(a: Seq<char>, pat: Seq<char>, rep: Seq<char>)
    requires
        pat.len() > 0,
        pat[0] == 'C',
        free_of_c(a),
    ensures
        replace_all(a, pat, rep) == a,
{
    lemma_replace_skips(a, Seq::empty(), pat, rep);
    assert(a + Seq::<char>::empty() =~= a);
    assert(replace_all(Seq::<char>::empty(), pat, rep) == Seq::<char>::empty());
}

proof fn lemma_replace_match(pat: Seq<char>, b: Seq<char>, rep: Seq<char>)
    requires
        pat.len() > 0,
    ensures
        replace_all(pat + b, pat, rep) == rep + replace_all(b, pat, rep),
{
    let s = pat + b;
    assert(s.subrange(0, pat.len() as int) =~= pat);
    assert(s.subrange(pat.len() as int, s.len() as int) =~= b);
}

/// Between text free of `C`, the name `CEST` is rewritten to `+0200`, and
/// `+0200` itself is left alone.
pub proof fn lemma_cest_offset(a: Seq<char>, b: Seq<char>)
    requires
        free_of_c(a),
        free_of_c(b),
    ensures
        with_numeric_offsets(a + "CEST"@ + b) == a + "+0200"@ + b,
        with_numeric_offsets(a + "+0200"@ + b) == a + "+0200"@ + b,
{
    reveal_strlit("CET");
    reveal_strlit("CEST");
    reveal_strlit("+0100");
    reveal_strlit("+0200");
    let cet = "CET"@;
    let cest = "CEST"@;
    let plus2 = "+0200"@;
    // The winter pass leaves `CEST` alone: it differs from `CET` in its third letter.
    let rest = cest.drop_first() + b;
    assert(free_of_c(rest)) by {
        assert forall|i: int| 0 <= i < rest.len() implies rest[i] != 'C' by {
            if i >= 3 {
                assert(rest[i] == b[i - 3]);
            }
        }
    }
    lemma_replace_none(rest, cet, "+0100"@);
    let t = cest + b;
    assert(t.subrange(0, 3)[2] != cet[2]);
    assert(t.drop_first() =~= rest);
    assert(seq!['C'] + rest =~= t);
    lemma_replace_skips(a, t, cet, "+0100"@);
    assert(a + "CEST"@ + b =~= a + t);
    // The summer pass rewrites it.
    lemma_replace_skips(a, t, cest, plus2);
    lemma_replace_match(cest, b, plus2);
    lemma_replace_none(b, cest, plus2);
    assert(a + (plus2 + b) =~= a + plus2 + b);
    // Text free of `C` goes through both passes unchanged.
    let u = a + plus2 + b;
    assert(free_of_c(u)) by {
        assert forall|i: int| 0 <= i < u.len() implies u[i] != 'C' by {
            if i < a.len() {
            } else if i < a.len() + 5 {
                assert(u[i] == plus2[i - a.len()]);
            } else {
                assert(u[i] == b[i - a.len() - 5]);
            }
        }
    }
    lemma_replace_none(u, cet, "+0100"@);
    lemma_replace_none(u, cest, plus2);
}

/// Between text free of `C`, the name `CET` is rewritten to `+0100`, and
/// `+0100` itself is left alone.
pub proof fn lemma_cet_offset(a: Seq<char>, b: Seq<char>)
    requires
        free_of_c(a),
        free_of_c(b),
    ensures
        with_numeric_offsets(a + "CET"@ + b) == a + "+0100"@ + b,
        with_numeric_offsets(a + "+0100"@ + b) == a + "+0100"@ + b,
{
    reveal_strlit("CET");
    reveal_strlit("CEST");
    reveal_strlit("+0100");
    let cet = "CET"@;
    let plus1 = "+0100"@;
    lemma_replace_skips(a, cet + b, cet, plus1);
    lemma_replace_match(cet, b, plus1);
    lemma_replace_none(b, cet, plus1);
    assert(a + "CET"@ + b =~= a + (cet + b));
    assert(a + (plus1 + b) =~= a + plus1 + b);
    let u = a + plus1 + b;
    assert(free_of_c(u)) by {
        assert forall|i: int| 0 <= i < u.len() implies u[i] != 'C' by {
            if i < a.len() {
            } else if i < a.len() + 5 {
                assert(u[i] == plus1[i - a.len()]);
            } else {
                assert(u[i] == b[i - a.len() - 5]);
            }
        }
    }
    lemma_replace_none(u, cet, plus1);
    lemma_replace_none(u, "CEST"@, "+0200"@);
}

/// Relies on `str::replace`: every non-overlapping match of `from`, found from
/// left to right, is replaced by `to`.
#[verifier::external_body]
fn replace_str(s: &str, from: &str, to: &str) -> (r: String)
    requires
        from@.len() > 0,
    ensures
        r@ == replace_all(s@, from@, to@),
{
    s.replace(from, to)
}

/// Rewrites `CET` to `+0100` and `CEST` to `+0200`, everywhere in `input`.
pub fn tz_name_to_offset(input: &str) -> (r: String)
    ensures
        r@ == with_numeric_offsets(input@),
{
    proof {
        reveal_strlit("CET");
        reveal_strlit("CEST");
    }
    let winter = replace_str(input, "CET", "+0100");
    replace_str(winter.as_str(), "CEST", "+0200")
}

} // verus!
