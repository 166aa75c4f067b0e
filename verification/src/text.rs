//! Text helpers for the query builders: joining expression lists and
//! rendering signed numbers.

use vstd::prelude::*;

use crate::num::dec_digits;

verus! {

/// Parts joined with a separator between neighbours and nothing at the ends.
pub open spec fn spec_join_sep(parts: Seq<Seq<char>>, sep: Seq<char>) -> Seq<char>
    decreases parts.len(),
{
    if parts.len() == 0 {
        Seq::empty()
    } else if parts.len() == 1 {
        parts[0]
    } else {
        parts[0] + sep + spec_join_sep(parts.drop_first(), sep)
    }
}

/// Appending one part appends the separator and the part, except to an
/// empty list.
proof fn lemma_join_sep_push(parts: Seq<Seq<char>>, sep: Seq<char>, x: Seq<char>)
    ensures
        parts.len() == 0 ==> spec_join_sep(parts.push(x), sep) == x,
        parts.len() > 0 ==> spec_join_sep(parts.push(x), sep) =~= spec_join_sep(parts, sep) + sep
            + x,
    decreases parts.len(),
{
    let p = parts.push(x);
    assert(p.len() == parts.len() + 1);
    if parts.len() == 0 {
        assert(p[0] == x);
    } else if parts.len() == 1 {
        assert(p[0] == parts[0]);
        assert(p.drop_first() =~= seq![x]);
        assert(spec_join_sep(p, sep) == p[0] + sep + spec_join_sep(p.drop_first(), sep));
    } else {
        lemma_join_sep_push(parts.drop_first(), sep, x);
        assert(p.drop_first() =~= parts.drop_first().push(x));
        assert(p[0] == parts[0]);
        assert(spec_join_sep(p, sep) == p[0] + sep + spec_join_sep(p.drop_first(), sep));
        assert(p[0] + (spec_join_sep(parts.drop_first(), sep) + sep + x) =~= (p[0] + spec_join_sep(
            parts.drop_first(),
            sep,
        )) + sep + x);
    }
}

/// Joins the parts with the separator between neighbours.
pub fn join_sep(parts: &Vec<String>, sep: &str) -> (r: String)
    ensures
        r@ == spec_join_sep(parts.deep_view(), sep@),
{
    let mut out = String::new();
    let mut i: usize = 0;
    proof {
        assert(parts.deep_view().subrange(0, 0) =~= Seq::<Seq<char>>::empty());
    }
    while i < parts.len()
        invariant
            0 <= i <= parts@.len(),
            parts.deep_view().len() == parts@.len(),
            out@ == spec_join_sep(parts.deep_view().subrange(0, i as int), sep@),
        decreases parts@.len() - i,
    {
        if i > 0 {
            out.append(sep);
        }
        let part = &parts[i];
        out.append(part.as_str());
        proof {
            let dv = parts.deep_view();
            let prefix = dv.subrange(0, i as int);
            assert(dv.subrange(0, i + 1) =~= prefix.push(dv[i as int]));
            assert(dv[i as int] == part@);
            lemma_join_sep_push(prefix, sep@, part@);
        }
        i = i + 1;
    }
    proof {
        assert(parts.deep_view().subrange(0, parts@.len() as int) =~= parts.deep_view());
    }
    out
}

/// The decimal rendering of a signed number: a minus sign and the digits of
/// the magnitude.
pub open spec fn spec_i64_digits(n: int) -> Seq<char> {
    if n < 0 {
        seq!['-'] + dec_digits((-n) as nat)
    } else {
        dec_digits(n as nat)
    }
}

/// Renders an `i64` in decimal.
pub fn i64_to_string(n: i64) -> (r: String)
    ensures
        r@ == spec_i64_digits(n as int),
{
    proof {
        reveal_strlit("-");
    }
    if n >= 0 {
        crate::num::u64_to_string(n as u64)
    } else {
        let magnitude: u64 = if n == i64::MIN {
            9223372036854775808u64
        } else {
            (-n) as u64
        };
        let mut s = "-".to_owned();
        let digits = crate::num::u64_to_string(magnitude);
        s.append(digits.as_str());
        proof {
            assert(s@ =~= seq!['-'] + dec_digits((-(n as int)) as nat));
        }
        s
    }
}

} // verus!
