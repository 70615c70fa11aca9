//! The delete operation: remove, pattern by pattern, every character of the
//! line that matches the pattern's test.

use vstd::prelude::*;

use crate::args::Cli;
use crate::chars::{chars_to_string, str_chars};
use crate::parse::{get_patterns, parse_operand};
use crate::pattern::{check_char, pattern_test, Pattern, TrError};

verus! {

/// The line with every character matching the pattern's test removed.
pub open spec fn delete_one(p: Pattern, s: Seq<char>) -> Seq<char>
    decreases s.len(),
{
    if s.len() == 0 {
        Seq::empty()
    } else if pattern_test(p, s.last()) {
        delete_one(p, s.drop_last())
    } else {
        delete_one(p, s.drop_last()).push(s.last())
    }
}

/// The line after one pass per pattern, each pass removing every matching
/// character from the result of the previous pass.
pub open spec fn delete_all(ps: Seq<Pattern>, s: Seq<char>) -> Seq<char>
    decreases ps.len(),
{
    if ps.len() == 0 {
        s
    } else {
        delete_all(ps.drop_first(), delete_one(ps[0], s))
    }
}

/// What the delete operation returns for the given operand and line.
pub open spec fn delete_result(s1: Seq<char>, line: Seq<char>) -> Result<Seq<char>, TrError> {
    match parse_operand(s1) {
        Some(ps) => Ok(delete_all(ps, line)),
        None => Err(TrError::InvalidClassName),
    }
}

/// One delete pass over the line.
fn delete_pass(v: &Vec<char>, p: &Pattern) -> (out: Vec<char>)
    ensures
        out@ == delete_one(*p, v@),
{
    let mut out: Vec<char> = Vec::new();
    let mut i: usize = 0;
    while i < v.len()
        invariant
            i <= v@.len(),
            out@ == delete_one(*p, v@.subrange(0, i as int)),
        decreases v@.len() - i,
    {
        let c = v[i];
        proof {
            let pre = v@.subrange(0, i as int);
            let cur = v@.subrange(0, i + 1 as int);
            assert(cur.drop_last() =~= pre);
            assert(cur.last() == v@[i as int]);
            assert(delete_one(*p, cur) == (if pattern_test(*p, cur.last()) {
                delete_one(*p, cur.drop_last())
            } else {
                delete_one(*p, cur.drop_last()).push(cur.last())
            }));
        }
        if !check_char(p, &c) {
            out.push(c);
        }
        i += 1;
    }
    proof {
        assert(v@.subrange(0, v@.len() as int) =~= v@);
    }
    out
}

/// Remove the patterns of string1 from the line.
pub fn delete(line: String, args: &Cli) -> (r: Result<String, TrError>)
    ensures
        (match r {
            Ok(out) => delete_result(args.string1@, line@) == Ok::<Seq<char>, TrError>(out@),
            Err(e) => delete_result(args.string1@, line@) == Err::<Seq<char>, TrError>(e),
        }),
{
    let patterns = match get_patterns(args.string1.as_str()) {
        Ok(ps) => ps,
        Err(e) => {
            return Err(e);
        },
    };
    let ghost line0 = line@;
    let mut cur = str_chars(line.as_str());
    let n = patterns.len();
    proof {
        assert(patterns@.subrange(0, n as int) =~= patterns@);
    }
    let mut k: usize = 0;
    while k < n
        invariant
            n == patterns@.len(),
            k <= n,
            delete_all(patterns@.subrange(k as int, n as int), cur@) == delete_all(
                patterns@,
                line0,
            ),
        decreases n - k,
    {
        let p = patterns[k];
        proof {
            let sub = patterns@.subrange(k as int, n as int);
            assert(sub.drop_first() =~= patterns@.subrange(k + 1 as int, n as int));
            assert(sub[0] == patterns@[k as int]);
            assert(delete_all(sub, cur@) == delete_all(sub.drop_first(), delete_one(sub[0], cur@)));
        }
        cur = delete_pass(&cur, &p);
        k += 1;
    }
    proof {
        assert(patterns@.subrange(n as int, n as int) =~= Seq::<Pattern>::empty());
        assert(delete_all(Seq::<Pattern>::empty(), cur@) == cur@);
    }
    Ok(chars_to_string(&cur))
}

/// No character of the line satisfies the pattern's test.
pub open spec fn no_match(p: Pattern, s: Seq<char>) -> bool {
    forall|i: int| 0 <= i < s.len() ==> !pattern_test(p, s[i])
}

proof fn lemma_delete_one_no_match(p: Pattern, s: Seq<char>)
    ensures
        no_match(p, delete_one(p, s)),
    decreases s.len(),
{
    if s.len() > 0 {
        lemma_delete_one_no_match(p, s.drop_last());
        if !pattern_test(p, s.last()) {
            let t = delete_one(p, s.drop_last());
            assert forall|i: int| 0 <= i < t.push(s.last()).len() implies !pattern_test(
                p,
                t.push(s.last())[i],
            ) by {
                if i == t.len() {
                    assert(t.push(s.last())[i] == s.last());
                } else {
                    assert(t.push(s.last())[i] == t[i]);
                }
            }
        }
    }
}

proof fn lemma_delete_one_preserves_no_match(p: Pattern, q: Pattern, s: Seq<char>)
    requires
        no_match(p, s),
    ensures
        no_match(p, delete_one(q, s)),
    decreases s.len(),
{
    if s.len() > 0 {
        assert forall|i: int| 0 <= i < s.drop_last().len() implies !pattern_test(
            p,
            s.drop_last()[i],
        ) by {
            assert(s.drop_last()[i] == s[i]);
        }
        lemma_delete_one_preserves_no_match(p, q, s.drop_last());
        if !pattern_test(q, s.last()) {
            let t = delete_one(q, s.drop_last());
            assert(!pattern_test(p, s.last()));
            assert forall|i: int| 0 <= i < t.push(s.last()).len() implies !pattern_test(
                p,
                t.push(s.last())[i],
            ) by {
                if i == t.len() {
                    assert(t.push(s.last())[i] == s.last());
                } else {
                    assert(t.push(s.last())[i] == t[i]);
                }
            }
        }
    }
}

proof fn lemma_delete_one_identity(p: Pattern, s: Seq<char>)
    requires
        no_match(p, s),
    ensures
        delete_one(p, s) == s,
    decreases s.len(),
{
    if s.len() > 0 {
        assert forall|i: int| 0 <= i < s.drop_last().len() implies !pattern_test(
            p,
            s.drop_last()[i],
        ) by {
            assert(s.drop_last()[i] == s[i]);
        }
        lemma_delete_one_identity(p, s.drop_last());
        assert(!pattern_test(p, s.last()));
        assert(s.drop_last().push(s.last()) =~= s);
    }
}

proof fn lemma_delete_all_preserves_no_match(p: Pattern, qs: Seq<Pattern>, s: Seq<char>)
    requires
        no_match(p, s),
    ensures
        no_match(p, delete_all(qs, s)),
    decreases qs.len(),
{
    if qs.len() > 0 {
        lemma_delete_one_preserves_no_match(p, qs[0], s);
        lemma_delete_all_preserves_no_match(p, qs.drop_first(), delete_one(qs[0], s));
    }
}

proof fn lemma_delete_all_no_match(ps: Seq<Pattern>, s: Seq<char>)
    ensures
        forall|m: int| 0 <= m < ps.len() ==> no_match(ps[m], delete_all(ps, s)),
    decreases ps.len(),
{
    if ps.len() > 0 {
        let t = delete_one(ps[0], s);
        lemma_delete_one_no_match(ps[0], s);
        lemma_delete_all_preserves_no_match(ps[0], ps.drop_first(), t);
        lemma_delete_all_no_match(ps.drop_first(), t);
        assert forall|m: int| 0 <= m < ps.len() implies no_match(ps[m], delete_all(ps, s)) by {
            if m > 0 {
                assert(ps.drop_first()[m - 1] == ps[m]);
            }
        }
    }
}

proof fn lemma_delete_all_identity(ps: Seq<Pattern>, s: Seq<char>)
    requires
        forall|m: int| 0 <= m < ps.len() ==> no_match(ps[m], s),
    ensures
        delete_all(ps, s) == s,
    decreases ps.len(),
{
    if ps.len() > 0 {
        assert(no_match(ps[0], s));
        lemma_delete_one_identity(ps[0], s);
        assert forall|m: int| 0 <= m < ps.drop_first().len() implies no_match(
            ps.drop_first()[m],
            s,
        ) by {
            assert(ps.drop_first()[m] == ps[m + 1]);
        }
        lemma_delete_all_identity(ps.drop_first(), s);
    }
}

/// Deleting the same pattern set twice in a row yields the same result as
/// deleting it once.
pub proof fn lemma_delete_idempotent(ps: Seq<Pattern>, s: Seq<char>)
    ensures
        delete_all(ps, delete_all(ps, s)) == delete_all(ps, s),
{
    lemma_delete_all_no_match(ps, s);
    lemma_delete_all_identity(ps, delete_all(ps, s));
}

} // verus!
