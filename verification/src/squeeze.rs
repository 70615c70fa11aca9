//! The squeeze operation: collapse runs of an identical, class-matching
//! character to a single instance, one pass per pattern.

use vstd::prelude::*;

use crate::args::Cli;
use crate::chars::{chars_to_string, str_chars};
use crate::parse::{get_patterns, parse_operand};
use crate::pattern::{check_char, pattern_test, Pattern, TrError};

verus! {

/// One step of a squeeze pass: the next character is dropped exactly when
/// it equals the last character already kept and satisfies the pattern's
/// test.
pub open spec fn squeeze_step(p: Pattern, acc: Seq<char>, c: char) -> Seq<char> {
    if acc.len() > 0 && acc.last() == c && pattern_test(p, c) {
        acc
    } else {
        acc.push(c)
    }
}

/// One left-to-right squeeze pass over the line.
pub open spec fn squeeze_one(p: Pattern, s: Seq<char>) -> Seq<char>
    decreases s.len(),
{
    if s.len() == 0 {
        Seq::empty()
    } else {
        squeeze_step(p, squeeze_one(p, s.drop_last()), s.last())
    }
}

/// The line after one squeeze pass per pattern, each pass over the result
/// of the previous pass.
pub open spec fn squeeze_all(ps: Seq<Pattern>, s: Seq<char>) -> Seq<char>
    decreases ps.len(),
{
    if ps.len() == 0 {
        s
    } else {
        squeeze_all(ps.drop_first(), squeeze_one(ps[0], s))
    }
}

/// What the squeeze operation returns for the given operand and line.
pub open spec fn squeeze_result(s1: Seq<char>, line: Seq<char>) -> Result<Seq<char>, TrError> {
    match parse_operand(s1) {
        Some(ps) => Ok(squeeze_all(ps, line)),
        None => Err(TrError::InvalidClassName),
    }
}

/// One squeeze pass over the line.
fn squeeze_pass(v: &Vec<char>, p: &Pattern) -> (out: Vec<char>)
    ensures
        out@ == squeeze_one(*p, v@),
{
    let mut out: Vec<char> = Vec::new();
    let mut i: usize = 0;
    while i < v.len()
        invariant
            i <= v@.len(),
            out@ == squeeze_one(*p, v@.subrange(0, i as int)),
        decreases v@.len() - i,
    {
        let c = v[i];
        proof {
            let pre = v@.subrange(0, i as int);
            let cur = v@.subrange(0, i + 1 as int);
            assert(cur.drop_last() =~= pre);
            assert(cur.last() == v@[i as int]);
            assert(squeeze_one(*p, cur) == squeeze_step(*p, squeeze_one(*p, cur.drop_last()), cur.last()));
        }
        let repeated = out.len() > 0 && out[out.len() - 1] == c && check_char(p, &c);
        if !repeated {
            out.push(c);
        }
        i += 1;
    }
    proof {
        assert(v@.subrange(0, v@.len() as int) =~= v@);
    }
    out
}

/// Remove repeats of the patterns of string1 from the line.
pub fn compress(line: String, args: &Cli) -> (r: Result<String, TrError>)
    ensures
        (match r {
            Ok(out) => squeeze_result(args.string1@, line@) == Ok::<Seq<char>, TrError>(out@),
            Err(e) => squeeze_result(args.string1@, line@) == Err::<Seq<char>, TrError>(e),
        }),
{
    let patterns = match get_patterns(args.string1.as_str()) {
        Ok(ps) => ps,
        Err(e) => {
            return Err(e);
        },
    };
    let ghost line0 = line@;
    let mut cur = str_chars(line.as_str());
    let n = patterns.len();
    proof {
        assert(patterns@.subrange(0, n as int) =~= patterns@);
    }
    let mut k: usize = 0;
    while k < n
        invariant
            n == patterns@.len(),
            k <= n,
            squeeze_all(patterns@.subrange(k as int, n as int), cur@) == squeeze_all(
                patterns@,
                line0,
            ),
        decreases n - k,
    {
        let p = patterns[k];
        proof {
            let sub = patterns@.subrange(k as int, n as int);
            assert(sub.drop_first() =~= patterns@.subrange(k + 1 as int, n as int));
            assert(sub[0] == patterns@[k as int]);
            assert(squeeze_all(sub, cur@) == squeeze_all(
                sub.drop_first(),
                squeeze_one(sub[0], cur@),
            ));
        }
        cur = squeeze_pass(&cur, &p);
        k += 1;
    }
    proof {
        assert(patterns@.subrange(n as int, n as int) =~= Seq::<Pattern>::empty());
        assert(squeeze_all(Seq::<Pattern>::empty(), cur@) == cur@);
    }
    Ok(chars_to_string(&cur))
}

/// No two adjacent positions of the line hold the same character matching
/// the pattern's test.
pub open spec fn no_squeezable_repeat(p: Pattern, s: Seq<char>) -> bool {
    forall|i: int| 1 <= i < s.len() ==> !(s[i] == s[i - 1] && pattern_test(p, s[i]))
}

proof fn lemma_squeeze_one_identity(p: Pattern, s: Seq<char>)
    requires
        no_squeezable_repeat(p, s),
    ensures
        squeeze_one(p, s) == s,
    decreases s.len(),
{
    if s.len() > 0 {
        assert forall|i: int| 1 <= i < s.drop_last().len() implies !(s.drop_last()[i]
            == s.drop_last()[i - 1] && pattern_test(p, s.drop_last()[i])) by {
            assert(s.drop_last()[i] == s[i]);
            assert(s.drop_last()[i - 1] == s[i - 1]);
        }
        lemma_squeeze_one_identity(p, s.drop_last());
        if s.len() > 1 {
            assert(s.drop_last().last() == s[s.len() - 2]);
            assert(!(s[s.len() - 1] == s[s.len() - 2] && pattern_test(p, s[s.len() - 1])));
        }
        assert(s.drop_last().push(s.last()) =~= s);
    }
}

/// Squeezing a line in which no class-matching character is repeated next
/// to itself leaves the line unchanged.
pub proof fn lemma_squeeze_identity(ps: Seq<Pattern>, s: Seq<char>)
    requires
        forall|m: int| 0 <= m < ps.len() ==> no_squeezable_repeat(ps[m], s),
    ensures
        squeeze_all(ps, s) == s,
    decreases ps.len(),
{
    if ps.len() > 0 {
        assert(no_squeezable_repeat(ps[0], s));
        lemma_squeeze_one_identity(ps[0], s);
        assert forall|m: int| 0 <= m < ps.drop_first().len() implies no_squeezable_repeat(
            ps.drop_first()[m],
            s,
        ) by {
            assert(ps.drop_first()[m] == ps[m + 1]);
        }
        lemma_squeeze_identity(ps.drop_first(), s);
    }
}

} // verus!
