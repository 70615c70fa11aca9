//! The pattern parser: an operand string becomes an ordered sequence of
//! tokens, each a literal character or a bracketed class reference of the
//! exact form `[:name:]`.

use vstd::prelude::*;

use crate::chars::str_chars;
use crate::pattern::{Pattern, TrError};

verus! {

/// The position of the first colon at or after `i`, if any.
pub open spec fn first_colon_at(s: Seq<char>, i: int) -> Option<int>
    decreases s.len() - i,
{
    if i < 0 || i >= s.len() {
        None
    } else if s[i] == ':' {
        Some(i)
    } else {
        first_colon_at(s, i + 1)
    }
}

/// If a well-formed bracketed token `[:name:]` (with a non-empty, colon-free
/// name) starts at `i`, the position just past its closing bracket.
pub open spec fn class_token_end(s: Seq<char>, i: int) -> Option<int> {
    if 0 <= i && i + 1 < s.len() && s[i] == '[' && s[i + 1] == ':' {
        match first_colon_at(s, i + 2) {
            Some(j) => if i + 2 < j && j + 1 < s.len() && s[j + 1] == ']' {
                Some(j + 2)
            } else {
                None
            },
            None => None,
        }
    } else {
        None
    }
}

/// The class named by five characters, if they spell a known class name.
pub open spec fn class_for_name(c0: char, c1: char, c2: char, c3: char, c4: char) -> Option<
    Pattern,
> {
    if c0 == 'a' && c1 == 'l' && c2 == 'n' && c3 == 'u' && c4 == 'm' {
        Some(Pattern::Alnum)
    } else if c0 == 'a' && c1 == 'l' && c2 == 'p' && c3 == 'h' && c4 == 'a' {
        Some(Pattern::Alpha)
    } else if c0 == 'b' && c1 == 'l' && c2 == 'a' && c3 == 'n' && c4 == 'k' {
        Some(Pattern::Blank)
    } else if c0 == 'c' && c1 == 'n' && c2 == 't' && c3 == 'r' && c4 == 'l' {
        Some(Pattern::Cntrl)
    } else if c0 == 'd' && c1 == 'i' && c2 == 'g' && c3 == 'i' && c4 == 't' {
        Some(Pattern::Digit)
    } else if c0 == 'l' && c1 == 'o' && c2 == 'w' && c3 == 'e' && c4 == 'r' {
        Some(Pattern::Lower)
    } else if c0 == 's' && c1 == 'p' && c2 == 'a' && c3 == 'c' && c4 == 'e' {
        Some(Pattern::Space)
    } else if c0 == 'u' && c1 == 'p' && c2 == 'p' && c3 == 'e' && c4 == 'r' {
        Some(Pattern::Upper)
    } else {
        None
    }
}

/// The tokens of `s` from position `i` on: a well-formed bracketed token
/// must name one of the eight classes, and every other character is a
/// literal. `None` stands for an invalid class name.
pub open spec fn parse_at(s: Seq<char>, i: int) -> Option<Seq<Pattern>>
    decreases s.len() - i,
{
    if i < 0 || i >= s.len() {
        Some(Seq::empty())
    } else {
        match class_token_end(s, i) {
            Some(e) => if e == i + 9 && e <= s.len() {
                match class_for_name(s[i + 2], s[i + 3], s[i + 4], s[i + 5], s[i + 6]) {
                    Some(p) => match parse_at(s, e) {
                        Some(rest) => Some(seq![p] + rest),
                        None => None,
                    },
                    None => None,
                }
            } else {
                None
            },
            None => match parse_at(s, i + 1) {
                Some(rest) => Some(seq![literal_pattern(s[i])] + rest),
                None => None,
            },
        }
    }
}

/// The token sequence of a whole operand string, if it parses.
pub open spec fn parse_operand(s: Seq<char>) -> Option<Seq<Pattern>> {
    parse_at(s, 0)
}

/// The literal token for one character.
pub open spec fn literal_pattern(c: char) -> Pattern {
    Pattern::Char(c)
}

proof fn lemma_cons_assoc(a: Seq<Pattern>, p: Pattern, b: Seq<Pattern>)
    ensures
        a + (seq![p] + b) == a.push(p) + b,
{
    assert(a + (seq![p] + b) =~= a.push(p) + b);
}

proof fn lemma_first_colon_some(s: Seq<char>, i: int, j: int)
    requires
        0 <= i <= j < s.len(),
        s[j] == ':',
        forall|k: int| i <= k < j ==> s[k] != ':',
    ensures
        first_colon_at(s, i) == Some(j),
    decreases j - i,
{
    if i < j {
        lemma_first_colon_some(s, i + 1, j);
    }
}

proof fn lemma_first_colon_none(s: Seq<char>, i: int)
    requires
        0 <= i,
        forall|k: int| i <= k < s.len() ==> s[k] != ':',
    ensures
        first_colon_at(s, i) is None,
    decreases s.len() - i,
{
    if i < s.len() {
        lemma_first_colon_none(s, i + 1);
    }
}

/// The end of the class token starting at `i`, if a well-formed one does.
fn token_end(s: &Vec<char>, i: usize) -> (r: Option<usize>)
    requires
        i < s@.len(),
    ensures
        r matches Some(e) ==> class_token_end(s@, i as int) == Some(e as int) && i + 4 < e
            <= s@.len(),
        r is None ==> class_token_end(s@, i as int) is None,
{
    let n = s.len();
    if !(i + 1 < n && s[i] == '[' && s[i + 1] == ':') {
        return None;
    }
    let mut j = i + 2;
    while j < n && s[j] != ':'
        invariant
            n == s@.len(),
            i + 2 <= j <= n,
            forall|k: int| i + 2 <= k < j ==> s@[k] != ':',
        decreases n - j,
    {
        j += 1;
    }
    if j == n {
        proof {
            lemma_first_colon_none(s@, i + 2 as int);
        }
        return None;
    }
    proof {
        lemma_first_colon_some(s@, i + 2 as int, j as int);
    }
    if i + 2 < j && j + 1 < n && s[j + 1] == ']' {
        Some(j + 2)
    } else {
        None
    }
}

/// The class pattern named by five characters, if any.
fn class_for_chars(c0: char, c1: char, c2: char, c3: char, c4: char) -> (r: Option<Pattern>)
    ensures
        r == class_for_name(c0, c1, c2, c3, c4),
{
    if c0 == 'a' && c1 == 'l' && c2 == 'n' && c3 == 'u' && c4 == 'm' {
        Some(Pattern::Alnum)
    } else if c0 == 'a' && c1 == 'l' && c2 == 'p' && c3 == 'h' && c4 == 'a' {
        Some(Pattern::Alpha)
    } else if c0 == 'b' && c1 == 'l' && c2 == 'a' && c3 == 'n' && c4 == 'k' {
        Some(Pattern::Blank)
    } else if c0 == 'c' && c1 == 'n' && c2 == 't' && c3 == 'r' && c4 == 'l' {
        Some(Pattern::Cntrl)
    } else if c0 == 'd' && c1 == 'i' && c2 == 'g' && c3 == 'i' && c4 == 't' {
        Some(Pattern::Digit)
    } else if c0 == 'l' && c1 == 'o' && c2 == 'w' && c3 == 'e' && c4 == 'r' {
        Some(Pattern::Lower)
    } else if c0 == 's' && c1 == 'p' && c2 == 'a' && c3 == 'c' && c4 == 'e' {
        Some(Pattern::Space)
    } else if c0 == 'u' && c1 == 'p' && c2 == 'p' && c3 == 'e' && c4 == 'r' {
        Some(Pattern::Upper)
    } else {
        None
    }
}

/// Parse an operand string into its pattern tokens.
pub fn get_patterns(string: &str) -> (r: Result<Vec<Pattern>, TrError>)
    ensures
        r is Ok <==> parse_operand(string@) is Some,
        r matches Ok(v) ==> Some(v@) == parse_operand(string@),
        r matches Err(e) ==> e == TrError::InvalidClassName,
{
    let s = str_chars(string);
    let n = s.len();
    let mut out: Vec<Pattern> = Vec::new();
    let mut i: usize = 0;
    while i < n
        invariant
            s@ == string@,
            n == s@.len(),
            i <= n,
            match parse_at(s@, i as int) {
                Some(rest) => parse_at(s@, 0) == Some(out@ + rest),
                None => parse_at(s@, 0) is None,
            },
        decreases n - i,
    {
        match token_end(&s, i) {
            Some(e) => {
                if e - i == 9 {
                    match class_for_chars(s[i + 2], s[i + 3], s[i + 4], s[i + 5], s[i + 6]) {
                        Some(p) => {
                            proof {
                                assert(parse_at(s@, i as int) == (match parse_at(s@, e as int) {
                                    Some(rest) => Some(seq![p] + rest),
                                    None => None::<Seq<Pattern>>,
                                }));
                                if let Some(rest) = parse_at(s@, e as int) {
                                    lemma_cons_assoc(out@, p, rest);
                                }
                            }
                            out.push(p);
                            i = e;
                        },
                        None => {
                            proof {
                                assert(parse_at(s@, i as int) is None);
                            }
                            return Err(TrError::InvalidClassName);
                        },
                    }
                } else {
                    proof {
                        assert(parse_at(s@, i as int) is None);
                    }
                    return Err(TrError::InvalidClassName);
                }
            },
            None => {
                let c = s[i];
                proof {
                    assert(parse_at(s@, i as int) == (match parse_at(s@, i + 1 as int) {
                        Some(rest) => Some(seq![literal_pattern(c)] + rest),
                        None => None::<Seq<Pattern>>,
                    }));
                    if let Some(rest) = parse_at(s@, i + 1 as int) {
                        lemma_cons_assoc(out@, literal_pattern(c), rest);
                    }
                }
                out.push(Pattern::Char(c));
                i += 1;
            },
        }
    }
    proof {
        assert(parse_at(s@, i as int) == Some(Seq::<Pattern>::empty()));
        assert(out@ + Seq::<Pattern>::empty() =~= out@);
    }
    Ok(out)
}

/// On a non-empty operand with no class tokens, parsing returns one literal
/// per character, order preserved.
pub proof fn lemma_parse_all_literals(s: Seq<char>)
    requires
        s.len() > 0,
        forall|k: int| 0 <= k < s.len() ==> class_token_end(s, k) is None,
    ensures
        parse_operand(s) matches Some(ps) && ps.len() == s.len() && (forall|m: int|
            0 <= m < s.len() ==> ps[m] == literal_pattern(s[m])),
{
    lemma_parse_literals_from(s, 0);
}

proof fn lemma_parse_literals_from(s: Seq<char>, i: int)
    requires
        0 <= i <= s.len(),
        forall|k: int| 0 <= k < s.len() ==> class_token_end(s, k) is None,
    ensures
        parse_at(s, i) matches Some(ps) && ps.len() == s.len() - i && (forall|m: int|
            0 <= m < ps.len() ==> ps[m] == literal_pattern(s[i + m])),
    decreases s.len() - i,
{
    if i < s.len() {
        lemma_parse_literals_from(s, i + 1);
        let rest = parse_at(s, i + 1)->0;
        assert(parse_at(s, i) == Some(seq![literal_pattern(s[i])] + rest));
        let ps = seq![literal_pattern(s[i])] + rest;
        assert(ps.len() == 1 + rest.len());
        assert forall|m: int| 0 <= m < ps.len() implies ps[m] == literal_pattern(s[i + m]) by {
            if m > 0 {
                assert(ps[m] == rest[m - 1]);
            } else {
                assert(ps[0] == literal_pattern(s[i]));
            }
        }
    }
}

} // verus!
