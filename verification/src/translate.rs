//! The translate operation: pairs of source and target patterns are applied
//! in order to the whole line, the output of each pair feeding the next.

use vstd::prelude::*;

use crate::args::Cli;
use crate::chars::{
    char_from_u32, char_to_lowercase_first, char_to_uppercase_first, chars_to_string, lower_first,
    scalar_ok, str_chars, upper_first,
};
use crate::parse::{get_patterns, parse_operand};
use crate::pattern::{check_selects, pattern_selects, Pattern, TrError};

verus! {

broadcast use vstd::utf8::char_is_scalar, vstd::utf8::char_u32_cast;

/// The character with the given code point; meaningful only on scalar values.
pub open spec fn char_of(u: u32) -> char {
    u as char
}

/// Whether the character is an ASCII digit.
pub open spec fn ascii_digit(c: char) -> bool {
    48 <= c as u32 && c as u32 <= 57
}

/// The character ten code points above `c`, where that is a scalar value.
pub open spec fn shifted_up(c: char) -> Option<char> {
    let u = ((c as u32) + 10) as u32;
    if scalar_ok(u) {
        Some(char_of(u))
    } else {
        None
    }
}

/// The character forty-nine code points below `c`, where that exists and is
/// a scalar value.
pub open spec fn shifted_down(c: char) -> Option<char> {
    if c as u32 >= 49 {
        let u = ((c as u32) - 49) as u32;
        if scalar_ok(u) {
            Some(char_of(u))
        } else {
            None
        }
    } else {
        None
    }
}

/// The lowercase letter standing for an ASCII digit: '0' to 'a', up to '9'
/// to 'j'.
pub open spec fn digit_lower(c: char) -> char {
    char_of(((c as u32) + 49) as u32)
}

/// The uppercase letter standing for an ASCII digit: '0' to 'A', up to '9'
/// to 'J'.
pub open spec fn digit_upper(c: char) -> char {
    char_of(((c as u32) + 17) as u32)
}

/// The replacement for a character selected by the source pattern, by
/// source row and target column; `None` stands for a code point error.
pub open spec fn cell(src: Pattern, tgt: Pattern, c: char) -> Option<char> {
    match src {
        Pattern::Alnum | Pattern::Alpha => match tgt {
            Pattern::Alnum => if src is Alnum {
                Some(c)
            } else {
                shifted_up(c)
            },
            Pattern::Alpha => if src is Alpha {
                Some(c)
            } else {
                shifted_up(c)
            },
            Pattern::Blank | Pattern::Cntrl | Pattern::Space => Some(' '),
            Pattern::Digit => Some(if ascii_digit(c) {
                c
            } else {
                '9'
            }),
            Pattern::Lower => Some(lower_first(c)),
            Pattern::Upper => Some(upper_first(c)),
            Pattern::Char(x) => Some(x),
        },
        Pattern::Blank | Pattern::Space => match tgt {
            Pattern::Alnum | Pattern::Digit => Some('2'),
            Pattern::Alpha => Some('C'),
            Pattern::Char(x) => Some(x),
            _ => Some(c),
        },
        Pattern::Cntrl => match tgt {
            Pattern::Alnum => Some('A'),
            Pattern::Alpha => Some('K'),
            Pattern::Blank | Pattern::Space => Some(' '),
            Pattern::Cntrl | Pattern::Lower | Pattern::Upper => Some(c),
            Pattern::Digit => Some(if ascii_digit(c) {
                c
            } else {
                '9'
            }),
            Pattern::Char(x) => Some(x),
        },
        Pattern::Digit => match tgt {
            Pattern::Alnum | Pattern::Alpha | Pattern::Digit => Some(c),
            Pattern::Blank | Pattern::Cntrl | Pattern::Space => Some(' '),
            Pattern::Lower => if ascii_digit(c) {
                Some(digit_lower(c))
            } else {
                None
            },
            Pattern::Upper => if ascii_digit(c) {
                Some(digit_upper(c))
            } else {
                None
            },
            Pattern::Char(x) => Some(x),
        },
        Pattern::Lower => match tgt {
            Pattern::Alnum => shifted_down(c),
            Pattern::Alpha | Pattern::Upper => Some(upper_first(c)),
            Pattern::Blank | Pattern::Cntrl | Pattern::Space => Some(' '),
            Pattern::Digit => Some('9'),
            Pattern::Lower => Some(c),
            Pattern::Char(x) => Some(x),
        },
        Pattern::Upper => match tgt {
            Pattern::Alnum => shifted_down(c),
            Pattern::Alpha | Pattern::Upper => Some(c),
            Pattern::Blank | Pattern::Cntrl | Pattern::Space => Some(' '),
            Pattern::Digit => Some('9'),
            Pattern::Lower => Some(lower_first(c)),
            Pattern::Char(x) => Some(x),
        },
        Pattern::Char(_) => match tgt {
            Pattern::Alnum | Pattern::Digit => Some('0'),
            Pattern::Alpha => Some('A'),
            Pattern::Blank | Pattern::Cntrl | Pattern::Space => Some(' '),
            Pattern::Lower => Some(lower_first(c)),
            Pattern::Upper => Some(upper_first(c)),
            Pattern::Char(x) => Some(x),
        },
    }
}

/// What one source/target pair does to one character: characters the source
/// does not select pass through unchanged.
pub open spec fn pair_char(src: Pattern, tgt: Pattern, c: char) -> Option<char> {
    if pattern_selects(src, c) {
        cell(src, tgt, c)
    } else {
        Some(c)
    }
}

/// Whether one pair maps every character of the line without a code point
/// error.
pub open spec fn pair_line_ok(src: Pattern, tgt: Pattern, s: Seq<char>) -> bool {
    forall|i: int| 0 <= i < s.len() ==> pair_char(src, tgt, s[i]) is Some
}

/// The line after one pair, mapped character by character.
pub open spec fn pair_line(src: Pattern, tgt: Pattern, s: Seq<char>) -> Seq<char> {
    Seq::new(s.len(), |i: int| pair_char(src, tgt, s[i])->0)
}

/// The line after all pairs, applied left to right, the output of each pair
/// feeding the next; `None` as soon as any pair hits a code point error.
pub open spec fn translate_all(pairs: Seq<(Pattern, Pattern)>, s: Seq<char>) -> Option<Seq<char>>
    decreases pairs.len(),
{
    if pairs.len() == 0 {
        Some(s)
    } else if pair_line_ok(pairs[0].0, pairs[0].1, s) {
        translate_all(pairs.drop_first(), pair_line(pairs[0].0, pairs[0].1, s))
    } else {
        None
    }
}

/// The source/target pairs of two parsed operands: one pair per token of
/// spec1, with spec2 padded by its last token or truncated on the right.
pub open spec fn aligned(s1: Seq<Pattern>, s2: Seq<Pattern>) -> Seq<(Pattern, Pattern)> {
    Seq::new(
        s1.len(),
        |i: int|
            (
                s1[i],
                if i < s2.len() {
                    s2[i]
                } else {
                    s2.last()
                },
            ),
    )
}

/// What the translate operation returns for the given operands and line.
pub open spec fn translate_result(s1: Seq<char>, s2: Seq<char>, line: Seq<char>) -> Result<
    Seq<char>,
    TrError,
> {
    match parse_operand(s1) {
        None => Err(TrError::InvalidClassName),
        Some(g1) => match parse_operand(s2) {
            None => Err(TrError::InvalidClassName),
            Some(g2) => if g1.len() > 0 && g2.len() == 0 {
                Err(TrError::EmptyAlignmentTarget)
            } else {
                match translate_all(aligned(g1, g2), line) {
                    Some(out) => Ok(out),
                    None => Err(TrError::CodePointOverflow),
                }
            },
        },
    }
}

/// Pair two parsed operands, padding the second with its last token or
/// discarding its excess; the pairing always has the first operand's length.
pub fn align(spec1: &Vec<Pattern>, spec2: &Vec<Pattern>) -> (r: Result<
    Vec<(Pattern, Pattern)>,
    TrError,
>)
    ensures
        r is Err <==> spec1@.len() > 0 && spec2@.len() == 0,
        r matches Err(e) ==> e == TrError::EmptyAlignmentTarget,
        r matches Ok(pairs) ==> pairs@ == aligned(spec1@, spec2@),
        r matches Ok(pairs) ==> pairs@.len() == spec1@.len(),
        r matches Ok(pairs) ==> forall|i: int|
            spec2@.len() <= i < pairs@.len() ==> pairs@[i].1 == spec2@.last(),
{
    let n1 = spec1.len();
    let n2 = spec2.len();
    if n1 > 0 && n2 == 0 {
        return Err(TrError::EmptyAlignmentTarget);
    }
    let mut pairs: Vec<(Pattern, Pattern)> = Vec::new();
    let mut i: usize = 0;
    while i < n1
        invariant
            n1 == spec1@.len(),
            n2 == spec2@.len(),
            n1 > 0 ==> n2 > 0,
            i <= n1,
            pairs@.len() == i,
            forall|k: int| 0 <= k < i ==> pairs@[k] == aligned(spec1@, spec2@)[k],
        decreases n1 - i,
    {
        let tgt = if i < n2 {
            spec2[i]
        } else {
            spec2[n2 - 1]
        };
        proof {
            assert(aligned(spec1@, spec2@)[i as int] == (
                spec1@[i as int],
                if (i as int) < spec2@.len() {
                    spec2@[i as int]
                } else {
                    spec2@.last()
                },
            ));
        }
        pairs.push((spec1[i], tgt));
        i += 1;
    }
    proof {
        assert(pairs@ =~= aligned(spec1@, spec2@));
    }
    Ok(pairs)
}

/// The character ten code points up, or a code point error.
fn shift_up(c: char) -> (r: Result<char, TrError>)
    ensures
        (match r {
            Ok(c2) => shifted_up(c) == Some(c2),
            Err(e) => shifted_up(c) is None && e == TrError::CodePointOverflow,
        }),
{
    let u = c as u32;
    match char_from_u32(u + 10) {
        Some(c2) => {
            proof {
                vstd::utf8::char_u32_cast(c2, (u + 10) as u32);
            }
            Ok(c2)
        },
        None => Err(TrError::CodePointOverflow),
    }
}

/// The character forty-nine code points down, or a code point error.
fn shift_down(c: char) -> (r: Result<char, TrError>)
    ensures
        (match r {
            Ok(c2) => shifted_down(c) == Some(c2),
            Err(e) => shifted_down(c) is None && e == TrError::CodePointOverflow,
        }),
{
    let u = c as u32;
    if u >= 49 {
        match char_from_u32(u - 49) {
            Some(c2) => {
                proof {
                    vstd::utf8::char_u32_cast(c2, (u - 49) as u32);
                }
                Ok(c2)
            },
            None => Err(TrError::CodePointOverflow),
        }
    } else {
        Err(TrError::CodePointOverflow)
    }
}

/// The letter standing for an ASCII digit, at the given alphabet start
/// (97 for lowercase, 65 for uppercase).
fn digit_letter(c: char, base: u32) -> (r: char)
    requires
        ascii_digit(c),
        base == 97 || base == 65,
    ensures
        base == 97 ==> r == digit_lower(c),
        base == 65 ==> r == digit_upper(c),
{
    let u = c as u32;
    match char_from_u32(u - 48 + base) {
        Some(c2) => {
            proof {
                vstd::utf8::char_u32_cast(c2, (u - 48 + base) as u32);
            }
            c2
        },
        None => {
            proof {
                assert(false);
            }
            c
        },
    }
}

/// The replacement one pair makes for one character, or a code point error.
fn tr_char(src: &Pattern, tgt: &Pattern, c: char) -> (r: Result<char, TrError>)
    ensures
        (match r {
            Ok(c2) => pair_char(*src, *tgt, c) == Some(c2),
            Err(e) => pair_char(*src, *tgt, c) is None && e == TrError::CodePointOverflow,
        }),
{
    if !check_selects(src, c) {
        return Ok(c);
    }
    let u = c as u32;
    match src {
        Pattern::Alnum | Pattern::Alpha => {
            let src_is_alnum = matches!(src, Pattern::Alnum);
            match tgt {
                Pattern::Alnum => if src_is_alnum {
                    Ok(c)
                } else {
                    shift_up(c)
                },
                Pattern::Alpha => if src_is_alnum {
                    shift_up(c)
                } else {
                    Ok(c)
                },
                Pattern::Blank | Pattern::Cntrl | Pattern::Space => Ok(' '),
                Pattern::Digit => Ok(
                    if 48 <= u && u <= 57 {
                        c
                    } else {
                        '9'
                    },
                ),
                Pattern::Lower => Ok(char_to_lowercase_first(c)),
                Pattern::Upper => Ok(char_to_uppercase_first(c)),
                Pattern::Char(x) => Ok(*x),
            }
        },
        Pattern::Blank | Pattern::Space => match tgt {
            Pattern::Alnum | Pattern::Digit => Ok('2'),
            Pattern::Alpha => Ok('C'),
            Pattern::Char(x) => Ok(*x),
            _ => Ok(c),
        },
        Pattern::Cntrl => match tgt {
            Pattern::Alnum => Ok('A'),
            Pattern::Alpha => Ok('K'),
            Pattern::Blank | Pattern::Space => Ok(' '),
            Pattern::Cntrl | Pattern::Lower | Pattern::Upper => Ok(c),
            Pattern::Digit => Ok(
                if 48 <= u && u <= 57 {
                    c
                } else {
                    '9'
                },
            ),
            Pattern::Char(x) => Ok(*x),
        },
        Pattern::Digit => match tgt {
            Pattern::Alnum | Pattern::Alpha | Pattern::Digit => Ok(c),
            Pattern::Blank | Pattern::Cntrl | Pattern::Space => Ok(' '),
            Pattern::Lower => if 48 <= u && u <= 57 {
                Ok(digit_letter(c, 97))
            } else {
                Err(TrError::CodePointOverflow)
            },
            Pattern::Upper => if 48 <= u && u <= 57 {
                Ok(digit_letter(c, 65))
            } else {
                Err(TrError::CodePointOverflow)
            },
            Pattern::Char(x) => Ok(*x),
        },
        Pattern::Lower => match tgt {
            Pattern::Alnum => shift_down(c),
            Pattern::Alpha | Pattern::Upper => Ok(char_to_uppercase_first(c)),
            Pattern::Blank | Pattern::Cntrl | Pattern::Space => Ok(' '),
            Pattern::Digit => Ok('9'),
            Pattern::Lower => Ok(c),
            Pattern::Char(x) => Ok(*x),
        },
        Pattern::Upper => match tgt {
            Pattern::Alnum => shift_down(c),
            Pattern::Alpha | Pattern::Upper => Ok(c),
            Pattern::Blank | Pattern::Cntrl | Pattern::Space => Ok(' '),
            Pattern::Digit => Ok('9'),
            Pattern::Lower => Ok(char_to_lowercase_first(c)),
            Pattern::Char(x) => Ok(*x),
        },
        Pattern::Char(_) => match tgt {
            Pattern::Alnum | Pattern::Digit => Ok('0'),
            Pattern::Alpha => Ok('A'),
            Pattern::Blank | Pattern::Cntrl | Pattern::Space => Ok(' '),
            Pattern::Lower => Ok(char_to_lowercase_first(c)),
            Pattern::Upper => Ok(char_to_uppercase_first(c)),
            Pattern::Char(x) => Ok(*x),
        },
    }
}

/// Apply one source/target pair to the whole line.
fn translate_row(line: String, src: Pattern, tgt: Pattern) -> (r: Result<String, TrError>)
    ensures
        r is Ok <==> pair_line_ok(src, tgt, line@),
        (match r {
            Ok(out) => out@ == pair_line(src, tgt, line@),
            Err(e) => e == TrError::CodePointOverflow,
        }),
{
    let v = str_chars(line.as_str());
    let mut out: Vec<char> = Vec::new();
    let mut i: usize = 0;
    while i < v.len()
        invariant
            v@ == line@,
            i <= v@.len(),
            out@.len() == i,
            forall|k: int| 0 <= k < i ==> pair_char(src, tgt, v@[k]) is Some,
            forall|k: int| 0 <= k < i ==> out@[k] == pair_char(src, tgt, v@[k])->0,
        decreases v@.len() - i,
    {
        match tr_char(&src, &tgt, v[i]) {
            Ok(c2) => {
                out.push(c2);
                i += 1;
            },
            Err(e) => {
                proof {
                    assert(!(pair_char(src, tgt, line@[i as int]) is Some));
                }
                return Err(e);
            },
        }
    }
    proof {
        assert(out@ =~= pair_line(src, tgt, line@));
    }
    Ok(chars_to_string(&out))
}

/// Translate the alphanumeric characters into the given pattern.
pub fn translate_alphanumerics(line: String, pattern: Pattern) -> (r: Result<String, TrError>)
    ensures
        r is Ok <==> pair_line_ok(Pattern::Alnum, pattern, line@),
        (match r {
            Ok(out) => out@ == pair_line(Pattern::Alnum, pattern, line@),
            Err(e) => e == TrError::CodePointOverflow,
        }),
{
    translate_row(line, Pattern::Alnum, pattern)
}

/// Translate the alphabetic characters into the given pattern.
pub fn translate_alphabetic(line: String, pattern: Pattern) -> (r: Result<String, TrError>)
    ensures
        r is Ok <==> pair_line_ok(Pattern::Alpha, pattern, line@),
        (match r {
            Ok(out) => out@ == pair_line(Pattern::Alpha, pattern, line@),
            Err(e) => e == TrError::CodePointOverflow,
        }),
{
    translate_row(line, Pattern::Alpha, pattern)
}

/// Translate the space characters into the given pattern.
pub fn translate_blank(line: String, pattern: Pattern) -> (r: Result<String, TrError>)
    ensures
        r is Ok <==> pair_line_ok(Pattern::Blank, pattern, line@),
        (match r {
            Ok(out) => out@ == pair_line(Pattern::Blank, pattern, line@),
            Err(e) => e == TrError::CodePointOverflow,
        }),
{
    translate_row(line, Pattern::Blank, pattern)
}

/// Translate the control characters into the given pattern.
pub fn translate_control(line: String, pattern: Pattern) -> (r: Result<String, TrError>)
    ensures
        r is Ok <==> pair_line_ok(Pattern::Cntrl, pattern, line@),
        (match r {
            Ok(out) => out@ == pair_line(Pattern::Cntrl, pattern, line@),
            Err(e) => e == TrError::CodePointOverflow,
        }),
{
    translate_row(line, Pattern::Cntrl, pattern)
}

/// Translate the numeric characters into the given pattern.
pub fn translate_digit(line: String, pattern: Pattern) -> (r: Result<String, TrError>)
    ensures
        r is Ok <==> pair_line_ok(Pattern::Digit, pattern, line@),
        (match r {
            Ok(out) => out@ == pair_line(Pattern::Digit, pattern, line@),
            Err(e) => e == TrError::CodePointOverflow,
        }),
{
    translate_row(line, Pattern::Digit, pattern)
}

/// Translate the lowercase characters into the given pattern.
pub fn translate_lowercase(line: String, pattern: Pattern) -> (r: Result<String, TrError>)
    ensures
        r is Ok <==> pair_line_ok(Pattern::Lower, pattern, line@),
        (match r {
            Ok(out) => out@ == pair_line(Pattern::Lower, pattern, line@),
            Err(e) => e == TrError::CodePointOverflow,
        }),
{
    translate_row(line, Pattern::Lower, pattern)
}

/// Translate the uppercase characters into the given pattern.
pub fn translate_uppercase(line: String, pattern: Pattern) -> (r: Result<String, TrError>)
    ensures
        r is Ok <==> pair_line_ok(Pattern::Upper, pattern, line@),
        (match r {
            Ok(out) => out@ == pair_line(Pattern::Upper, pattern, line@),
            Err(e) => e == TrError::CodePointOverflow,
        }),
{
    translate_row(line, Pattern::Upper, pattern)
}

/// Translate one literal character into the given pattern.
pub fn translate_char(line: String, pattern1: char, pattern2: Pattern) -> (r: Result<
    String,
    TrError,
>)
    ensures
        r is Ok <==> pair_line_ok(Pattern::Char(pattern1), pattern2, line@),
        (match r {
            Ok(out) => out@ == pair_line(Pattern::Char(pattern1), pattern2, line@),
            Err(e) => e == TrError::CodePointOverflow,
        }),
{
    translate_row(line, Pattern::Char(pattern1), pattern2)
}

/// In translation, a Space source pattern behaves exactly like a Blank one:
/// both select only the ASCII space character and share one table row.
proof fn lemma_space_like_blank(tgt: Pattern, s: Seq<char>)
    ensures
        pair_line_ok(Pattern::Space, tgt, s) == pair_line_ok(Pattern::Blank, tgt, s),
        pair_line(Pattern::Space, tgt, s) == pair_line(Pattern::Blank, tgt, s),
{
    assert forall|c: char| #[trigger] pair_char(Pattern::Space, tgt, c) == pair_char(
        Pattern::Blank,
        tgt,
        c,
    ) by {}
    if pair_line_ok(Pattern::Blank, tgt, s) {
        assert forall|i: int| 0 <= i < s.len() implies pair_char(Pattern::Space, tgt, s[i])
            is Some by {
            assert(pair_char(Pattern::Space, tgt, s[i]) == pair_char(Pattern::Blank, tgt, s[i]));
        }
    }
    if pair_line_ok(Pattern::Space, tgt, s) {
        assert forall|i: int| 0 <= i < s.len() implies pair_char(Pattern::Blank, tgt, s[i])
            is Some by {
            assert(pair_char(Pattern::Space, tgt, s[i]) == pair_char(Pattern::Blank, tgt, s[i]));
        }
    }
    assert forall|i: int| 0 <= i < s.len() implies pair_line(Pattern::Space, tgt, s)[i]
        == pair_line(Pattern::Blank, tgt, s)[i] by {
        assert(pair_char(Pattern::Space, tgt, s[i]) == pair_char(Pattern::Blank, tgt, s[i]));
    }
    assert(pair_line(Pattern::Space, tgt, s) =~= pair_line(Pattern::Blank, tgt, s));
}

/// Translate the line using string1 and string2 of the arguments.
pub fn translate(line: String, args: &Cli) -> (r: Result<String, TrError>)
    requires
        args.string2 is Some,
    ensures
        (match r {
            Ok(out) => translate_result(args.string1@, (args.string2->0)@, line@) == Ok::<
                Seq<char>,
                TrError,
            >(out@),
            Err(e) => translate_result(args.string1@, (args.string2->0)@, line@) == Err::<
                Seq<char>,
                TrError,
            >(e),
        }),
{
    let string2: &String = match &args.string2 {
        Some(s) => s,
        None => {
            proof {
                assert(false);
            }
            return Err(TrError::Usage);
        },
    };
    let graphemes1 = match get_patterns(args.string1.as_str()) {
        Ok(g) => g,
        Err(e) => {
            return Err(e);
        },
    };
    let graphemes2 = match get_patterns(string2.as_str()) {
        Ok(g) => g,
        Err(e) => {
            return Err(e);
        },
    };
    let pairs = match align(&graphemes1, &graphemes2) {
        Ok(p) => p,
        Err(e) => {
            return Err(e);
        },
    };
    let ghost line0 = line@;
    let mut cur = line;
    let n = pairs.len();
    proof {
        assert(pairs@.subrange(0, n as int) =~= pairs@);
    }
    let mut k: usize = 0;
    while k < n
        invariant
            n == pairs@.len(),
            k <= n,
            args.string2 is Some,
            Some(graphemes1@) == parse_operand(args.string1@),
            Some(graphemes2@) == parse_operand((args.string2->0)@),
            graphemes1@.len() > 0 ==> graphemes2@.len() > 0,
            pairs@ == aligned(graphemes1@, graphemes2@),
            line0 == line@,
            translate_all(pairs@.subrange(k as int, n as int), cur@) == translate_all(
                pairs@,
                line0,
            ),
        decreases n - k,
    {
        let (src, tgt) = pairs[k];
        let ghost pre = cur@;
        proof {
            let sub = pairs@.subrange(k as int, n as int);
            assert(sub.drop_first() =~= pairs@.subrange(k + 1 as int, n as int));
            assert(sub[0] == pairs@[k as int]);
            assert(translate_all(sub, pre) == (if pair_line_ok(src, tgt, pre) {
                translate_all(sub.drop_first(), pair_line(src, tgt, pre))
            } else {
                None::<Seq<char>>
            }));
            if src is Space {
                lemma_space_like_blank(tgt, pre);
            }
        }
        let step = match src {
            Pattern::Alnum => translate_alphanumerics(cur, tgt),
            Pattern::Alpha => translate_alphabetic(cur, tgt),
            Pattern::Blank => translate_blank(cur, tgt),
            Pattern::Cntrl => translate_control(cur, tgt),
            Pattern::Digit => translate_digit(cur, tgt),
            Pattern::Lower => translate_lowercase(cur, tgt),
            Pattern::Space => translate_blank(cur, tgt),
            Pattern::Upper => translate_uppercase(cur, tgt),
            Pattern::Char(c) => translate_char(cur, c, tgt),
        };
        cur = match step {
            Ok(out) => out,
            Err(e) => {
                return Err(e);
            },
        };
        k += 1;
    }
    proof {
        assert(pairs@.subrange(n as int, n as int) =~= Seq::<(Pattern, Pattern)>::empty());
        assert(translate_all(Seq::<(Pattern, Pattern)>::empty(), cur@) == Some(cur@));
    }
    Ok(cur)
}

} // verus!
