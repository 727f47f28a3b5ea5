//! Tokenizer for the upstream wire format (JSON).
//!
//! `lex_from` is the defining specification: it maps raw response bytes to
//! the token sequence, or to nothing when the bytes are not well formed.
//! The executable lexer is proved to return exactly that token sequence.
//!
//! Strings are accepted as printable ASCII with the simple backslash
//! escapes; a number that is not a plain integer in the signed 64-bit range
//! is tokenized as `NumOther`, which parsers of integer-valued fields
//! refuse, as the upstream contract demands.
use vstd::prelude::*;

verus! {

/// Appends one character.
///
/// Relies on String::push: appends exactly the given character.
#[verifier::external_body]
pub(crate) fn push_char(s: &mut String, c: char)
    ensures
        final(s)@ == old(s)@.push(c),
{
    s.push(c);
}

/// One token of the wire format.
pub enum Tok {
    /// `{`
    LBrace,
    /// `}`
    RBrace,
    /// `[`
    LBrack,
    /// `]`
    RBrack,
    /// `:`
    Colon,
    /// `,`
    Comma,
    /// `null`
    Null,
    /// `true`
    True,
    /// `false`
    False,
    /// A string literal, decoded.
    Str(String),
    /// An integer literal in the signed 64-bit range.
    Int(i64),
    /// A well-formed number that is not such an integer.
    NumOther,
}

/// The mathematical image of one token.
pub enum TokM {
    LBrace,
    RBrace,
    LBrack,
    RBrack,
    Colon,
    Comma,
    Null,
    True,
    False,
    Str(Seq<char>),
    Int(int),
    NumOther,
}

/// The mathematical image of a token.
pub open spec fn tok_model(t: Tok) -> TokM {
    match t {
        Tok::LBrace => TokM::LBrace,
        Tok::RBrace => TokM::RBrace,
        Tok::LBrack => TokM::LBrack,
        Tok::RBrack => TokM::RBrack,
        Tok::Colon => TokM::Colon,
        Tok::Comma => TokM::Comma,
        Tok::Null => TokM::Null,
        Tok::True => TokM::True,
        Tok::False => TokM::False,
        Tok::Str(s) => TokM::Str(s@),
        Tok::Int(v) => TokM::Int(v as int),
        Tok::NumOther => TokM::NumOther,
    }
}

/// The mathematical image of a token sequence.
pub open spec fn toks_model(ts: Seq<Tok>) -> Seq<TokM> {
    ts.map_values(|t: Tok| tok_model(t))
}

/// Wire-format whitespace.
pub open spec fn is_ws(b: u8) -> bool {
    b == 32 || b == 9 || b == 10 || b == 13
}

/// An ASCII digit.
pub open spec fn is_digit(b: u8) -> bool {
    48 <= b <= 57
}

/// The character named by a backslash escape, if the escape is accepted.
pub open spec fn esc_char(b: u8) -> Option<char> {
    if b == 34 {
        Some('"')
    } else if b == 92 {
        Some('\\')
    } else if b == 47 {
        Some('/')
    } else if b == 98 {
        Some('\u{8}')
    } else if b == 102 {
        Some('\u{c}')
    } else if b == 110 {
        Some('\n')
    } else if b == 114 {
        Some('\r')
    } else if b == 116 {
        Some('\t')
    } else {
        None
    }
}

/// The body of a string literal from position `i` (just past the opening
/// quote): its characters and the position just past the closing quote.
pub open spec fn lex_str_body(s: Seq<u8>, i: int) -> Option<(Seq<char>, int)>
    decreases s.len() - i,
{
    if i < 0 || i >= s.len() {
        None
    } else if s[i] == 34 {
        Some((Seq::empty(), i + 1))
    } else if s[i] == 92 {
        if i + 1 >= s.len() {
            None
        } else {
            match esc_char(s[i + 1]) {
                None => None,
                Some(c) => match lex_str_body(s, i + 2) {
                    None => None,
                    Some((cs, j)) => Some((seq![c] + cs, j)),
                },
            }
        }
    } else if 32 <= s[i] && s[i] < 127 {
        match lex_str_body(s, i + 1) {
            None => None,
            Some((cs, j)) => Some((seq![s[i] as char] + cs, j)),
        }
    } else {
        None
    }
}

/// The first position at or past `i` that does not hold a digit.
pub open spec fn digits_end(s: Seq<u8>, i: int) -> int
    decreases s.len() - i,
{
    if 0 <= i < s.len() && is_digit(s[i]) {
        digits_end(s, i + 1)
    } else {
        i
    }
}

pub proof fn lemma_digits_end_bounds(s: Seq<u8>, i: int)
    requires
        0 <= i <= s.len(),
    ensures
        i <= digits_end(s, i) <= s.len(),
        forall|k: int| i <= k < digits_end(s, i) ==> is_digit(s[k]),
    decreases s.len() - i,
{
    if i < s.len() && is_digit(s[i]) {
        lemma_digits_end_bounds(s, i + 1);
    }
}

/// The value of the digit run `s[i..j)`.
pub open spec fn digits_val(s: Seq<u8>, i: int, j: int) -> int
    decreases j - i,
{
    if i >= j {
        0
    } else {
        digits_val(s, i, j - 1) * 10 + (s[j - 1] - 48)
    }
}

pub proof fn lemma_digits_val_nonneg(s: Seq<u8>, i: int, j: int)
    requires
        forall|k: int| i <= k < j ==> is_digit(s[k]),
    ensures
        digits_val(s, i, j) >= 0,
    decreases j - i,
{
    if i < j {
        lemma_digits_val_nonneg(s, i, j - 1);
    }
}

/// A digit run's value never shrinks as the run extends.
pub proof fn lemma_digits_val_grows(s: Seq<u8>, i: int, j: int, k: int)
    requires
        i <= j <= k,
        forall|m: int| i <= m < k ==> is_digit(s[m]),
    ensures
        digits_val(s, i, k) >= digits_val(s, i, j),
    decreases k - j,
{
    if j < k {
        lemma_digits_val_grows(s, i, j, k - 1);
        lemma_digits_val_nonneg(s, i, k - 1);
    }
}

/// The fraction and exponent tail of a number starting at `i`: the position
/// just past the number and whether the tail was absent (a plain integer).
pub open spec fn num_tail(s: Seq<u8>, i: int) -> Option<(int, bool)> {
    let frac = if 0 <= i < s.len() && s[i] == 46 {
        let fe = digits_end(s, i + 1);
        if fe > i + 1 {
            Some((fe, true))
        } else {
            None
        }
    } else {
        Some((i, false))
    };
    match frac {
        None => None,
        Some((fend, has_frac)) => {
            if 0 <= fend < s.len() && (s[fend] == 101 || s[fend] == 69) {
                let sp = if fend + 1 < s.len() && (s[fend + 1] == 43 || s[fend + 1] == 45) {
                    fend + 2
                } else {
                    fend + 1
                };
                let ee = digits_end(s, sp);
                if ee > sp {
                    Some((ee, false))
                } else {
                    None
                }
            } else {
                Some((fend, !has_frac))
            }
        },
    }
}

/// A number token starting at `i`: an `Int` when it is a plain integer in
/// the signed 64-bit range, `NumOther` when it is any other well-formed
/// number.
pub open spec fn lex_number(s: Seq<u8>, i: int) -> Option<(TokM, int)> {
    let neg = 0 <= i < s.len() && s[i] == 45;
    let d0 = if neg {
        i + 1
    } else {
        i
    };
    if !(0 <= d0 < s.len() && is_digit(s[d0])) {
        None
    } else {
        let dend = digits_end(s, d0);
        if s[d0] == 48 && dend > d0 + 1 {
            None
        } else {
            match num_tail(s, dend) {
                None => None,
                Some((nend, plain)) => {
                    let v = if neg {
                        -digits_val(s, d0, dend)
                    } else {
                        digits_val(s, d0, dend)
                    };
                    if plain && i64::MIN <= v <= i64::MAX {
                        Some((TokM::Int(v), nend))
                    } else {
                        Some((TokM::NumOther, nend))
                    }
                },
            }
        }
    }
}

/// One token starting exactly at position `i`.
pub open spec fn lex_tok(s: Seq<u8>, i: int) -> Option<(TokM, int)> {
    if !(0 <= i < s.len()) {
        None
    } else {
        let b = s[i];
        if b == 123 {
            Some((TokM::LBrace, i + 1))
        } else if b == 125 {
            Some((TokM::RBrace, i + 1))
        } else if b == 91 {
            Some((TokM::LBrack, i + 1))
        } else if b == 93 {
            Some((TokM::RBrack, i + 1))
        } else if b == 58 {
            Some((TokM::Colon, i + 1))
        } else if b == 44 {
            Some((TokM::Comma, i + 1))
        } else if b == 34 {
            match lex_str_body(s, i + 1) {
                None => None,
                Some((cs, j)) => Some((TokM::Str(cs), j)),
            }
        } else if b == 45 || is_digit(b) {
            lex_number(s, i)
        } else if b == 110 {
            if s.len() - i >= 4 && s[i + 1] == 117 && s[i + 2] == 108 && s[i + 3] == 108 {
                Some((TokM::Null, i + 4))
            } else {
                None
            }
        } else if b == 116 {
            if s.len() - i >= 4 && s[i + 1] == 114 && s[i + 2] == 117 && s[i + 3] == 101 {
                Some((TokM::True, i + 4))
            } else {
                None
            }
        } else if b == 102 {
            if i + 5 <= s.len() && s[i + 1] == 97 && s[i + 2] == 108 && s[i + 3] == 115 && s[i
                + 4] == 101 {
                Some((TokM::False, i + 5))
            } else {
                None
            }
        } else {
            None
        }
    }
}

/// The token sequence of `s` from position `i` on; the defining
/// specification of the tokenizer.
pub open spec fn lex_from(s: Seq<u8>, i: int) -> Option<Seq<TokM>>
    decreases s.len() - i,
{
    if i < 0 {
        None
    } else if i >= s.len() {
        Some(Seq::empty())
    } else if is_ws(s[i]) {
        lex_from(s, i + 1)
    } else {
        match lex_tok(s, i) {
            None => None,
            Some((t, j)) => if i < j <= s.len() {
                match lex_from(s, j) {
                    None => None,
                    Some(rest) => Some(seq![t] + rest),
                }
            } else {
                None
            },
        }
    }
}

/// The token sequence of the whole input.
pub open spec fn lex(s: Seq<u8>) -> Option<Seq<TokM>> {
    lex_from(s, 0)
}

fn lex_string_x(s: &Vec<u8>, i: usize) -> (r: Option<(String, usize)>)
    requires
        i <= s@.len(),
    ensures
        match r {
            Some(p) => lex_str_body(s@, i as int) == Some((p.0@, p.1 as int)) && i < p.1
                <= s@.len(),
            None => lex_str_body(s@, i as int) is None,
        },
    decreases s@.len() - i,
{
    if i >= s.len() {
        return None;
    }
    let b = s[i];
    if b == 34 {
        Some((String::new(), i + 1))
    } else if b == 92 {
        if i + 1 >= s.len() {
            return None;
        }
        let e = s[i + 1];
        let c: char = if e == 34 {
            '"'
        } else if e == 92 {
            '\\'
        } else if e == 47 {
            '/'
        } else if e == 98 {
            '\u{8}'
        } else if e == 102 {
            '\u{c}'
        } else if e == 110 {
            '\n'
        } else if e == 114 {
            '\r'
        } else if e == 116 {
            '\t'
        } else {
            return None;
        };
        match lex_string_x(s, i + 2) {
            None => None,
            Some((rest, j)) => {
                let mut out = String::new();
                push_char(&mut out, c);
                out.append(rest.as_str());
                proof {
                    assert(out@ =~= seq![c] + rest@);
                }
                Some((out, j))
            },
        }
    } else if 32 <= b && b < 127 {
        match lex_string_x(s, i + 1) {
            None => None,
            Some((rest, j)) => {
                let mut out = String::new();
                push_char(&mut out, b as char);
                out.append(rest.as_str());
                proof {
                    assert(out@ =~= seq![s@[i as int] as char] + rest@);
                }
                Some((out, j))
            },
        }
    } else {
        None
    }
}

fn digits_end_x(s: &Vec<u8>, i: usize) -> (r: usize)
    requires
        i <= s@.len(),
    ensures
        r as int == digits_end(s@, i as int),
        i <= r <= s@.len(),
    decreases s@.len() - i,
{
    if i < s.len() && 48 <= s[i] && s[i] <= 57 {
        digits_end_x(s, i + 1)
    } else {
        i
    }
}

/// The value of the digit run `s[i..j)`, or nothing when it exceeds the
/// unsigned 64-bit range.
fn digits_value_x(s: &Vec<u8>, i: usize, j: usize) -> (r: Option<u64>)
    requires
        i <= j <= s@.len(),
        forall|k: int| i <= k < j ==> is_digit(s@[k]),
    ensures
        match r {
            Some(m) => m as int == digits_val(s@, i as int, j as int),
            None => digits_val(s@, i as int, j as int) > u64::MAX,
        },
{
    let mut m: u64 = 0;
    let mut k: usize = i;
    while k < j
        invariant
            i <= k <= j <= s@.len(),
            forall|t: int| i <= t < j ==> is_digit(s@[t]),
            m as int == digits_val(s@, i as int, k as int),
        decreases j - k,
    {
        let d: u64 = (s[k] - 48) as u64;
        if m > (u64::MAX - d) / 10 {
            proof {
                assert(digits_val(s@, i as int, k as int + 1) == m * 10 + d);
                assert(m * 10 + d > u64::MAX) by (nonlinear_arith)
                    requires
                        m > (u64::MAX - d) / 10,
                        d <= 9,
                ;
                lemma_digits_val_grows(s@, i as int, k as int + 1, j as int);
            }
            return None;
        }
        m = m * 10 + d;
        k = k + 1;
    }
    Some(m)
}

/// The fraction and exponent tail of a number.
fn num_tail_x(s: &Vec<u8>, i: usize) -> (r: Option<(usize, bool)>)
    requires
        i <= s@.len(),
    ensures
        match r {
            Some(p) => num_tail(s@, i as int) == Some((p.0 as int, p.1)) && i <= p.0 <= s@.len(),
            None => num_tail(s@, i as int) is None,
        },
{
    let mut fend: usize = i;
    let mut has_frac = false;
    if i < s.len() && s[i] == 46 {
        let fe = digits_end_x(s, i + 1);
        if fe > i + 1 {
            fend = fe;
            has_frac = true;
        } else {
            return None;
        }
    }
    if fend < s.len() && (s[fend] == 101 || s[fend] == 69) {
        let sp: usize = if fend + 1 < s.len() && (s[fend + 1] == 43 || s[fend + 1] == 45) {
            fend + 2
        } else {
            fend + 1
        };
        let ee = digits_end_x(s, sp);
        if ee > sp {
            Some((ee, false))
        } else {
            None
        }
    } else {
        Some((fend, !has_frac))
    }
}

fn lex_number_x(s: &Vec<u8>, i: usize) -> (r: Option<(Tok, usize)>)
    requires
        i < s@.len(),
        s@[i as int] == 45 || is_digit(s@[i as int]),
    ensures
        match r {
            Some(p) => lex_number(s@, i as int) == Some((tok_model(p.0), p.1 as int)) && i < p.1
                <= s@.len(),
            None => lex_number(s@, i as int) is None,
        },
{
    let n = s.len();
    let neg = s[i] == 45;
    let d0: usize = if neg {
        i + 1
    } else {
        i
    };
    if !(d0 < n && 48 <= s[d0] && s[d0] <= 57) {
        return None;
    }
    let dend = digits_end_x(s, d0);
    proof {
        lemma_digits_end_bounds(s@, d0 as int);
    }
    if s[d0] == 48 && dend > d0 + 1 {
        return None;
    }
    let tail = num_tail_x(s, dend);
    match tail {
        None => None,
        Some((nend, plain)) => {
            proof {
                assert(digits_end(s@, d0 as int) == digits_end(s@, d0 as int + 1));
                lemma_digits_end_bounds(s@, d0 as int + 1);
                assert(dend > d0);
            }
            let mag = digits_value_x(s, d0, dend);
            let tok: Tok = if !plain {
                Tok::NumOther
            } else {
                match mag {
                    None => {
                        proof {
                            lemma_digits_val_nonneg(s@, d0 as int, dend as int);
                        }
                        Tok::NumOther
                    },
                    Some(m) => {
                        if neg {
                            if m <= 9223372036854775808u64 {
                                if m == 9223372036854775808u64 {
                                    Tok::Int(i64::MIN)
                                } else {
                                    Tok::Int(-(m as i64))
                                }
                            } else {
                                Tok::NumOther
                            }
                        } else {
                            if m <= i64::MAX as u64 {
                                Tok::Int(m as i64)
                            } else {
                                Tok::NumOther
                            }
                        }
                    },
                }
            };
            proof {
                lemma_digits_val_nonneg(s@, d0 as int, dend as int);
            }
            Some((tok, nend))
        },
    }
}

/// The executable tokenizer for the suffix of `s` from `i` on.
fn lex_toks_from(s: &Vec<u8>, i: usize) -> (r: Option<Vec<Tok>>)
    requires
        i <= s@.len(),
    ensures
        match r {
            Some(ts) => lex_from(s@, i as int) == Some(toks_model(ts@)),
            None => lex_from(s@, i as int) is None,
        },
    decreases s@.len() - i,
{
    if i >= s.len() {
        let ts: Vec<Tok> = Vec::new();
        proof {
            assert(toks_model(ts@) =~= Seq::<TokM>::empty());
        }
        return Some(ts);
    }
    let b = s[i];
    if b == 32 || b == 9 || b == 10 || b == 13 {
        return lex_toks_from(s, i + 1);
    }
    let tj: (Tok, usize) = if b == 123 {
        (Tok::LBrace, i + 1)
    } else if b == 125 {
        (Tok::RBrace, i + 1)
    } else if b == 91 {
        (Tok::LBrack, i + 1)
    } else if b == 93 {
        (Tok::RBrack, i + 1)
    } else if b == 58 {
        (Tok::Colon, i + 1)
    } else if b == 44 {
        (Tok::Comma, i + 1)
    } else if b == 34 {
        match lex_string_x(s, i + 1) {
            None => {
                return None;
            },
            Some((st, j)) => (Tok::Str(st), j),
        }
    } else if b == 45 || (48 <= b && b <= 57) {
        match lex_number_x(s, i) {
            None => {
                return None;
            },
            Some(p) => p,
        }
    } else if b == 110 {
        if s.len() - i >= 4 && s[i + 1] == 117 && s[i + 2] == 108 && s[i + 3] == 108 {
            (Tok::Null, i + 4)
        } else {
            return None;
        }
    } else if b == 116 {
        if s.len() - i >= 4 && s[i + 1] == 114 && s[i + 2] == 117 && s[i + 3] == 101 {
            (Tok::True, i + 4)
        } else {
            return None;
        }
    } else if b == 102 {
        if s.len() - i >= 5 && s[i + 1] == 97 && s[i + 2] == 108 && s[i + 3] == 115 && s[i
            + 4] == 101 {
            (Tok::False, i + 5)
        } else {
            return None;
        }
    } else {
        return None;
    };
    let (t, j) = tj;
    match lex_toks_from(s, j) {
        None => None,
        Some(mut rest) => {
            let ghost restm = rest@;
            rest.insert(0, t);
            proof {
                assert(toks_model(rest@) =~= seq![tok_model(t)] + toks_model(restm));
            }
            Some(rest)
        },
    }
}

/// Tokenizes one raw response body; returns exactly the token sequence that
/// `lex` assigns to it, or nothing when the body is not well formed.
pub fn lex_bytes(s: &Vec<u8>) -> (r: Option<Vec<Tok>>)
    ensures
        match r {
            Some(ts) => lex(s@) == Some(toks_model(ts@)),
            None => lex(s@) is None,
        },
{
    lex_toks_from(s, 0)
}

} // verus!
