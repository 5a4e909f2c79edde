//! The scanners: each reads one token from a given position of the source,
//! and reports how many characters the token occupies.
use vstd::prelude::*;
use crate::chars::{
    is_digit, is_ident_char, is_operator_char, is_quote, is_valid_digit, is_valid_ident_char,
    is_valid_operator_char, is_valid_quote, push_char,
    text_between,
};
use crate::classify::{operator_of, symbol_of, token_of};
use crate::types::{LexErrorKind, LiteralType, Operator, ScanError, Token, TokenView};

verus! {

/// A class of characters that a scanner consumes as a run.
#[derive(Clone, Copy, Debug, PartialEq, Eq, Structural)]
pub enum Run {
    Ident,
    Operator,
    Numeral,
    NonQuote,
}

/// Whether the character at `i` continues a run of class `k`. A numeral takes
/// digits, and dots but for a dot that starts a `..`, which is left for the
/// range operator.
pub open spec fn in_run_at(s: Seq<char>, i: int, k: Run) -> bool {
    match k {
        Run::Ident => is_ident_char(s[i]),
        Run::Operator => is_operator_char(s[i]),
        Run::Numeral => is_digit(s[i]) || (s[i] == '.' && !(i + 1 < s.len() && s[i + 1] == '.')),
        Run::NonQuote => !is_quote(s[i]),
    }
}

/// The index just past the longest run of class `k` that starts at `i`.
pub open spec fn run_end(s: Seq<char>, i: int, k: Run) -> int
    decreases s.len() - i,
{
    if 0 <= i < s.len() && in_run_at(s, i, k) {
        run_end(s, i + 1, k)
    } else {
        i
    }
}

/// What a scanner yields: a token and the index just past it, or the kind of
/// failure and the text gathered.
pub type ScanOutcome = Result<(TokenView, int), (LexErrorKind, Seq<char>)>;

/// A number: the longest run of digits and dots from `i` that stops before
/// a `..`, which must classify as a number literal.
pub open spec fn number_scan(s: Seq<char>, i: int) -> ScanOutcome {
    let end = run_end(s, i + 1, Run::Numeral);
    let t = s.subrange(i, end);
    if token_of(t) == Some(TokenView::Literal(LiteralType::Number, t)) {
        Ok((TokenView::Literal(LiteralType::Number, t), end))
    } else {
        Err((LexErrorKind::UnrecognizedToken, t))
    }
}

/// A string: everything from the opening quote at `i` up to and including
/// the next quote of either kind, which must classify as a token.
pub open spec fn string_scan(s: Seq<char>, i: int) -> ScanOutcome {
    let k = run_end(s, i + 1, Run::NonQuote);
    if k >= s.len() {
        Err((LexErrorKind::UnterminatedLiteral, s.subrange(i, s.len() as int)))
    } else {
        let t = s.subrange(i, k + 1);
        match token_of(t) {
            Some(tok) => Ok((tok, k + 1)),
            None => Err((LexErrorKind::UnrecognizedToken, t)),
        }
    }
}

/// A word: the longest run of identifier characters from `i`; a keyword or
/// literal where it classifies as one, else an identifier.
pub open spec fn word_scan(s: Seq<char>, i: int) -> ScanOutcome {
    let end = run_end(s, i + 1, Run::Ident);
    let t = s.subrange(i, end);
    match token_of(t) {
        Some(tok) => Ok((tok, end)),
        None => Ok((TokenView::Identifier(t), end)),
    }
}

/// An operator: the longest run of operator characters from `i`, which must
/// be exactly one operator.
pub open spec fn operator_scan(s: Seq<char>, i: int) -> ScanOutcome {
    let end = run_end(s, i + 1, Run::Operator);
    let t = s.subrange(i, end);
    match operator_of(t) {
        Some(o) => Ok((TokenView::Operator(o), end)),
        None => Err((LexErrorKind::UnrecognizedToken, t)),
    }
}

/// A symbol: the shortest text from `i` that is at least `s[i..j]` and forms
/// an operator or a punctuation.
pub open spec fn symbol_scan(s: Seq<char>, i: int, j: int) -> ScanOutcome
    decreases s.len() - j,
{
    let t = s.subrange(i, j);
    match symbol_of(t) {
        Some(tok) => Ok((tok, j)),
        None => if j < s.len() {
            symbol_scan(s, i, j + 1)
        } else {
            Err((LexErrorKind::UnrecognizedToken, t))
        },
    }
}

/// The general scanner, in the mode that the character at `i` selects.
pub open spec fn general_scan(s: Seq<char>, i: int) -> ScanOutcome {
    if is_ident_char(s[i]) {
        word_scan(s, i)
    } else if is_operator_char(s[i]) {
        operator_scan(s, i)
    } else {
        symbol_scan(s, i, i + 1)
    }
}

/// The scanner that the character at `i` selects.
pub open spec fn token_scan(s: Seq<char>, i: int) -> ScanOutcome {
    if is_digit(s[i]) {
        number_scan(s, i)
    } else if is_quote(s[i]) {
        string_scan(s, i)
    } else {
        general_scan(s, i)
    }
}

/// The outcome of an executable scanner that started at `start`, with the
/// count of characters consumed turned into the index just past the token.
pub open spec fn outcome_view(r: Result<(Token, usize), ScanError>, start: int) -> ScanOutcome {
    match r {
        Ok((tok, n)) => Ok((tok@, start + n)),
        Err(e) => Err(e@),
    }
}

/// A run ends inside the text, at or after its start; every character of it
/// belongs to the class, and the one after it does not.
pub proof fn lemma_run_end(s: Seq<char>, i: int, k: Run)
    requires
        0 <= i <= s.len(),
    ensures
        i <= run_end(s, i, k) <= s.len(),
        forall|j: int| i <= j < run_end(s, i, k) ==> #[trigger] in_run_at(s, j, k),
        run_end(s, i, k) < s.len() ==> !in_run_at(s, run_end(s, i, k), k),
    decreases s.len() - i,
{
    if i < s.len() && in_run_at(s, i, k) {
        lemma_run_end(s, i + 1, k);
    }
}

/// A symbol ends inside the text, at or after `j`.
pub proof fn lemma_symbol_scan_end(s: Seq<char>, i: int, j: int)
    requires
        0 <= i < j <= s.len(),
    ensures
        symbol_scan(s, i, j) matches Ok((_, e)) ==> j <= e <= s.len(),
    decreases s.len() - j,
{
    if symbol_of(s.subrange(i, j)) is None && j < s.len() {
        lemma_symbol_scan_end(s, i, j + 1);
    }
}

/// Every token occupies at least one character, inside the text.
pub proof fn lemma_token_scan_advances(s: Seq<char>, i: int)
    requires
        0 <= i < s.len(),
    ensures
        token_scan(s, i) matches Ok((_, e)) ==> i < e <= s.len(),
{
    lemma_run_end(s, i + 1, Run::Numeral);
    lemma_run_end(s, i + 1, Run::NonQuote);
    lemma_run_end(s, i + 1, Run::Ident);
    lemma_run_end(s, i + 1, Run::Operator);
    lemma_symbol_scan_end(s, i, i + 1);
}

fn in_run_exec(src: &[char], j: usize, k: Run) -> (r: bool)
    requires
        j < src@.len(),
    ensures
        r == in_run_at(src@, j as int, k),
{
    let len = src.len();
    let c = src[j];
    match k {
        Run::Ident => is_valid_ident_char(c),
        Run::Operator => is_valid_operator_char(c),
        Run::Numeral => is_valid_digit(c) || (c == '.' && !(j + 1 < len && src[j + 1] == '.')),
        Run::NonQuote => !is_valid_quote(c),
    }
}

/// The index just past the longest run of class `k` that starts at `from`.
fn run_end_at(src: &[char], from: usize, k: Run) -> (end: usize)
    requires
        from <= src@.len(),
    ensures
        end == run_end(src@, from as int, k),
        from <= end <= src@.len(),
{
    let mut j: usize = from;
    while j < src.len() && in_run_exec(src, j, k)
        invariant
            from <= j <= src@.len(),
            run_end(src@, j as int, k) == run_end(src@, from as int, k),
        decreases src@.len() - j,
    {
        j = j + 1;
    }
    j
}

/// Reads a number that starts with the digit at `start`.
pub fn scan_number(src: &[char], start: usize) -> (r: Result<(Token, usize), ScanError>)
    requires
        start < src@.len(),
        is_digit(src@[start as int]),
    ensures
        outcome_view(r, start as int) == number_scan(src@, start as int),
{
    let end = run_end_at(src, start, Run::Numeral);
    let buffer = text_between(src, start, end);
    match Token::classify(&buffer) {
        Some(Token::Literal(l)) => {
            if l.ty == LiteralType::Number {
                Ok((Token::Literal(l), end - start))
            } else {
                Err(ScanError { kind: LexErrorKind::UnrecognizedToken, buffer })
            }
        },
        _ => Err(ScanError { kind: LexErrorKind::UnrecognizedToken, buffer }),
    }
}

/// Reads a string that opens with the quote at `start`.
pub fn scan_string(src: &[char], start: usize) -> (r: Result<(Token, usize), ScanError>)
    requires
        start < src@.len(),
        is_quote(src@[start as int]),
    ensures
        outcome_view(r, start as int) == string_scan(src@, start as int),
{
    let len = src.len();
    let close = run_end_at(src, start + 1, Run::NonQuote);
    if close >= len {
        let buffer = text_between(src, start, len);
        return Err(ScanError { kind: LexErrorKind::UnterminatedLiteral, buffer });
    }
    let buffer = text_between(src, start, close + 1);
    match Token::classify(&buffer) {
        Some(tok) => Ok((tok, close + 1 - start)),
        None => Err(ScanError { kind: LexErrorKind::UnrecognizedToken, buffer }),
    }
}

/// Reads a word, an operator or a symbol from `start`, in the mode that the
/// character there selects.
pub fn scan(src: &[char], start: usize) -> (r: Result<(Token, usize), ScanError>)
    requires
        start < src@.len(),
    ensures
        outcome_view(r, start as int) == general_scan(src@, start as int),
{
    let len = src.len();
    let c = src[start];
    if is_valid_ident_char(c) {
        let end = run_end_at(src, start, Run::Ident);
        let buffer = text_between(src, start, end);
        match Token::classify(&buffer) {
            Some(tok) => Ok((tok, end - start)),
            None => Ok((Token::Identifier(buffer), end - start)),
        }
    } else if is_valid_operator_char(c) {
        let end = run_end_at(src, start, Run::Operator);
        let buffer = text_between(src, start, end);
        match Operator::from_text(&buffer) {
            Some(o) => Ok((Token::Operator(o), end - start)),
            None => Err(ScanError { kind: LexErrorKind::UnrecognizedToken, buffer }),
        }
    } else {
        assert(general_scan(src@, start as int) == symbol_scan(src@, start as int, start + 1));
        let mut buffer = text_between(src, start, start + 1);
        let mut j: usize = start + 1;
        loop
            invariant
                start < j <= src@.len(),
                len == src@.len(),
                buffer@ == src@.subrange(start as int, j as int),
                symbol_scan(src@, start as int, j as int) == general_scan(src@, start as int),
            decreases src@.len() - j,
        {
            let found = Token::classify_symbol(&buffer);
            if let Some(tok) = found {
                return Ok((tok, j - start));
            }
            if j < len {
                push_char(&mut buffer, src[j]);
                j = j + 1;
                assert(buffer@ =~= src@.subrange(start as int, j as int));
            } else {
                return Err(ScanError { kind: LexErrorKind::UnrecognizedToken, buffer });
            }
        }
    }
}

} // verus!
