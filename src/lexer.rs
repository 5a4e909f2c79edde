//! The lex driver: skips whitespace, hands each token to the scanner that
//! its first character selects, and collects the tokens in source order.
use vstd::prelude::*;
use crate::chars::{chars_of, is_valid_digit, is_valid_quote, is_valid_whitespace, is_whitespace};
use crate::scan::{lemma_token_scan_advances, scan, scan_number, scan_string, token_scan};
use crate::types::{tokens_view, LexError, LexErrorView, TokenStream, TokenView};

verus! {

/// Lexing the text `s` from index `i` on, after the tokens `acc` have been
/// produced.
pub open spec fn lex_from(s: Seq<char>, i: int, acc: Seq<TokenView>) -> Result<
    Seq<TokenView>,
    LexErrorView,
>
    decreases s.len() - i,
    via lex_from_decreases
{
    if i < 0 || i >= s.len() {
        Ok(acc)
    } else if is_whitespace(s[i]) {
        lex_from(s, i + 1, acc)
    } else {
        match token_scan(s, i) {
            Ok((tok, end)) => lex_from(s, end, acc.push(tok)),
            Err((kind, buffer)) => Err(LexErrorView { kind, buffer, tokens: acc }),
        }
    }
}

#[via_fn]
proof fn lex_from_decreases(s: Seq<char>, i: int, acc: Seq<TokenView>) {
    if 0 <= i < s.len() && !is_whitespace(s[i]) {
        lemma_token_scan_advances(s, i);
    }
}

/// The token stream of the text `s`, or the first failure.
pub open spec fn lex_text(s: Seq<char>) -> Result<Seq<TokenView>, LexErrorView> {
    lex_from(s, 0, Seq::empty())
}

/// Turns source text into its token stream. Fails, with the tokens produced
/// so far, at the first text that no scanner can turn into a token.
pub fn lex(input: String) -> (r: Result<TokenStream, LexError>)
    ensures
        match r {
            Ok(ts) => lex_text(input@) == Ok::<Seq<TokenView>, LexErrorView>(tokens_view(ts@)),
            Err(e) => lex_text(input@) == Err::<Seq<TokenView>, LexErrorView>(e@),
        },
{
    let src = chars_of(input.as_str());
    let mut tokens: TokenStream = Vec::new();
    let mut i: usize = 0;
    assert(tokens_view(tokens@) =~= Seq::<TokenView>::empty());
    while i < src.len()
        invariant
            i <= src@.len(),
            src@ == input@,
            lex_from(src@, i as int, tokens_view(tokens@)) == lex_text(input@),
        decreases src@.len() - i,
    {
        let c = src[i];
        if is_valid_whitespace(c) {
            i = i + 1;
        } else {
            let scanned = if is_valid_digit(c) {
                scan_number(src.as_slice(), i)
            } else if is_valid_quote(c) {
                scan_string(src.as_slice(), i)
            } else {
                scan(src.as_slice(), i)
            };
            proof {
                lemma_token_scan_advances(src@, i as int);
            }
            match scanned {
                Ok((tok, n)) => {
                    let ghost before = tokens@;
                    tokens.push(tok);
                    assert(tokens_view(tokens@) =~= tokens_view(before).push(tok@));
                    i = i + n;
                },
                Err(e) => {
                    return Err(LexError { kind: e.kind, buffer: e.buffer, tokens });
                },
            }
        }
    }
    Ok(tokens)
}

proof fn lemma_whitespace_rest(s: Seq<char>, i: int)
    requires
        0 <= i <= s.len(),
        forall|j: int| 0 <= j < s.len() ==> is_whitespace(#[trigger] s[j]),
    ensures
        lex_from(s, i, Seq::empty()) == Ok::<Seq<TokenView>, LexErrorView>(Seq::empty()),
    decreases s.len() - i,
{
    if i < s.len() {
        lemma_whitespace_rest(s, i + 1);
    }
}

/// A text made of whitespace alone lexes to the empty token stream.
pub proof fn lemma_whitespace_lexes_to_nothing(s: Seq<char>)
    requires
        forall|j: int| 0 <= j < s.len() ==> is_whitespace(#[trigger] s[j]),
    ensures
        lex_text(s) == Ok::<Seq<TokenView>, LexErrorView>(Seq::empty()),
{
    lemma_whitespace_rest(s, 0);
}

} // verus!
