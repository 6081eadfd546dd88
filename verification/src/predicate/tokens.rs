use vstd::prelude::*;
use crate::xml::{spec_is_whitespace_char, is_whitespace_char};
use crate::text::{chars_of, string_from_chars, slice_chars};

verus! {

/// A punctuation token of the predicate language.
#[derive(Debug, Clone, Copy, PartialEq, Eq, Structural)]
pub enum Symbol {
    Slash,
    Comma,
    Ellipsis,
    SquareBracketOpen,
    SquareBracketClose,
    RoundBracketOpen,
    RoundBracketClose,
}

impl Symbol {
    /// How the symbol is written.
    pub open spec fn spec_to_str(self) -> Seq<char> {
        match self {
            Symbol::Slash => seq!['/'],
            Symbol::Comma => seq![','],
            Symbol::Ellipsis => seq!['.', '.'],
            Symbol::SquareBracketOpen => seq!['['],
            Symbol::SquareBracketClose => seq![']'],
            Symbol::RoundBracketOpen => seq!['('],
            Symbol::RoundBracketClose => seq![')'],
        }
    }

    /// How the symbol is written: `/`, `,`, `..`, `[`, `]`, `(` or `)`.
    pub fn to_str(self) -> (r: &'static str)
        ensures
            r@ == self.spec_to_str(),
    {
        match self {
            Symbol::Slash => {
                proof { reveal_strlit("/"); }
                "/"
            },
            Symbol::Comma => {
                proof { reveal_strlit(","); }
                ","
            },
            Symbol::Ellipsis => {
                proof { reveal_strlit(".."); }
                ".."
            },
            Symbol::SquareBracketOpen => {
                proof { reveal_strlit("["); }
                "["
            },
            Symbol::SquareBracketClose => {
                proof { reveal_strlit("]"); }
                "]"
            },
            Symbol::RoundBracketOpen => {
                proof { reveal_strlit("("); }
                "("
            },
            Symbol::RoundBracketClose => {
                proof { reveal_strlit(")"); }
                ")"
            },
        }
    }
}

/// A word of the predicate language: a run of ASCII letters, digits and `_`.
#[derive(Debug, Clone, PartialEq, Eq)]
pub struct Ident {
    pub contents: String,
}

/// A token of the predicate language.
#[derive(Debug, Clone, PartialEq, Eq)]
pub enum Token {
    Symbol(Symbol),
    Ident(Ident),
}

/// A token as plain values.
pub enum TokenView {
    Symbol(Symbol),
    Ident(Seq<char>),
}

impl View for Token {
    type V = TokenView;

    open spec fn view(&self) -> TokenView {
        match self {
            Token::Symbol(s) => TokenView::Symbol(*s),
            Token::Ident(i) => TokenView::Ident(i.contents@),
        }
    }
}

/// The tokens of `v` as plain values.
pub open spec fn tokens_view(v: Seq<Token>) -> Seq<TokenView> {
    v.map_values(|t: Token| t@)
}

/// Whether `c` may stand in a word.
pub open spec fn is_ident_char(c: char) -> bool {
    ('a' <= c && c <= 'z') || ('A' <= c && c <= 'Z') || ('0' <= c && c <= '9') || c == '_'
}

/// The symbol written at `p` in `s`, and where it ends.
pub open spec fn spec_symbol_at(s: Seq<char>, p: int) -> Option<(Symbol, int)> {
    if 0 <= p < s.len() {
        let c = s[p];
        if c == '/' {
            Some((Symbol::Slash, p + 1))
        } else if c == ',' {
            Some((Symbol::Comma, p + 1))
        } else if c == '.' && p + 1 < s.len() && s[p + 1] == '.' {
            Some((Symbol::Ellipsis, p + 2))
        } else if c == '[' {
            Some((Symbol::SquareBracketOpen, p + 1))
        } else if c == ']' {
            Some((Symbol::SquareBracketClose, p + 1))
        } else if c == '(' {
            Some((Symbol::RoundBracketOpen, p + 1))
        } else if c == ')' {
            Some((Symbol::RoundBracketClose, p + 1))
        } else {
            None
        }
    } else {
        None
    }
}

/// Where the run of word characters that starts at `p` ends.
pub open spec fn spec_ident_end(s: Seq<char>, p: int) -> int
    decreases s.len() - p,
{
    if 0 <= p < s.len() && is_ident_char(s[p]) {
        spec_ident_end(s, p + 1)
    } else {
        p
    }
}

/// Where the run of whitespace that starts at `p` ends.
pub open spec fn spec_skip_whitespace(s: Seq<char>, p: int) -> int
    decreases s.len() - p,
{
    if 0 <= p < s.len() && spec_is_whitespace_char(s[p]) {
        spec_skip_whitespace(s, p + 1)
    } else {
        p
    }
}

/// The token that starts at `p` in `s`, and where it ends: a symbol, else
/// the longest word there.
pub open spec fn spec_token_at(s: Seq<char>, p: int) -> Option<(TokenView, int)> {
    match spec_symbol_at(s, p) {
        Some((sym, e)) => Some((TokenView::Symbol(sym), e)),
        None => {
            let e = spec_ident_end(s, p);
            if e > p {
                Some((TokenView::Ident(s.subrange(p, e)), e))
            } else {
                None
            }
        },
    }
}

/// A run ends no earlier than it starts.
pub proof fn lemma_runs_advance(s: Seq<char>, p: int)
    requires
        0 <= p,
    ensures
        spec_skip_whitespace(s, p) >= p,
        spec_ident_end(s, p) >= p,
        spec_skip_whitespace(s, p) <= s.len() || spec_skip_whitespace(s, p) == p,
        spec_ident_end(s, p) <= s.len() || spec_ident_end(s, p) == p,
    decreases s.len() - p,
{
    if 0 <= p < s.len() {
        lemma_runs_advance(s, p + 1);
    }
}

/// The tokens of `s` from `p` on, each with the whitespace around it; or,
/// when something there is neither whitespace nor a token, the position of
/// the first such character.
pub open spec fn spec_tokens_from(s: Seq<char>, p: int) -> Result<Seq<TokenView>, int>
    decreases s.len() - p,
{
    if p < 0 || p >= s.len() {
        Ok(Seq::empty())
    } else {
        let q = spec_skip_whitespace(s, p);
        match spec_token_at(s, q) {
            Some((t, e)) => {
                proof {
                    lemma_runs_advance(s, p);
                    lemma_runs_advance(s, q);
                    lemma_runs_advance(s, e);
                }
                match spec_tokens_from(s, spec_skip_whitespace(s, e)) {
                    Ok(rest) => Ok(seq![t] + rest),
                    Err(at) => Err(at),
                }
            },
            None => Err(q),
        }
    }
}

/// The tokens of `s`: words and symbols, with whitespace between and around
/// them; the text fails at the first character that is neither (a text of
/// whitespace alone fails at its end).
pub open spec fn spec_tokenize(s: Seq<char>) -> Result<Seq<TokenView>, int> {
    spec_tokens_from(s, 0)
}

/// Where the run of whitespace that starts at `p` ends.
fn skip_whitespace(s: &Vec<char>, p: usize) -> (r: usize)
    requires
        p <= s@.len(),
    ensures
        r == spec_skip_whitespace(s@, p as int),
        p <= r <= s@.len(),
{
    let mut q = p;
    while q < s.len() && is_whitespace_char(s[q])
        invariant
            p <= q <= s@.len(),
            spec_skip_whitespace(s@, p as int) == spec_skip_whitespace(s@, q as int),
        decreases s.len() - q,
    {
        q = q + 1;
    }
    q
}

/// Where the run of word characters that starts at `p` ends.
fn ident_end(s: &Vec<char>, p: usize) -> (r: usize)
    requires
        p <= s@.len(),
    ensures
        r == spec_ident_end(s@, p as int),
        p <= r <= s@.len(),
{
    let mut q = p;
    while q < s.len() && (('a' <= s[q] && s[q] <= 'z') || ('A' <= s[q] && s[q] <= 'Z') || ('0' <= s[q] && s[q] <= '9') || s[q] == '_')
        invariant
            p <= q <= s@.len(),
            spec_ident_end(s@, p as int) == spec_ident_end(s@, q as int),
        decreases s.len() - q,
    {
        q = q + 1;
    }
    q
}

/// The symbol written at `p` in `s`, and where it ends.
fn symbol_at(s: &Vec<char>, p: usize) -> (r: Option<(Symbol, usize)>)
    ensures
        match spec_symbol_at(s@, p as int) {
            Some((sym, e)) => r matches Some((t, f)) && t == sym && f == e,
            None => r is None,
        },
        r matches Some((_, e)) ==> p < e <= s@.len(),
{
    if p >= s.len() {
        return None;
    }
    let c = s[p];
    if c == '/' {
        Some((Symbol::Slash, p + 1))
    } else if c == ',' {
        Some((Symbol::Comma, p + 1))
    } else if c == '.' && p + 1 < s.len() && s[p + 1] == '.' {
        Some((Symbol::Ellipsis, p + 2))
    } else if c == '[' {
        Some((Symbol::SquareBracketOpen, p + 1))
    } else if c == ']' {
        Some((Symbol::SquareBracketClose, p + 1))
    } else if c == '(' {
        Some((Symbol::RoundBracketOpen, p + 1))
    } else if c == ')' {
        Some((Symbol::RoundBracketClose, p + 1))
    } else {
        None
    }
}

/// The token that starts at `p` in `s`, and where it ends.
fn token_at(s: &Vec<char>, p: usize) -> (r: Option<(Token, usize)>)
    requires
        p <= s@.len(),
    ensures
        match spec_token_at(s@, p as int) {
            Some((t, e)) => r matches Some((u, f)) && u@ == t && f == e,
            None => r is None,
        },
        r matches Some((_, f)) ==> p < f <= s@.len(),
{
    match symbol_at(s, p) {
        Some((sym, e)) => {
            proof {
                assert(spec_token_at(s@, p as int) == Some((TokenView::Symbol(sym), e as int)));
            }
            Some((Token::Symbol(sym), e))
        },
        None => {
            let e = ident_end(s, p);
            if e > p {
                let contents = string_from_chars(&slice_chars(s, p, e));
                let t = Token::Ident(Ident { contents });
                proof {
                    assert(spec_symbol_at(s@, p as int) is None);
                    assert(t@ == TokenView::Ident(s@.subrange(p as int, e as int)));
                }
                Some((t, e))
            } else {
                proof {
                    assert(spec_token_at(s@, p as int) is None);
                }
                None
            }
        },
    }
}

/// The tokens of `source` (see [`spec_tokenize`]), or the position of the
/// first character that is neither whitespace nor part of a token.
pub fn tokenize(source: &str) -> (r: Result<Vec<Token>, usize>)
    ensures
        match spec_tokenize(source@) {
            Ok(ts) => r matches Ok(v) && tokens_view(v@) == ts,
            Err(at) => r == Err::<Vec<Token>, usize>(at as usize),
        },
{
    let s = chars_of(source);
    let mut out: Vec<Token> = Vec::new();
    let mut p: usize = 0;
    while p < s.len()
        invariant
            p <= s@.len(),
            s@ == source@,
            match spec_tokens_from(s@, p as int) {
                Ok(rest) => spec_tokenize(s@) == Ok::<Seq<TokenView>, int>(tokens_view(out@) + rest),
                Err(at) => spec_tokenize(s@) == Err::<Seq<TokenView>, int>(at),
            },
        decreases s.len() - p,
    {
        let q = skip_whitespace(&s, p);
        match token_at(&s, q) {
            Some((t, e)) => {
                let next = skip_whitespace(&s, e);
                proof {
                    lemma_runs_advance(s@, p as int);
                    let rest = spec_tokens_from(s@, next as int);
                    if let Ok(r) = rest {
                        assert(tokens_view(out@.push(t)) == tokens_view(out@).push(t@));
                        assert(tokens_view(out@) + (seq![t@] + r) == tokens_view(out@).push(t@) + r);
                    }
                }
                out.push(t);
                p = next;
            },
            None => {
                return Err(q);
            },
        }
    }
    proof {
        assert(tokens_view(out@) + Seq::<TokenView>::empty() == tokens_view(out@));
    }
    Ok(out)
}

} // verus!

verus! {

/// A symbol, written alone, reads as that symbol.
pub proof fn lemma_tokenize_symbol(sym: Symbol)
    ensures
        spec_tokenize(sym.spec_to_str()) == Ok::<Seq<TokenView>, int>(seq![TokenView::Symbol(sym)]),
{
    let s = sym.spec_to_str();
    assert(spec_skip_whitespace(s, 0) == 0);
    assert(spec_skip_whitespace(s, s.len() as int) == s.len());
    assert(spec_token_at(s, 0) == Some((TokenView::Symbol(sym), s.len() as int)));
    assert(spec_tokens_from(s, s.len() as int) == Ok::<Seq<TokenView>, int>(Seq::empty()));
    assert(seq![TokenView::Symbol(sym)] + Seq::<TokenView>::empty() == seq![TokenView::Symbol(sym)]);
    assert(spec_tokens_from(s, 0) == Ok::<Seq<TokenView>, int>(seq![TokenView::Symbol(sym)]));
}

/// A run of word characters reaches from `p` to the end of a word.
proof fn lemma_ident_end_of_word(w: Seq<char>, p: int)
    requires
        0 <= p <= w.len(),
        forall|i: int| 0 <= i < w.len() ==> is_ident_char(#[trigger] w[i]),
    ensures
        spec_ident_end(w, p) == w.len(),
    decreases w.len() - p,
{
    if p < w.len() {
        lemma_ident_end_of_word(w, p + 1);
    }
}

/// A word, written alone, reads as that word.
pub proof fn lemma_tokenize_word(w: Seq<char>)
    requires
        w.len() > 0,
        forall|i: int| 0 <= i < w.len() ==> is_ident_char(#[trigger] w[i]),
    ensures
        spec_tokenize(w) == Ok::<Seq<TokenView>, int>(seq![TokenView::Ident(w)]),
{
    assert(is_ident_char(w[0]));
    assert(spec_skip_whitespace(w, 0) == 0);
    lemma_ident_end_of_word(w, 0);
    assert(w.subrange(0, w.len() as int) == w);
    assert(spec_skip_whitespace(w, w.len() as int) == w.len());
    assert(spec_symbol_at(w, 0) is None);
    assert(spec_token_at(w, 0) == Some((TokenView::Ident(w), w.len() as int)));
    assert(spec_tokens_from(w, w.len() as int) == Ok::<Seq<TokenView>, int>(Seq::empty()));
    assert(seq![TokenView::Ident(w)] + Seq::<TokenView>::empty() == seq![TokenView::Ident(w)]);
    assert(spec_tokens_from(w, 0) == Ok::<Seq<TokenView>, int>(seq![TokenView::Ident(w)]));
}

} // verus!
