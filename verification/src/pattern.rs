//! Glob-style path patterns with capturing wildcards.
//!
//! The grammar is the one boot-asset discovery speaks: a pattern is a run of
//! literal characters and wildcards.  `*` matches any run of characters that
//! stays within one path component (it never crosses '/'), and a capturing
//! group `(name:*)` matches exactly as `*` does — the name only labels what
//! the wildcard covered, and discovery only asks whether a path matched.

use vstd::prelude::*;

verus! {

/// One element of a compiled path pattern.
#[derive(Debug, Clone, Copy, PartialEq, Eq, Structural)]
pub enum Token {
    /// Matches exactly this character.
    Lit(char),
    /// Matches any run of characters within one path component.
    Star,
}

/// Where the parser stands relative to a `(name:*)` group.
#[derive(Debug, Clone, Copy, PartialEq, Eq, Structural)]
pub enum GroupPoint {
    /// Outside any group.
    Outside,
    /// Just after '(' — no name character seen yet.
    NameEmpty,
    /// Inside a non-empty group name.
    Name,
    /// Just after the ':' — the group's wildcard must follow.
    AfterColon,
    /// Just after the group's '*' — the group must close.
    AfterStar,
}

/// Prepends a token to a parse result, keeping failure.
pub open spec fn cons_tok(t: Token, rest: Option<Seq<Token>>) -> Option<Seq<Token>> {
    match rest {
        Some(r) => Some(seq![t] + r),
        None => None,
    }
}

/// Appends a parse result to already-built tokens, keeping failure.
pub open spec fn built_plus(built: Seq<Token>, rest: Option<Seq<Token>>) -> Option<Seq<Token>> {
    match rest {
        Some(r) => Some(built + r),
        None => None,
    }
}

/// Parses the pattern text from position `i` onward in parser state `st`:
/// `None` on a syntax error (an unclosed or malformed group), else the
/// compiled tokens.
pub open spec fn parse_rec(s: Seq<char>, i: int, st: GroupPoint) -> Option<Seq<Token>>
    decreases s.len() - i,
{
    if i < 0 || i >= s.len() {
        if i == s.len() && st is Outside {
            Some(Seq::<Token>::empty())
        } else {
            None
        }
    } else {
        let c = s[i];
        match st {
            GroupPoint::Outside => {
                if c == '*' {
                    cons_tok(Token::Star, parse_rec(s, i + 1, GroupPoint::Outside))
                } else if c == '(' {
                    parse_rec(s, i + 1, GroupPoint::NameEmpty)
                } else {
                    cons_tok(Token::Lit(c), parse_rec(s, i + 1, GroupPoint::Outside))
                }
            },
            GroupPoint::NameEmpty => {
                if c == ':' || c == '(' || c == ')' || c == '*' {
                    None
                } else {
                    parse_rec(s, i + 1, GroupPoint::Name)
                }
            },
            GroupPoint::Name => {
                if c == ':' {
                    parse_rec(s, i + 1, GroupPoint::AfterColon)
                } else if c == '(' || c == ')' || c == '*' {
                    None
                } else {
                    parse_rec(s, i + 1, GroupPoint::Name)
                }
            },
            GroupPoint::AfterColon => {
                if c == '*' {
                    parse_rec(s, i + 1, GroupPoint::AfterStar)
                } else {
                    None
                }
            },
            GroupPoint::AfterStar => {
                if c == ')' {
                    cons_tok(Token::Star, parse_rec(s, i + 1, GroupPoint::Outside))
                } else {
                    None
                }
            },
        }
    }
}

/// The compiled form of a pattern text, or `None` on a syntax error.
pub open spec fn parse_spec(s: Seq<char>) -> Option<Seq<Token>> {
    parse_rec(s, 0, GroupPoint::Outside)
}

/// Whether the tokens match the whole character sequence.
pub open spec fn tokens_match(pat: Seq<Token>, s: Seq<char>) -> bool
    decreases pat.len(), s.len(),
{
    if pat.len() == 0 {
        s.len() == 0
    } else {
        match pat[0] {
            Token::Lit(c) => s.len() > 0 && s[0] == c && tokens_match(pat.skip(1), s.skip(1)),
            Token::Star => tokens_match(pat.skip(1), s) || (s.len() > 0 && s[0] != '/'
                && tokens_match(pat, s.skip(1))),
        }
    }
}


proof fn lemma_step_push(built: Seq<Token>, t: Token, rest: Option<Seq<Token>>)
    ensures
        built_plus(built, cons_tok(t, rest)) == built_plus(built.push(t), rest),
{
    match rest {
        Some(r) => {
            assert(built + (seq![t] + r) =~= built.push(t) + r);
        },
        None => {},
    }
}

/// Why a pattern text failed to compile.
#[derive(Debug, Clone, Copy, PartialEq, Eq, Structural)]
pub enum PatternError {
    /// A capturing group was unclosed, unnamed, or not of the form
    /// `(name:*)`, or a group delimiter stood where none may.
    Syntax,
}

/// A compiled path pattern.
#[derive(Debug, Clone)]
pub struct Pattern {
    pub tokens: Vec<Token>,
}

impl View for Pattern {
    type V = Seq<Token>;

    open spec fn view(&self) -> Seq<Token> {
        self.tokens@
    }
}

/// The characters of a string, one element per `char`.
pub fn str_chars(s: &str) -> (v: Vec<char>)
    ensures
        v@ == s@,
{
    let n = s.unicode_len();
    let mut v: Vec<char> = Vec::new();
    let mut i: usize = 0;
    while i < n
        invariant
            i <= n,
            n == s@.len(),
            v@ == s@.subrange(0, i as int),
        decreases n - i,
    {
        let c = s.get_char(i);
        v.push(c);
        proof {
            assert(s@.subrange(0, i + 1 as int) =~= s@.subrange(0, i as int).push(s@[i as int]));
        }
        i += 1;
    }
    proof {
        assert(s@.subrange(0, n as int) =~= s@);
    }
    v
}

fn match_at(pat: &Vec<Token>, pi: usize, s: &Vec<char>, si: usize) -> (r: bool)
    requires
        pi <= pat@.len(),
        si <= s@.len(),
    ensures
        r == tokens_match(pat@.skip(pi as int), s@.skip(si as int)),
    decreases pat@.len() - pi, s@.len() - si,
{
    if pi == pat.len() {
        proof {
            assert(pat@.skip(pi as int) =~= Seq::<Token>::empty());
        }
        si == s.len()
    } else {
        proof {
            assert(pat@.skip(pi as int).len() > 0);
            assert(pat@.skip(pi as int)[0] == pat@[pi as int]);
            assert(pat@.skip(pi as int).skip(1) =~= pat@.skip(pi as int + 1));
        }
        match pat[pi] {
            Token::Lit(c) => {
                if si < s.len() {
                    proof {
                        assert(s@.skip(si as int)[0] == s@[si as int]);
                        assert(s@.skip(si as int).skip(1) =~= s@.skip(si as int + 1));
                    }
                    if s[si] == c {
                        match_at(pat, pi + 1, s, si + 1)
                    } else {
                        false
                    }
                } else {
                    proof {
                        assert(s@.skip(si as int).len() == 0);
                    }
                    false
                }
            },
            Token::Star => {
                let tail = match_at(pat, pi + 1, s, si);
                if tail {
                    true
                } else if si < s.len() {
                    proof {
                        assert(s@.skip(si as int)[0] == s@[si as int]);
                        assert(s@.skip(si as int).skip(1) =~= s@.skip(si as int + 1));
                    }
                    if s[si] != '/' {
                        match_at(pat, pi, s, si + 1)
                    } else {
                        false
                    }
                } else {
                    proof {
                        assert(s@.skip(si as int).len() == 0);
                    }
                    false
                }
            },
        }
    }
}

impl Pattern {
    /// Compiles a pattern text; fails exactly on the texts the grammar
    /// rejects.
    pub fn from_str(s: &str) -> (r: Result<Pattern, PatternError>)
        ensures
            match r {
                Ok(p) => parse_spec(s@) == Some(p@),
                Err(e) => parse_spec(s@) is None && e == PatternError::Syntax,
            },
    {
        let cs = str_chars(s);
        let n = cs.len();
        let mut toks: Vec<Token> = Vec::new();
        let mut st = GroupPoint::Outside;
        let mut i: usize = 0;
        while i < n
            invariant
                i <= n,
                n == cs@.len(),
                cs@ == s@,
                parse_spec(s@) == built_plus(toks@, parse_rec(s@, i as int, st)),
            decreases n - i,
        {
            let c = cs[i];
            let ghost toks0 = toks@;
            let ghost st0 = st;
            match st {
                GroupPoint::Outside => {
                    if c == '*' {
                        toks.push(Token::Star);
                        proof {
                            assert(c == s@[i as int]);
                            lemma_step_push(toks0, Token::Star, parse_rec(s@, i + 1, GroupPoint::Outside));
                        }
                    } else if c == '(' {
                        st = GroupPoint::NameEmpty;
                    } else {
                        toks.push(Token::Lit(c));
                        proof {
                            assert(c == s@[i as int]);
                            lemma_step_push(toks0, Token::Lit(c), parse_rec(s@, i + 1, GroupPoint::Outside));
                        }
                    }
                },
                GroupPoint::NameEmpty => {
                    if c == ':' || c == '(' || c == ')' || c == '*' {
                        return Err(PatternError::Syntax);
                    } else {
                        st = GroupPoint::Name;
                    }
                },
                GroupPoint::Name => {
                    if c == ':' {
                        st = GroupPoint::AfterColon;
                    } else if c == '(' || c == ')' || c == '*' {
                        return Err(PatternError::Syntax);
                    }
                },
                GroupPoint::AfterColon => {
                    if c == '*' {
                        st = GroupPoint::AfterStar;
                    } else {
                        return Err(PatternError::Syntax);
                    }
                },
                GroupPoint::AfterStar => {
                    if c == ')' {
                        toks.push(Token::Star);
                        st = GroupPoint::Outside;
                        proof {
                            assert(c == s@[i as int]);
                            lemma_step_push(toks0, Token::Star, parse_rec(s@, i + 1, GroupPoint::Outside));
                        }
                    } else {
                        return Err(PatternError::Syntax);
                    }
                },
            }
            i += 1;
        }
        if matches!(st, GroupPoint::Outside) {
            proof {
                assert(parse_rec(s@, n as int, GroupPoint::Outside) == Some(
                    Seq::<Token>::empty(),
                ));
                assert(toks@ + Seq::<Token>::empty() =~= toks@);
            }
            Ok(Pattern { tokens: toks })
        } else {
            Err(PatternError::Syntax)
        }
    }

    /// Whether the whole path matches this pattern.
    pub fn match_path(&self, path: &str) -> (r: bool)
        ensures
            r == tokens_match(self@, path@),
    {
        let cs = str_chars(path);
        let r = match_at(&self.tokens, 0, &cs, 0);
        proof {
            assert(self.tokens@.skip(0) =~= self.tokens@);
            assert(cs@.skip(0) =~= cs@);
        }
        r
    }
}

/// Matching is a function of the pattern and the path alone: two runs over
/// equal inputs agree.  Discovery inherits its determinism from this.
pub proof fn lemma_match_deterministic(pat: Seq<Token>, s: Seq<char>, r1: bool, r2: bool)
    requires
        r1 == tokens_match(pat, s),
        r2 == tokens_match(pat, s),
    ensures
        r1 == r2,
{
}

} // verus!
