//! The tokens of a column type declaration, as the SQL tokenizer of
//! `sea_query` reads them, and the unquoting of quoted tokens.

use sea_query::{EscapeBuilder, MysqlQueryBuilder, Tokenizer};
use vstd::prelude::*;

verus! {

/// The kinds of tokens that the tokenizer tells apart.
#[derive(Clone, Copy, Debug, PartialEq, Eq, Structural)]
pub enum TokenKind {
    Quoted,
    Unquoted,
    Space,
    Punctuation,
    Comment,
}

/// A token: its kind and its text, quotes included for a quoted one.
#[derive(Debug)]
pub struct Token {
    pub kind: TokenKind,
    pub text: String,
}

impl View for Token {
    type V = (TokenKind, Seq<char>);

    open spec fn view(&self) -> (TokenKind, Seq<char>) {
        (self.kind, self.text@)
    }
}

impl Clone for Token {
    fn clone(&self) -> (res: Self)
        ensures
            res@ == self@,
    {
        Token { kind: self.kind, text: self.text.clone() }
    }
}

/// The views of a sequence of tokens.
pub open spec fn token_views(v: Seq<Token>) -> Seq<(TokenKind, Seq<char>)> {
    v.map_values(|t: Token| t@)
}

/// The tokens, spaces included, that `sea_query::Tokenizer` (for MySQL)
/// reads from a text.
pub uninterp spec fn sql_tokens(s: Seq<char>) -> Seq<(TokenKind, Seq<char>)>;

/// Runs `sea_query::Tokenizer::new(s).iter()` and records each token's kind
/// and `as_str()` text; claims that the result is `sql_tokens` of `s`.
#[verifier::external_body]
fn tokenize(s: &str) -> (res: Vec<Token>)
    ensures
        token_views(res@) == sql_tokens(s@),
{
    let mut tokens = Vec::new();
    for t in Tokenizer::new(s).iter() {
        let kind = match &t {
            sea_query::Token::Quoted(_) => TokenKind::Quoted,
            sea_query::Token::Unquoted(_) => TokenKind::Unquoted,
            sea_query::Token::Space(_) => TokenKind::Space,
            sea_query::Token::Punctuation(_) => TokenKind::Punctuation,
            _ => TokenKind::Comment,
        };
        tokens.push(Token { kind, text: t.as_str().to_owned() });
    }
    tokens
}

/// The tokens of a text without its spaces, in order.
pub open spec fn significant(t: Seq<(TokenKind, Seq<char>)>) -> Seq<(TokenKind, Seq<char>)>
    decreases t.len(),
{
    if t.len() == 0 {
        Seq::empty()
    } else {
        let kept = significant(t.drop_last());
        if t.last().0 == TokenKind::Space {
            kept
        } else {
            kept.push(t.last())
        }
    }
}

/// The significant tokens are the tokenizer's tokens with the spaces taken
/// out and nothing else changed: the tokens that are not spaces, in order.
pub proof fn lemma_significant_drops_only_spaces(t: Seq<(TokenKind, Seq<char>)>)
    ensures
        significant(t) == t.filter(|x: (TokenKind, Seq<char>)| x.0 != TokenKind::Space),
    decreases t.len(),
{
    reveal_with_fuel(Seq::<(TokenKind, Seq<char>)>::filter, 1);
    if t.len() > 0 {
        lemma_significant_drops_only_spaces(t.drop_last());
    }
}

/// The tokens of `s` other than spaces.
pub fn significant_tokens(s: &str) -> (res: Vec<Token>)
    ensures
        token_views(res@) == significant(sql_tokens(s@)),
{
    let all = tokenize(s);
    let ghost all_views = token_views(all@);
    let mut kept: Vec<Token> = Vec::new();
    let mut i: usize = 0;
    assert(all_views.take(0) =~= Seq::<(TokenKind, Seq<char>)>::empty());
    assert(token_views(kept@) =~= Seq::<(TokenKind, Seq<char>)>::empty());
    while i < all.len()
        invariant
            i <= all.len(),
            all_views == token_views(all@),
            all_views == sql_tokens(s@),
            token_views(kept@) == significant(all_views.take(i as int)),
        decreases all.len() - i,
    {
        assert(all_views.take(i + 1).drop_last() =~= all_views.take(i as int));
        if all[i].kind != TokenKind::Space {
            let t = all[i].clone();
            let ghost before = kept@;
            kept.push(t);
            assert(token_views(kept@) =~= token_views(before).push(t@));
        }
        i = i + 1;
    }
    assert(all_views.take(all.len() as int) =~= all_views);
    kept
}

/// What `Token::unquote` returns for a quoted token with this text: the text
/// between the delimiters, with doubled delimiters made single.
pub uninterp spec fn unquoted_text(quoted: Seq<char>) -> Seq<char>;

/// Calls `sea_query::Token::unquote` on the quoted token with this text;
/// claims, as its source shows for quoted tokens, that it returns `Some`,
/// and that the string is `unquoted_text` of the text.
#[verifier::external_body]
fn unquote(quoted: &str) -> (res: Option<String>)
    ensures
        res.is_some(),
        res.unwrap()@ == unquoted_text(quoted@),
{
    sea_query::Token::Quoted(quoted).unquote()
}

/// The character that a backslash escape stands for in a MySQL string.
pub open spec fn escaped_char(c: char) -> char {
    if c == '0' {
        '\0'
    } else if c == 'b' {
        '\x08'
    } else if c == 't' {
        '\t'
    } else if c == 'z' {
        '\x1a'
    } else if c == 'n' {
        '\n'
    } else if c == 'r' {
        '\r'
    } else {
        c
    }
}

/// A string with its backslash escapes resolved; a lone trailing backslash
/// is dropped.
pub open spec fn unescaped(s: Seq<char>) -> Seq<char>
    decreases s.len(),
{
    if s.len() == 0 {
        Seq::empty()
    } else if s[0] == '\\' {
        if s.len() == 1 {
            Seq::empty()
        } else {
            seq![escaped_char(s[1])] + unescaped(s.skip(2))
        }
    } else {
        seq![s[0]] + unescaped(s.drop_first())
    }
}

/// Calls `EscapeBuilder::unescape_string` of `MysqlQueryBuilder`; claims the
/// result is `unescaped` of the argument, which is what that method's loop
/// computes.
#[verifier::external_body]
fn unescape(s: &str) -> (res: String)
    ensures
        res@ == unescaped(s@),
{
    MysqlQueryBuilder.unescape_string(s)
}

/// How quoted values are unescaped: a character other than a backslash
/// stands for itself, so a text without backslashes is unchanged; a
/// backslash and the character after it stand for that character, except
/// that `\0`, `\b`, `\t`, `\z`, `\n` and `\r` stand for NUL, backspace, tab,
/// control-Z, newline and carriage return; a lone backslash at the end is
/// dropped.
pub proof fn lemma_unescape_rules(s: Seq<char>, c: char, rest: Seq<char>)
    ensures
        (forall|i: int| 0 <= i < s.len() ==> s[i] != '\\') ==> unescaped(s) == s,
        c != '\\' ==> unescaped(seq![c] + rest) == seq![c] + unescaped(rest),
        unescaped(seq!['\\']) == Seq::<char>::empty(),
        c == '0' ==> unescaped(seq!['\\', c] + rest) == seq!['\0'] + unescaped(rest),
        c == 'b' ==> unescaped(seq!['\\', c] + rest) == seq!['\x08'] + unescaped(rest),
        c == 't' ==> unescaped(seq!['\\', c] + rest) == seq!['\t'] + unescaped(rest),
        c == 'z' ==> unescaped(seq!['\\', c] + rest) == seq!['\x1a'] + unescaped(rest),
        c == 'n' ==> unescaped(seq!['\\', c] + rest) == seq!['\n'] + unescaped(rest),
        c == 'r' ==> unescaped(seq!['\\', c] + rest) == seq!['\r'] + unescaped(rest),
        c != '0' && c != 'b' && c != 't' && c != 'z' && c != 'n' && c != 'r' ==> unescaped(
            seq!['\\', c] + rest,
        ) == seq![c] + unescaped(rest),
    decreases s.len(),
{
    assert((seq![c] + rest).drop_first() =~= rest);
    assert((seq!['\\', c] + rest).skip(2) =~= rest);
    if forall|i: int| 0 <= i < s.len() ==> s[i] != '\\' {
        if s.len() > 0 {
            lemma_unescape_rules(s.drop_first(), c, rest);
            assert(seq![s[0]] + s.drop_first() =~= s);
        }
    }
}

/// The value that a quoted token of an `ENUM` or `SET` list stands for.
pub open spec fn quoted_value(quoted: Seq<char>) -> Seq<char> {
    unescaped(unquoted_text(quoted))
}

/// The value of a quoted token: unquoted, then unescaped.
pub fn quoted_token_value(quoted: &str) -> (res: String)
    ensures
        res@ == quoted_value(quoted@),
{
    let inner = unquote(quoted).unwrap();
    unescape(inner.as_str())
}

} // verus!
