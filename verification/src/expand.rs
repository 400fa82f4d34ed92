//! From a token list to the single line that stands for a directive in a
//! configuration file: the name, then the arguments in one pair of quotes.

use crate::text::{join, join_strings, texts};
use vstd::prelude::*;

verus! {

/// How the token list of a directive is made.
#[derive(Debug, Clone, Copy, PartialEq, Eq, Structural)]
pub enum Rule {
    /// The name, then the text of each field, in the order of the fields.
    Default,
    /// A fixed text, which is the only token.
    Literal,
    /// The name, a space and the fields laid out by a fixed pattern; the
    /// tokens are the words of that line.
    Template,
    /// The words of a line that the caller wrote.
    FreeForm,
    /// The name, and one token made of all the fields together.
    Delegated,
}

/// `body` between two double quotes.
pub open spec fn quoted(body: Seq<char>) -> Seq<char> {
    "\""@ + body + "\""@
}

/// The token list cut down to two: the first token, and the remaining ones
/// joined by single spaces and quoted. A list of one token, or of none, is
/// left as it is.
pub open spec fn collapse(tokens: Seq<Seq<char>>) -> Seq<Seq<char>> {
    if tokens.len() > 1 {
        seq![tokens[0], quoted(join(tokens.skip(1), " "@))]
    } else {
        tokens
    }
}

/// The line that stands for a token list: its collapsed tokens, joined by a
/// single space.
pub open spec fn cli_text(tokens: Seq<Seq<char>>) -> Seq<char> {
    join(collapse(tokens), " "@)
}

/// A list of the one token `a`.
pub(crate) fn one(a: String) -> (tokens: Vec<String>)
    ensures
        texts(tokens@) == seq![a@],
{
    let mut tokens: Vec<String> = Vec::new();
    tokens.push(a);
    assert(texts(tokens@) =~= seq![a@]);
    tokens
}

/// A list of the two tokens `a` and `b`.
pub(crate) fn two(a: String, b: String) -> (tokens: Vec<String>)
    ensures
        texts(tokens@) == seq![a@, b@],
{
    let mut tokens: Vec<String> = Vec::new();
    tokens.push(a);
    tokens.push(b);
    assert(texts(tokens@) =~= seq![a@, b@]);
    tokens
}

/// A list of the three tokens `a`, `b` and `c`.
pub(crate) fn three(a: String, b: String, c: String) -> (tokens: Vec<String>)
    ensures
        texts(tokens@) == seq![a@, b@, c@],
{
    let mut tokens: Vec<String> = Vec::new();
    tokens.push(a);
    tokens.push(b);
    tokens.push(c);
    assert(texts(tokens@) =~= seq![a@, b@, c@]);
    tokens
}

/// Writes a token list as one line: a single token as it is; of more, the
/// first, a space, and the others joined by spaces inside one pair of double
/// quotes.
pub fn cli_line(tokens: Vec<String>) -> (line: String)
    ensures
        line@ == cli_text(texts(tokens@)),
{
    let mut parts = tokens;
    let ghost all = texts(parts@);
    if parts.len() > 1 {
        let rest = parts.split_off(1);
        let args = join_strings(&rest, " ");
        let mut body = String::from_str("\"");
        body.append(args.as_str());
        body.append("\"");
        assert(texts(rest@) =~= all.skip(1));
        assert(body@ == quoted(join(all.skip(1), " "@)));
        parts.push(body);
        assert(texts(parts@) =~= collapse(all));
    }
    join_strings(&parts, " ")
}

/// A token list of one token is written as that token: nothing is added.
pub proof fn single_token_is_unquoted(tokens: Seq<Seq<char>>)
    requires
        tokens.len() == 1,
    ensures
        cli_text(tokens) == tokens[0],
{
}

/// A token list of more than one token is written as the first token, a
/// space, a double quote, the remaining tokens joined by single spaces, and
/// a double quote.
pub proof fn several_tokens_are_quoted(tokens: Seq<Seq<char>>)
    requires
        tokens.len() > 1,
    ensures
        cli_text(tokens) == tokens[0] + " "@ + "\""@ + join(tokens.skip(1), " "@) + "\""@,
{
    let pair = collapse(tokens);
    assert(pair.drop_last() =~= seq![tokens[0]]);
    assert(join(pair.drop_last(), " "@) == tokens[0]);
    assert(cli_text(tokens) =~= tokens[0] + " "@ + "\""@ + join(tokens.skip(1), " "@) + "\""@);
}

} // verus!
