//! The lines of a stored model.
//!
//! A stored model is a text of lines, each of which holds one token: a number
//! or a text. A number is written in decimal notation. A text is written as
//! the number of its characters, a colon and the characters themselves, so
//! that it may hold any character, a line feed too. Every line ends with a
//! line feed.

use vstd::prelude::*;
use vstd::string::*;
use crate::decimal::{
    chars_of, digits, is_digit, lemma_digits, lemma_run_len, read_number, run_len, value_of,
    write_number,
};

verus! {

/// A token of a stored model.
#[derive(Debug, Clone, PartialEq, Eq)]
pub enum Token {
    Number(u64),
    Text(String),
}

/// A token by its content.
pub enum Tok {
    Num(u64),
    Txt(Seq<char>),
}

/// Why a text is not a stored model.
#[derive(Debug, Clone, Copy, PartialEq, Eq, Structural)]
pub enum MalformedModel {
    /// The text ends where more was expected.
    UnexpectedEnd,
    /// A line is neither a number nor a text.
    BadLine,
    /// A number has more digits than 64 bits can hold.
    NumberTooLarge,
    /// A text stands where a number was expected.
    ExpectedNumber,
    /// A number stands where a text was expected.
    ExpectedText,
    /// A number lies outside the range of the value that it stands for.
    OutOfRange,
    /// The text goes on after the end of the model.
    TrailingInput,
}

impl MalformedModel {
    /// The reason in words.
    pub open spec fn cause_text(self) -> Seq<char> {
        match self {
            MalformedModel::UnexpectedEnd => "the text ends where more was expected"@,
            MalformedModel::BadLine => "a line is neither a number nor a text"@,
            MalformedModel::NumberTooLarge => "a number has too many digits"@,
            MalformedModel::ExpectedNumber => "a text stands where a number was expected"@,
            MalformedModel::ExpectedText => "a number stands where a text was expected"@,
            MalformedModel::OutOfRange => "a number lies outside the range of its value"@,
            MalformedModel::TrailingInput => "the text goes on after the end of the model"@,
        }
    }

    /// The reason in words.
    pub fn cause(&self) -> (r: String)
        ensures
            r@ == self.cause_text(),
    {
        match self {
            MalformedModel::UnexpectedEnd => "the text ends where more was expected".to_owned(),
            MalformedModel::BadLine => "a line is neither a number nor a text".to_owned(),
            MalformedModel::NumberTooLarge => "a number has too many digits".to_owned(),
            MalformedModel::ExpectedNumber => "a text stands where a number was expected".to_owned(),
            MalformedModel::ExpectedText => "a number stands where a text was expected".to_owned(),
            MalformedModel::OutOfRange => "a number lies outside the range of its value".to_owned(),
            MalformedModel::TrailingInput => "the text goes on after the end of the model".to_owned(),
        }
    }
}

impl Token {
    /// The content of the token.
    pub open spec fn content(&self) -> Tok {
        match self {
            Token::Number(n) => Tok::Num(*n),
            Token::Text(s) => Tok::Txt(s@),
        }
    }
}

/// The contents of tokens.
pub open spec fn contents(tokens: Seq<Token>) -> Seq<Tok> {
    Seq::new(tokens.len(), |i: int| tokens[i].content())
}

/// The line that holds a token.
pub open spec fn line(t: Tok) -> Seq<char> {
    match t {
        Tok::Num(n) => digits(n as nat).push('\n'),
        Tok::Txt(s) => (digits(s.len()).push(':') + s).push('\n'),
    }
}

/// The text that holds the tokens, line by line.
pub open spec fn render(tokens: Seq<Tok>) -> Seq<char>
    decreases tokens.len(),
{
    if tokens.len() == 0 {
        Seq::empty()
    } else {
        line(tokens[0]) + render(tokens.drop_first())
    }
}

/// The token that a text begins with, and the number of characters of its
/// line.
pub open spec fn token_head(text: Seq<char>) -> Result<(Tok, nat), MalformedModel> {
    let k = run_len(text);
    let n = value_of(text.take(k as int));
    if k == 0 {
        Err(MalformedModel::BadLine)
    } else if n > u64::MAX {
        Err(MalformedModel::NumberTooLarge)
    } else if k >= text.len() {
        Err(MalformedModel::UnexpectedEnd)
    } else if text[k as int] == '\n' {
        Ok((Tok::Num(n as u64), k + 1))
    } else if text[k as int] == ':' {
        if k + n + 2 > text.len() {
            Err(MalformedModel::UnexpectedEnd)
        } else if text[(k + 1 + n) as int] != '\n' {
            Err(MalformedModel::BadLine)
        } else {
            Ok((Tok::Txt(text.subrange((k + 1) as int, (k + 1 + n) as int)), k + n + 2))
        }
    } else {
        Err(MalformedModel::BadLine)
    }
}

/// The tokens that a text holds, line by line, or why it is malformed.
pub open spec fn scan(text: Seq<char>) -> Result<Seq<Tok>, MalformedModel>
    decreases text.len(),
{
    if text.len() == 0 {
        Ok(Seq::empty())
    } else {
        match token_head(text) {
            Err(e) => Err(e),
            Ok((t, used)) => if used == 0 || used > text.len() {
                Err(MalformedModel::BadLine)
            } else {
                match scan(text.skip(used as int)) {
                    Err(e) => Err(e),
                    Ok(rest) => Ok(seq![t] + rest),
                }
            },
        }
    }
}

/// Whether a token can be written: a text has a length that 64 bits can say.
pub open spec fn writable(t: Tok) -> bool {
    t matches Tok::Txt(s) ==> s.len() <= u64::MAX
}

/// A text that begins with the line of a token begins with that token.
pub proof fn lemma_token_head(t: Tok, rest: Seq<char>)
    requires
        writable(t),
    ensures
        token_head(line(t) + rest) == Ok::<(Tok, nat), MalformedModel>((t, line(t).len())),
        line(t).len() > 0,
{
    let text = line(t) + rest;
    match t {
        Tok::Num(n) => {
            let d = digits(n as nat);
            lemma_digits(n as nat);
            let k = d.len();
            assert forall|i: int| 0 <= i < k implies is_digit(#[trigger] text[i]) by {
                assert(text[i] == d[i]);
            }
            assert(text[k as int] == '\n');
            lemma_run_len(text, k);
            assert(text.take(k as int) =~= d);
        },
        Tok::Txt(s) => {
            let d = digits(s.len());
            lemma_digits(s.len());
            let k = d.len();
            assert forall|i: int| 0 <= i < k implies is_digit(#[trigger] text[i]) by {
                assert(text[i] == d[i]);
            }
            assert(text[k as int] == ':');
            lemma_run_len(text, k);
            assert(text.take(k as int) =~= d);
            assert(text[(k + 1 + s.len()) as int] == '\n');
            assert(text.subrange((k + 1) as int, (k + 1 + s.len()) as int) =~= s);
        },
    }
}

/// To scan what was rendered gives the tokens back.
pub proof fn lemma_scan_render(tokens: Seq<Tok>)
    requires
        forall|i: int| 0 <= i < tokens.len() ==> writable(#[trigger] tokens[i]),
    ensures
        scan(render(tokens)) == Ok::<Seq<Tok>, MalformedModel>(tokens),
    decreases tokens.len(),
{
    if tokens.len() == 0 {
        assert(tokens =~= Seq::<Tok>::empty());
    } else {
        let rest = tokens.drop_first();
        let text = render(tokens);
        lemma_token_head(tokens[0], render(rest));
        assert(text == line(tokens[0]) + render(rest));
        assert(text.len() > 0);
        assert(text.skip(line(tokens[0]).len() as int) =~= render(rest));
        assert forall|i: int| 0 <= i < rest.len() implies writable(#[trigger] rest[i]) by {
            assert(rest[i] == tokens[i + 1]);
        }
        lemma_scan_render(rest);
        assert(seq![tokens[0]] + rest =~= tokens);
    }
}

/// To render tokens one after another is to render them together.
pub proof fn lemma_render_push(tokens: Seq<Tok>, t: Tok)
    ensures
        render(tokens.push(t)) == render(tokens) + line(t),
    decreases tokens.len(),
{
    if tokens.len() == 0 {
        let one = tokens.push(t);
        assert(one.drop_first() =~= Seq::<Tok>::empty());
        assert(render(one.drop_first()) =~= Seq::<char>::empty());
        assert(one[0] == t);
        assert(render(one) == line(t) + render(one.drop_first()));
        assert(render(tokens) =~= Seq::<char>::empty());
        assert(render(tokens.push(t)) =~= render(tokens) + line(t));
    } else {
        assert(tokens.push(t).drop_first() =~= tokens.drop_first().push(t));
        lemma_render_push(tokens.drop_first(), t);
        assert(render(tokens.push(t)) =~= render(tokens) + line(t));
    }
}

/// Appends the line of a token to a text.
pub fn write_token(out: &mut String, token: &Token)
    ensures
        final(out)@ == old(out)@ + line(token.content()),
        writable(token.content()),
{
    match token {
        Token::Number(n) => {
            write_number(out, *n);
            out.append("\n");
            proof {
                reveal_strlit("\n");
                assert("\n"@ =~= seq!['\n']);
                assert(out@ =~= old(out)@ + line(token.content()));
            }
        },
        Token::Text(s) => {
            let n = s.as_str().unicode_len();
            write_number(out, n as u64);
            out.append(":");
            out.append(s.as_str());
            out.append("\n");
            proof {
                reveal_strlit("\n");
                reveal_strlit(":");
                assert("\n"@ =~= seq!['\n']);
                assert(":"@ =~= seq![':']);
                assert(out@ =~= old(out)@ + line(token.content()));
            }
        },
    }
}

/// Writes tokens as a text, line by line.
pub fn render_tokens(tokens: &Vec<Token>) -> (r: String)
    ensures
        r@ == render(contents(tokens@)),
        scan(r@) == Ok::<Seq<Tok>, MalformedModel>(contents(tokens@)),
{
    let ghost all = contents(tokens@);
    let mut out = String::new();
    let mut i: usize = 0;
    assert(all.take(0) =~= Seq::<Tok>::empty());
    while i < tokens.len()
        invariant
            i <= tokens.len(),
            all == contents(tokens@),
            out@ == render(all.take(i as int)),
            forall|j: int| 0 <= j < i ==> writable(#[trigger] all[j]),
        decreases tokens.len() - i,
    {
        write_token(&mut out, &tokens[i]);
        proof {
            lemma_render_push(all.take(i as int), all[i as int]);
            assert(all.take(i as int).push(all[i as int]) =~= all.take(i + 1));
        }
        i = i + 1;
    }
    proof {
        assert(all.take(tokens.len() as int) =~= all);
        lemma_scan_render(all);
    }
    out
}

/// What a scan makes of the tokens read so far and of the rest of the text.
pub open spec fn scan_onwards(done: Seq<Tok>, rest: Result<Seq<Tok>, MalformedModel>) -> Result<
    Seq<Tok>,
    MalformedModel,
> {
    match rest {
        Err(e) => Err(e),
        Ok(more) => Ok(done + more),
    }
}

/// Reads the tokens that a text holds.
pub fn scan_tokens(text: &str) -> (r: Result<Vec<Token>, MalformedModel>)
    ensures
        match r {
            Ok(tokens) => scan(text@) == Ok::<Seq<Tok>, MalformedModel>(contents(tokens@)),
            Err(e) => scan(text@) == Err::<Seq<Tok>, MalformedModel>(e),
        },
{
    let chars = chars_of(text);
    let mut out: Vec<Token> = Vec::new();
    let mut pos: usize = 0;
    assert(chars@.skip(0) =~= chars@);
    assert(scan_onwards(contents(out@), scan(chars@)) == scan(chars@)) by {
        if scan(chars@) is Ok {
            assert(contents(out@) + scan(chars@)->Ok_0 =~= scan(chars@)->Ok_0);
        }
    }
    while pos < chars.len()
        invariant
            pos <= chars.len(),
            chars@ == text@,
            scan(text@) == scan_onwards(contents(out@), scan(chars@.skip(pos as int))),
        decreases chars.len() - pos,
    {
        let ghost rest = chars@.skip(pos as int);
        let ghost done = contents(out@);
        let (number, k) = read_number(&chars, pos);
        if k == 0 {
            return Err(MalformedModel::BadLine);
        }
        let n = match number {
            None => {
                return Err(MalformedModel::NumberTooLarge);
            },
            Some(n) => n,
        };
        if pos + k >= chars.len() {
            return Err(MalformedModel::UnexpectedEnd);
        }
        let c = chars[pos + k];
        assert(rest[k as int] == c);
        if c == '\n' {
            out.push(Token::Number(n));
            proof {
                let used = (k + 1) as int;
                assert(rest.skip(used) =~= chars@.skip(pos + used));
                let next = scan(chars@.skip(pos + used));
                if next is Ok {
                    assert(done + (seq![Tok::Num(n)] + next->Ok_0) =~= contents(out@) + next->Ok_0);
                }
            }
            pos = pos + k + 1;
        } else if c == ':' {
            let left: usize = chars.len() - pos - k;
            if n > usize::MAX as u64 || left < 2 || n as usize > left - 2 {
                return Err(MalformedModel::UnexpectedEnd);
            }
            let len: usize = n as usize;
            let from: usize = pos + k + 1;
            let to: usize = from + len;
            assert(rest[k + 1 + n] == chars@[to as int]);
            if chars[to] != '\n' {
                return Err(MalformedModel::BadLine);
            }
            let s = text.substring_char(from, to).to_owned();
            proof {
                assert(s@ =~= rest.subrange(k + 1, k + 1 + n));
            }
            out.push(Token::Text(s));
            proof {
                let used = (k + n + 2) as int;
                assert(rest.skip(used) =~= chars@.skip(pos + used));
                let next = scan(chars@.skip(pos + used));
                if next is Ok {
                    assert(done + (seq![Tok::Txt(s@)] + next->Ok_0) =~= contents(out@) + next->Ok_0);
                }
            }
            pos = to + 1;
        } else {
            return Err(MalformedModel::BadLine);
        }
    }
    proof {
        assert(contents(out@) + Seq::<Tok>::empty() =~= contents(out@));
    }
    Ok(out)
}

} // verus!
