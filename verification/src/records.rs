//! Records: values written as a run of tokens and read back from it.
//!
//! A value of fixed shape takes a fixed number of tokens, one or two for each
//! of its fields. A list is written as its length and then its items.

use vstd::prelude::*;
use crate::climate::Orientation;
use crate::lines::{contents, MalformedModel, Tok, Token};
use crate::model::{BoundaryKind, ShadeKind, SpaceKind};
use crate::quantity::{collect, collect_upto, lemma_collect_all, lemma_collect_sticky};

verus! {

/// Whether the tokens of `part` stand in `tokens` from position `at`.
#[verifier::opaque]
pub open spec fn holds(tokens: Seq<Tok>, at: int, part: Seq<Tok>) -> bool {
    0 <= at && at + part.len() <= tokens.len() && tokens.subrange(at, at + part.len()) == part
}

/// Where a run of tokens stands, so does each of its two parts.
pub proof fn lemma_holds_split(tokens: Seq<Tok>, at: int, a: Seq<Tok>, b: Seq<Tok>)
    requires
        holds(tokens, at, a + b),
    ensures
        holds(tokens, at, a),
        holds(tokens, at + a.len(), b),
{
    reveal(holds);
    let whole = tokens.subrange(at, at + (a + b).len());
    assert(tokens.subrange(at, at + a.len()) =~= a) by {
        assert forall|k: int| 0 <= k < a.len() implies tokens.subrange(at, at + a.len())[k]
            == a[k] by {
            assert(whole[k] == (a + b)[k]);
        }
    }
    assert(tokens.subrange(at + a.len(), at + a.len() + b.len()) =~= b) by {
        assert forall|k: int| 0 <= k < b.len() implies tokens.subrange(
            at + a.len(),
            at + a.len() + b.len(),
        )[k] == b[k] by {
            assert(whole[a.len() + k] == (a + b)[a.len() + k]);
        }
    }
}

/// Where a run of tokens stands, each of its tokens stands at its place.
pub proof fn lemma_holds_index(tokens: Seq<Tok>, at: int, part: Seq<Tok>, k: int)
    requires
        holds(tokens, at, part),
        0 <= k < part.len(),
    ensures
        0 <= at + k < tokens.len(),
        tokens[at + k] == part[k],
{
    reveal(holds);
    assert(tokens.subrange(at, at + part.len())[k] == part[k]);
}

/// A run of tokens stands in itself from the beginning.
pub proof fn lemma_holds_whole(tokens: Seq<Tok>)
    ensures
        holds(tokens, 0, tokens),
{
    reveal(holds);
    assert(tokens.subrange(0, tokens.len() as int) =~= tokens);
}

/// The number at a position.
pub open spec fn number_at(tokens: Seq<Tok>, i: int) -> Result<u64, MalformedModel> {
    if i < 0 || i >= tokens.len() {
        Err(MalformedModel::UnexpectedEnd)
    } else {
        match tokens[i] {
            Tok::Num(n) => Ok(n),
            Tok::Txt(_) => Err(MalformedModel::ExpectedNumber),
        }
    }
}

/// The text at a position.
pub open spec fn text_at(tokens: Seq<Tok>, i: int) -> Result<Seq<char>, MalformedModel> {
    if i < 0 || i >= tokens.len() {
        Err(MalformedModel::UnexpectedEnd)
    } else {
        match tokens[i] {
            Tok::Num(_) => Err(MalformedModel::ExpectedText),
            Tok::Txt(s) => Ok(s),
        }
    }
}

/// The 32-bit number at a position.
pub open spec fn u32_at(tokens: Seq<Tok>, i: int) -> Result<u32, MalformedModel> {
    match number_at(tokens, i) {
        Err(e) => Err(e),
        Ok(n) => if n > u32::MAX {
            Err(MalformedModel::OutOfRange)
        } else {
            Ok(n as u32)
        },
    }
}

/// The token of a signed number: the number raised by 2^31.
pub open spec fn signed_token(x: i32) -> Tok {
    Tok::Num((x + 2_147_483_648) as u64)
}

/// The signed number at a position.
pub open spec fn i32_at(tokens: Seq<Tok>, i: int) -> Result<i32, MalformedModel> {
    match number_at(tokens, i) {
        Err(e) => Err(e),
        Ok(n) => if n > u32::MAX {
            Err(MalformedModel::OutOfRange)
        } else {
            Ok((n - 2_147_483_648) as i32)
        },
    }
}

/// The token of a truth value: one for true, zero for false.
pub open spec fn bool_token(b: bool) -> Tok {
    Tok::Num(if b { 1 } else { 0 })
}

/// The truth value at a position.
pub open spec fn bool_at(tokens: Seq<Tok>, i: int) -> Result<bool, MalformedModel> {
    match number_at(tokens, i) {
        Err(e) => Err(e),
        Ok(n) => if n > 1 {
            Err(MalformedModel::OutOfRange)
        } else {
            Ok(n == 1)
        },
    }
}

/// The orientation at a position, written as its place in the enumeration.
pub open spec fn orientation_at(tokens: Seq<Tok>, i: int) -> Result<Orientation, MalformedModel> {
    match number_at(tokens, i) {
        Err(e) => Err(e),
        Ok(n) => match Orientation::at(n as int) {
            None => Err(MalformedModel::OutOfRange),
            Some(o) => Ok(o),
        },
    }
}

/// The boundary kind at a position, written as its place in the enumeration.
pub open spec fn boundary_at(tokens: Seq<Tok>, i: int) -> Result<BoundaryKind, MalformedModel> {
    match number_at(tokens, i) {
        Err(e) => Err(e),
        Ok(n) => match BoundaryKind::at(n as int) {
            None => Err(MalformedModel::OutOfRange),
            Some(o) => Ok(o),
        },
    }
}

/// The shade kind at a position, written as its place in the enumeration.
pub open spec fn shade_kind_at(tokens: Seq<Tok>, i: int) -> Result<ShadeKind, MalformedModel> {
    match number_at(tokens, i) {
        Err(e) => Err(e),
        Ok(n) => match ShadeKind::at(n as int) {
            None => Err(MalformedModel::OutOfRange),
            Some(o) => Ok(o),
        },
    }
}

/// The token of the usage kind of a space: zero where it has none, else one
/// more than the place of the kind in the enumeration.
pub open spec fn space_kind_token(kind: Option<SpaceKind>) -> Tok {
    match kind {
        None => Tok::Num(0),
        Some(k) => Tok::Num((k.index_spec() + 1) as u64),
    }
}

/// The usage kind of a space at a position.
pub open spec fn space_kind_at(tokens: Seq<Tok>, i: int) -> Result<
    Option<SpaceKind>,
    MalformedModel,
> {
    match number_at(tokens, i) {
        Err(e) => Err(e),
        Ok(n) => if n == 0 {
            Ok(None)
        } else {
            match SpaceKind::at(n - 1) {
                None => Err(MalformedModel::OutOfRange),
                Some(k) => Ok(Some(k)),
            }
        },
    }
}

/// The two tokens of an optional text: one and the text, or zero and the empty
/// text.
pub open spec fn opt_text_tokens(o: Option<Seq<char>>) -> Seq<Tok> {
    match o {
        None => seq![Tok::Num(0), Tok::Txt(Seq::empty())],
        Some(s) => seq![Tok::Num(1), Tok::Txt(s)],
    }
}

/// The optional text at a position and the next.
pub open spec fn opt_text_at(tokens: Seq<Tok>, i: int) -> Result<Option<Seq<char>>, MalformedModel> {
    match number_at(tokens, i) {
        Err(e) => Err(e),
        Ok(flag) => match text_at(tokens, i + 1) {
            Err(e) => Err(e),
            Ok(s) => if flag == 1 {
                Ok(Some(s))
            } else if flag == 0 && s.len() == 0 {
                Ok(None)
            } else {
                Err(MalformedModel::OutOfRange)
            },
        },
    }
}

/// The two tokens of an optional number: one and the number, or zero twice.
pub open spec fn opt_number_tokens(o: Option<u64>) -> Seq<Tok> {
    match o {
        None => seq![Tok::Num(0), Tok::Num(0)],
        Some(n) => seq![Tok::Num(1), Tok::Num(n)],
    }
}

/// The optional number at a position and the next.
pub open spec fn opt_number_at(tokens: Seq<Tok>, i: int) -> Result<Option<u64>, MalformedModel> {
    match number_at(tokens, i) {
        Err(e) => Err(e),
        Ok(flag) => match number_at(tokens, i + 1) {
            Err(e) => Err(e),
            Ok(n) => if flag == 1 {
                Ok(Some(n))
            } else if flag == 0 && n == 0 {
                Ok(None)
            } else {
                Err(MalformedModel::OutOfRange)
            },
        },
    }
}

/// An optional 32-bit number as an optional number.
pub open spec fn widened(o: Option<u32>) -> Option<u64> {
    match o {
        None => None,
        Some(n) => Some(n as u64),
    }
}

/// The optional 32-bit number at a position and the next.
pub open spec fn opt_u32_at(tokens: Seq<Tok>, i: int) -> Result<Option<u32>, MalformedModel> {
    match opt_number_at(tokens, i) {
        Err(e) => Err(e),
        Ok(None) => Ok(None),
        Ok(Some(n)) => if n > u32::MAX {
            Err(MalformedModel::OutOfRange)
        } else {
            Ok(Some(n as u32))
        },
    }
}

/// The content of an optional text.
pub open spec fn opt_content(o: Option<String>) -> Option<Seq<char>> {
    match o {
        None => None,
        Some(s) => Some(s@),
    }
}

/// The contents of texts.
pub open spec fn text_contents(texts: Seq<String>) -> Seq<Seq<char>> {
    Seq::new(texts.len(), |i: int| texts[i]@)
}

/// The tokens of a list of texts: its length, then the texts.
pub open spec fn texts_tokens(texts: Seq<Seq<char>>) -> Seq<Tok> {
    seq![Tok::Num(texts.len() as u64)] + Seq::new(texts.len(), |j: int| Tok::Txt(texts[j]))
}

/// The texts that follow a position, one by one.
pub open spec fn text_results(tokens: Seq<Tok>, i: int, n: nat) -> Seq<
    Result<Seq<char>, MalformedModel>,
> {
    Seq::new(n, |j: int| text_at(tokens, i + j))
}

/// The list of texts at a position, and the position after it.
pub open spec fn texts_at(tokens: Seq<Tok>, i: int) -> Result<(Seq<Seq<char>>, int), MalformedModel> {
    match number_at(tokens, i) {
        Err(e) => Err(e),
        Ok(n) => match collect(text_results(tokens, i + 1, n as nat)) {
            Err(e) => Err(e),
            Ok(texts) => Ok((texts, i + 1 + n)),
        },
    }
}

/// A list of texts that stands at a position is read back from there.
pub proof fn lemma_texts_at(texts: Seq<Seq<char>>, tokens: Seq<Tok>, i: int)
    requires
        texts.len() <= u64::MAX,
        holds(tokens, i, texts_tokens(texts)),
    ensures
        texts_at(tokens, i) == Ok::<(Seq<Seq<char>>, int), MalformedModel>(
            (texts, i + 1 + texts.len()),
        ),
{
    let part = texts_tokens(texts);
    lemma_holds_index(tokens, i, part, 0);
    let n = texts.len();
    let results = text_results(tokens, i + 1, n);
    assert forall|j: int| 0 <= j < n implies results[j] == Ok::<Seq<char>, MalformedModel>(
        texts[j],
    ) by {
        lemma_holds_index(tokens, i, part, j + 1);
    }
    lemma_collect_all(results, texts, n as int);
    assert(texts.take(n as int) =~= texts);
}

/// The token at offset `k` from `at`, if there is one.
fn token_at(tokens: &Vec<Token>, at: usize, k: usize) -> (r: Option<&Token>)
    requires
        at <= tokens.len(),
    ensures
        match r {
            Some(t) => at + k < tokens.len() && *t == tokens@[at + k],
            None => at + k >= tokens.len(),
        },
{
    if k < tokens.len() - at {
        Some(&tokens[at + k])
    } else {
        None
    }
}

/// Appends a token.
pub fn put(out: &mut Vec<Token>, token: Token)
    ensures
        contents(final(out)@) == contents(old(out)@).push(token.content()),
{
    out.push(token);
    assert(contents(out@) =~= contents(old(out)@).push(token.content()));
}

/// Reads the number at offset `k` from `at`.
pub fn read_number(tokens: &Vec<Token>, at: usize, k: usize) -> (r: Result<u64, MalformedModel>)
    requires
        at <= tokens.len(),
    ensures
        r == number_at(contents(tokens@), at + k),
{
    match token_at(tokens, at, k) {
        None => Err(MalformedModel::UnexpectedEnd),
        Some(Token::Number(n)) => Ok(*n),
        Some(Token::Text(_)) => Err(MalformedModel::ExpectedNumber),
    }
}

/// Reads the text at offset `k` from `at`.
pub fn read_text(tokens: &Vec<Token>, at: usize, k: usize) -> (r: Result<String, MalformedModel>)
    requires
        at <= tokens.len(),
    ensures
        match r {
            Ok(s) => text_at(contents(tokens@), at + k) == Ok::<Seq<char>, MalformedModel>(s@),
            Err(e) => text_at(contents(tokens@), at + k) == Err::<Seq<char>, MalformedModel>(e),
        },
{
    match token_at(tokens, at, k) {
        None => Err(MalformedModel::UnexpectedEnd),
        Some(Token::Number(_)) => Err(MalformedModel::ExpectedText),
        Some(Token::Text(s)) => Ok(s.clone()),
    }
}

/// Reads the 32-bit number at offset `k` from `at`.
pub fn read_u32(tokens: &Vec<Token>, at: usize, k: usize) -> (r: Result<u32, MalformedModel>)
    requires
        at <= tokens.len(),
    ensures
        r == u32_at(contents(tokens@), at + k),
{
    match read_number(tokens, at, k) {
        Err(e) => Err(e),
        Ok(n) => if n > u32::MAX as u64 {
            Err(MalformedModel::OutOfRange)
        } else {
            Ok(n as u32)
        },
    }
}

/// Reads the signed number at offset `k` from `at`.
pub fn read_i32(tokens: &Vec<Token>, at: usize, k: usize) -> (r: Result<i32, MalformedModel>)
    requires
        at <= tokens.len(),
    ensures
        r == i32_at(contents(tokens@), at + k),
{
    match read_number(tokens, at, k) {
        Err(e) => Err(e),
        Ok(n) => if n > u32::MAX as u64 {
            Err(MalformedModel::OutOfRange)
        } else {
            Ok((n as i64 - 2_147_483_648) as i32)
        },
    }
}

/// The token of a signed number.
pub fn signed(x: i32) -> (r: Token)
    ensures
        r.content() == signed_token(x),
{
    Token::Number((x as i64 + 2_147_483_648) as u64)
}

/// Reads the truth value at offset `k` from `at`.
pub fn read_bool(tokens: &Vec<Token>, at: usize, k: usize) -> (r: Result<bool, MalformedModel>)
    requires
        at <= tokens.len(),
    ensures
        r == bool_at(contents(tokens@), at + k),
{
    match read_number(tokens, at, k) {
        Err(e) => Err(e),
        Ok(n) => if n > 1 {
            Err(MalformedModel::OutOfRange)
        } else {
            Ok(n == 1)
        },
    }
}

/// The token of a truth value.
pub fn truth(b: bool) -> (r: Token)
    ensures
        r.content() == bool_token(b),
{
    Token::Number(if b { 1 } else { 0 })
}

/// Reads the orientation at offset `k` from `at`.
pub fn read_orientation(tokens: &Vec<Token>, at: usize, k: usize) -> (r: Result<
    Orientation,
    MalformedModel,
>)
    requires
        at <= tokens.len(),
    ensures
        r == orientation_at(contents(tokens@), at + k),
{
    match read_number(tokens, at, k) {
        Err(e) => Err(e),
        Ok(n) => if n > 8 {
            Err(MalformedModel::OutOfRange)
        } else {
            match Orientation::from_index(n as usize) {
                None => Err(MalformedModel::OutOfRange),
                Some(o) => Ok(o),
            }
        },
    }
}

/// Reads the boundary kind at offset `k` from `at`.
pub fn read_boundary(tokens: &Vec<Token>, at: usize, k: usize) -> (r: Result<
    BoundaryKind,
    MalformedModel,
>)
    requires
        at <= tokens.len(),
    ensures
        r == boundary_at(contents(tokens@), at + k),
{
    match read_number(tokens, at, k) {
        Err(e) => Err(e),
        Ok(n) => if n > 3 {
            Err(MalformedModel::OutOfRange)
        } else {
            match BoundaryKind::from_index(n as usize) {
                None => Err(MalformedModel::OutOfRange),
                Some(o) => Ok(o),
            }
        },
    }
}

/// Reads the shade kind at offset `k` from `at`.
pub fn read_shade_kind(tokens: &Vec<Token>, at: usize, k: usize) -> (r: Result<
    ShadeKind,
    MalformedModel,
>)
    requires
        at <= tokens.len(),
    ensures
        r == shade_kind_at(contents(tokens@), at + k),
{
    match read_number(tokens, at, k) {
        Err(e) => Err(e),
        Ok(n) => if n > 2 {
            Err(MalformedModel::OutOfRange)
        } else {
            match ShadeKind::from_index(n as usize) {
                None => Err(MalformedModel::OutOfRange),
                Some(o) => Ok(o),
            }
        },
    }
}

/// Reads the usage kind of a space at offset `k` from `at`.
pub fn read_space_kind(tokens: &Vec<Token>, at: usize, k: usize) -> (r: Result<
    Option<SpaceKind>,
    MalformedModel,
>)
    requires
        at <= tokens.len(),
    ensures
        r == space_kind_at(contents(tokens@), at + k),
{
    match read_number(tokens, at, k) {
        Err(e) => Err(e),
        Ok(n) => if n == 0 {
            Ok(None)
        } else if n > 3 {
            Err(MalformedModel::OutOfRange)
        } else {
            match SpaceKind::from_index((n - 1) as usize) {
                None => Err(MalformedModel::OutOfRange),
                Some(kind) => Ok(Some(kind)),
            }
        },
    }
}

/// The token of the usage kind of a space.
pub fn space_kind(kind: Option<SpaceKind>) -> (r: Token)
    ensures
        r.content() == space_kind_token(kind),
{
    match kind {
        None => Token::Number(0),
        Some(k) => Token::Number(k.index() as u64 + 1),
    }
}

/// Reads the optional text at offsets `k` and `k + 1` from `at`.
pub fn read_opt_text(tokens: &Vec<Token>, at: usize, k: usize) -> (r: Result<
    Option<String>,
    MalformedModel,
>)
    requires
        at <= tokens.len(),
        k < usize::MAX,
    ensures
        match r {
            Ok(o) => opt_text_at(contents(tokens@), at + k) == Ok::<
                Option<Seq<char>>,
                MalformedModel,
            >(opt_content(o)),
            Err(e) => opt_text_at(contents(tokens@), at + k) == Err::<
                Option<Seq<char>>,
                MalformedModel,
            >(e),
        },
{
    match read_number(tokens, at, k) {
        Err(e) => Err(e),
        Ok(flag) => match read_text(tokens, at, k + 1) {
            Err(e) => Err(e),
            Ok(s) => if flag == 1 {
                Ok(Some(s))
            } else if flag == 0 && s.as_str().unicode_len() == 0 {
                Ok(None)
            } else {
                Err(MalformedModel::OutOfRange)
            },
        },
    }
}

/// Appends the two tokens of an optional text.
pub fn write_opt_text(out: &mut Vec<Token>, o: &Option<String>)
    ensures
        contents(final(out)@) == contents(old(out)@) + opt_text_tokens(opt_content(*o)),
{
    match o {
        None => {
            out.push(Token::Number(0));
            out.push(Token::Text(String::new()));
        },
        Some(s) => {
            out.push(Token::Number(1));
            out.push(Token::Text(s.clone()));
        },
    }
    assert(contents(out@) =~= contents(old(out)@) + opt_text_tokens(opt_content(*o)));
}

/// Reads the optional number at offsets `k` and `k + 1` from `at`.
pub fn read_opt_number(tokens: &Vec<Token>, at: usize, k: usize) -> (r: Result<
    Option<u64>,
    MalformedModel,
>)
    requires
        at <= tokens.len(),
        k < usize::MAX,
    ensures
        r == opt_number_at(contents(tokens@), at + k),
{
    match read_number(tokens, at, k) {
        Err(e) => Err(e),
        Ok(flag) => match read_number(tokens, at, k + 1) {
            Err(e) => Err(e),
            Ok(n) => if flag == 1 {
                Ok(Some(n))
            } else if flag == 0 && n == 0 {
                Ok(None)
            } else {
                Err(MalformedModel::OutOfRange)
            },
        },
    }
}

/// Reads the optional 32-bit number at offsets `k` and `k + 1` from `at`.
pub fn read_opt_u32(tokens: &Vec<Token>, at: usize, k: usize) -> (r: Result<
    Option<u32>,
    MalformedModel,
>)
    requires
        at <= tokens.len(),
        k < usize::MAX,
    ensures
        r == opt_u32_at(contents(tokens@), at + k),
{
    match read_opt_number(tokens, at, k) {
        Err(e) => Err(e),
        Ok(None) => Ok(None),
        Ok(Some(n)) => if n > u32::MAX as u64 {
            Err(MalformedModel::OutOfRange)
        } else {
            Ok(Some(n as u32))
        },
    }
}

/// Appends the two tokens of an optional number.
pub fn write_opt_number(out: &mut Vec<Token>, o: Option<u64>)
    ensures
        contents(final(out)@) == contents(old(out)@) + opt_number_tokens(o),
{
    match o {
        None => {
            out.push(Token::Number(0));
            out.push(Token::Number(0));
        },
        Some(n) => {
            out.push(Token::Number(1));
            out.push(Token::Number(n));
        },
    }
    assert(contents(out@) =~= contents(old(out)@) + opt_number_tokens(o));
}

/// An optional 32-bit number as an optional number.
pub fn widen(o: Option<u32>) -> (r: Option<u64>)
    ensures
        r == widened(o),
{
    match o {
        None => None,
        Some(n) => Some(n as u64),
    }
}

/// Appends the tokens of a list of texts.
pub fn write_texts(out: &mut Vec<Token>, texts: &Vec<String>)
    ensures
        contents(final(out)@) == contents(old(out)@) + texts_tokens(text_contents(texts@)),
{
    let ghost wanted = texts_tokens(text_contents(texts@));
    out.push(Token::Number(texts.len() as u64));
    assert(contents(out@) =~= contents(old(out)@) + wanted.take(1));
    let mut j: usize = 0;
    while j < texts.len()
        invariant
            j <= texts.len(),
            wanted == texts_tokens(text_contents(texts@)),
            contents(out@) == contents(old(out)@) + wanted.take(1 + j),
        decreases texts.len() - j,
    {
        let ghost before = out@;
        out.push(Token::Text(texts[j].clone()));
        proof {
            let t = Tok::Txt(texts@[j as int]@);
            assert(wanted.len() == 1 + texts.len());
            assert(wanted[1 + j] == t);
            assert(wanted.take(1 + j + 1) =~= wanted.take(1 + j).push(t));
            assert(contents(out@) =~= contents(before).push(t));
            assert((contents(old(out)@) + wanted.take(1 + j)).push(t) =~= contents(old(out)@)
                + wanted.take(1 + j).push(t));
        }
        j = j + 1;
    }
    assert(wanted.take(1 + texts.len()) =~= wanted);
}

/// Reads the list of texts whose length stands at offset `k` from `at`.
/// Returns the texts and the position after them.
pub fn read_texts(tokens: &Vec<Token>, at: usize, k: usize) -> (r: Result<
    (Vec<String>, usize),
    MalformedModel,
>)
    requires
        at <= tokens.len(),
    ensures
        match r {
            Ok((texts, next)) => texts_at(contents(tokens@), at + k) == Ok::<
                (Seq<Seq<char>>, int),
                MalformedModel,
            >((text_contents(texts@), next as int)) && at <= next <= tokens.len(),
            Err(e) => texts_at(contents(tokens@), at + k) == Err::<
                (Seq<Seq<char>>, int),
                MalformedModel,
            >(e),
        },
{
    let n = read_number(tokens, at, k)?;
    // the count stands at `at + k`, so the texts begin at `first`
    let first: usize = at + k + 1;
    let ghost results = text_results(contents(tokens@), first as int, n as nat);
    let mut out: Vec<String> = Vec::new();
    let mut j: u64 = 0;
    assert(text_contents(out@) =~= Seq::<Seq<char>>::empty());
    while j < n
        invariant
            j <= n,
            at + k < tokens.len(),
            first == at + k + 1,
            first + j <= tokens.len(),
            results == text_results(contents(tokens@), first as int, n as nat),
            number_at(contents(tokens@), at + k) == Ok::<u64, MalformedModel>(n),
            collect_upto(results, j as int) == Ok::<Seq<Seq<char>>, MalformedModel>(
                text_contents(out@),
            ),
        decreases n - j,
    {
        match read_text(tokens, first, j as usize) {
            Err(e) => {
                proof {
                    assert(collect_upto(results, j + 1) == Err::<Seq<Seq<char>>, MalformedModel>(
                        e,
                    ));
                    lemma_collect_sticky(results, j + 1, n as int);
                }
                return Err(e);
            },
            Ok(s) => {
                proof {
                    assert(text_contents(out@).push(s@) =~= text_contents(out@.push(s)));
                }
                out.push(s);
            },
        }
        j = j + 1;
    }
    Ok((out, first + n as usize))
}

/// A value that is written as a run of tokens and read back from it.
pub trait Record: Sized {
    /// What a value holds, as mathematical data.
    type Content;

    /// What the value holds.
    spec fn content(&self) -> Self::Content;

    /// Whether a content can be written: its lists are short enough to have
    /// their length written in 64 bits.
    spec fn storable(c: Self::Content) -> bool;

    /// The tokens that a content is written as.
    spec fn tokens_of(c: Self::Content) -> Seq<Tok>;

    /// The content that stands at a position, and the position after it.
    spec fn parse_at(tokens: Seq<Tok>, at: int) -> Result<(Self::Content, int), MalformedModel>;

    /// What was written is read back.
    proof fn lemma_parse(c: Self::Content, tokens: Seq<Tok>, at: int)
        requires
            Self::storable(c),
            holds(tokens, at, Self::tokens_of(c)),
        ensures
            Self::parse_at(tokens, at) == Ok::<(Self::Content, int), MalformedModel>(
                (c, at + Self::tokens_of(c).len()),
            ),
    ;

    /// Appends the tokens of the value.
    fn write(&self, out: &mut Vec<Token>)
        ensures
            contents(final(out)@) == contents(old(out)@) + Self::tokens_of(self.content()),
            Self::storable(self.content()),
    ;

    /// Reads the value that stands at a position. Returns it and the position
    /// after it.
    fn read(tokens: &Vec<Token>, at: usize) -> (r: Result<(Self, usize), MalformedModel>)
        requires
            at <= tokens.len(),
        ensures
            match r {
                Ok((x, next)) => Self::parse_at(contents(tokens@), at as int) == Ok::<
                    (Self::Content, int),
                    MalformedModel,
                >((x.content(), next as int)) && at <= next <= tokens.len(),
                Err(e) => Self::parse_at(contents(tokens@), at as int) == Err::<
                    (Self::Content, int),
                    MalformedModel,
                >(e),
            },
    ;
}

/// What each value of a list holds.
pub open spec fn record_contents<T: Record>(items: Seq<T>) -> Seq<T::Content> {
    Seq::new(items.len(), |i: int| items[i].content())
}

/// The tokens of the first `k` items, one item after another.
pub open spec fn flat<T: Record>(cs: Seq<T::Content>, k: int) -> Seq<Tok>
    decreases k,
{
    if k <= 0 {
        Seq::empty()
    } else {
        flat::<T>(cs, k - 1) + T::tokens_of(cs[k - 1])
    }
}

/// The tokens of a list: its length, then its items.
#[verifier::opaque]
pub open spec fn list_tokens<T: Record>(cs: Seq<T::Content>) -> Seq<Tok> {
    seq![Tok::Num(cs.len() as u64)] + flat::<T>(cs, cs.len() as int)
}

/// Whether a list can be written.
pub open spec fn list_storable<T: Record>(cs: Seq<T::Content>) -> bool {
    cs.len() <= u64::MAX && forall|i: int| 0 <= i < cs.len() ==> T::storable(#[trigger] cs[i])
}

/// The first `k` items that stand from a position, and the position after
/// them.
pub open spec fn parse_items<T: Record>(tokens: Seq<Tok>, start: int, k: int) -> Result<
    (Seq<T::Content>, int),
    MalformedModel,
>
    decreases k,
{
    if k <= 0 {
        Ok((Seq::empty(), start))
    } else {
        match parse_items::<T>(tokens, start, k - 1) {
            Err(e) => Err(e),
            Ok((cs, pos)) => match T::parse_at(tokens, pos) {
                Err(e) => Err(e),
                Ok((c, next)) => Ok((cs.push(c), next)),
            },
        }
    }
}

/// The list that stands at a position, and the position after it.
#[verifier::opaque]
pub open spec fn parse_list<T: Record>(tokens: Seq<Tok>, at: int) -> Result<
    (Seq<T::Content>, int),
    MalformedModel,
> {
    match number_at(tokens, at) {
        Err(e) => Err(e),
        Ok(n) => parse_items::<T>(tokens, at + 1, n as int),
    }
}

/// A failure among the first items is the failure of every longer list.
pub proof fn lemma_parse_items_sticky<T: Record>(tokens: Seq<Tok>, start: int, i: int, n: int)
    requires
        i <= n,
        parse_items::<T>(tokens, start, i) is Err,
    ensures
        parse_items::<T>(tokens, start, n) == parse_items::<T>(tokens, start, i),
    decreases n - i,
{
    if i < n {
        lemma_parse_items_sticky::<T>(tokens, start, i, n - 1);
    }
}

/// Items that stand one after another are read back.
pub proof fn lemma_parse_items<T: Record>(cs: Seq<T::Content>, tokens: Seq<Tok>, start: int, k: int)
    requires
        0 <= k <= cs.len(),
        forall|i: int| 0 <= i < cs.len() ==> T::storable(#[trigger] cs[i]),
        holds(tokens, start, flat::<T>(cs, k)),
    ensures
        parse_items::<T>(tokens, start, k) == Ok::<(Seq<T::Content>, int), MalformedModel>(
            (cs.take(k), start + flat::<T>(cs, k).len()),
        ),
    decreases k,
{
    if k <= 0 {
        assert(cs.take(0) =~= Seq::<T::Content>::empty());
    } else {
        let before = flat::<T>(cs, k - 1);
        let item = T::tokens_of(cs[k - 1]);
        lemma_holds_split(tokens, start, before, item);
        lemma_parse_items::<T>(cs, tokens, start, k - 1);
        T::lemma_parse(cs[k - 1], tokens, start + before.len());
        assert(cs.take(k - 1).push(cs[k - 1]) =~= cs.take(k));
    }
}

/// A list that stands at a position is read back from there.
pub proof fn lemma_parse_list<T: Record>(cs: Seq<T::Content>, tokens: Seq<Tok>, at: int)
    requires
        list_storable::<T>(cs),
        holds(tokens, at, list_tokens::<T>(cs)),
    ensures
        parse_list::<T>(tokens, at) == Ok::<(Seq<T::Content>, int), MalformedModel>(
            (cs, at + list_tokens::<T>(cs).len()),
        ),
{
    reveal(parse_list);
    reveal(list_tokens);
    let head = seq![Tok::Num(cs.len() as u64)];
    let items = flat::<T>(cs, cs.len() as int);
    lemma_holds_split(tokens, at, head, items);
    lemma_holds_index(tokens, at, head, 0);
    lemma_parse_items::<T>(cs, tokens, at + 1, cs.len() as int);
    assert(cs.take(cs.len() as int) =~= cs);
}

/// Appends the tokens of a list.
pub fn write_list<T: Record>(out: &mut Vec<Token>, items: &Vec<T>)
    ensures
        contents(final(out)@) == contents(old(out)@) + list_tokens::<T>(record_contents(items@)),
        list_storable::<T>(record_contents(items@)),
{
    proof {
        reveal(list_tokens);
    }
    let ghost cs = record_contents(items@);
    let ghost head = seq![Tok::Num(cs.len() as u64)];
    out.push(Token::Number(items.len() as u64));
    assert(contents(out@) =~= contents(old(out)@) + head + flat::<T>(cs, 0));
    let mut i: usize = 0;
    while i < items.len()
        invariant
            i <= items.len(),
            cs == record_contents(items@),
            head == seq![Tok::Num(cs.len() as u64)],
            contents(out@) == contents(old(out)@) + head + flat::<T>(cs, i as int),
            forall|j: int| 0 <= j < i ==> T::storable(#[trigger] cs[j]),
        decreases items.len() - i,
    {
        let ghost before = contents(out@);
        items[i].write(out);
        proof {
            let item = T::tokens_of(cs[i as int]);
            assert(contents(old(out)@) + head + flat::<T>(cs, i as int) + item =~= contents(
                old(out)@,
            ) + head + flat::<T>(cs, i + 1));
        }
        i = i + 1;
    }
    assert(contents(old(out)@) + head + flat::<T>(cs, cs.len() as int) =~= contents(old(out)@)
        + list_tokens::<T>(cs));
}

/// Reads the list that stands at a position. Returns it and the position after
/// it.
pub fn read_list<T: Record>(tokens: &Vec<Token>, at: usize) -> (r: Result<
    (Vec<T>, usize),
    MalformedModel,
>)
    requires
        at <= tokens.len(),
    ensures
        match r {
            Ok((items, next)) => parse_list::<T>(contents(tokens@), at as int) == Ok::<
                (Seq<T::Content>, int),
                MalformedModel,
            >((record_contents(items@), next as int)) && at <= next <= tokens.len(),
            Err(e) => parse_list::<T>(contents(tokens@), at as int) == Err::<
                (Seq<T::Content>, int),
                MalformedModel,
            >(e),
        },
{
    proof {
        reveal(parse_list);
    }
    let n = read_number(tokens, at, 0)?;
    let mut out: Vec<T> = Vec::new();
    let mut pos: usize = at + 1;
    let mut i: u64 = 0;
    assert(record_contents(out@) =~= Seq::<T::Content>::empty());
    while i < n
        invariant
            i <= n,
            at < pos <= tokens.len(),
            number_at(contents(tokens@), at as int) == Ok::<u64, MalformedModel>(n),
            parse_items::<T>(contents(tokens@), at + 1, i as int) == Ok::<
                (Seq<T::Content>, int),
                MalformedModel,
            >((record_contents(out@), pos as int)),
        decreases n - i,
    {
        match T::read(tokens, pos) {
            Err(e) => {
                proof {
                    reveal(parse_list);
                    assert(parse_items::<T>(contents(tokens@), at + 1, i + 1) == Err::<
                        (Seq<T::Content>, int),
                        MalformedModel,
                    >(e));
                    lemma_parse_items_sticky::<T>(contents(tokens@), at + 1, i + 1, n as int);
                }
                return Err(e);
            },
            Ok((item, next)) => {
                proof {
                    assert(record_contents(out@).push(item.content()) =~= record_contents(
                        out@.push(item),
                    ));
                }
                out.push(item);
                pos = next;
            },
        }
        i = i + 1;
    }
    Ok((out, pos))
}

} // verus!
