//! Generated source code: text, with floating-point literals kept apart as
//! bit patterns; their decimal spelling is std's float formatting, which the
//! caller applies when it renders the code.

use vstd::prelude::*;
use crate::text::{dec, dec_int, indent, push_dec, push_dec_i32, push_indent};

verus! {

/// A floating-point literal, by its IEEE bits and the std formatting it is
/// written with (`{}` for `Display`, `{:?}` for `Debug`).
#[derive(Debug, Clone, Copy, PartialEq, Eq, Structural)]
pub enum FloatLit {
    F64Display(u64),
    F64Debug(u64),
    F32Display(u32),
    F32Debug(u32),
    /// A half-precision value, written as the `f32` it widens to.
    F16Display(u16),
    F16Debug(u16),
    /// A brain-float value, written as the `f32` it widens to.
    Bf16Debug(u16),
}

/// One element of generated code: a character or a float literal.
#[derive(Debug, Clone, Copy, PartialEq, Eq, Structural)]
pub enum Tok {
    Ch(char),
    Float(FloatLit),
}

/// A stored piece of generated code.
#[derive(Debug, Clone, PartialEq, Eq)]
pub enum Piece {
    Text(String),
    Float(FloatLit),
}

/// Generated code: a sequence of pieces; its view is the sequence of
/// characters and float literals they spell.
#[derive(Debug, Clone, PartialEq, Eq)]
pub struct Code {
    pub pieces: Vec<Piece>,
}

/// A character as a token of code.
pub open spec fn char_tok() -> spec_fn(char) -> Tok {
    |c: char| Tok::Ch(c)
}

/// Characters as code.
#[verifier::opaque]
pub open spec fn chars(s: Seq<char>) -> Seq<Tok> {
    s.map_values(char_tok())
}

/// A literal as code.
pub open spec fn lit(s: &str) -> Seq<Tok> {
    chars(s@)
}

/// The decimal text of a number as code.
pub open spec fn num(n: nat) -> Seq<Tok> {
    chars(dec(n))
}

/// Code that is the concatenation of two pieces of generated code, or the
/// first error among them.
pub open spec fn cat<E>(a: Result<Seq<Tok>, E>, b: Result<Seq<Tok>, E>) -> Result<Seq<Tok>, E> {
    match a {
        Err(e) => Err(e),
        Ok(x) => match b {
            Err(e) => Err(e),
            Ok(y) => Ok(x + y),
        },
    }
}

/// Mapping a sequence keeps its length and maps each element.
pub proof fn lemma_map_values<A, B>(s: Seq<A>, f: spec_fn(A) -> B)
    ensures
        s.map_values(f).len() == s.len(),
        forall|i: int| 0 <= i < s.len() ==> #[trigger] s.map_values(f)[i] == f(s[i]),
{
}

/// Characters as code: one token per character.
pub proof fn lemma_chars(s: Seq<char>)
    ensures
        chars(s).len() == s.len(),
        forall|i: int| 0 <= i < s.len() ==> #[trigger] chars(s)[i] == Tok::Ch(s[i]),
{
    reveal(chars);
    lemma_map_values(s, char_tok());
}

/// What one piece spells.
pub open spec fn piece_toks(p: Piece) -> Seq<Tok> {
    match p {
        Piece::Text(s) => chars(s@),
        Piece::Float(f) => seq![Tok::Float(f)],
    }
}

/// What a sequence of pieces spells.
pub open spec fn pieces_toks(ps: Seq<Piece>) -> Seq<Tok>
    decreases ps.len(),
{
    if ps.len() == 0 {
        Seq::empty()
    } else {
        pieces_toks(ps.drop_last()) + piece_toks(ps.last())
    }
}

impl View for Code {
    type V = Seq<Tok>;

    open spec fn view(&self) -> Seq<Tok> {
        pieces_toks(self.pieces@)
    }
}

/// What two sequences of pieces spell together is what each spells, in order.
pub proof fn lemma_pieces_toks_add(a: Seq<Piece>, b: Seq<Piece>)
    ensures
        pieces_toks(a + b) == pieces_toks(a) + pieces_toks(b),
    decreases b.len(),
{
    if b.len() == 0 {
        assert(a + b =~= a);
        assert(pieces_toks(a) + pieces_toks(b) =~= pieces_toks(a));
    } else {
        lemma_pieces_toks_add(a, b.drop_last());
        assert((a + b).drop_last() =~= a + b.drop_last());
        assert((a + b).last() == b.last());
        assert(pieces_toks(a + b) =~= pieces_toks(a) + pieces_toks(b));
    }
}

impl Code {
    pub fn new() -> (c: Code)
        ensures
            c@ == Seq::<Tok>::empty(),
    {
        Code { pieces: Vec::new() }
    }

    fn push_piece(&mut self, p: Piece)
        ensures
            final(self)@ == old(self)@ + piece_toks(p),
    {
        self.pieces.push(p);
        proof {
            assert(self.pieces@.drop_last() =~= old(self).pieces@);
        }
    }

    /// Appends text.
    pub fn push_str(&mut self, s: &str)
        ensures
            final(self)@ == old(self)@ + lit(s),
    {
        self.push_piece(Piece::Text(String::from_str(s)));
    }

    /// Appends a float literal.
    pub fn push_float(&mut self, f: FloatLit)
        ensures
            final(self)@ == old(self)@ + seq![Tok::Float(f)],
    {
        self.push_piece(Piece::Float(f));
    }

    /// Appends the decimal text of a number.
    pub fn push_num(&mut self, n: u64)
        ensures
            final(self)@ == old(self)@ + num(n as nat),
    {
        let mut s = String::new();
        push_dec(&mut s, n);
        self.push_piece(Piece::Text(s));
    }

    /// Appends the decimal text of a signed number.
    pub fn push_i32(&mut self, i: i32)
        ensures
            final(self)@ == old(self)@ + chars(dec_int(i as int)),
    {
        let mut s = String::new();
        push_dec_i32(&mut s, i);
        self.push_piece(Piece::Text(s));
    }

    /// Appends `n` levels of indentation.
    pub fn push_indent(&mut self, n: usize)
        ensures
            final(self)@ == old(self)@ + chars(indent(n as nat)),
    {
        let mut s = String::new();
        push_indent(&mut s, n);
        self.push_piece(Piece::Text(s));
    }

    /// Appends other code.
    pub fn append(&mut self, other: Code)
        ensures
            final(self)@ == old(self)@ + other@,
    {
        let mut other = other;
        proof {
            lemma_pieces_toks_add(self.pieces@, other.pieces@);
        }
        self.pieces.append(&mut other.pieces);
    }
}

} // verus!
