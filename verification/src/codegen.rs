//! Layout helpers shared by the code generators.

use vstd::prelude::*;
use crate::code::{chars, lemma_chars, lit, Code, Tok};
use crate::ops::Op;
use crate::text::indent;

verus! {

/// A line break: with pretty printing, a newline and `nesting` levels of
/// indentation; otherwise one space.
pub open spec fn nl(pretty_print: bool, nesting: nat) -> Seq<Tok> {
    if pretty_print {
        lit("\n") + chars(indent(nesting))
    } else {
        lit(" ")
    }
}

/// One level of indentation, with pretty printing; otherwise nothing.
pub open spec fn tb(pretty_print: bool) -> Seq<Tok> {
    if pretty_print {
        lit("  ")
    } else {
        Seq::empty()
    }
}

pub fn newline(pretty_print: bool, out: &mut Code, nesting: usize)
    ensures
        final(out)@ == old(out)@ + nl(pretty_print, nesting as nat),
{
    if pretty_print {
        out.push_str("\n");
        out.push_indent(nesting);
        proof {
            assert(out@ =~= old(out)@ + nl(pretty_print, nesting as nat));
        }
    } else {
        out.push_str(" ");
    }
}

pub fn tab(pretty_print: bool, out: &mut Code)
    ensures
        final(out)@ == old(out)@ + tb(pretty_print),
{
    if pretty_print {
        out.push_str("  ");
    } else {
        proof {
            assert(out@ =~= old(out)@ + tb(pretty_print));
        }
    }
}

/// Code with its spaces and line breaks left out: what stays the same
/// whichever way the code is laid out.
pub open spec fn squeeze(t: Seq<Tok>) -> Seq<Tok>
    decreases t.len(),
{
    if t.len() == 0 {
        Seq::empty()
    } else {
        squeeze(t.drop_last()) + if t.last() == Tok::Ch(' ') || t.last() == Tok::Ch('\n') {
            Seq::<Tok>::empty()
        } else {
            seq![t.last()]
        }
    }
}

/// Squeezing two pieces of code one after the other squeezes each.
pub broadcast proof fn lemma_squeeze_cat(a: Seq<Tok>, b: Seq<Tok>)
    ensures
        #[trigger] squeeze(a + b) == squeeze(a) + squeeze(b),
    decreases b.len(),
{
    if b.len() == 0 {
        assert(a + b =~= a);
        assert(squeeze(a) + squeeze(b) =~= squeeze(a));
    } else {
        lemma_squeeze_cat(a, b.drop_last());
        assert((a + b).drop_last() =~= a + b.drop_last());
        assert((a + b).last() == b.last());
        let tail = if b.last() == Tok::Ch(' ') || b.last() == Tok::Ch('\n') {
            Seq::<Tok>::empty()
        } else {
            seq![b.last()]
        };
        assert(squeeze(a) + squeeze(b.drop_last()) + tail =~= squeeze(a) + (squeeze(b.drop_last()) + tail));
    }
}

/// Code made of spaces and line breaks alone squeezes to nothing.
proof fn lemma_blank_chars(s: Seq<char>)
    requires
        forall|i: int| 0 <= i < s.len() ==> s[i] == ' ' || s[i] == '\n',
    ensures
        squeeze(chars(s)) == Seq::<Tok>::empty(),
    decreases s.len(),
{
    lemma_chars(s);
    if s.len() > 0 {
        lemma_chars(s.drop_last());
        lemma_blank_chars(s.drop_last());
        assert(chars(s).drop_last() =~= chars(s.drop_last()));
        assert(chars(s).last() == Tok::Ch(s.last()));
    }
}

/// Indentation is spaces alone.
proof fn lemma_indent_spaces(n: nat)
    ensures
        forall|i: int| 0 <= i < indent(n).len() ==> indent(n)[i] == ' ',
    decreases n,
{
    if n > 0 {
        lemma_indent_spaces((n - 1) as nat);
        reveal_strlit("  ");
        assert("  "@ =~= seq![' ', ' ']);
        let prev = indent((n - 1) as nat);
        assert(indent(n) =~= prev + seq![' ', ' ']);
        assert forall|i: int| 0 <= i < indent(n).len() implies indent(n)[i] == ' ' by {
            if i < prev.len() {
                assert(indent(n)[i] == prev[i]);
            }
        }
    }
}

/// A line break and a level of indentation are blank, laid out either way.
pub proof fn lemma_layout_blank(pretty_print: bool, nesting: nat)
    ensures
        squeeze(nl(pretty_print, nesting)) == Seq::<Tok>::empty(),
        squeeze(tb(pretty_print)) == Seq::<Tok>::empty(),
{
    broadcast use lemma_squeeze_cat;
    reveal_strlit("\n");
    reveal_strlit(" ");
    reveal_strlit("  ");
    assert("\n"@ =~= seq!['\n']);
    assert(" "@ =~= seq![' ']);
    assert("  "@ =~= seq![' ', ' ']);
    lemma_blank_chars("\n"@);
    lemma_blank_chars(" "@);
    lemma_blank_chars("  "@);
    lemma_indent_spaces(nesting);
    lemma_blank_chars(indent(nesting));
    assert(squeeze(Seq::<Tok>::empty()) == Seq::<Tok>::empty());
}

/// Which of four groups an instruction belongs to, for code generation:
/// 0 statements, 1 scalar values, 2 arithmetic, 3 memory access.
pub open spec fn op_group(op: Op) -> nat {
    match op {
        Op::Nop | Op::DefineVar { .. } | Op::OverwriteVar { .. } | Op::AddAssign { .. } | Op::MulAssign { .. } | Op::DivAssign { .. } | Op::SubAssign { .. } | Op::ShlAssign { .. } | Op::ShrAssign { .. } | Op::CopyVar { .. } | Op::ForLoopBegin { .. } | Op::ForeverLoopBegin | Op::Continue | Op::Break | Op::IfBegin { .. } | Op::ElseBegin | Op::StartScope | Op::EndScope | Op::Barrier | Op::Return => 0,
        Op::ConstF64 { .. } | Op::ConstF32 { .. } | Op::ConstF16 { .. } | Op::ConstBf16 { .. } | Op::ConstU32 { .. } | Op::ConstI32 { .. } | Op::ReadMeta { .. } | Op::LocalId { .. } | Op::BlockId { .. } | Op::GlobalId { .. } | Op::CastF64 { .. } | Op::CastF32 { .. } | Op::CastF16 { .. } | Op::CastBF16 { .. } | Op::CastU32 { .. } | Op::CastI32 { .. } => 1,
        Op::Add { .. } | Op::Sub { .. } | Op::Mul { .. } | Op::Div { .. } | Op::Mod { .. } | Op::Pow { .. } | Op::Shl { .. } | Op::Shr { .. } | Op::Fma { .. } | Op::Exp { .. } | Op::Abs { .. } | Op::Neg { .. } | Op::Log { .. } | Op::Tanh { .. } | Op::Sqrt { .. } | Op::Eq { .. } | Op::Ne { .. } | Op::Lt { .. } | Op::Gt { .. } | Op::Le { .. } | Op::Ge { .. } | Op::Not { .. } | Op::Max { .. } | Op::Min { .. } | Op::Select { .. } => 2,
        _ => 3,
    }
}

} // verus!
