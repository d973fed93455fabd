//! The layout of a script in lines: what indentation does to the lines of a
//! text, and how the lines of a statement are made of those of its children.

use vstd::prelude::*;
use crate::text::{block_entry, block_text, indent_breaks, statement_text};

verus! {

/// The lines of `s`: what stands between its line breaks. A text without
/// a line break is one line; a text that ends in one has an empty last line.
pub open spec fn lines(s: Seq<char>) -> Seq<Seq<char>>
    decreases s.len(),
{
    if s.len() == 0 {
        seq![Seq::empty()]
    } else if s.last() == '\n' {
        lines(s.drop_last()).push(Seq::empty())
    } else {
        let before = lines(s.drop_last());
        before.drop_last().push(before.last().push(s.last()))
    }
}

/// Each of `rows` behind one more tab.
pub open spec fn indented(rows: Seq<Seq<char>>) -> Seq<Seq<char>> {
    Seq::new(rows.len(), |i: int| seq!['\t'] + rows[i])
}

/// The lines of the entries of a block, tabs included: the lines of each of
/// `codes`, in order, each behind one more tab.
pub open spec fn entry_lines(codes: Seq<Seq<char>>) -> Seq<Seq<char>>
    decreases codes.len(),
{
    if codes.len() == 0 {
        Seq::empty()
    } else {
        entry_lines(codes.drop_last()) + indented(lines(codes.last()))
    }
}

/// Every text has at least one line.
pub proof fn lemma_lines_nonempty(s: Seq<char>)
    ensures
        lines(s).len() >= 1,
    decreases s.len(),
{
    if s.len() > 0 {
        lemma_lines_nonempty(s.drop_last());
    }
}

/// What one more character does to the lines of a text: a line break opens
/// a new, empty line, any other character joins the last line.
pub proof fn lemma_lines_push(s: Seq<char>, c: char)
    ensures
        lines(s).len() >= 1,
        c == '\n' ==> lines(s.push(c)) == lines(s).push(Seq::empty()),
        c != '\n' ==> lines(s.push(c)) == lines(s).drop_last().push(lines(s).last().push(c)),
{
    lemma_lines_nonempty(s);
    assert(s.push(c).drop_last() =~= s);
}

/// The lines of two texts put together: the last line of the first goes on
/// in the first line of the second.
pub proof fn lemma_lines_concat(a: Seq<char>, b: Seq<char>)
    ensures
        lines(a).len() >= 1,
        lines(b).len() >= 1,
        lines(a + b) == lines(a).drop_last().push(lines(a).last() + lines(b)[0]) + lines(
            b,
        ).drop_first(),
    decreases b.len(),
{
    lemma_lines_nonempty(a);
    lemma_lines_nonempty(b);
    if b.len() > 0 {
        let init = b.drop_last();
        let c = b.last();
        lemma_lines_concat(a, init);
        lemma_lines_push(init, c);
        lemma_lines_push(a + init, c);
        assert((a + init).push(c) =~= a + b);
    }
}

/// Indenting a text indents its lines: the lines of the indented text are
/// the lines of the text, each behind one more tab.
pub proof fn lemma_indent_lines(s: Seq<char>)
    ensures
        lines(seq!['\t'] + indent_breaks(s)) == indented(lines(s)),
    decreases s.len(),
{
    let tab = seq!['\t'];
    if s.len() == 0 {
        lemma_lines_push(Seq::empty(), '\t');
    } else {
        let init = s.drop_last();
        let c = s.last();
        lemma_indent_lines(init);
        lemma_lines_nonempty(init);
        let before = tab + indent_breaks(init);
        if c == '\n' {
            lemma_lines_push(before, '\n');
            lemma_lines_push(before.push('\n'), '\t');
        } else {
            lemma_lines_push(before, c);
        }
    }
}

/// The lines of the inside of a block are the lines of its entries, each
/// behind one more tab than in the entry's own text, and an empty line on
/// which the closing brace will stand.
pub proof fn lemma_block_lines(codes: Seq<Seq<char>>)
    ensures
        lines(block_text(codes)) == entry_lines(codes).push(Seq::empty()),
    decreases codes.len(),
{
    if codes.len() > 0 {
        let init = codes.drop_last();
        let entry = seq!['\t'] + indent_breaks(codes.last());
        lemma_block_lines(init);
        lemma_indent_lines(codes.last());
        lemma_lines_push(entry, '\n');
        lemma_lines_concat(block_text(init), block_entry(codes.last()));
        assert(block_entry(codes.last()) =~= entry.push('\n'));
        lemma_lines_nonempty(codes.last());
    }
}

/// A statement with children is laid out as its operation, a line that
/// holds only `{`, the lines of the children in order, each behind exactly
/// one more tab than in the child's own text, and a line that holds only
/// `}`.
pub proof fn lemma_statement_lines(head: Seq<char>, important: bool, children: Seq<Seq<char>>)
    requires
        children.len() >= 1,
    ensures
        lines(statement_text(head, important, children)) == lines(
            statement_text(head, important, Seq::empty()).drop_last(),
        ) + seq![seq!['{']] + entry_lines(children) + seq![seq!['}']],
{
    let mark: Seq<char> = if important {
        seq!['!']
    } else {
        Seq::empty()
    };
    let first = mark + head;
    assert(statement_text(head, important, Seq::empty()).drop_last() =~= first);
    let block = block_text(children);
    lemma_lines_nonempty(first);
    lemma_lines_push(first, '\n');
    lemma_lines_push(first.push('\n'), '{');
    lemma_lines_push(first.push('\n').push('{'), '\n');
    let opened = first.push('\n').push('{').push('\n');
    assert(lines(opened) =~= lines(first).push(seq!['{']).push(Seq::empty()));
    lemma_block_lines(children);
    lemma_lines_concat(opened, block);
    lemma_lines_push(opened + block, '}');
    assert(statement_text(head, important, children) =~= (opened + block).push('}'));
}

} // verus!
