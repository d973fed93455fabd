//! The grammar of a script, on plain text: numerals, calls, statements with
//! their indented blocks, and documents.

use vstd::prelude::*;

verus! {

/// `std::string::String::push`. Believed, not proved: afterwards the
/// string is what it was, with `ch` at its end.
pub assume_specification[ String::push ](s: &mut String, ch: char)
    ensures
        final(s)@ == old(s)@.push(ch),
;

/// The character that stands for the decimal digit `d`.
pub open spec fn digit_char(d: int) -> char {
    (d + 48) as char
}

/// Whether `c` is one of `0` to `9`.
pub open spec fn is_digit(c: char) -> bool {
    48 <= c as int <= 57
}

/// The digit that the character `c` stands for.
pub open spec fn digit_of(c: char) -> int {
    c as int - 48
}

/// The decimal numeral of `n`, without leading zeros.
pub open spec fn nat_text(n: nat) -> Seq<char>
    decreases n,
{
    if n < 10 {
        seq![digit_char(n as int)]
    } else {
        nat_text(n / 10).push(digit_char((n % 10) as int))
    }
}

/// The decimal numeral of `i`, with a leading `-` where it is negative.
pub open spec fn int_text(i: int) -> Seq<char> {
    if i < 0 {
        seq!['-'] + nat_text((-i) as nat)
    } else {
        nat_text(i as nat)
    }
}

/// The literal that stands for `b`.
pub open spec fn bool_text(b: bool) -> Seq<char> {
    if b {
        "true"@
    } else {
        "false"@
    }
}

/// A call: the name, and the arguments between round brackets.
pub open spec fn call_text(name: Seq<char>, arguments: Seq<char>) -> Seq<char> {
    name + seq!['('] + arguments + seq![')']
}

/// The text `s` with one tab inserted after every line break.
pub open spec fn indent_breaks(s: Seq<char>) -> Seq<char>
    decreases s.len(),
{
    if s.len() == 0 {
        Seq::empty()
    } else if s.last() == '\n' {
        indent_breaks(s.drop_last()).push('\n').push('\t')
    } else {
        indent_breaks(s.drop_last()).push(s.last())
    }
}

/// The text `code` as it stands inside a block: moved one tab to the right,
/// line by line, and closed by a line break.
pub open spec fn block_entry(code: Seq<char>) -> Seq<char> {
    seq!['\t'] + indent_breaks(code) + seq!['\n']
}

/// The inside of a block: the entries of `codes`, one after the other.
pub open spec fn block_text(codes: Seq<Seq<char>>) -> Seq<char>
    decreases codes.len(),
{
    if codes.len() == 0 {
        Seq::empty()
    } else {
        block_text(codes.drop_last()) + block_entry(codes.last())
    }
}

/// A statement: `!` where it is marked important, the operation `head`,
/// and then either `;`, where there are no children, or the children's
/// texts as a block between braces on lines of their own.
pub open spec fn statement_text(head: Seq<char>, important: bool, children: Seq<Seq<char>>) -> Seq<
    char,
> {
    (if important {
        seq!['!']
    } else {
        Seq::empty()
    }) + head + (if children.len() == 0 {
        seq![';']
    } else {
        seq!['\n', '{', '\n'] + block_text(children) + seq!['}']
    })
}

/// A document: the statements `codes`, one after the other, with a line
/// break between each two.
pub open spec fn document_text(codes: Seq<Seq<char>>) -> Seq<char>
    decreases codes.len(),
{
    if codes.len() == 0 {
        Seq::empty()
    } else if codes.len() == 1 {
        codes[0]
    } else {
        document_text(codes.drop_last()) + seq!['\n'] + codes.last()
    }
}

/// What each of `strings` holds.
pub open spec fn texts(strings: Seq<String>) -> Seq<Seq<char>> {
    Seq::new(strings.len(), |i: int| strings[i]@)
}

/// Whether `s` holds neither `{` nor `}`.
pub open spec fn no_braces(s: Seq<char>) -> bool {
    forall|i: int| 0 <= i < s.len() ==> s[i] != '{' && s[i] != '}'
}

/// A numeral holds only digits, and so no brace.
pub proof fn lemma_nat_text_digits(n: nat)
    ensures
        forall|i: int| 0 <= i < nat_text(n).len() ==> is_digit(#[trigger] nat_text(n)[i]),
        no_braces(nat_text(n)),
        no_braces(int_text(n as int)),
        no_braces(int_text(-(n as int))),
    decreases n,
{
    if n >= 10 {
        lemma_nat_text_digits(n / 10);
    }
}

/// `true` and `false` hold no brace.
pub proof fn lemma_bool_text_no_braces(b: bool)
    ensures
        no_braces(bool_text(b)),
{
    reveal_strlit("true");
    reveal_strlit("false");
}

/// The character of a single decimal digit.
pub fn digit_to_char(d: u8) -> (c: char)
    requires
        d <= 9,
    ensures
        c == digit_char(d as int),
{
    (d + 48) as char
}

/// Appends the decimal numeral of `n` to `f`.
pub fn fmt_nat(n: u64, f: &mut String)
    ensures
        final(f)@ == old(f)@ + nat_text(n as nat),
    decreases n,
{
    if n >= 10 {
        fmt_nat(n / 10, f);
    }
    f.push(digit_to_char((n % 10) as u8));
}

/// Appends the decimal numeral of `i` to `f`.
pub fn fmt_int(i: i64, f: &mut String)
    ensures
        final(f)@ == old(f)@ + int_text(i as int),
{
    if i < 0 {
        f.push('-');
        let magnitude: u64 = (-(i + 1)) as u64 + 1;
        fmt_nat(magnitude, f);
    } else {
        fmt_nat(i as u64, f);
    }
}

/// Appends `true` or `false` to `f`.
pub fn fmt_bool(b: bool, f: &mut String)
    ensures
        final(f)@ == old(f)@ + bool_text(b),
{
    if b {
        f.append("true");
    } else {
        f.append("false");
    }
}

/// Appends the call of `name` with `arguments` to `f`.
pub fn fmt_call(name: &str, arguments: &str, f: &mut String)
    ensures
        final(f)@ == old(f)@ + call_text(name@, arguments@),
{
    f.append(name);
    f.push('(');
    f.append(arguments);
    f.push(')');
}

/// Appends `code` to `f`, with a tab after each of its line breaks.
pub fn fmt_indented(code: &str, f: &mut String)
    ensures
        final(f)@ == old(f)@ + indent_breaks(code@),
{
    let ghost start = f@;
    let chars = code.chars();
    for c in it: chars
        invariant
            it.seq() == code@,
            f@ == start + indent_breaks(code@.take(it.index())),
    {
        assert(code@.take(it.index() + 1).drop_last() =~= code@.take(it.index()));
        f.push(c);
        if c == '\n' {
            f.push('\t');
        }
    }
    assert(code@.take(code@.len() as int) =~= code@);
}

/// Appends `code` to `f` as one entry of a block: every line of it behind one
/// more tab, and a line break after the last.
pub fn fmt_block_entry(code: &str, f: &mut String)
    ensures
        final(f)@ == old(f)@ + block_entry(code@),
{
    f.push('\t');
    fmt_indented(code, f);
    f.push('\n');
}

/// Appends a statement to `f`: `!` where it is marked important, the
/// operation `head`, and then `;` where there are no children, or else the
/// children's texts as a block between braces.
pub fn fmt_statement(head: &str, important: bool, children: &Vec<String>, f: &mut String)
    ensures
        final(f)@ == old(f)@ + statement_text(head@, important, texts(children@)),
{
    let ghost codes = texts(children@);
    if important {
        f.push('!');
    }
    f.append(head);
    if children.len() == 0 {
        f.push(';');
    } else {
        f.push('\n');
        f.push('{');
        f.push('\n');
        let ghost opened = f@;
        let mut i: usize = 0;
        while i < children.len()
            invariant
                i <= children.len(),
                codes == texts(children@),
                f@ == opened + block_text(codes.take(i as int)),
            decreases children.len() - i,
        {
            fmt_block_entry(children[i].as_str(), f);
            i += 1;
            assert(codes.take(i as int).drop_last() =~= codes.take(i - 1));
        }
        assert(codes.take(i as int) =~= codes);
        f.push('}');
    }
}

/// Appends a document to `f`: the statements `codes`, with a line break
/// between each two.
pub fn fmt_document(codes: &Vec<String>, f: &mut String)
    ensures
        final(f)@ == old(f)@ + document_text(texts(codes@)),
{
    let ghost start = f@;
    let ghost all = texts(codes@);
    let mut i: usize = 0;
    while i < codes.len()
        invariant
            i <= codes.len(),
            all == texts(codes@),
            f@ == start + document_text(all.take(i as int)),
        decreases codes.len() - i,
    {
        if i > 0 {
            f.push('\n');
        }
        f.append(codes[i].as_str());
        i += 1;
        assert(all.take(i as int).drop_last() =~= all.take(i - 1));
    }
    assert(all.take(i as int) =~= all);
}

} // verus!
