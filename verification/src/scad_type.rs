//! The serialisation contract: every value that can stand in a script says,
//! as a sequence of characters, what it is written as, and writes exactly
//! that.

use vstd::prelude::*;
use crate::text::{
    bool_text, fmt_bool, fmt_int, fmt_nat, int_text, lemma_nat_text_digits, nat_text, no_braces,
};

verus! {

/// A value that can be written into an OpenSCAD script.
pub trait ScadType {
    /// Whether the value can be written. Values that a script must not hold,
    /// such as a colour outside the unit range, are not valid.
    spec fn valid(&self) -> bool;

    /// The text that the value is written as.
    spec fn scad_code(&self) -> Seq<char>;

    /// Appends the value's text to `f`.
    fn fmt_code(&self, f: &mut String)
        requires
            self.valid(),
        ensures
            final(f)@ == old(f)@ + self.scad_code(),
    ;

    /// The value's text as a string of its own.
    fn get_code(&self) -> (code: String)
        requires
            self.valid(),
        ensures
            code@ == self.scad_code(),
    {
        let mut code = String::new();
        self.fmt_code(&mut code);
        code
    }
}

impl ScadType for i32 {
    open spec fn valid(&self) -> bool {
        true
    }

    open spec fn scad_code(&self) -> Seq<char> {
        int_text(*self as int)
    }

    fn fmt_code(&self, f: &mut String) {
        fmt_int(*self as i64, f);
    }
}

impl ScadType for usize {
    open spec fn valid(&self) -> bool {
        true
    }

    open spec fn scad_code(&self) -> Seq<char> {
        nat_text(*self as nat)
    }

    fn fmt_code(&self, f: &mut String) {
        fmt_nat(*self as u64, f);
    }
}

impl ScadType for u64 {
    open spec fn valid(&self) -> bool {
        true
    }

    open spec fn scad_code(&self) -> Seq<char> {
        nat_text(*self as nat)
    }

    fn fmt_code(&self, f: &mut String) {
        fmt_nat(*self, f);
    }
}

impl ScadType for bool {
    open spec fn valid(&self) -> bool {
        true
    }

    open spec fn scad_code(&self) -> Seq<char> {
        bool_text(*self)
    }

    fn fmt_code(&self, f: &mut String) {
        fmt_bool(*self, f);
    }
}

/// The entries of a list literal: each item's text, followed by a comma.
pub open spec fn list_items<T: ScadType>(items: Seq<T>) -> Seq<char>
    decreases items.len(),
{
    if items.len() == 0 {
        Seq::empty()
    } else {
        list_items(items.drop_last()) + items.last().scad_code() + seq![',']
    }
}

impl<T: ScadType> ScadType for Vec<T> {
    open spec fn valid(&self) -> bool {
        forall|i: int| 0 <= i < self@.len() ==> (#[trigger] self@[i]).valid()
    }

    open spec fn scad_code(&self) -> Seq<char> {
        seq!['['] + list_items(self@) + seq![']']
    }

    fn fmt_code(&self, f: &mut String) {
        let ghost start = f@;
        f.push('[');
        let mut i: usize = 0;
        while i < self.len()
            invariant
                i <= self.len(),
                self.valid(),
                f@ == start + seq!['['] + list_items(self@.take(i as int)),
            decreases self.len() - i,
        {
            assert(self@.take(i + 1).drop_last() =~= self@.take(i as int));
            self[i].fmt_code(f);
            f.push(',');
            i += 1;
        }
        assert(self@.take(self@.len() as int) =~= self@);
        f.push(']');
    }
}

/// Lists whose items are written alike, place by place, are written alike.
pub proof fn lemma_list_items_alike<T: ScadType>(a: Seq<T>, b: Seq<T>)
    requires
        a.len() == b.len(),
        forall|i: int| 0 <= i < a.len() ==> (#[trigger] a[i]).scad_code() == b[i].scad_code(),
    ensures
        list_items(a) == list_items(b),
    decreases a.len(),
{
    if a.len() > 0 {
        lemma_list_items_alike(a.drop_last(), b.drop_last());
    }
}

/// A list of items that are written without braces is written without
/// braces.
pub proof fn lemma_list_no_braces<T: ScadType>(list: Vec<T>)
    requires
        forall|i: int| 0 <= i < list@.len() ==> no_braces((#[trigger] list@[i]).scad_code()),
    ensures
        no_braces(list.scad_code()),
{
    lemma_list_items_no_braces(list@);
}

/// The entries of a list of items that are written without braces hold no
/// brace.
pub proof fn lemma_list_items_no_braces<T: ScadType>(items: Seq<T>)
    requires
        forall|i: int| 0 <= i < items.len() ==> no_braces((#[trigger] items[i]).scad_code()),
    ensures
        no_braces(list_items(items)),
    decreases items.len(),
{
    if items.len() > 0 {
        lemma_list_items_no_braces(items.drop_last());
    }
}

/// An integer is written without braces.
pub proof fn lemma_int_no_braces(value: i32)
    ensures
        no_braces(value.scad_code()),
{
    if value < 0 {
        lemma_nat_text_digits((-(value as int)) as nat);
    } else {
        lemma_nat_text_digits(value as nat);
    }
}

/// A list of whole numbers is written without braces.
pub proof fn lemma_index_list_no_braces(list: Vec<usize>)
    ensures
        no_braces(list.scad_code()),
{
    assert forall|i: int| 0 <= i < list@.len() implies no_braces(
        (#[trigger] list@[i]).scad_code(),
    ) by {
        lemma_nat_text_digits(list@[i] as nat);
    }
    lemma_list_no_braces(list);
}

/// A list of integers is written without braces.
pub proof fn lemma_int_list_no_braces(list: Vec<i32>)
    ensures
        no_braces(list.scad_code()),
{
    assert forall|i: int| 0 <= i < list@.len() implies no_braces(
        (#[trigger] list@[i]).scad_code(),
    ) by {
        lemma_int_no_braces(list@[i]);
    }
    lemma_list_no_braces(list);
}

/// A list is written between square brackets, with a comma behind every
/// item, the last too: the text of a list with items ends in `,]`, and the
/// empty list is `[]`.
pub proof fn lemma_list_shape<T: ScadType>(list: Vec<T>)
    ensures
        list.scad_code()[0] == '[',
        list.scad_code().last() == ']',
        list@.len() == 0 ==> list.scad_code() == seq!['[', ']'],
        list@.len() >= 1 ==> list.scad_code().len() >= 3 && list.scad_code()[
            list.scad_code().len() - 2
        ] == ',',
{
}

/// The text that `Debug` formatting gives for the string `s`: the string
/// between double quotes, with the characters that cannot stand there
/// escaped. Nothing is stated of it but that it is a function of `s`.
pub uninterp spec fn debug_quoted(s: Seq<char>) -> Seq<char>;

/// Calls `<str as std::fmt::Debug>::fmt`, through `format!("{:?}", s)`.
/// Believed, not proved: the result is `debug_quoted` of what `s` holds,
/// that is, the same string always gives the same text.
#[verifier::external_body]
fn debug_string(s: &str) -> (quoted: String)
    ensures
        quoted@ == debug_quoted(s@),
{
    format!("{:?}", s)
}

impl ScadType for String {
    open spec fn valid(&self) -> bool {
        true
    }

    open spec fn scad_code(&self) -> Seq<char> {
        debug_quoted(self@)
    }

    fn fmt_code(&self, f: &mut String) {
        let quoted = debug_string(self.as_str());
        f.append(quoted.as_str());
    }
}

} // verus!
