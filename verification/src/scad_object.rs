//! The object tree: one operation, the objects it applies to, and a mark
//! that asks the renderer to show this object alone.

use vstd::prelude::*;
use crate::lines::{entry_lines, lemma_statement_lines, lines};
use crate::scad_element::ScadElement;
use crate::scad_type::ScadType;
use crate::text::{
    document_text, fmt_document, fmt_statement, no_braces, statement_text, texts,
};

verus! {

/// What a [`ScadObject`] holds.
pub struct ScadObjectView {
    pub element: ScadElement,
    pub children: Seq<ScadObject>,
    pub important: bool,
}

/// One operation together with the objects it applies to, in the order in
/// which they were added.
pub struct ScadObject {
    element: ScadElement,
    children: Vec<ScadObject>,
    important: bool,
}

/// The statements that `objects` are written as, in their order.
pub open spec fn codes(objects: Seq<ScadObject>) -> Seq<Seq<char>>
    decreases objects,
{
    Seq::new(
        objects.len(),
        |i: int|
            if 0 <= i < objects.len() {
                objects[i].code()
            } else {
                Seq::empty()
            },
    )
}

/// The text `code` of an object after the object was marked as important:
/// `!` in front of it, unless the object was marked before.
pub open spec fn marked_text(code: Seq<char>, was_marked: bool) -> Seq<char> {
    if was_marked {
        code
    } else {
        seq!['!'] + code
    }
}

impl ScadObject {
    /// The operation, the children in their order, and the mark.
    pub closed spec fn view(&self) -> ScadObjectView {
        ScadObjectView {
            element: self.element,
            children: self.children@,
            important: self.important,
        }
    }

    /// Whether the operation of this object and of every object below it
    /// can be written.
    pub open spec fn tree_valid(&self) -> bool
        decreases self,
    {
        &&& self@.element.valid()
        &&& forall|i: int|
            0 <= i < self@.children.len() ==> (#[trigger] self@.children[i]).tree_valid()
    }

    /// The statement that this object is written as.
    pub open spec fn code(&self) -> Seq<char>
        decreases self,
    {
        statement_text(self@.element.scad_code(), self@.important, codes(self@.children))
    }

    /// Whether this object and `other` are written alike, part by part:
    /// the operation, the mark, and each child in its place.
    pub open spec fn same_text(&self, other: ScadObject) -> bool {
        &&& self@.element.name() == other@.element.name()
        &&& self@.element.arguments() == other@.element.arguments()
        &&& self@.important == other@.important
        &&& codes(self@.children) == codes(other@.children)
    }

    /// An object with the operation `element`, no children, not marked.
    pub fn new(element: ScadElement) -> (object: ScadObject)
        ensures
            object@ == (ScadObjectView { element, children: Seq::empty(), important: false }),
            object.tree_valid() == element.valid(),
            object.code() == element.scad_code() + seq![';'],
    {
        let object = ScadObject { element, children: Vec::new(), important: false };
        object
    }

    /// Adds `statement` behind the children that are there. Any object may
    /// stand below any other.
    pub fn add_child(&mut self, statement: ScadObject)
        ensures
            final(self)@ == (ScadObjectView {
                children: old(self)@.children.push(statement),
                ..old(self)@
            }),
            final(self).tree_valid() == (old(self).tree_valid() && statement.tree_valid()),
            codes(final(self)@.children) == codes(old(self)@.children).push(statement.code()),
    {
        self.children.push(statement);
        proof {
            let before = old(self)@.children;
            let after = self@.children;
            assert(after[before.len() as int] == statement);
            if self.tree_valid() {
                assert forall|i: int| 0 <= i < before.len() implies (
                #[trigger] before[i]).tree_valid() by {
                    assert(after[i].tree_valid());
                }
            }
        }
    }

    /// Marks the object as important: its text then starts with `!`, which
    /// tells the renderer to show only this object and what is below it.
    /// Nothing else changes, and marking twice is marking once.
    pub fn is_important(&mut self)
        ensures
            final(self)@ == (ScadObjectView { important: true, ..old(self)@ }),
            final(self).code() == marked_text(old(self).code(), old(self)@.important),
            final(self).tree_valid() == old(self).tree_valid(),
    {
        self.important = true;
        proof {
            lemma_mark(*old(self), *self);
        }
    }

    /// The object, marked as important.
    pub fn important(self) -> (object: ScadObject)
        ensures
            object@ == (ScadObjectView { important: true, ..self@ }),
            object.code() == marked_text(self.code(), self@.important),
            object.tree_valid() == self.tree_valid(),
    {
        let mut object = self;
        object.important = true;
        proof {
            lemma_mark(self, object);
        }
        object
    }

    /// Whether the operation of this object and of every object below it
    /// can be written.
    pub fn is_valid(&self) -> (valid: bool)
        ensures
            valid == self.tree_valid(),
        decreases self,
    {
        if !self.element.is_valid() {
            return false;
        }
        let mut i: usize = 0;
        while i < self.children.len()
            invariant
                i <= self.children.len(),
                self@.element.valid(),
                forall|j: int| 0 <= j < i ==> (#[trigger] self@.children[j]).tree_valid(),
            decreases self.children.len() - i,
        {
            if !self.children[i].is_valid() {
                assert(!self@.children[i as int].tree_valid());
                return false;
            }
            i += 1;
        }
        true
    }

    /// The statement that this object is written as: the children first,
    /// each on its own, then the whole.
    fn statement(&self) -> (code: String)
        requires
            self.tree_valid(),
        ensures
            code@ == self.code(),
        decreases self,
    {
        let head = self.element.get_code();
        let mut children: Vec<String> = Vec::new();
        let mut i: usize = 0;
        while i < self.children.len()
            invariant
                i <= self.children.len(),
                self.tree_valid(),
                texts(children@) == codes(self@.children).take(i as int),
            decreases self.children.len() - i,
        {
            let ghost before = texts(children@);
            let child = self.children[i].statement();
            children.push(child);
            i += 1;
            assert(texts(children@) =~= before.push(self@.children[i - 1].code()));
        }
        assert(codes(self@.children).take(i as int) =~= codes(self@.children));
        let mut code = String::new();
        fmt_statement(head.as_str(), self.important, &children, &mut code);
        code
    }

    /// A copy of the whole tree.
    fn deep_clone(&self) -> (copy: ScadObject)
        ensures
            copy.same_text(*self),
            copy.tree_valid() == self.tree_valid(),
        decreases self,
    {
        let mut children: Vec<ScadObject> = Vec::new();
        let mut i: usize = 0;
        while i < self.children.len()
            invariant
                i <= self.children.len(),
                children.len() == i,
                forall|j: int|
                    0 <= j < i ==> (#[trigger] children@[j]).code() == self@.children[j].code(),
                forall|j: int|
                    0 <= j < i ==> (#[trigger] children@[j]).tree_valid()
                        == self@.children[j].tree_valid(),
            decreases self.children.len() - i,
        {
            children.push(self.children[i].deep_clone());
            i += 1;
        }
        let copy = ScadObject {
            element: self.element.clone(),
            children,
            important: self.important,
        };
        proof {
            assert(codes(copy@.children) =~= codes(self@.children));
            if copy.tree_valid() {
                assert forall|j: int| 0 <= j < self@.children.len() implies (
                #[trigger] self@.children[j]).tree_valid() by {
                    assert(copy@.children[j].tree_valid());
                }
            }
        }
        copy
    }
}

impl Clone for ScadObject {
    /// A copy of the whole tree: it is written as this object is, part by
    /// part, and can be written where this one can.
    fn clone(&self) -> (copy: ScadObject)
        ensures
            copy.same_text(*self),
            copy.code() == self.code(),
            copy.tree_valid() == self.tree_valid(),
    {
        self.deep_clone()
    }
}

impl ScadType for ScadObject {
    open spec fn valid(&self) -> bool {
        self.tree_valid()
    }

    open spec fn scad_code(&self) -> Seq<char> {
        self.code()
    }

    fn fmt_code(&self, f: &mut String) {
        let code = self.statement();
        f.append(code.as_str());
    }
}

/// The whole script: the statements of `objects` in their order, with a
/// line break between each two.
pub fn render_document(objects: &Vec<ScadObject>) -> (script: String)
    requires
        objects.valid(),
    ensures
        script@ == document_text(codes(objects@)),
{
    let mut statements: Vec<String> = Vec::new();
    let mut i: usize = 0;
    while i < objects.len()
        invariant
            i <= objects.len(),
            objects.valid(),
            texts(statements@) == codes(objects@).take(i as int),
        decreases objects.len() - i,
    {
        let ghost before = texts(statements@);
        let statement = objects[i].get_code();
        statements.push(statement);
        i += 1;
        assert(texts(statements@) =~= before.push(objects@[i - 1].code()));
    }
    assert(codes(objects@).take(i as int) =~= codes(objects@));
    let mut script = String::new();
    fmt_document(&statements, &mut script);
    script
}

/// Marking an object as important puts `!` in front of its text and changes
/// nothing else; on an object that is marked it changes nothing.
pub proof fn lemma_mark(before: ScadObject, after: ScadObject)
    requires
        after@ == (ScadObjectView { important: true, ..before@ }),
    ensures
        after.code() == marked_text(before.code(), before@.important),
        after.code()[0] == '!',
        after.tree_valid() == before.tree_valid(),
{
    let head = before@.element.scad_code();
    let children = codes(before@.children);
}

/// An object without children is written on one line of its own: `!` where
/// it is marked, its operation, and `;`. It holds a brace only where the
/// text of the operation holds one.
pub proof fn lemma_leaf(object: ScadObject)
    requires
        object@.children.len() == 0,
    ensures
        object.code() == (if object@.important {
            seq!['!']
        } else {
            Seq::empty()
        }) + object@.element.scad_code() + seq![';'],
        object.code().last() == ';',
        no_braces(object.code()) == no_braces(object@.element.scad_code()),
{
    let head = object@.element.scad_code();
    let mark: Seq<char> = if object@.important {
        seq!['!']
    } else {
        Seq::empty()
    };
    let code = object.code();
    if no_braces(code) {
        assert forall|i: int| 0 <= i < head.len() implies head[i] != '{' && head[i] != '}' by {
            assert(code[mark.len() + i] == head[i]);
        }
    }
}

/// An object without children whose operation holds no string is written
/// without braces: braces stand only around the children of an object.
pub proof fn lemma_leaf_no_braces(object: ScadObject)
    requires
        object@.children.len() == 0,
        object@.element.wf(),
        !object@.element.holds_string(),
    ensures
        no_braces(object.code()),
{
    object@.element.lemma_no_braces();
    lemma_leaf(object);
}

/// An object with children is laid out as its operation, a line that holds
/// only `{`, the lines of the children's texts in the order in which the
/// children were added, each behind exactly one more tab than in the
/// child's own text, and a line that holds only `}`.
pub proof fn lemma_block(object: ScadObject)
    requires
        object@.children.len() >= 1,
    ensures
        lines(object.code()) == lines(
            (if object@.important {
                seq!['!']
            } else {
                Seq::empty()
            }) + object@.element.scad_code(),
        ) + seq![seq!['{']] + entry_lines(codes(object@.children)) + seq![seq!['}']],
{
    let head = object@.element.scad_code();
    lemma_statement_lines(head, object@.important, codes(object@.children));
    let mark: Seq<char> = if object@.important {
        seq!['!']
    } else {
        Seq::empty()
    };
    assert(statement_text(head, object@.important, Seq::empty()).drop_last() =~= mark + head);
}

} // verus!
