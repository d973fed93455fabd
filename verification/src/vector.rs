//! Vectors of two, three and four decimal components.

use vstd::prelude::*;
use crate::decimal::Decimal;
use crate::decimal_laws::lemma_text_no_braces;
use crate::scad_type::ScadType;
use crate::text::no_braces;

verus! {

/// A vector of two components.
pub struct Vector2 {
    pub x: Decimal,
    pub y: Decimal,
}

impl ScadType for Vector2 {
    open spec fn valid(&self) -> bool {
        true
    }

    open spec fn scad_code(&self) -> Seq<char> {
        seq!['['] + self.x.scad_code() + seq![','] + self.y.scad_code() + seq![']']
    }

    fn fmt_code(&self, f: &mut String) {
        f.push('[');
        self.x.fmt_code(f);
        f.push(',');
        self.y.fmt_code(f);
        f.push(']');
    }
}

impl Vector2 {
    /// The vector with the components `x` and `y`.
    pub fn new(x: Decimal, y: Decimal) -> (v: Vector2)
        ensures
            v.x == x,
            v.y == y,
    {
        Vector2 { x, y }
    }

    /// Whether the components are in their shortest form. This holds of
    /// every vector that a program holds; the laws, which speak of all
    /// values, ask for it.
    pub open spec fn wf(&self) -> bool {
        self.x@.wf() && self.y@.wf()
    }

    /// A vector is written without braces.
    pub proof fn lemma_no_braces(self)
        requires
            self.wf(),
        ensures
            no_braces(self.scad_code()),
    {
        lemma_text_no_braces(self.x@);
        lemma_text_no_braces(self.y@);
    }
}

impl Clone for Vector2 {
    fn clone(&self) -> (copy: Vector2)
        ensures
            copy.x@ == self.x@,
            copy.y@ == self.y@,
    {
        Vector2 { x: self.x.clone(), y: self.y.clone() }
    }
}

/// A vector of three components.
pub struct Vector3 {
    pub x: Decimal,
    pub y: Decimal,
    pub z: Decimal,
}

impl ScadType for Vector3 {
    open spec fn valid(&self) -> bool {
        true
    }

    open spec fn scad_code(&self) -> Seq<char> {
        seq!['['] + self.x.scad_code() + seq![','] + self.y.scad_code() + seq![',']
            + self.z.scad_code() + seq![']']
    }

    fn fmt_code(&self, f: &mut String) {
        f.push('[');
        self.x.fmt_code(f);
        f.push(',');
        self.y.fmt_code(f);
        f.push(',');
        self.z.fmt_code(f);
        f.push(']');
    }
}

impl Vector3 {
    /// The vector with the components `x`, `y` and `z`.
    pub fn new(x: Decimal, y: Decimal, z: Decimal) -> (v: Vector3)
        ensures
            v.x == x,
            v.y == y,
            v.z == z,
    {
        Vector3 { x, y, z }
    }

    /// Whether every component lies between 0 and 1, both included.
    pub open spec fn in_unit_range(&self) -> bool {
        &&& self.x@.in_unit_interval()
        &&& self.y@.in_unit_interval()
        &&& self.z@.in_unit_interval()
    }

    /// Whether every component lies between 0 and 1, both included.
    pub fn is_in_unit_range(&self) -> (inside: bool)
        ensures
            inside == self.in_unit_range(),
    {
        self.x.in_unit_interval() && self.y.in_unit_interval() && self.z.in_unit_interval()
    }

    /// Whether the components are in their shortest form. This holds of
    /// every vector that a program holds; the laws, which speak of all
    /// values, ask for it.
    pub open spec fn wf(&self) -> bool {
        self.x@.wf() && self.y@.wf() && self.z@.wf()
    }

    /// A vector is written without braces.
    pub proof fn lemma_no_braces(self)
        requires
            self.wf(),
        ensures
            no_braces(self.scad_code()),
    {
        lemma_text_no_braces(self.x@);
        lemma_text_no_braces(self.y@);
        lemma_text_no_braces(self.z@);
    }
}

impl Clone for Vector3 {
    fn clone(&self) -> (copy: Vector3)
        ensures
            copy.x@ == self.x@,
            copy.y@ == self.y@,
            copy.z@ == self.z@,
    {
        Vector3 { x: self.x.clone(), y: self.y.clone(), z: self.z.clone() }
    }
}

/// A vector of four components.
pub struct Vector4 {
    pub x: Decimal,
    pub y: Decimal,
    pub z: Decimal,
    pub w: Decimal,
}

impl ScadType for Vector4 {
    open spec fn valid(&self) -> bool {
        true
    }

    open spec fn scad_code(&self) -> Seq<char> {
        seq!['['] + self.x.scad_code() + seq![','] + self.y.scad_code() + seq![',']
            + self.z.scad_code() + seq![','] + self.w.scad_code() + seq![']']
    }

    fn fmt_code(&self, f: &mut String) {
        f.push('[');
        self.x.fmt_code(f);
        f.push(',');
        self.y.fmt_code(f);
        f.push(',');
        self.z.fmt_code(f);
        f.push(',');
        self.w.fmt_code(f);
        f.push(']');
    }
}

impl Vector4 {
    /// The vector with the components `x`, `y`, `z` and `w`.
    pub fn new(x: Decimal, y: Decimal, z: Decimal, w: Decimal) -> (v: Vector4)
        ensures
            v.x == x,
            v.y == y,
            v.z == z,
            v.w == w,
    {
        Vector4 { x, y, z, w }
    }

    /// Whether every component lies between 0 and 1, both included.
    pub open spec fn in_unit_range(&self) -> bool {
        &&& self.x@.in_unit_interval()
        &&& self.y@.in_unit_interval()
        &&& self.z@.in_unit_interval()
        &&& self.w@.in_unit_interval()
    }

    /// Whether every component lies between 0 and 1, both included.
    pub fn is_in_unit_range(&self) -> (inside: bool)
        ensures
            inside == self.in_unit_range(),
    {
        self.x.in_unit_interval() && self.y.in_unit_interval() && self.z.in_unit_interval()
            && self.w.in_unit_interval()
    }

    /// Whether the components are in their shortest form. This holds of
    /// every vector that a program holds; the laws, which speak of all
    /// values, ask for it.
    pub open spec fn wf(&self) -> bool {
        self.x@.wf() && self.y@.wf() && self.z@.wf() && self.w@.wf()
    }

    /// A vector is written without braces.
    pub proof fn lemma_no_braces(self)
        requires
            self.wf(),
        ensures
            no_braces(self.scad_code()),
    {
        lemma_text_no_braces(self.x@);
        lemma_text_no_braces(self.y@);
        lemma_text_no_braces(self.z@);
        lemma_text_no_braces(self.w@);
    }
}

impl Clone for Vector4 {
    fn clone(&self) -> (copy: Vector4)
        ensures
            copy.x@ == self.x@,
            copy.y@ == self.y@,
            copy.z@ == self.z@,
            copy.w@ == self.w@,
    {
        Vector4 { x: self.x.clone(), y: self.y.clone(), z: self.z.clone(), w: self.w.clone() }
    }
}

} // verus!
