//! The operations of a script: transforms, combinators, solids, flat shapes
//! and colours, each written as a call `name(arguments)`.

use vstd::prelude::*;
use crate::decimal::{Decimal, DecimalView};
use crate::decimal_laws::lemma_text_no_braces;
use crate::scad_type::{
    lemma_index_list_no_braces, lemma_int_list_no_braces, lemma_int_no_braces,
    lemma_list_items_alike, lemma_list_items_no_braces, lemma_list_no_braces, list_items,
    ScadType,
};
use crate::text::{
    call_text, fmt_call, lemma_bool_text_no_braces, lemma_nat_text_digits, no_braces,
};
use crate::vector::{Vector2, Vector3, Vector4};

verus! {

/// A round size, given either by its radius or by its diameter.
pub enum CircleType {
    Radius(Decimal),
    Diameter(Decimal),
}

impl CircleType {
    /// The named argument `r<index>=<value>` or `d<index>=<value>`, where
    /// `index` tells the sizes of one call apart and is empty where there is
    /// only one.
    pub open spec fn argument(&self, index: Seq<char>) -> Seq<char> {
        match self {
            CircleType::Radius(value) => seq!['r'] + index + seq!['='] + value.scad_code(),
            CircleType::Diameter(value) => seq!['d'] + index + seq!['='] + value.scad_code(),
        }
    }

    /// Whether the size is in its shortest form. This holds of every size
    /// that a program holds; the laws, which speak of all values, ask for it.
    pub open spec fn wf(&self) -> bool {
        match self {
            CircleType::Radius(value) => value@.wf(),
            CircleType::Diameter(value) => value@.wf(),
        }
    }

    /// The named argument of a size holds no brace unless its index does.
    pub proof fn lemma_no_braces(self, index: Seq<char>)
        requires
            self.wf(),
            no_braces(index),
        ensures
            no_braces(self.argument(index)),
    {
        match self {
            CircleType::Radius(value) => lemma_text_no_braces(value@),
            CircleType::Diameter(value) => lemma_text_no_braces(value@),
        }
    }

    /// Appends the named argument of this size to `f`.
    pub fn fmt_argument(&self, index: &str, f: &mut String)
        ensures
            final(f)@ == old(f)@ + self.argument(index@),
    {
        match self {
            CircleType::Radius(value) => {
                f.push('r');
                f.append(index);
                f.push('=');
                value.fmt_code(f);
            },
            CircleType::Diameter(value) => {
                f.push('d');
                f.append(index);
                f.push('=');
                value.fmt_code(f);
            },
        }
    }
}

impl Clone for CircleType {
    fn clone(&self) -> (copy: CircleType)
        ensures
            forall|index: Seq<char>| #[trigger] copy.argument(index) == self.argument(index),
    {
        match self {
            CircleType::Radius(value) => CircleType::Radius(value.clone()),
            CircleType::Diameter(value) => CircleType::Diameter(value.clone()),
        }
    }
}

/// The arguments of `linear_extrude`.
pub struct LinExtrudeParams {
    pub height: Decimal,
    pub center: bool,
    pub convexity: i32,
    pub twist: Decimal,
    pub slices: i32,
}

impl Default for LinExtrudeParams {
    /// Height 1, not centred, convexity 10, no twist, one slice.
    fn default() -> (params: LinExtrudeParams)
        ensures
            params.height@ == DecimalView::of_int(1),
            !params.center,
            params.convexity == 10,
            params.twist@ == DecimalView::of_int(0),
            params.slices == 1,
    {
        LinExtrudeParams {
            height: Decimal::from_int(1),
            center: false,
            convexity: 10,
            twist: Decimal::from_int(0),
            slices: 1,
        }
    }
}

impl ScadType for LinExtrudeParams {
    open spec fn valid(&self) -> bool {
        true
    }

    open spec fn scad_code(&self) -> Seq<char> {
        "height="@ + self.height.scad_code() + ",center="@ + self.center.scad_code()
            + ",convexity="@ + self.convexity.scad_code() + ",twist="@ + self.twist.scad_code()
            + ",slices="@ + self.slices.scad_code()
    }

    fn fmt_code(&self, f: &mut String) {
        f.append("height=");
        self.height.fmt_code(f);
        f.append(",center=");
        self.center.fmt_code(f);
        f.append(",convexity=");
        self.convexity.fmt_code(f);
        f.append(",twist=");
        self.twist.fmt_code(f);
        f.append(",slices=");
        self.slices.fmt_code(f);
    }
}

impl LinExtrudeParams {
    /// Whether the numbers are in their shortest form. This holds of all
    /// arguments that a program holds; the laws, which speak of all values,
    /// ask for it.
    pub open spec fn wf(&self) -> bool {
        self.height@.wf() && self.twist@.wf()
    }

    /// The arguments are written without braces.
    pub proof fn lemma_no_braces(self)
        requires
            self.wf(),
        ensures
            no_braces(self.scad_code()),
    {
        reveal_strlit("height=");
        reveal_strlit(",center=");
        reveal_strlit(",convexity=");
        reveal_strlit(",twist=");
        reveal_strlit(",slices=");
        lemma_text_no_braces(self.height@);
        lemma_text_no_braces(self.twist@);
        lemma_bool_text_no_braces(self.center);
        lemma_int_no_braces(self.convexity);
        lemma_int_no_braces(self.slices);
    }
}

impl Clone for LinExtrudeParams {
    fn clone(&self) -> (copy: LinExtrudeParams)
        ensures
            copy.height@ == self.height@,
            copy.center == self.center,
            copy.convexity == self.convexity,
            copy.twist@ == self.twist@,
            copy.slices == self.slices,
    {
        LinExtrudeParams {
            height: self.height.clone(),
            center: self.center,
            convexity: self.convexity,
            twist: self.twist.clone(),
            slices: self.slices,
        }
    }
}

/// The arguments of `rotate_extrude`.
pub struct RotateExtrudeParams {
    pub angle: Decimal,
    pub convexity: usize,
}

impl Default for RotateExtrudeParams {
    /// A full turn, convexity 10.
    fn default() -> (params: RotateExtrudeParams)
        ensures
            params.angle@ == DecimalView::of_int(360),
            params.convexity == 10,
    {
        RotateExtrudeParams { angle: Decimal::from_int(360), convexity: 10 }
    }
}

impl ScadType for RotateExtrudeParams {
    open spec fn valid(&self) -> bool {
        true
    }

    open spec fn scad_code(&self) -> Seq<char> {
        "angle="@ + self.angle.scad_code() + ",convexity="@ + self.convexity.scad_code()
    }

    fn fmt_code(&self, f: &mut String) {
        f.append("angle=");
        self.angle.fmt_code(f);
        f.append(",convexity=");
        self.convexity.fmt_code(f);
    }
}

impl RotateExtrudeParams {
    /// Whether the angle is in its shortest form. This holds of all
    /// arguments that a program holds; the laws, which speak of all values,
    /// ask for it.
    pub open spec fn wf(&self) -> bool {
        self.angle@.wf()
    }

    /// The arguments are written without braces.
    pub proof fn lemma_no_braces(self)
        requires
            self.wf(),
        ensures
            no_braces(self.scad_code()),
    {
        reveal_strlit("angle=");
        reveal_strlit(",convexity=");
        lemma_text_no_braces(self.angle@);
        lemma_nat_text_digits(self.convexity as nat);
    }
}

impl Clone for RotateExtrudeParams {
    fn clone(&self) -> (copy: RotateExtrudeParams)
        ensures
            copy.angle@ == self.angle@,
            copy.convexity == self.convexity,
    {
        RotateExtrudeParams { angle: self.angle.clone(), convexity: self.convexity }
    }
}

/// The paths of a polygon: none given, one list of point indices, or
/// several.
pub enum PolygonPathType {
    Default,
    SingleVector(Vec<usize>),
    MultipleVectors(Vec<Vec<usize>>),
}

impl ScadType for PolygonPathType {
    open spec fn valid(&self) -> bool {
        true
    }

    open spec fn scad_code(&self) -> Seq<char> {
        match self {
            PolygonPathType::Default => "undef"@,
            PolygonPathType::SingleVector(path) => path.scad_code(),
            PolygonPathType::MultipleVectors(paths) => paths.scad_code(),
        }
    }

    fn fmt_code(&self, f: &mut String) {
        match self {
            PolygonPathType::Default => f.append("undef"),
            PolygonPathType::SingleVector(path) => path.fmt_code(f),
            PolygonPathType::MultipleVectors(paths) => paths.fmt_code(f),
        }
    }
}

impl PolygonPathType {
    /// The paths are written without braces.
    pub proof fn lemma_no_braces(self)
        ensures
            no_braces(self.scad_code()),
    {
        match self {
            PolygonPathType::Default => {
                reveal_strlit("undef");
            },
            PolygonPathType::SingleVector(path) => {
                lemma_index_list_no_braces(path);
            },
            PolygonPathType::MultipleVectors(paths) => {
                assert forall|i: int| 0 <= i < paths@.len() implies no_braces(
                    (#[trigger] paths@[i]).scad_code(),
                ) by {
                    lemma_index_list_no_braces(paths@[i]);
                }
                lemma_list_no_braces(paths);
            },
        }
    }
}

/// A copy of a list of whole numbers.
fn clone_indices(list: &Vec<usize>) -> (copy: Vec<usize>)
    ensures
        copy@ == list@,
{
    list.clone()
}

/// A copy of a list of lists of whole numbers, written as the list is.
fn clone_index_lists(lists: &Vec<Vec<usize>>) -> (copy: Vec<Vec<usize>>)
    ensures
        copy.scad_code() == lists.scad_code(),
{
    let mut copy: Vec<Vec<usize>> = Vec::new();
    let mut i: usize = 0;
    while i < lists.len()
        invariant
            i <= lists.len(),
            copy.len() == i,
            forall|j: int| 0 <= j < i ==> (#[trigger] copy@[j]).scad_code() == lists@[j].scad_code(),
        decreases lists.len() - i,
    {
        copy.push(clone_indices(&lists[i]));
        i += 1;
    }
    proof {
        lemma_list_items_alike(copy@, lists@);
    }
    copy
}

impl Clone for PolygonPathType {
    fn clone(&self) -> (copy: PolygonPathType)
        ensures
            copy.scad_code() == self.scad_code(),
    {
        match self {
            PolygonPathType::Default => PolygonPathType::Default,
            PolygonPathType::SingleVector(path) => PolygonPathType::SingleVector(
                clone_indices(path),
            ),
            PolygonPathType::MultipleVectors(paths) => PolygonPathType::MultipleVectors(
                clone_index_lists(paths),
            ),
        }
    }
}

/// What a [`PolygonParameters`] holds.
pub struct PolygonParametersView {
    pub points: Seq<Vector2>,
    pub path: PolygonPathType,
    pub convexity: u64,
}

/// The arguments of `polygon`.
pub struct PolygonParameters {
    points: Vec<Vector2>,
    path: PolygonPathType,
    convexity: u64,
}

impl View for PolygonParameters {
    type V = PolygonParametersView;

    closed spec fn view(&self) -> PolygonParametersView {
        PolygonParametersView { points: self.points@, path: self.path, convexity: self.convexity }
    }
}

impl PolygonParameters {
    /// A polygon through `points`, with no paths given and convexity 10.
    pub fn new(points: Vec<Vector2>) -> (params: PolygonParameters)
        ensures
            params@ == (PolygonParametersView {
                points: points@,
                path: PolygonPathType::Default,
                convexity: 10,
            }),
    {
        PolygonParameters { points, path: PolygonPathType::Default, convexity: 10 }
    }

    /// The same polygon with the one path `path`.
    pub fn single_vector_path(self, path: Vec<usize>) -> (params: PolygonParameters)
        ensures
            params@ == (PolygonParametersView {
                path: PolygonPathType::SingleVector(path),
                ..self@
            }),
    {
        let mut params = self;
        params.path = PolygonPathType::SingleVector(path);
        params
    }

    /// The same polygon with the paths `path`.
    pub fn multi_vector_path(self, path: Vec<Vec<usize>>) -> (params: PolygonParameters)
        ensures
            params@ == (PolygonParametersView {
                path: PolygonPathType::MultipleVectors(path),
                ..self@
            }),
    {
        let mut params = self;
        params.path = PolygonPathType::MultipleVectors(path);
        params
    }

    /// The same polygon with the convexity `convexity`.
    pub fn convexity(self, convexity: u64) -> (params: PolygonParameters)
        ensures
            params@ == (PolygonParametersView { convexity, ..self@ }),
    {
        let mut params = self;
        params.convexity = convexity;
        params
    }

    /// Whether the points are in their shortest form. This holds of all
    /// arguments that a program holds; the laws, which speak of all values,
    /// ask for it.
    pub open spec fn wf(&self) -> bool {
        forall|i: int| 0 <= i < self@.points.len() ==> (#[trigger] self@.points[i]).wf()
    }

    /// The arguments are written without braces.
    pub proof fn lemma_no_braces(self)
        requires
            self.wf(),
        ensures
            no_braces(self.scad_code()),
    {
        reveal_strlit("points=");
        reveal_strlit(",paths=");
        reveal_strlit(",convexity=");
        lemma_list_items_no_braces(self@.points);
        self@.path.lemma_no_braces();
        lemma_nat_text_digits(self@.convexity as nat);
    }
}

impl ScadType for PolygonParameters {
    open spec fn valid(&self) -> bool {
        true
    }

    open spec fn scad_code(&self) -> Seq<char> {
        "points="@ + (seq!['['] + list_items(self@.points) + seq![']']) + ",paths="@
            + self@.path.scad_code() + ",convexity="@ + self@.convexity.scad_code()
    }

    fn fmt_code(&self, f: &mut String) {
        f.append("points=");
        self.points.fmt_code(f);
        f.append(",paths=");
        self.path.fmt_code(f);
        f.append(",convexity=");
        self.convexity.fmt_code(f);
    }
}

/// A copy of a list of points, written as the list is.
fn clone_points(points: &Vec<Vector2>) -> (copy: Vec<Vector2>)
    ensures
        copy@.len() == points@.len(),
        list_items(copy@) == list_items(points@),
{
    let mut copy: Vec<Vector2> = Vec::new();
    let mut i: usize = 0;
    while i < points.len()
        invariant
            i <= points.len(),
            copy.len() == i,
            forall|j: int| 0 <= j < i ==> (#[trigger] copy@[j]).scad_code() == points@[j].scad_code(),
        decreases points.len() - i,
    {
        copy.push(points[i].clone());
        i += 1;
    }
    proof {
        lemma_list_items_alike(copy@, points@);
    }
    copy
}

impl Clone for PolygonParameters {
    fn clone(&self) -> (copy: PolygonParameters)
        ensures
            copy.scad_code() == self.scad_code(),
    {
        PolygonParameters {
            points: clone_points(&self.points),
            path: self.path.clone(),
            convexity: self.convexity,
        }
    }
}

/// How far an outline is moved: straight by a distance, or rounded with a
/// radius.
pub enum OffsetType {
    Delta(Decimal),
    Radius(Decimal),
}

impl ScadType for OffsetType {
    open spec fn valid(&self) -> bool {
        true
    }

    open spec fn scad_code(&self) -> Seq<char> {
        match self {
            OffsetType::Delta(value) => "delta="@ + value.scad_code(),
            OffsetType::Radius(value) => "r="@ + value.scad_code(),
        }
    }

    fn fmt_code(&self, f: &mut String) {
        match self {
            OffsetType::Delta(value) => {
                f.append("delta=");
                value.fmt_code(f);
            },
            OffsetType::Radius(value) => {
                f.append("r=");
                value.fmt_code(f);
            },
        }
    }
}

impl OffsetType {
    /// Whether the distance is in its shortest form. This holds of every
    /// offset that a program holds; the laws, which speak of all values, ask
    /// for it.
    pub open spec fn wf(&self) -> bool {
        match self {
            OffsetType::Delta(value) => value@.wf(),
            OffsetType::Radius(value) => value@.wf(),
        }
    }

    /// The offset is written without braces.
    pub proof fn lemma_no_braces(self)
        requires
            self.wf(),
        ensures
            no_braces(self.scad_code()),
    {
        reveal_strlit("delta=");
        reveal_strlit("r=");
        match self {
            OffsetType::Delta(value) => lemma_text_no_braces(value@),
            OffsetType::Radius(value) => lemma_text_no_braces(value@),
        }
    }
}

impl Clone for OffsetType {
    fn clone(&self) -> (copy: OffsetType)
        ensures
            copy.scad_code() == self.scad_code(),
    {
        match self {
            OffsetType::Delta(value) => OffsetType::Delta(value.clone()),
            OffsetType::Radius(value) => OffsetType::Radius(value.clone()),
        }
    }
}

/// One operation of a script.
pub enum ScadElement {
    Translate(Vector3),
    Scale(Vector3),
    Resize(Vector3, bool),
    Rotate(Decimal, Vector3),
    RotateVec(Vector3),
    Mirror(Vector3),
    LinearExtrude(LinExtrudeParams),
    RotateExtrude(RotateExtrudeParams),
    Difference,
    Union,
    Hull,
    Intersection,
    Minkowski,
    Cube(Vector3),
    CenteredCube(Vector3),
    Cylinder(Decimal, CircleType),
    Sphere(CircleType),
    Cone(Decimal, CircleType, CircleType),
    Polyhedron(Vec<Vector3>, Vec<Vec<i32>>),
    Import(String),
    Square(Vector2),
    Circle(CircleType),
    Polygon(PolygonParameters),
    Offset(OffsetType, bool),
    Projection(bool),
    Rotate2d(Decimal),
    Translate2d(Vector2),
    Scale2d(Vector2),
    Color(Vector3),
    ColorAlpha(Vector4),
    NamedColor(String),
}

impl ScadType for ScadElement {
    open spec fn valid(&self) -> bool {
        self.color_in_range()
    }

    open spec fn scad_code(&self) -> Seq<char> {
        call_text(self.name(), self.arguments())
    }

    fn fmt_code(&self, f: &mut String) {
        let mut arguments = String::new();
        self.fmt_arguments(&mut arguments);
        fmt_call(self.call_name(), arguments.as_str(), f);
    }
}

impl ScadElement {
    /// The name of the function that the operation calls.
    pub open spec fn name(&self) -> Seq<char> {
        match self {
            ScadElement::Translate(_) => "translate"@,
            ScadElement::Scale(_) => "scale"@,
            ScadElement::Resize(_, _) => "resize"@,
            ScadElement::Rotate(_, _) => "rotate"@,
            ScadElement::RotateVec(_) => "rotate"@,
            ScadElement::Mirror(_) => "mirror"@,
            ScadElement::LinearExtrude(_) => "linear_extrude"@,
            ScadElement::RotateExtrude(_) => "rotate_extrude"@,
            ScadElement::Difference => "difference"@,
            ScadElement::Union => "union"@,
            ScadElement::Hull => "hull"@,
            ScadElement::Intersection => "intersection"@,
            ScadElement::Minkowski => "minkowski"@,
            ScadElement::Cube(_) => "cube"@,
            ScadElement::CenteredCube(_) => "cube"@,
            ScadElement::Cylinder(_, _) => "cylinder"@,
            ScadElement::Sphere(_) => "sphere"@,
            ScadElement::Cone(_, _, _) => "cylinder"@,
            ScadElement::Polyhedron(_, _) => "polyhedron"@,
            ScadElement::Import(_) => "import"@,
            ScadElement::Square(_) => "square"@,
            ScadElement::Circle(_) => "circle"@,
            ScadElement::Polygon(_) => "polygon"@,
            ScadElement::Offset(_, _) => "offset"@,
            ScadElement::Projection(_) => "projection"@,
            ScadElement::Rotate2d(_) => "rotate"@,
            ScadElement::Translate2d(_) => "translate"@,
            ScadElement::Scale2d(_) => "scale"@,
            ScadElement::Color(_) => "color"@,
            ScadElement::ColorAlpha(_) => "color"@,
            ScadElement::NamedColor(_) => "color"@,
        }
    }

    /// What stands between the brackets of the call.
    pub open spec fn arguments(&self) -> Seq<char> {
        match self {
            ScadElement::Translate(value) => value.scad_code(),
            ScadElement::Scale(value) => value.scad_code(),
            ScadElement::Resize(vector, auto) => vector.scad_code() + ", auto = "@
                + auto.scad_code(),
            ScadElement::Rotate(angle, vector) => angle.scad_code() + seq![',']
                + vector.scad_code(),
            ScadElement::RotateVec(vector) => vector.scad_code(),
            ScadElement::Mirror(vector) => vector.scad_code(),
            ScadElement::LinearExtrude(params) => params.scad_code(),
            ScadElement::RotateExtrude(params) => params.scad_code(),
            ScadElement::Difference => Seq::empty(),
            ScadElement::Union => Seq::empty(),
            ScadElement::Hull => Seq::empty(),
            ScadElement::Intersection => Seq::empty(),
            ScadElement::Minkowski => Seq::empty(),
            ScadElement::Cube(value) => value.scad_code(),
            ScadElement::CenteredCube(value) => value.scad_code() + ", center = true"@,
            ScadElement::Cylinder(height, width) => "h="@ + height.scad_code() + seq![',']
                + width.argument(Seq::empty()),
            ScadElement::Sphere(size) => size.argument(Seq::empty()),
            ScadElement::Cone(height, size1, size2) => "h="@ + height.scad_code() + seq![',']
                + size1.argument(seq!['1']) + seq![','] + size2.argument(seq!['2']),
            ScadElement::Polyhedron(points, faces) => "points="@ + points.scad_code()
                + ",faces="@ + faces.scad_code(),
            ScadElement::Import(path) => path.scad_code(),
            ScadElement::Square(value) => value.scad_code(),
            ScadElement::Circle(size) => size.argument(Seq::empty()),
            ScadElement::Polygon(params) => params.scad_code(),
            ScadElement::Offset(offset, chamfer) => offset.scad_code() + ",chamfer="@
                + chamfer.scad_code(),
            ScadElement::Projection(cut) => "cut="@ + cut.scad_code(),
            ScadElement::Rotate2d(angle) => angle.scad_code(),
            ScadElement::Translate2d(position) => position.scad_code(),
            ScadElement::Scale2d(scale) => scale.scad_code(),
            ScadElement::Color(value) => value.scad_code(),
            ScadElement::ColorAlpha(value) => value.scad_code(),
            ScadElement::NamedColor(value) => value.scad_code(),
        }
    }

    /// Whether the numbers that the operation holds are in their shortest
    /// form. This holds of every operation that a program holds; the laws,
    /// which speak of all values, ask for it.
    pub open spec fn wf(&self) -> bool {
        match self {
            ScadElement::Translate(value) => value.wf(),
            ScadElement::Scale(value) => value.wf(),
            ScadElement::Resize(vector, _) => vector.wf(),
            ScadElement::Rotate(angle, vector) => angle@.wf() && vector.wf(),
            ScadElement::RotateVec(vector) => vector.wf(),
            ScadElement::Mirror(vector) => vector.wf(),
            ScadElement::LinearExtrude(params) => params.wf(),
            ScadElement::RotateExtrude(params) => params.wf(),
            ScadElement::Cube(value) => value.wf(),
            ScadElement::CenteredCube(value) => value.wf(),
            ScadElement::Cylinder(height, width) => height@.wf() && width.wf(),
            ScadElement::Sphere(size) => size.wf(),
            ScadElement::Cone(height, size1, size2) => height@.wf() && size1.wf() && size2.wf(),
            ScadElement::Polyhedron(points, _) => forall|i: int|
                0 <= i < points@.len() ==> (#[trigger] points@[i]).wf(),
            ScadElement::Square(value) => value.wf(),
            ScadElement::Circle(size) => size.wf(),
            ScadElement::Polygon(params) => params.wf(),
            ScadElement::Offset(offset, _) => offset.wf(),
            ScadElement::Rotate2d(angle) => angle@.wf(),
            ScadElement::Translate2d(position) => position.wf(),
            ScadElement::Scale2d(scale) => scale.wf(),
            ScadElement::Color(value) => value.wf(),
            ScadElement::ColorAlpha(value) => value.wf(),
            _ => true,
        }
    }

    /// Whether the operation holds a string: a path or the name of a colour.
    pub open spec fn holds_string(&self) -> bool {
        self is Import || self is NamedColor
    }

    /// The name of an operation holds no brace.
    pub proof fn lemma_name_no_braces(self)
        ensures
            no_braces(self.name()),
    {
        reveal_strlit("translate");
        reveal_strlit("scale");
        reveal_strlit("resize");
        reveal_strlit("rotate");
        reveal_strlit("mirror");
        reveal_strlit("linear_extrude");
        reveal_strlit("rotate_extrude");
        reveal_strlit("difference");
        reveal_strlit("union");
        reveal_strlit("hull");
        reveal_strlit("intersection");
        reveal_strlit("minkowski");
        reveal_strlit("cube");
        reveal_strlit("cylinder");
        reveal_strlit("sphere");
        reveal_strlit("polyhedron");
        reveal_strlit("import");
        reveal_strlit("square");
        reveal_strlit("circle");
        reveal_strlit("polygon");
        reveal_strlit("offset");
        reveal_strlit("projection");
        reveal_strlit("color");
    }

    /// An operation that holds no string is written without braces: a brace
    /// in a script opens or closes a block and nothing else, unless a string
    /// holds one.
    pub proof fn lemma_no_braces(self)
        requires
            self.wf(),
            !self.holds_string(),
        ensures
            no_braces(self.arguments()),
            no_braces(self.scad_code()),
    {
        self.lemma_name_no_braces();
        match self {
            ScadElement::Translate(value) => value.lemma_no_braces(),
            ScadElement::Scale(value) => value.lemma_no_braces(),
            ScadElement::Resize(vector, auto) => {
                reveal_strlit(", auto = ");
                vector.lemma_no_braces();
                lemma_bool_text_no_braces(auto);
            },
            ScadElement::Rotate(angle, vector) => {
                lemma_text_no_braces(angle@);
                vector.lemma_no_braces();
            },
            ScadElement::RotateVec(vector) => vector.lemma_no_braces(),
            ScadElement::Mirror(vector) => vector.lemma_no_braces(),
            ScadElement::LinearExtrude(params) => params.lemma_no_braces(),
            ScadElement::RotateExtrude(params) => params.lemma_no_braces(),
            ScadElement::Cube(value) => value.lemma_no_braces(),
            ScadElement::CenteredCube(value) => {
                reveal_strlit(", center = true");
                value.lemma_no_braces();
            },
            ScadElement::Cylinder(height, width) => {
                reveal_strlit("h=");
                lemma_text_no_braces(height@);
                width.lemma_no_braces(Seq::empty());
            },
            ScadElement::Sphere(size) => size.lemma_no_braces(Seq::empty()),
            ScadElement::Cone(height, size1, size2) => {
                reveal_strlit("h=");
                lemma_text_no_braces(height@);
                size1.lemma_no_braces(seq!['1']);
                size2.lemma_no_braces(seq!['2']);
            },
            ScadElement::Polyhedron(points, faces) => {
                reveal_strlit("points=");
                reveal_strlit(",faces=");
                assert forall|i: int| 0 <= i < points@.len() implies no_braces(
                    (#[trigger] points@[i]).scad_code(),
                ) by {
                    points@[i].lemma_no_braces();
                }
                lemma_list_no_braces(points);
                assert forall|i: int| 0 <= i < faces@.len() implies no_braces(
                    (#[trigger] faces@[i]).scad_code(),
                ) by {
                    lemma_int_list_no_braces(faces@[i]);
                }
                lemma_list_no_braces(faces);
            },
            ScadElement::Square(value) => value.lemma_no_braces(),
            ScadElement::Circle(size) => size.lemma_no_braces(Seq::empty()),
            ScadElement::Polygon(params) => params.lemma_no_braces(),
            ScadElement::Offset(offset, chamfer) => {
                reveal_strlit(",chamfer=");
                offset.lemma_no_braces();
                lemma_bool_text_no_braces(chamfer);
            },
            ScadElement::Projection(cut) => {
                reveal_strlit("cut=");
                lemma_bool_text_no_braces(cut);
            },
            ScadElement::Rotate2d(angle) => lemma_text_no_braces(angle@),
            ScadElement::Translate2d(position) => position.lemma_no_braces(),
            ScadElement::Scale2d(scale) => scale.lemma_no_braces(),
            ScadElement::Color(value) => value.lemma_no_braces(),
            ScadElement::ColorAlpha(value) => value.lemma_no_braces(),
            _ => {},
        }
    }

    /// Whether the operation can stand in a script: the components of a
    /// colour lie between 0 and 1.
    pub open spec fn color_in_range(&self) -> bool {
        match self {
            ScadElement::Color(value) => value.in_unit_range(),
            ScadElement::ColorAlpha(value) => value.in_unit_range(),
            _ => true,
        }
    }

    /// Whether the operation can stand in a script.
    pub fn is_valid(&self) -> (valid: bool)
        ensures
            valid == self.valid(),
    {
        match self {
            ScadElement::Color(value) => value.is_in_unit_range(),
            ScadElement::ColorAlpha(value) => value.is_in_unit_range(),
            _ => true,
        }
    }

    /// The name of the function that the operation calls.
    pub fn call_name(&self) -> (name: &'static str)
        ensures
            name@ == self.name(),
    {
        match self {
            ScadElement::Translate(_) => "translate",
            ScadElement::Scale(_) => "scale",
            ScadElement::Resize(_, _) => "resize",
            ScadElement::Rotate(_, _) => "rotate",
            ScadElement::RotateVec(_) => "rotate",
            ScadElement::Mirror(_) => "mirror",
            ScadElement::LinearExtrude(_) => "linear_extrude",
            ScadElement::RotateExtrude(_) => "rotate_extrude",
            ScadElement::Difference => "difference",
            ScadElement::Union => "union",
            ScadElement::Hull => "hull",
            ScadElement::Intersection => "intersection",
            ScadElement::Minkowski => "minkowski",
            ScadElement::Cube(_) => "cube",
            ScadElement::CenteredCube(_) => "cube",
            ScadElement::Cylinder(_, _) => "cylinder",
            ScadElement::Sphere(_) => "sphere",
            ScadElement::Cone(_, _, _) => "cylinder",
            ScadElement::Polyhedron(_, _) => "polyhedron",
            ScadElement::Import(_) => "import",
            ScadElement::Square(_) => "square",
            ScadElement::Circle(_) => "circle",
            ScadElement::Polygon(_) => "polygon",
            ScadElement::Offset(_, _) => "offset",
            ScadElement::Projection(_) => "projection",
            ScadElement::Rotate2d(_) => "rotate",
            ScadElement::Translate2d(_) => "translate",
            ScadElement::Scale2d(_) => "scale",
            ScadElement::Color(_) => "color",
            ScadElement::ColorAlpha(_) => "color",
            ScadElement::NamedColor(_) => "color",
        }
    }

    /// Appends what stands between the brackets of the call to `f`.
    pub fn fmt_arguments(&self, f: &mut String)
        ensures
            final(f)@ == old(f)@ + self.arguments(),
    {
        proof {
            reveal_strlit("");
            reveal_strlit("1");
            reveal_strlit("2");
        }
        match self {
            ScadElement::Translate(value) => value.fmt_code(f),
            ScadElement::Scale(value) => value.fmt_code(f),
            ScadElement::Resize(vector, auto) => {
                vector.fmt_code(f);
                f.append(", auto = ");
                auto.fmt_code(f);
            },
            ScadElement::Rotate(angle, vector) => {
                angle.fmt_code(f);
                f.push(',');
                vector.fmt_code(f);
            },
            ScadElement::RotateVec(vector) => vector.fmt_code(f),
            ScadElement::Mirror(vector) => vector.fmt_code(f),
            ScadElement::LinearExtrude(params) => params.fmt_code(f),
            ScadElement::RotateExtrude(params) => params.fmt_code(f),
            ScadElement::Difference => {},
            ScadElement::Union => {},
            ScadElement::Hull => {},
            ScadElement::Intersection => {},
            ScadElement::Minkowski => {},
            ScadElement::Cube(value) => value.fmt_code(f),
            ScadElement::CenteredCube(value) => {
                value.fmt_code(f);
                f.append(", center = true");
            },
            ScadElement::Cylinder(height, width) => {
                f.append("h=");
                height.fmt_code(f);
                f.push(',');
                width.fmt_argument("", f);
            },
            ScadElement::Sphere(size) => size.fmt_argument("", f),
            ScadElement::Cone(height, size1, size2) => {
                f.append("h=");
                height.fmt_code(f);
                f.push(',');
                size1.fmt_argument("1", f);
                f.push(',');
                size2.fmt_argument("2", f);
            },
            ScadElement::Polyhedron(points, faces) => {
                f.append("points=");
                points.fmt_code(f);
                f.append(",faces=");
                faces.fmt_code(f);
            },
            ScadElement::Import(path) => path.fmt_code(f),
            ScadElement::Square(value) => value.fmt_code(f),
            ScadElement::Circle(size) => size.fmt_argument("", f),
            ScadElement::Polygon(params) => params.fmt_code(f),
            ScadElement::Offset(offset, chamfer) => {
                offset.fmt_code(f);
                f.append(",chamfer=");
                chamfer.fmt_code(f);
            },
            ScadElement::Projection(cut) => {
                f.append("cut=");
                cut.fmt_code(f);
            },
            ScadElement::Rotate2d(angle) => angle.fmt_code(f),
            ScadElement::Translate2d(position) => position.fmt_code(f),
            ScadElement::Scale2d(scale) => scale.fmt_code(f),
            ScadElement::Color(value) => value.fmt_code(f),
            ScadElement::ColorAlpha(value) => value.fmt_code(f),
            ScadElement::NamedColor(value) => value.fmt_code(f),
        }
    }
}

/// A copy of a list of points in space, written as the list is.
fn clone_space_points(points: &Vec<Vector3>) -> (copy: Vec<Vector3>)
    ensures
        copy.scad_code() == points.scad_code(),
{
    let mut copy: Vec<Vector3> = Vec::new();
    let mut i: usize = 0;
    while i < points.len()
        invariant
            i <= points.len(),
            copy.len() == i,
            forall|j: int| 0 <= j < i ==> (#[trigger] copy@[j]).scad_code() == points@[j].scad_code(),
        decreases points.len() - i,
    {
        copy.push(points[i].clone());
        i += 1;
    }
    proof {
        lemma_list_items_alike(copy@, points@);
    }
    copy
}

/// A copy of the faces of a solid, written as the faces are.
fn clone_faces(faces: &Vec<Vec<i32>>) -> (copy: Vec<Vec<i32>>)
    ensures
        copy.scad_code() == faces.scad_code(),
{
    let mut copy: Vec<Vec<i32>> = Vec::new();
    let mut i: usize = 0;
    while i < faces.len()
        invariant
            i <= faces.len(),
            copy.len() == i,
            forall|j: int| 0 <= j < i ==> (#[trigger] copy@[j]).scad_code() == faces@[j].scad_code(),
        decreases faces.len() - i,
    {
        let face = faces[i].clone();
        copy.push(face);
        i += 1;
    }
    proof {
        lemma_list_items_alike(copy@, faces@);
    }
    copy
}

impl Clone for ScadElement {
    /// A copy that is written as this operation is, and that can stand in a
    /// script where this one can.
    fn clone(&self) -> (copy: ScadElement)
        ensures
            copy.name() == self.name(),
            copy.arguments() == self.arguments(),
            copy.valid() == self.valid(),
    {
        match self {
            ScadElement::Translate(value) => ScadElement::Translate(value.clone()),
            ScadElement::Scale(value) => ScadElement::Scale(value.clone()),
            ScadElement::Resize(vector, auto) => ScadElement::Resize(vector.clone(), *auto),
            ScadElement::Rotate(angle, vector) => ScadElement::Rotate(
                angle.clone(),
                vector.clone(),
            ),
            ScadElement::RotateVec(vector) => ScadElement::RotateVec(vector.clone()),
            ScadElement::Mirror(vector) => ScadElement::Mirror(vector.clone()),
            ScadElement::LinearExtrude(params) => ScadElement::LinearExtrude(params.clone()),
            ScadElement::RotateExtrude(params) => ScadElement::RotateExtrude(params.clone()),
            ScadElement::Difference => ScadElement::Difference,
            ScadElement::Union => ScadElement::Union,
            ScadElement::Hull => ScadElement::Hull,
            ScadElement::Intersection => ScadElement::Intersection,
            ScadElement::Minkowski => ScadElement::Minkowski,
            ScadElement::Cube(value) => ScadElement::Cube(value.clone()),
            ScadElement::CenteredCube(value) => ScadElement::CenteredCube(value.clone()),
            ScadElement::Cylinder(height, width) => ScadElement::Cylinder(
                height.clone(),
                width.clone(),
            ),
            ScadElement::Sphere(size) => ScadElement::Sphere(size.clone()),
            ScadElement::Cone(height, size1, size2) => ScadElement::Cone(
                height.clone(),
                size1.clone(),
                size2.clone(),
            ),
            ScadElement::Polyhedron(points, faces) => ScadElement::Polyhedron(
                clone_space_points(points),
                clone_faces(faces),
            ),
            ScadElement::Import(path) => ScadElement::Import(path.clone()),
            ScadElement::Square(value) => ScadElement::Square(value.clone()),
            ScadElement::Circle(size) => ScadElement::Circle(size.clone()),
            ScadElement::Polygon(params) => ScadElement::Polygon(params.clone()),
            ScadElement::Offset(offset, chamfer) => ScadElement::Offset(offset.clone(), *chamfer),
            ScadElement::Projection(cut) => ScadElement::Projection(*cut),
            ScadElement::Rotate2d(angle) => ScadElement::Rotate2d(angle.clone()),
            ScadElement::Translate2d(position) => ScadElement::Translate2d(position.clone()),
            ScadElement::Scale2d(scale) => ScadElement::Scale2d(scale.clone()),
            ScadElement::Color(value) => ScadElement::Color(value.clone()),
            ScadElement::ColorAlpha(value) => ScadElement::ColorAlpha(value.clone()),
            ScadElement::NamedColor(value) => ScadElement::NamedColor(value.clone()),
        }
    }
}

} // verus!
