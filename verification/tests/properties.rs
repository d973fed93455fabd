use scad::text::{
    digit_to_char, fmt_block_entry, fmt_bool, fmt_call, fmt_document, fmt_indented, fmt_int,
    fmt_nat, fmt_statement,
};
use scad::{
    render_document,
    CircleType, Decimal, LinExtrudeParams, OffsetType, PolygonParameters, PolygonPathType,
    RotateExtrudeParams, ScadElement, ScadObject, ScadType, Vector2, Vector3, Vector4,
};

fn number(value: f32) -> Decimal {
    Decimal::parse(&value.to_string()).expect("a finite number")
}

fn literal(text: &str) -> Decimal {
    Decimal::parse(text).expect("a decimal literal")
}

fn point2(x: f32, y: f32) -> Vector2 {
    Vector2::new(number(x), number(y))
}

fn point3(x: f32, y: f32, z: f32) -> Vector3 {
    Vector3::new(number(x), number(y), number(z))
}

fn point4(x: f32, y: f32, z: f32, w: f32) -> Vector4 {
    Vector4::new(number(x), number(y), number(z), number(w))
}

fn cube(size: f32) -> ScadObject {
    ScadObject::new(ScadElement::Cube(point3(size, size, size)))
}

#[test]
fn decimal_is_written_in_shortest_form() {
    assert_eq!(literal("1.0").get_code(), "1");
    assert_eq!(literal("-5.0").get_code(), "-5");
    assert_eq!(literal("3.3").get_code(), "3.3");
    assert_eq!(literal("007").get_code(), "7");
    assert_eq!(literal("000").get_code(), "0");
    assert_eq!(literal("0.50").get_code(), "0.5");
    assert_eq!(literal("10.010").get_code(), "10.01");
    assert_eq!(literal("-0.0").get_code(), "-0");
    assert_eq!(literal("100").get_code(), "100");
    assert_eq!(literal("0.001").get_code(), "0.001");
}

#[test]
fn decimal_of_float_is_written_as_the_float() {
    let values = [
        0.0f32,
        -0.0,
        1.0,
        -5.0,
        3.3,
        0.1,
        0.05,
        1.04,
        2.01,
        -0.01,
        720.0,
        1.0e-7,
        16777216.0,
        f32::MAX,
        f32::MIN,
        f32::MIN_POSITIVE,
        f32::EPSILON,
    ];
    for value in values {
        let written = number(value).get_code();
        assert_eq!(written, value.to_string());
        assert_eq!(written.parse::<f32>().unwrap(), value);
    }
}

#[test]
fn decimal_text_reads_back_as_the_same_number() {
    for text in ["0", "-0", "7", "-12", "3.3", "-0.001", "340282350000000000000000000000000000000"] {
        let first = literal(text);
        assert_eq!(first.get_code(), text);
        let second = literal(&first.get_code());
        assert_eq!(second.get_code(), text);
    }
}

#[test]
fn decimal_rejects_what_is_no_literal() {
    for text in [
        "", "-", ".", "1.", ".5", "-.5", "+1", "1e5", "1.2.3", "--1", "1-", " 1", "1 ", "abc",
        "NaN", "inf", "-inf", "1,5", "0x10", "１",
    ] {
        assert!(Decimal::parse(text).is_none(), "{:?}", text);
    }
}

#[test]
fn decimal_from_int() {
    assert_eq!(Decimal::from_int(0).get_code(), "0");
    assert_eq!(Decimal::from_int(1).get_code(), "1");
    assert_eq!(Decimal::from_int(-7).get_code(), "-7");
    assert_eq!(Decimal::from_int(360).get_code(), "360");
    assert_eq!(Decimal::from_int(1000).get_code(), "1000");
    assert_eq!(Decimal::from_int(i64::MAX).get_code(), "9223372036854775807");
    assert_eq!(Decimal::from_int(i64::MIN).get_code(), "-9223372036854775808");
}

#[test]
fn decimal_unit_interval() {
    for text in ["0", "-0", "-0.0", "1", "1.000", "0.5", "0.999", "0.000001", "00.5"] {
        assert!(literal(text).in_unit_interval(), "{}", text);
    }
    for text in ["1.1", "1.000001", "2", "10", "-0.1", "-1", "-0.000001", "11", "100.5"] {
        assert!(!literal(text).in_unit_interval(), "{}", text);
    }
}

#[test]
fn decimal_clone_is_the_same_number() {
    let value = literal("-12.75");
    let copy = value.clone();
    assert_eq!(copy.get_code(), "-12.75");
    assert_eq!(value.get_code(), "-12.75");
}

#[test]
fn integers_and_booleans() {
    assert_eq!(0i32.get_code(), "0");
    assert_eq!(10i32.get_code(), "10");
    assert_eq!((-42i32).get_code(), "-42");
    assert_eq!(i32::MAX.get_code(), "2147483647");
    assert_eq!(i32::MIN.get_code(), "-2147483648");
    assert_eq!(0usize.get_code(), "0");
    assert_eq!(1234567890usize.get_code(), "1234567890");
    assert_eq!(u64::MAX.get_code(), "18446744073709551615");
    assert_eq!(9u64.get_code(), "9");
    assert_eq!(true.get_code(), "true");
    assert_eq!(false.get_code(), "false");
}

#[test]
fn number_writers_append() {
    let mut text = String::from("n=");
    fmt_nat(120, &mut text);
    text.push(',');
    fmt_int(-120, &mut text);
    text.push(',');
    fmt_int(i64::MIN, &mut text);
    text.push(',');
    fmt_bool(true, &mut text);
    assert_eq!(text, "n=120,-120,-9223372036854775808,true");
    for d in 0u8..=9 {
        assert_eq!(digit_to_char(d), char::from(b'0' + d));
    }
}

#[test]
fn strings_are_quoted_and_escaped() {
    assert_eq!("plain".to_string().get_code(), "\"plain\"");
    assert_eq!("".to_string().get_code(), "\"\"");
    assert_eq!("a\"b".to_string().get_code(), "\"a\\\"b\"");
    assert_eq!("a\\b".to_string().get_code(), "\"a\\\\b\"");
    assert_eq!("a\nb".to_string().get_code(), "\"a\\nb\"");
    assert_eq!("{}".to_string().get_code(), "\"{}\"");
    let odd = "tab\there \u{7f} é".to_string();
    assert_eq!(odd.get_code(), format!("{:?}", odd));
}

#[test]
fn empty_list_has_no_comma() {
    assert_eq!(Vec::<i32>::new().get_code(), "[]");
    assert_eq!(Vec::<Vector2>::new().get_code(), "[]");
}

#[test]
fn every_list_item_is_followed_by_a_comma() {
    assert_eq!(vec![7u64].get_code(), "[7,]");
    assert_eq!(vec![1usize, 2].get_code(), "[1,2,]");
    assert_eq!(vec![true, false].get_code(), "[true,false,]");
    assert_eq!(vec![vec![0, 1, 2], vec![], vec![-3]].get_code(), "[[0,1,2,],[],[-3,],]");
    assert_eq!(
        vec![point2(0.0, 0.5), point2(-1.0, 2.0)].get_code(),
        "[[0,0.5],[-1,2],]"
    );
    assert_eq!(vec!["a".to_string()].get_code(), "[\"a\",]");
    for n in 1..6 {
        let code = vec![5i32; n].get_code();
        assert!(code.starts_with('['));
        assert!(code.ends_with(",]"));
    }
}

#[test]
fn vectors() {
    assert_eq!(point2(1.5, -2.0).get_code(), "[1.5,-2]");
    assert_eq!(point3(0.04, 0.24, 1.04).get_code(), "[0.04,0.24,1.04]");
    assert_eq!(point4(0.0, 1.0, 1.0, 0.5).get_code(), "[0,1,1,0.5]");
    assert!(point3(0.0, 0.5, 1.0).is_in_unit_range());
    assert!(!point3(0.0, 0.5, 1.5).is_in_unit_range());
    assert!(!point3(-0.5, 0.5, 1.0).is_in_unit_range());
    assert!(point4(0.0, 1.0, 1.0, 0.5).is_in_unit_range());
    assert!(!point4(0.0, 1.0, 1.0, 1.5).is_in_unit_range());
    let copy = point3(1.0, 2.0, 3.0).clone();
    assert_eq!(copy.get_code(), "[1,2,3]");
}

#[test]
fn transforms() {
    assert_eq!(
        ScadElement::Translate(point3(1.0, 2.0, 3.0)).get_code(),
        "translate([1,2,3])"
    );
    assert_eq!(ScadElement::Scale(point3(1.0, 2.0, 0.5)).get_code(), "scale([1,2,0.5])");
    assert_eq!(
        ScadElement::Resize(point3(1.0, 2.0, 3.0), true).get_code(),
        "resize([1,2,3], auto = true)"
    );
    assert_eq!(
        ScadElement::Resize(point3(1.0, 2.0, 3.0), false).get_code(),
        "resize([1,2,3], auto = false)"
    );
    assert_eq!(
        ScadElement::Rotate(number(90.0), point3(0.0, 0.0, 1.0)).get_code(),
        "rotate(90,[0,0,1])"
    );
    assert_eq!(
        ScadElement::RotateVec(point3(0.0, 45.0, 0.0)).get_code(),
        "rotate([0,45,0])"
    );
    assert_eq!(ScadElement::Mirror(point3(1.0, 0.0, 0.0)).get_code(), "mirror([1,0,0])");
    assert_eq!(
        ScadElement::LinearExtrude(LinExtrudeParams {
            height: number(2.5),
            center: true,
            convexity: -1,
            twist: number(-90.0),
            slices: 20,
        })
        .get_code(),
        "linear_extrude(height=2.5,center=true,convexity=-1,twist=-90,slices=20)"
    );
    assert_eq!(
        ScadElement::RotateExtrude(RotateExtrudeParams { angle: number(180.0), convexity: 2 })
            .get_code(),
        "rotate_extrude(angle=180,convexity=2)"
    );
}

#[test]
fn combinators() {
    assert_eq!(ScadElement::Difference.get_code(), "difference()");
    assert_eq!(ScadElement::Union.get_code(), "union()");
    assert_eq!(ScadElement::Hull.get_code(), "hull()");
    assert_eq!(ScadElement::Intersection.get_code(), "intersection()");
    assert_eq!(ScadElement::Minkowski.get_code(), "minkowski()");
}

#[test]
fn solids() {
    assert_eq!(ScadElement::Cube(point3(1.0, 1.0, 1.0)).get_code(), "cube([1,1,1])");
    assert_eq!(
        ScadElement::CenteredCube(point3(0.04, 0.24, 1.04)).get_code(),
        "cube([0.04,0.24,1.04], center = true)"
    );
    assert_eq!(
        ScadElement::Cylinder(number(5.0), CircleType::Radius(number(2.0))).get_code(),
        "cylinder(h=5,r=2)"
    );
    assert_eq!(
        ScadElement::Cylinder(number(5.0), CircleType::Diameter(number(2.0))).get_code(),
        "cylinder(h=5,d=2)"
    );
    assert_eq!(
        ScadElement::Sphere(CircleType::Radius(number(0.05))).get_code(),
        "sphere(r=0.05)"
    );
    assert_eq!(
        ScadElement::Cone(
            number(5.0),
            CircleType::Radius(number(7.0)),
            CircleType::Diameter(number(14.0))
        )
        .get_code(),
        "cylinder(h=5,r1=7,d2=14)"
    );
    assert_eq!(
        ScadElement::Polyhedron(
            vec![point3(0.0, 0.0, 0.0), point3(1.0, 0.0, 0.0), point3(0.0, 1.0, 0.0)],
            vec![vec![0, 1, 2], vec![2, 1, 0]]
        )
        .get_code(),
        "polyhedron(points=[[0,0,0],[1,0,0],[0,1,0],],faces=[[0,1,2,],[2,1,0,],])"
    );
    assert_eq!(
        ScadElement::Polyhedron(vec![], vec![]).get_code(),
        "polyhedron(points=[],faces=[])"
    );
    assert_eq!(
        ScadElement::Import("dir\\part \"a\".stl".to_string()).get_code(),
        "import(\"dir\\\\part \\\"a\\\".stl\")"
    );
}

#[test]
fn flat_shapes() {
    assert_eq!(ScadElement::Square(point2(2.0, 3.0)).get_code(), "square([2,3])");
    assert_eq!(
        ScadElement::Circle(CircleType::Radius(number(1.5))).get_code(),
        "circle(r=1.5)"
    );
    assert_eq!(
        ScadElement::Polygon(
            PolygonParameters::new(vec![point2(0.0, 0.0), point2(1.0, 0.0), point2(0.0, 1.0)])
                .multi_vector_path(vec![vec![0, 1], vec![2]])
                .convexity(3)
        )
        .get_code(),
        "polygon(points=[[0,0],[1,0],[0,1],],paths=[[0,1,],[2,],],convexity=3)"
    );
    assert_eq!(
        ScadElement::Offset(OffsetType::Radius(number(0.5)), true).get_code(),
        "offset(r=0.5,chamfer=true)"
    );
    assert_eq!(ScadElement::Projection(false).get_code(), "projection(cut=false)");
    assert_eq!(ScadElement::Rotate2d(number(-45.0)).get_code(), "rotate(-45)");
    assert_eq!(OffsetType::Delta(number(-1.0)).get_code(), "delta=-1");
    assert_eq!(OffsetType::Radius(number(2.0)).get_code(), "r=2");
}

#[test]
fn polygon_builders_replace_what_was_set() {
    let points = vec![point2(1.0, 1.0)];
    assert_eq!(
        PolygonParameters::new(points.clone())
            .single_vector_path(vec![0])
            .multi_vector_path(vec![vec![0]])
            .get_code(),
        "points=[[1,1],],paths=[[0,],],convexity=10"
    );
    assert_eq!(
        PolygonParameters::new(points.clone())
            .multi_vector_path(vec![vec![0]])
            .single_vector_path(vec![])
            .get_code(),
        "points=[[1,1],],paths=[],convexity=10"
    );
    assert_eq!(
        PolygonParameters::new(points).convexity(1).convexity(u64::MAX).get_code(),
        "points=[[1,1],],paths=undef,convexity=18446744073709551615"
    );
    assert_eq!(PolygonPathType::Default.get_code(), "undef");
    assert_eq!(PolygonPathType::SingleVector(vec![3, 4]).get_code(), "[3,4,]");
}

#[test]
fn size_arguments() {
    let mut text = String::new();
    CircleType::Radius(number(7.0)).fmt_argument("", &mut text);
    text.push(' ');
    CircleType::Diameter(number(7.5)).fmt_argument("1", &mut text);
    text.push(' ');
    CircleType::Radius(number(0.0)).fmt_argument("2", &mut text);
    assert_eq!(text, "r=7 d1=7.5 r2=0");
}

#[test]
fn call_name_and_arguments() {
    let cone = ScadElement::Cone(
        number(5.0),
        CircleType::Radius(number(7.0)),
        CircleType::Radius(number(14.0)),
    );
    assert_eq!(cone.call_name(), "cylinder");
    let mut arguments = String::new();
    cone.fmt_arguments(&mut arguments);
    assert_eq!(arguments, "h=5,r1=7,r2=14");
    assert_eq!(ScadElement::CenteredCube(point3(1.0, 1.0, 1.0)).call_name(), "cube");
    assert_eq!(ScadElement::RotateVec(point3(1.0, 1.0, 1.0)).call_name(), "rotate");
    assert_eq!(ScadElement::Translate2d(point2(1.0, 1.0)).call_name(), "translate");
    assert_eq!(ScadElement::NamedColor("red".to_string()).call_name(), "color");
    let mut none = String::from("x");
    ScadElement::Hull.fmt_arguments(&mut none);
    assert_eq!(none, "x");
}

#[test]
fn colors() {
    assert_eq!(ScadElement::Color(point3(1.0, 0.5, 0.0)).get_code(), "color([1,0.5,0])");
    assert_eq!(
        ScadElement::ColorAlpha(point4(0.0, 1.0, 1.0, 0.5)).get_code(),
        "color([0,1,1,0.5])"
    );
    assert_eq!(
        ScadElement::NamedColor("aqua".to_string()).get_code(),
        "color(\"aqua\")"
    );
}

#[test]
fn color_out_of_range_is_not_valid() {
    assert!(ScadElement::Color(point3(0.0, 0.0, 0.0)).is_valid());
    assert!(ScadElement::Color(point3(1.0, 1.0, 1.0)).is_valid());
    assert!(ScadElement::Color(point3(-0.0, 0.5, 1.0)).is_valid());
    assert!(!ScadElement::Color(point3(1.1, 0.0, 0.0)).is_valid());
    assert!(!ScadElement::Color(point3(0.0, 1.1, 0.0)).is_valid());
    assert!(!ScadElement::Color(point3(0.0, 0.0, 1.1)).is_valid());
    assert!(!ScadElement::Color(point3(-0.1, 0.0, 0.0)).is_valid());
    assert!(ScadElement::ColorAlpha(point4(0.0, 1.0, 1.0, 0.5)).is_valid());
    assert!(!ScadElement::ColorAlpha(point4(0.0, 1.0, 1.0, 1.5)).is_valid());
    assert!(!ScadElement::ColorAlpha(point4(2.0, 1.0, 1.0, 0.5)).is_valid());
    assert!(ScadElement::Translate(point3(5.0, -5.0, 1.1)).is_valid());
    assert!(ScadElement::NamedColor("no such colour".to_string()).is_valid());
}

#[test]
fn fmt_code_appends_to_what_is_there() {
    let mut text = String::from("// start\n");
    ScadElement::Union.fmt_code(&mut text);
    number(1.5).fmt_code(&mut text);
    vec![1, 2].fmt_code(&mut text);
    cube(1.0).fmt_code(&mut text);
    assert_eq!(text, "// start\nunion()1.5[1,2,]cube([1,1,1]);");
}

#[test]
fn leaf_is_one_statement() {
    for element in [
        ScadElement::Union,
        ScadElement::Cube(point3(1.0, 2.0, 3.0)),
        ScadElement::Polygon(PolygonParameters::new(vec![point2(1.0, 1.0)])),
        ScadElement::Import("part.stl".to_string()),
    ] {
        let head = element.get_code();
        let leaf = ScadObject::new(element);
        let code = leaf.get_code();
        assert_eq!(code, format!("{};", head));
        assert!(code.ends_with(';'));
        assert!(!code.contains('{'));
        assert!(!code.contains('}'));
    }
}

#[test]
fn leaf_holds_the_braces_of_its_string() {
    let leaf = ScadObject::new(ScadElement::Import("{a}.stl".to_string()));
    assert_eq!(leaf.get_code(), "import(\"{a}.stl\");");
}

#[test]
fn children_are_indented_in_order() {
    let mut parent = ScadObject::new(ScadElement::Difference);
    parent.add_child(cube(1.0));
    parent.add_child(cube(2.0));
    parent.add_child(ScadObject::new(ScadElement::Sphere(CircleType::Radius(number(3.0)))));
    assert_eq!(
        parent.get_code(),
        "difference()\n{\n\tcube([1,1,1]);\n\tcube([2,2,2]);\n\tsphere(r=3);\n}"
    );
}

#[test]
fn nesting_adds_one_tab_for_each_level() {
    let mut inner = ScadObject::new(ScadElement::Translate(point3(1.0, 0.0, 0.0)));
    inner.add_child(cube(1.0));
    let mut middle = ScadObject::new(ScadElement::Color(point3(1.0, 1.0, 1.0)));
    middle.add_child(inner);
    middle.add_child(cube(2.0));
    let mut outer = ScadObject::new(ScadElement::Union);
    outer.add_child(middle);
    assert_eq!(
        outer.get_code(),
        "union()\n{\n\tcolor([1,1,1])\n\t{\n\t\ttranslate([1,0,0])\n\t\t{\n\t\t\tcube([1,1,1]);\n\t\t}\n\t\tcube([2,2,2]);\n\t}\n}"
    );
    let code = outer.get_code();
    let lines: Vec<&str> = code.split('\n').collect();
    assert_eq!(lines.first(), Some(&"union()"));
    assert_eq!(lines[1], "{");
    assert_eq!(lines.last(), Some(&"}"));
    for line in &lines[2..lines.len() - 1] {
        assert!(line.starts_with('\t'));
    }
}

#[test]
fn important_adds_one_mark() {
    let mut object = ScadObject::new(ScadElement::Union);
    object.add_child(cube(1.0));
    let plain = object.get_code();
    object.is_important();
    assert_eq!(object.get_code(), format!("!{}", plain));
    object.is_important();
    assert_eq!(object.get_code(), format!("!{}", plain));
    let again = object.important();
    assert_eq!(again.get_code(), format!("!{}", plain));

    let mut parent = ScadObject::new(ScadElement::Difference);
    parent.add_child(cube(1.0).important());
    parent.add_child(cube(2.0));
    assert_eq!(
        parent.get_code(),
        "difference()\n{\n\t!cube([1,1,1]);\n\tcube([2,2,2]);\n}"
    );
}

#[test]
fn tree_with_a_bad_color_is_not_valid() {
    let mut good = ScadObject::new(ScadElement::Union);
    good.add_child(ScadObject::new(ScadElement::Color(point3(0.5, 0.5, 0.5))));
    assert!(good.is_valid());

    let mut deep = ScadObject::new(ScadElement::Translate(point3(0.0, 0.0, 0.0)));
    deep.add_child(cube(1.0));
    deep.add_child(ScadObject::new(ScadElement::Color(point3(1.1, 0.0, 0.0))));
    let mut bad = ScadObject::new(ScadElement::Union);
    bad.add_child(cube(1.0));
    bad.add_child(deep);
    assert!(!bad.is_valid());
    assert!(!ScadObject::new(ScadElement::ColorAlpha(point4(0.0, 0.0, 0.0, 7.0))).is_valid());
}

#[test]
fn clone_is_written_alike() {
    let mut inner = ScadObject::new(ScadElement::Polyhedron(
        vec![point3(0.0, 0.0, 0.0), point3(1.0, 0.0, 0.0)],
        vec![vec![0, 1], vec![1, 0]],
    ));
    inner.add_child(ScadObject::new(ScadElement::Import("a.stl".to_string())).important());
    let mut object = ScadObject::new(ScadElement::Polygon(
        PolygonParameters::new(vec![point2(1.0, 1.0)]).single_vector_path(vec![0]),
    ));
    object.add_child(inner);
    object.add_child(ScadObject::new(ScadElement::Offset(OffsetType::Delta(number(1.0)), true)));
    object.add_child(ScadObject::new(ScadElement::LinearExtrude(LinExtrudeParams::default())));
    object.add_child(ScadObject::new(ScadElement::RotateExtrude(RotateExtrudeParams::default())));
    object.add_child(ScadObject::new(ScadElement::Cone(
        number(1.0),
        CircleType::Radius(number(2.0)),
        CircleType::Diameter(number(3.0)),
    )));
    let copy = object.clone();
    assert_eq!(copy.get_code(), object.get_code());
    assert_eq!(copy.is_valid(), object.is_valid());
    object.add_child(cube(1.0));
    assert_ne!(copy.get_code(), object.get_code());

    let bad = ScadElement::Color(point3(2.0, 0.0, 0.0));
    assert!(!bad.clone().is_valid());
}

#[test]
fn block_entries() {
    let mut text = String::new();
    fmt_indented("a\nb\n\nc", &mut text);
    assert_eq!(text, "a\n\tb\n\t\n\tc");
    let mut entry = String::from("{\n");
    fmt_block_entry("x()\n{\n\ty();\n}", &mut entry);
    assert_eq!(entry, "{\n\tx()\n\t{\n\t\ty();\n\t}\n");
    let mut empty = String::new();
    fmt_block_entry("", &mut empty);
    assert_eq!(empty, "\t\n");
}

#[test]
fn calls_statements_and_documents_of_plain_text() {
    let mut call = String::from("> ");
    fmt_call("import", "\"hello_world.stl\"", &mut call);
    assert_eq!(call, "> import(\"hello_world.stl\")");
    let mut empty_call = String::new();
    fmt_call("union", "", &mut empty_call);
    assert_eq!(empty_call, "union()");

    let mut leaf = String::new();
    fmt_statement("union()", true, &vec![], &mut leaf);
    assert_eq!(leaf, "!union();");
    let mut block = String::new();
    fmt_statement(
        "translate([0,0,0])",
        false,
        &vec!["cube([1,1,1]);".to_string(), "a()\n{\n\tb();\n}".to_string()],
        &mut block,
    );
    assert_eq!(
        block,
        "translate([0,0,0])\n{\n\tcube([1,1,1]);\n\ta()\n\t{\n\t\tb();\n\t}\n}"
    );

    let mut document = String::from("$fn=20;\n");
    fmt_document(&vec!["a();".to_string(), "b();".to_string(), "c();".to_string()], &mut document);
    assert_eq!(document, "$fn=20;\na();\nb();\nc();");
    let mut nothing = String::new();
    fmt_document(&vec![], &mut nothing);
    assert_eq!(nothing, "");
}

#[test]
fn document_is_joined_by_line_breaks() {
    assert_eq!(render_document(&vec![]), "");
    assert_eq!(render_document(&vec![cube(1.0)]), "cube([1,1,1]);");
    let mut parent = ScadObject::new(ScadElement::Union);
    parent.add_child(cube(2.0));
    assert_eq!(
        render_document(&vec![cube(1.0), parent, cube(3.0).important()]),
        "cube([1,1,1]);\nunion()\n{\n\tcube([2,2,2]);\n}\n!cube([3,3,3]);"
    );
}

#[test]
fn defaults() {
    let lin = LinExtrudeParams::default();
    assert_eq!(lin.height.get_code(), "1");
    assert!(!lin.center);
    assert_eq!(lin.convexity, 10);
    assert_eq!(lin.twist.get_code(), "0");
    assert_eq!(lin.slices, 1);
    let rot = RotateExtrudeParams::default();
    assert_eq!(rot.angle.get_code(), "360");
    assert_eq!(rot.convexity, 10);
    assert_eq!(rot.clone().get_code(), "angle=360,convexity=10");
    assert_eq!(
        lin.clone().get_code(),
        "height=1,center=false,convexity=10,twist=0,slices=1"
    );
}
