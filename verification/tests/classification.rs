use record_derive::schema::{
    classify, FieldDecl, RecordBody, RecordDecl, RecordSchema, UnsupportedTypeShape,
};
use record_derive::types::{GenericArg, PathSegment, SegmentArgs, TypeExpr, TypePath};

fn segment(ident: &str, args: SegmentArgs) -> PathSegment {
    PathSegment { ident: ident.to_string(), args }
}

fn plain(ident: &str) -> TypeExpr {
    TypeExpr::Path(TypePath { global: false, segments: vec![segment(ident, SegmentArgs::Absent)] })
}

fn generic(ident: &str, args: Vec<GenericArg>) -> TypeExpr {
    TypeExpr::Path(TypePath {
        global: false,
        segments: vec![segment(ident, SegmentArgs::Angle(args))],
    })
}

fn optional(inner: TypeExpr) -> TypeExpr {
    generic("Option", vec![GenericArg::Type(inner)])
}

fn field(name: &str, ty: TypeExpr) -> FieldDecl {
    FieldDecl { name: name.to_string(), ty }
}

fn refused(name: &str) -> UnsupportedTypeShape {
    UnsupportedTypeShape { field: Some(name.to_string()) }
}

#[test]
fn plain_type_is_required() {
    let fd = classify(field("name", plain("String"))).unwrap();
    assert_eq!(fd.name(), "name");
    assert_eq!(fd.declared_type(), &plain("String"));
    assert!(!fd.is_optional());
    assert_eq!(fd.inner_type(), None);
    assert_eq!(fd.value_type(), &plain("String"));
}

#[test]
fn wrapped_type_is_optional() {
    let fd = classify(field("retries", optional(plain("i64")))).unwrap();
    assert_eq!(fd.name(), "retries");
    assert_eq!(fd.declared_type(), &optional(plain("i64")));
    assert!(fd.is_optional());
    assert_eq!(fd.inner_type(), Some(&plain("i64")));
    assert_eq!(fd.value_type(), &plain("i64"));
}

#[test]
fn generic_type_that_is_not_the_wrapper_is_required() {
    let ty = generic("Vec", vec![GenericArg::Type(plain("String"))]);
    let fd = classify(field("args", ty)).unwrap();
    assert!(!fd.is_optional());
    assert_eq!(fd.inner_type(), None);
    assert_eq!(fd.value_type(), &generic("Vec", vec![GenericArg::Type(plain("String"))]));
}

#[test]
fn only_the_outermost_segment_decides() {
    let qualified = TypeExpr::Path(TypePath {
        global: true,
        segments: vec![
            segment("std", SegmentArgs::Absent),
            segment("option", SegmentArgs::Absent),
            segment("Option", SegmentArgs::Angle(vec![GenericArg::Type(plain("u8"))])),
        ],
    });
    let fd = classify(field("level", qualified)).unwrap();
    assert!(fd.is_optional());
    assert_eq!(fd.inner_type(), Some(&plain("u8")));

    let inside = TypeExpr::Path(TypePath {
        global: false,
        segments: vec![
            segment("Option", SegmentArgs::Absent),
            segment("Inner", SegmentArgs::Absent),
        ],
    });
    let fd = classify(field("inner", inside)).unwrap();
    assert!(!fd.is_optional());
}

#[test]
fn the_match_is_on_the_name_alone() {
    // A type of the user's own that is called like the wrapper counts as it.
    let own = TypeExpr::Path(TypePath {
        global: false,
        segments: vec![
            segment("my", SegmentArgs::Absent),
            segment("Option", SegmentArgs::Angle(vec![GenericArg::Type(plain("u8"))])),
        ],
    });
    assert!(classify(field("x", own)).unwrap().is_optional());
    // A name that only resembles the wrapper's does not.
    let other = generic("Optional", vec![GenericArg::Type(plain("u8"))]);
    assert!(!classify(field("x", other)).unwrap().is_optional());
    let lower = generic("option", vec![GenericArg::Type(plain("u8"))]);
    assert!(!classify(field("x", lower)).unwrap().is_optional());
}

#[test]
fn only_one_level_is_unwrapped() {
    let fd = classify(field("deep", optional(optional(plain("u8"))))).unwrap();
    assert!(fd.is_optional());
    assert_eq!(fd.inner_type(), Some(&optional(plain("u8"))));
    assert_eq!(fd.value_type(), &optional(plain("u8")));
}

#[test]
fn inner_type_is_the_whole_first_argument() {
    let inner = generic("Vec", vec![GenericArg::Type(plain("String"))]);
    let fd = classify(field("args", optional(inner))).unwrap();
    assert_eq!(
        fd.inner_type(),
        Some(&generic("Vec", vec![GenericArg::Type(plain("String"))]))
    );
}

#[test]
fn only_the_first_argument_is_examined() {
    let ty = generic(
        "Option",
        vec![GenericArg::Type(plain("u8")), GenericArg::Other("'a".to_string())],
    );
    let fd = classify(field("x", ty)).unwrap();
    assert_eq!(fd.inner_type(), Some(&plain("u8")));
}

#[test]
fn other_shapes_are_refused() {
    for written in ["&'static str", "(u8, u8)", "[u8; 4]", "fn(u8) -> u8", "*const u8"] {
        let r = classify(field("x", TypeExpr::Other(written.to_string())));
        assert_eq!(r, Err(refused("x")), "{}", written);
    }
}

#[test]
fn path_without_segments_is_refused() {
    let empty = TypeExpr::Path(TypePath { global: false, segments: vec![] });
    assert_eq!(classify(field("x", empty)), Err(refused("x")));
}

#[test]
fn wrapper_without_a_type_argument_is_refused() {
    assert_eq!(classify(field("a", plain("Option"))), Err(refused("a")));
    assert_eq!(classify(field("b", generic("Option", vec![]))), Err(refused("b")));
    let lifetime = generic("Option", vec![GenericArg::Other("'a".to_string())]);
    assert_eq!(classify(field("c", lifetime)), Err(refused("c")));
    let function = TypeExpr::Path(TypePath {
        global: false,
        segments: vec![segment("Option", SegmentArgs::Function("(u8) -> u8".to_string()))],
    });
    assert_eq!(classify(field("d", function)), Err(refused("d")));
}

#[test]
fn function_like_segment_is_a_named_path() {
    let ty = TypeExpr::Path(TypePath {
        global: false,
        segments: vec![segment("Fn", SegmentArgs::Function("(u8) -> bool".to_string()))],
    });
    assert!(!classify(field("check", ty)).unwrap().is_optional());
}

#[test]
fn schema_keeps_name_and_declaration_order() {
    let decl = RecordDecl {
        name: "Command".to_string(),
        body: RecordBody::Named(vec![
            field("executable", plain("String")),
            field("args", generic("Vec", vec![GenericArg::Type(plain("String"))])),
            field("current_dir", optional(plain("String"))),
        ]),
    };
    let schema = RecordSchema::from_decl(decl).unwrap();
    assert_eq!(schema.name(), "Command");
    assert_eq!(schema.len(), 3);
    let names: Vec<&str> = (0..3).map(|i| schema.fields()[i].name().as_str()).collect();
    assert_eq!(names, ["executable", "args", "current_dir"]);
    let optional: Vec<bool> = (0..3).map(|i| schema.fields()[i].is_optional()).collect();
    assert_eq!(optional, [false, false, true]);
    assert!(schema.has_unique_names());
    assert_eq!(schema.position("args"), Some(1));
    assert_eq!(schema.position("env"), None);
}

#[test]
fn schema_without_fields() {
    let decl = RecordDecl { name: "Unit".to_string(), body: RecordBody::Named(vec![]) };
    let schema = RecordSchema::from_decl(decl).unwrap();
    assert_eq!(schema.len(), 0);
    assert!(schema.has_unique_names());
}

#[test]
fn one_unsupported_field_refuses_the_whole_declaration() {
    let decl = RecordDecl {
        name: "Mixed".to_string(),
        body: RecordBody::Named(vec![
            field("good", plain("u8")),
            field("bad", TypeExpr::Other("&'static str".to_string())),
            field("worse", TypeExpr::Other("(u8, u8)".to_string())),
        ]),
    };
    assert_eq!(RecordSchema::from_decl(decl), Err(refused("bad")));
}

#[test]
fn declaration_without_named_fields_is_refused() {
    let decl = RecordDecl { name: "Pair".to_string(), body: RecordBody::Other };
    assert_eq!(RecordSchema::from_decl(decl), Err(UnsupportedTypeShape { field: None }));
}

#[test]
fn repeated_names_are_told_apart() {
    let decl = RecordDecl {
        name: "Twice".to_string(),
        body: RecordBody::Named(vec![
            field("a", plain("u8")),
            field("b", plain("u8")),
            field("a", plain("u16")),
        ]),
    };
    let schema = RecordSchema::from_decl(decl).unwrap();
    assert!(!schema.has_unique_names());
    assert_eq!(schema.position("a"), Some(0));
}

#[test]
fn outermost_segment_is_the_last_one() {
    let path = TypeExpr::Path(TypePath {
        global: false,
        segments: vec![segment("a", SegmentArgs::Absent), segment("B", SegmentArgs::Absent)],
    });
    assert_eq!(path.outermost_segment(), Some(&segment("B", SegmentArgs::Absent)));
    let empty = TypeExpr::Path(TypePath { global: true, segments: vec![] });
    assert_eq!(empty.outermost_segment(), None);
    assert_eq!(TypeExpr::Other("()".to_string()).outermost_segment(), None);
}

#[test]
fn wrapper_name_is_compared_exactly() {
    for (ident, expected) in [
        ("Option", true),
        ("option", false),
        ("Optio", false),
        ("Options", false),
        ("OPTION", false),
        ("", false),
        ("r#Option", false),
    ] {
        assert_eq!(segment(ident, SegmentArgs::Absent).is_optional_wrapper(), expected, "{}", ident);
    }
}

#[test]
fn first_type_argument_of_a_segment() {
    let first = |args| segment("X", args).first_type_argument().map(TypeExpr::to_text);
    assert_eq!(first(SegmentArgs::Absent), None);
    assert_eq!(first(SegmentArgs::Angle(vec![])), None);
    assert_eq!(first(SegmentArgs::Function("(u8)".to_string())), None);
    assert_eq!(first(SegmentArgs::Angle(vec![GenericArg::Other("'a".to_string())])), None);
    assert_eq!(
        first(SegmentArgs::Angle(vec![
            GenericArg::Other("'a".to_string()),
            GenericArg::Type(plain("u8"))
        ])),
        None
    );
    assert_eq!(
        first(SegmentArgs::Angle(vec![
            GenericArg::Type(plain("u8")),
            GenericArg::Type(plain("u16"))
        ])),
        Some("u8".to_string())
    );
}
