use map_py::generate::{
    field_expr, impl_block, map_py_derive, struct_literal, DeclShape, Declaration, Direction,
    FieldDecl, GenError,
};
use map_py::options::{map_type_of, FieldOptions, MetaKey, NestedMeta, TypeAttr};

fn plain(name: &str) -> FieldDecl {
    FieldDecl { name: name.to_string(), map_from: None, map_into: None }
}

fn point() -> Declaration {
    Declaration {
        name: "Point".to_string(),
        map_type: Some("PyPoint".to_string()),
        shape: DeclShape::Named(vec![plain("x"), plain("y")]),
    }
}

#[test]
fn point_expansion_matches_fields_by_name() {
    let text = map_py_derive(&point()).unwrap();
    let expected = "impl ::map_py::MapPy<PyPoint> for Point {\n    fn map_py(self, py: ::pyo3::Python) -> ::pyo3::PyResult<PyPoint> {\n        Ok(PyPoint { x: self.x.map_py(py)?, y: self.y.map_py(py)? })\n    }\n}\nimpl ::map_py::MapPy<Point> for PyPoint {\n    fn map_py(self, py: ::pyo3::Python) -> ::pyo3::PyResult<Point> {\n        Ok(Point { x: self.x.map_py(py)?, y: self.y.map_py(py)? })\n    }\n}\n";
    assert_eq!(text, expected);
}

#[test]
fn override_applies_to_its_direction_only() {
    let size = FieldDecl {
        name: "size".to_string(),
        map_from: Some("size_from_py".to_string()),
        map_into: None,
    };
    assert_eq!(field_expr(&size, Direction::FromBridge), "size: (size_from_py)(self.size, py)?");
    assert_eq!(field_expr(&size, Direction::ToBridge), "size: self.size.map_py(py)?");
    let into_only = FieldDecl {
        name: "w".to_string(),
        map_from: None,
        map_into: Some("crate::w_to_py".to_string()),
    };
    assert_eq!(field_expr(&into_only, Direction::ToBridge), "w: (crate::w_to_py)(self.w, py)?");
    assert_eq!(field_expr(&into_only, Direction::FromBridge), "w: self.w.map_py(py)?");
}

#[test]
fn override_field_in_full_expansion() {
    let decl = Declaration {
        name: "Image".to_string(),
        map_type: Some("py::Image".to_string()),
        shape: DeclShape::Named(vec![
            FieldDecl {
                name: "size".to_string(),
                map_from: Some("size_from_py".to_string()),
                map_into: Some("size_into_py".to_string()),
            },
            plain("name"),
        ]),
    };
    let text = map_py_derive(&decl).unwrap();
    assert!(text.contains(
        "Ok(py::Image { size: (size_into_py)(self.size, py)?, name: self.name.map_py(py)? })"
    ));
    assert!(text.contains(
        "Ok(Image { size: (size_from_py)(self.size, py)?, name: self.name.map_py(py)? })"
    ));
    assert!(!text.contains("self.size.map_py"));
}

#[test]
fn struct_literal_of_no_and_one_field() {
    assert_eq!(struct_literal("T", &vec![], Direction::ToBridge), "T {  }");
    assert_eq!(struct_literal("T", &vec![plain("a")], Direction::ToBridge), "T { a: self.a.map_py(py)? }");
}

#[test]
fn impl_block_text() {
    assert_eq!(
        impl_block("A", "B", "self.0"),
        "impl ::map_py::MapPy<B> for A {\n    fn map_py(self, py: ::pyo3::Python) -> ::pyo3::PyResult<B> {\n        Ok(self.0)\n    }\n}\n"
    );
}

#[test]
fn tuple_struct_passes_value_through() {
    let decl = Declaration {
        name: "Id".to_string(),
        map_type: Some("u32".to_string()),
        shape: DeclShape::Unnamed(1),
    };
    let text = map_py_derive(&decl).unwrap();
    assert_eq!(text, format!("{}{}", impl_block("Id", "u32", "self.0"), impl_block("u32", "Id", "Id(self)")));
}

#[test]
fn missing_map_type_is_rejected() {
    let mut decl = point();
    decl.map_type = None;
    let e = map_py_derive(&decl).unwrap_err();
    assert_eq!(e, GenError::MissingMapType);
    assert_eq!(e.message(), "Must specify a map type");
    let unit = Declaration { name: "U".to_string(), map_type: None, shape: DeclShape::Unit };
    assert_eq!(map_py_derive(&unit), Err(GenError::MissingMapType));
}

#[test]
fn declarations_without_fields_are_rejected() {
    let empty_named = Declaration {
        name: "S".to_string(),
        map_type: Some("PyS".to_string()),
        shape: DeclShape::Named(vec![]),
    };
    assert_eq!(map_py_derive(&empty_named), Err(GenError::UnitStruct));
    let empty_tuple = Declaration {
        name: "S".to_string(),
        map_type: Some("PyS".to_string()),
        shape: DeclShape::Unnamed(0),
    };
    assert_eq!(map_py_derive(&empty_tuple), Err(GenError::UnitStruct));
    let pair = Declaration {
        name: "S".to_string(),
        map_type: Some("PyS".to_string()),
        shape: DeclShape::Unnamed(2),
    };
    let e = map_py_derive(&pair).unwrap_err();
    assert_eq!(e, GenError::TupleArity);
    assert_eq!(e.message(), "Unsupported tuple struct with more than one field");
}

#[test]
fn unit_and_non_struct_are_rejected() {
    let unit = Declaration {
        name: "U".to_string(),
        map_type: Some("PyU".to_string()),
        shape: DeclShape::Unit,
    };
    let e = map_py_derive(&unit).unwrap_err();
    assert_eq!(e, GenError::UnitStruct);
    assert_eq!(e.message(), "Unsupported unit type");
    let other = Declaration {
        name: "E".to_string(),
        map_type: Some("PyE".to_string()),
        shape: DeclShape::Other,
    };
    let e = map_py_derive(&other).unwrap_err();
    assert_eq!(e, GenError::NotAStruct);
    assert_eq!(e.message(), "Unsupported type");
}

fn meta(key: MetaKey, content: &str) -> NestedMeta {
    NestedMeta { key, content: content.to_string() }
}

#[test]
fn field_options_read_each_directive_once() {
    let none = FieldOptions::new(&vec![]).unwrap();
    assert_eq!(none.map_from, None);
    assert_eq!(none.map_into, None);
    let opts = FieldOptions::new(&vec![meta(MetaKey::Into, "to_py"), meta(MetaKey::From, "from_py")]).unwrap();
    assert_eq!(opts.map_from.as_deref(), Some("from_py"));
    assert_eq!(opts.map_into.as_deref(), Some("to_py"));
}

#[test]
fn repeated_directive_is_rejected() {
    let r = FieldOptions::new(&vec![
        meta(MetaKey::From, "first_from"),
        meta(MetaKey::Into, "to_py"),
        meta(MetaKey::From, "second_from"),
    ]);
    let e = r.err().unwrap();
    assert_eq!(e, GenError::RepeatedDirective);
    assert_eq!(e.message(), "Repeated map directive on a field");
    let twice_into = FieldOptions::new(&vec![meta(MetaKey::Into, "a"), meta(MetaKey::Into, "b")]);
    assert_eq!(twice_into.err(), Some(GenError::RepeatedDirective));
}

#[test]
fn unknown_directive_is_rejected() {
    let r = FieldOptions::new(&vec![meta(MetaKey::From, "f"), meta(MetaKey::Unknown, "rename")]);
    let e = r.err().unwrap();
    assert_eq!(e, GenError::UnknownDirective);
    assert_eq!(e.message(), "Unknown map directive on a field");
}

#[test]
fn map_type_is_the_first_map_attribute() {
    let attrs = vec![
        TypeAttr { is_map: false, args: "Debug".to_string() },
        TypeAttr { is_map: true, args: "crate::PyA".to_string() },
        TypeAttr { is_map: true, args: "crate::PyB".to_string() },
    ];
    assert_eq!(map_type_of(&attrs).as_deref(), Some("crate::PyA"));
    assert_eq!(map_type_of(&vec![TypeAttr { is_map: false, args: "x".to_string() }]), None);
    assert_eq!(map_type_of(&vec![]), None);
}
