use tonic_thiserror_impl::{
    impl_tonic_thiserror, tonic_thiserror_derive, variant_arm, Annotation, AnnotationShape, Arm,
    Declaration, DeclarationShape, Diagnostic, DiagnosticKind, ErrorValue, Fault,
    GeneratedConversion, MathsError, NestedItem, ProtocolStatus, Site, StatusCode, Variant,
};

fn nested_item(nested: &syn::NestedMeta) -> NestedItem {
    match nested {
        syn::NestedMeta::Meta(syn::Meta::Path(path)) => NestedItem::Path {
            leading_colon: path.leading_colon.is_some(),
            segments: path.segments.iter().map(|part| part.ident.to_string()).collect(),
        },
        syn::NestedMeta::Meta(_) => NestedItem::Nested,
        syn::NestedMeta::Lit(_) => NestedItem::Literal,
    }
}

fn read_shape(meta: Result<syn::Meta, syn::Error>) -> AnnotationShape {
    match meta {
        Ok(syn::Meta::Path(_)) => AnnotationShape::Flag,
        Ok(syn::Meta::NameValue(_)) => AnnotationShape::KeyValue,
        Ok(syn::Meta::List(list)) => AnnotationShape::List { items: list.nested.iter().map(nested_item).collect() },
        Err(_) => AnnotationShape::Opaque,
    }
}

fn written(path: &str, tokens: &str) -> Annotation {
    let text = format!("{} {}", path, tokens);
    Annotation { path: path.to_string(), shape: read_shape(syn::parse_str::<syn::Meta>(&text)) }
}

fn code(name: &str) -> Annotation {
    written("code", &format!("({})", name))
}

fn display() -> Annotation {
    written("error", "(\"Division by zero\")")
}

fn variant(name: &str, annotations: Vec<Annotation>) -> Variant {
    Variant { name: name.to_string(), annotations }
}

fn enumeration(name: &str, variants: Vec<Variant>) -> Declaration {
    Declaration { name: name.to_string(), shape: DeclarationShape::Enumeration { variants } }
}

fn arm(variant: &str, code: &str) -> Arm {
    Arm { variant: variant.to_string(), code: StatusCode { ident: code.to_string() } }
}

fn status(code: &str, message: &str) -> ProtocolStatus {
    ProtocolStatus { code: StatusCode { ident: code.to_string() }, message: message.to_string() }
}

fn value(variant: usize, display: &str) -> ErrorValue {
    ErrorValue { variant, display: display.to_string() }
}

fn store_errors() -> Declaration {
    enumeration(
        "StoreError",
        vec![
            variant("Missing", vec![display(), code("NotFound")]),
            variant("Busy", vec![code("Unavailable"), display()]),
            variant("Denied", vec![written("doc", "= \"Not allowed.\""), display(), code("PermissionDenied")]),
        ],
    )
}

#[test]
fn division_by_zero_becomes_invalid_argument() {
    let conversion = impl_tonic_thiserror(&MathsError::declaration()).unwrap();
    let error = MathsError::DivisionByZero;
    let got = conversion.status_for(&error.value()).unwrap();
    assert_eq!(got, status("InvalidArgument", "Division by zero"));
    assert_eq!(got, error.to_status());
    assert_eq!(error.message(), "Division by zero");
    assert_eq!(error.value(), value(0, "Division by zero"));
}

#[test]
fn maths_error_declaration_is_as_written() {
    let expected = enumeration("MathsError", vec![variant("DivisionByZero", vec![display(), code("InvalidArgument")])]);
    assert_eq!(MathsError::declaration(), expected);
}

#[test]
fn maths_error_conversion_has_one_arm() {
    let conversion = impl_tonic_thiserror(&MathsError::declaration()).unwrap();
    let expected = GeneratedConversion {
        enum_name: "MathsError".to_string(),
        arms: vec![arm("DivisionByZero", "InvalidArgument")],
    };
    assert_eq!(conversion, expected);
}

#[test]
fn maths_error_conversion_source_text() {
    let conversion = impl_tonic_thiserror(&MathsError::declaration()).unwrap();
    let expected = "impl From<MathsError> for ::tonic::Status {\n    fn from(err: MathsError) -> ::tonic::Status {\n        match err {\n            MathsError::DivisionByZero { .. } => ::tonic::Status::new(::tonic::Code::InvalidArgument, format!(\"{}\", err)),\n        }\n    }\n}\n";
    assert_eq!(conversion.render(), expected);
}

#[test]
fn source_text_has_one_arm_per_variant_in_order() {
    let conversion = impl_tonic_thiserror(&store_errors()).unwrap();
    let expected = "impl From<StoreError> for ::tonic::Status {\n    fn from(err: StoreError) -> ::tonic::Status {\n        match err {\n            StoreError::Missing { .. } => ::tonic::Status::new(::tonic::Code::NotFound, format!(\"{}\", err)),\n            StoreError::Busy { .. } => ::tonic::Status::new(::tonic::Code::Unavailable, format!(\"{}\", err)),\n            StoreError::Denied { .. } => ::tonic::Status::new(::tonic::Code::PermissionDenied, format!(\"{}\", err)),\n        }\n    }\n}\n";
    assert_eq!(conversion.render(), expected);
}

#[test]
fn arm_source_text() {
    let text = arm("Busy", "Unavailable").render("StoreError");
    assert_eq!(text, "            StoreError::Busy { .. } => ::tonic::Status::new(::tonic::Code::Unavailable, format!(\"{}\", err)),\n");
}

#[test]
fn code_path_names_the_protocol_code() {
    assert_eq!(StatusCode { ident: "NotFound".to_string() }.path(), "::tonic::Code::NotFound");
}

#[test]
fn empty_enumeration_has_an_empty_match() {
    let conversion = impl_tonic_thiserror(&enumeration("Never", vec![])).unwrap();
    assert_eq!(conversion, GeneratedConversion { enum_name: "Never".to_string(), arms: vec![] });
    assert_eq!(
        conversion.render(),
        "impl From<Never> for ::tonic::Status {\n    fn from(err: Never) -> ::tonic::Status {\n        match err {\n        }\n    }\n}\n"
    );
    assert_eq!(conversion.status_for(&value(0, "never")), None);
}

#[test]
fn every_variant_gets_a_status() {
    let declaration = store_errors();
    let conversion = impl_tonic_thiserror(&declaration).unwrap();
    assert_eq!(conversion.arms.len(), 3);
    for index in 0..3 {
        for text in ["", "plain", "key 42 is missing from shard 7"] {
            assert!(conversion.status_for(&value(index, text)).is_some());
        }
    }
}

#[test]
fn value_of_no_variant_gets_no_status() {
    let conversion = impl_tonic_thiserror(&store_errors()).unwrap();
    assert_eq!(conversion.status_for(&value(3, "x")), None);
    assert_eq!(conversion.status_for(&value(usize::MAX, "x")), None);
}

#[test]
fn status_code_is_the_annotated_code() {
    let conversion = impl_tonic_thiserror(&store_errors()).unwrap();
    assert_eq!(conversion.status_for(&value(0, "a")).unwrap().code.ident, "NotFound");
    assert_eq!(conversion.status_for(&value(1, "a")).unwrap().code.ident, "Unavailable");
    assert_eq!(conversion.status_for(&value(2, "a")).unwrap().code.ident, "PermissionDenied");
}

#[test]
fn status_message_is_the_display_text() {
    let conversion = impl_tonic_thiserror(&store_errors()).unwrap();
    let interpolated = format!("key {} is missing from shard {}", 42, 7);
    assert_eq!(
        conversion.status_for(&value(0, &interpolated)),
        Some(status("NotFound", "key 42 is missing from shard 7"))
    );
    assert_eq!(conversion.status_for(&value(1, "store is busy")), Some(status("Unavailable", "store is busy")));
    assert_eq!(conversion.status_for(&value(1, "")), Some(status("Unavailable", "")));
}

#[test]
fn record_is_not_an_enum() {
    let declaration = Declaration { name: "Point".to_string(), shape: DeclarationShape::Record };
    let diagnostic = impl_tonic_thiserror(&declaration).unwrap_err();
    assert_eq!(diagnostic, Diagnostic { fault: Fault::NotAnEnum, site: Site::Declaration });
    assert_eq!(diagnostic.kind(), DiagnosticKind::NotAnEnum);
    assert_eq!(diagnostic.message(), "TonicThisError can only be used on enums");
    assert_eq!(diagnostic.site.variant(), None);
}

#[test]
fn unit_type_is_not_an_enum() {
    let declaration = Declaration { name: "Marker".to_string(), shape: DeclarationShape::Unit };
    let diagnostic = impl_tonic_thiserror(&declaration).unwrap_err();
    assert_eq!(diagnostic, Diagnostic { fault: Fault::NotAnEnum, site: Site::Declaration });
    assert_eq!(diagnostic.kind(), DiagnosticKind::NotAnEnum);
}

#[test]
fn union_is_not_an_enum() {
    let declaration = Declaration { name: "Bits".to_string(), shape: DeclarationShape::Union };
    let diagnostic = impl_tonic_thiserror(&declaration).unwrap_err();
    assert_eq!(diagnostic, Diagnostic { fault: Fault::NotAnEnum, site: Site::Declaration });
}

#[test]
fn missing_annotation_is_refused() {
    let declaration = enumeration("E", vec![variant("A", vec![display()])]);
    let diagnostic = impl_tonic_thiserror(&declaration).unwrap_err();
    assert_eq!(diagnostic, Diagnostic { fault: Fault::MissingCode, site: Site::Variant { variant: 0 } });
    assert_eq!(diagnostic.kind(), DiagnosticKind::MissingCodeAnnotation);
    assert_eq!(diagnostic.message(), "Missing `code` attribute");
}

#[test]
fn variant_without_annotations_is_refused() {
    let declaration = enumeration("E", vec![variant("A", vec![])]);
    let diagnostic = impl_tonic_thiserror(&declaration).unwrap_err();
    assert_eq!(diagnostic, Diagnostic { fault: Fault::MissingCode, site: Site::Variant { variant: 0 } });
}

#[test]
fn missing_annotation_refuses_the_whole_type() {
    let declaration = enumeration(
        "E",
        vec![
            variant("A", vec![code("NotFound")]),
            variant("B", vec![code("Internal")]),
            variant("C", vec![display()]),
        ],
    );
    let diagnostic = impl_tonic_thiserror(&declaration).unwrap_err();
    assert_eq!(diagnostic, Diagnostic { fault: Fault::MissingCode, site: Site::Variant { variant: 2 } });
    assert_eq!(diagnostic.site.variant(), Some(2));
}

#[test]
fn malformed_shapes_are_refused() {
    let cases = vec![
        (written("code", ""), Fault::NotAList),
        (written("code", "(A, B)"), Fault::WrongItemCount),
        (written("code", "= \"A\""), Fault::NotAList),
    ];
    for (annotation, fault) in cases {
        let declaration = enumeration("E", vec![variant("A", vec![display(), annotation])]);
        let diagnostic = impl_tonic_thiserror(&declaration).unwrap_err();
        assert_eq!(diagnostic, Diagnostic { fault, site: Site::Annotation { variant: 0, annotation: 1 } });
        assert_eq!(diagnostic.kind(), DiagnosticKind::MalformedCodeAnnotation);
    }
}

#[test]
fn qualified_code_is_refused_at_the_item() {
    let qualified = written("code", "(mod::A)");
    let declaration = enumeration("E", vec![variant("A", vec![qualified])]);
    let diagnostic = impl_tonic_thiserror(&declaration).unwrap_err();
    assert_eq!(diagnostic, Diagnostic { fault: Fault::PathNotBare, site: Site::CodeItem { variant: 0, annotation: 0 } });
    assert_eq!(diagnostic.kind(), DiagnosticKind::UnsupportedCodeExpression);
    assert_eq!(diagnostic.message(), "Expected tonic::Code variant");
}

#[test]
fn literal_code_is_refused_at_the_annotation() {
    let literal = written("code", "(\"A\")");
    let declaration = enumeration("E", vec![variant("A", vec![display(), display(), literal])]);
    let diagnostic = impl_tonic_thiserror(&declaration).unwrap_err();
    assert_eq!(diagnostic, Diagnostic { fault: Fault::NotAPath, site: Site::Annotation { variant: 0, annotation: 2 } });
    assert_eq!(diagnostic.kind(), DiagnosticKind::UnsupportedCodeExpression);
    assert_eq!(diagnostic.message(), "Expected tonic::Code variant for `code` attribute");
}

#[test]
fn second_variant_failure_is_reported() {
    let declaration = enumeration(
        "E",
        vec![
            variant("A", vec![code("NotFound")]),
            variant("B", vec![written("code", "")]),
        ],
    );
    let result = impl_tonic_thiserror(&declaration);
    assert!(result.is_err());
    let diagnostic = result.unwrap_err();
    assert_eq!(diagnostic, Diagnostic { fault: Fault::NotAList, site: Site::Annotation { variant: 1, annotation: 0 } });
    assert_eq!(diagnostic.kind(), DiagnosticKind::MalformedCodeAnnotation);
}

#[test]
fn only_the_first_failure_is_reported() {
    let declaration = enumeration(
        "E",
        vec![
            variant("A", vec![code("NotFound")]),
            variant("B", vec![written("code", "(\"A\")")]),
            variant("C", vec![]),
            variant("D", vec![written("code", "")]),
        ],
    );
    let diagnostic = impl_tonic_thiserror(&declaration).unwrap_err();
    assert_eq!(diagnostic, Diagnostic { fault: Fault::NotAPath, site: Site::Annotation { variant: 1, annotation: 0 } });
}

#[test]
fn annotations_under_other_tags_are_not_read() {
    let declaration = enumeration(
        "E",
        vec![variant("A", vec![written("error", "(\"{}\", self.0 + 1)"), code("Internal")])],
    );
    let conversion = impl_tonic_thiserror(&declaration).unwrap();
    assert_eq!(conversion.arms, vec![arm("A", "Internal")]);
}

#[test]
fn first_of_two_code_annotations_is_used() {
    let declaration = enumeration("E", vec![variant("A", vec![code("NotFound"), code("Internal")])]);
    let conversion = impl_tonic_thiserror(&declaration).unwrap();
    assert_eq!(conversion.arms, vec![arm("A", "NotFound")]);
}

#[test]
fn first_code_annotation_is_used_even_when_wrong() {
    let declaration = enumeration(
        "E",
        vec![variant("A", vec![written("code", "= \"A\""), code("Internal")])],
    );
    let diagnostic = impl_tonic_thiserror(&declaration).unwrap_err();
    assert_eq!(diagnostic, Diagnostic { fault: Fault::NotAList, site: Site::Annotation { variant: 0, annotation: 0 } });
}

#[test]
fn variant_arm_reports_under_the_given_number() {
    assert_eq!(variant_arm(&variant("A", vec![display(), code("Aborted")]), 5), Ok(arm("A", "Aborted")));
    assert_eq!(
        variant_arm(&variant("A", vec![display()]), 5),
        Err(Diagnostic { fault: Fault::MissingCode, site: Site::Variant { variant: 5 } })
    );
    assert_eq!(
        variant_arm(&variant("A", vec![display(), written("code", "")]), 5),
        Err(Diagnostic { fault: Fault::NotAList, site: Site::Annotation { variant: 5, annotation: 1 } })
    );
}

#[test]
fn fault_sites() {
    assert_eq!(Site::in_annotation(Fault::PathNotBare, 2, 3), Site::CodeItem { variant: 2, annotation: 3 });
    for fault in [Fault::NotAList, Fault::WrongItemCount, Fault::NotAPath] {
        assert_eq!(Site::in_annotation(fault, 2, 3), Site::Annotation { variant: 2, annotation: 3 });
    }
    assert_eq!(Site::Declaration.variant(), None);
    assert_eq!(Site::Variant { variant: 4 }.variant(), Some(4));
    assert_eq!(Site::Annotation { variant: 4, annotation: 1 }.variant(), Some(4));
    assert_eq!(Site::CodeItem { variant: 4, annotation: 1 }.variant(), Some(4));
}

#[test]
fn derive_gives_the_source_text_or_the_diagnostic() {
    let declaration = store_errors();
    let conversion = impl_tonic_thiserror(&declaration).unwrap();
    assert_eq!(tonic_thiserror_derive(&declaration), Ok(conversion.render()));
    let broken = enumeration("E", vec![variant("A", vec![code("NotFound")]), variant("B", vec![])]);
    assert_eq!(
        tonic_thiserror_derive(&broken),
        Err(Diagnostic { fault: Fault::MissingCode, site: Site::Variant { variant: 1 } })
    );
    let record = Declaration { name: "Point".to_string(), shape: DeclarationShape::Record };
    assert_eq!(
        tonic_thiserror_derive(&record),
        Err(Diagnostic { fault: Fault::NotAnEnum, site: Site::Declaration })
    );
}

#[test]
fn form_of_other_annotations_is_not_looked_at() {
    let unread = Annotation { path: "error".to_string(), shape: AnnotationShape::Opaque };
    let named = Annotation {
        path: "code".to_string(),
        shape: AnnotationShape::List {
            items: vec![NestedItem::Path {
                leading_colon: false,
                segments: vec!["Internal".to_string()],
            }],
        },
    };
    let declaration = enumeration("E", vec![variant("A", vec![unread, named])]);
    assert_eq!(impl_tonic_thiserror(&declaration).unwrap().arms, vec![arm("A", "Internal")]);
}

#[test]
fn generation_is_repeatable() {
    let declaration = store_errors();
    assert_eq!(impl_tonic_thiserror(&declaration), impl_tonic_thiserror(&declaration));
    let broken = enumeration("E", vec![variant("A", vec![])]);
    assert_eq!(impl_tonic_thiserror(&broken), impl_tonic_thiserror(&broken));
}
