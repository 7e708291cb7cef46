use clap_derive_darling::shape::{resolve, DeclaredType, Shape};

fn path(segments: &[&str], argument: Option<DeclaredType>, text: &str) -> DeclaredType {
    DeclaredType {
        segments: segments.iter().map(|s| s.to_string()).collect(),
        argument: argument.map(Box::new),
        text: text.to_string(),
    }
}

fn plain(name: &str) -> DeclaredType {
    path(&[name], None, name)
}

fn wrap(segments: &[&str], inner: DeclaredType) -> DeclaredType {
    let text = format!("{}<{}>", segments.join("::"), inner.text);
    path(segments, Some(inner), &text)
}

#[test]
fn resolves_plain_scalar() {
    let t = plain("u64");
    let (shape, inner) = resolve(&t).unwrap();
    assert_eq!(shape, Shape::Scalar);
    assert_eq!(inner.text, "u64");
}

#[test]
fn resolves_bool_whatever_it_is() {
    let t = plain("bool");
    let (shape, inner) = resolve(&t).unwrap();
    assert_eq!(shape, Shape::Bool);
    assert_eq!(inner.text, "bool");
}

#[test]
fn resolves_the_five_permitted_nestings() {
    let t = wrap(&["Option"], plain("u64"));
    let (shape, inner) = resolve(&t).unwrap();
    assert_eq!(shape, Shape::OptionalScalar);
    assert_eq!(inner.text, "u64");

    let t = wrap(&["Option"], wrap(&["Option"], plain("u64")));
    let (shape, inner) = resolve(&t).unwrap();
    assert_eq!(shape, Shape::OptionalOptionalScalar);
    assert_eq!(inner.text, "u64");

    let t = wrap(&["Vec"], plain("String"));
    let (shape, inner) = resolve(&t).unwrap();
    assert_eq!(shape, Shape::RepeatedScalar);
    assert_eq!(inner.text, "String");

    let t = wrap(&["Option"], wrap(&["Vec"], plain("String")));
    let (shape, inner) = resolve(&t).unwrap();
    assert_eq!(shape, Shape::OptionalRepeatedScalar);
    assert_eq!(inner.text, "String");
}

#[test]
fn resolves_qualified_paths() {
    let t = wrap(&["std", "option", "Option"], plain("String"));
    assert_eq!(resolve(&t).unwrap().0, Shape::OptionalScalar);
    let t = wrap(&["core", "option", "Option"], plain("String"));
    assert_eq!(resolve(&t).unwrap().0, Shape::OptionalScalar);
    let t = wrap(&["option", "Option"], plain("String"));
    assert_eq!(resolve(&t).unwrap().0, Shape::OptionalScalar);
    let t = wrap(&["std", "vec", "Vec"], plain("String"));
    assert_eq!(resolve(&t).unwrap().0, Shape::RepeatedScalar);
    let t = wrap(&["vec", "Vec"], plain("String"));
    assert_eq!(resolve(&t).unwrap().0, Shape::RepeatedScalar);
    let t = wrap(&["my", "Option"], plain("String"));
    assert_eq!(resolve(&t).unwrap().0, Shape::Scalar);
}

#[test]
fn rejects_repeated_repeated_and_names_the_type() {
    let t = wrap(&["Vec"], wrap(&["Vec"], plain("u8")));
    let e = resolve(&t).unwrap_err();
    assert_eq!(e.type_text, "Vec<Vec<u8>>");
}

#[test]
fn rejects_other_nestings() {
    let t = wrap(&["Vec"], wrap(&["Option"], plain("u8")));
    assert_eq!(resolve(&t).unwrap_err().type_text, "Vec<Option<u8>>");
    let t = wrap(&["Option"], wrap(&["Option"], wrap(&["Option"], plain("u8"))));
    assert!(resolve(&t).is_err());
}

#[test]
fn wrapper_without_path_argument_hits_the_cap() {
    let t = path(&["Option"], None, "Option<&str>");
    assert_eq!(resolve(&t).unwrap_err().type_text, "Option<&str>");
}
