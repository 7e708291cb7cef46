use clap_derive_darling::args::{ClapArgs, ClapParser};
use clap_derive_darling::extract::{extract, Extracted};
use clap_derive_darling::common::VecStringAttr;
use clap_derive_darling::error::BuildError;
use clap_derive_darling::field::{Attr, ClapField, FieldPlan};
use clap_derive_darling::rename::RenameAll;
use clap_derive_darling::shape::DeclaredType;

fn field(ident: &str) -> ClapField {
    ClapField {
        ident: ident.to_string(),
        ty: DeclaredType { segments: vec!["String".to_string()], argument: None, text: "String".to_string() },
        name: None,
        help: None,
        long_help: None,
        short: Attr::Absent,
        long: Attr::Inherit,
        env: Attr::Inherit,
        flatten: Attr::Absent,
        subcommand: false,
        skip: Attr::Absent,
        arg_enum: false,
        default_value: None,
        parse: None,
        flatten_labels: Vec::new(),
        rename_all: RenameAll::Kebab,
        rename_all_env: RenameAll::ScreamingSnake,
        rename_all_value: RenameAll::ScreamingSnake,
    }
}

fn settings() -> ClapArgs {
    ClapArgs {
        ident: "Settings".to_string(),
        fields: vec![field("db_uri")],
        flatten: VecStringAttr::new(vec!["prefix0".to_string(), "prefix1".to_string()]),
        rename_all: RenameAll::Snake,
        rename_all_env: RenameAll::Lower,
        rename_all_value: RenameAll::Verbatim,
    }
}

#[test]
fn fields_take_the_struct_context() {
    let fields = settings().get_fieldstructs();
    assert_eq!(fields.len(), 1);
    assert_eq!(fields[0].ident, "db_uri");
    assert_eq!(fields[0].rename_all, RenameAll::Snake);
    assert_eq!(fields[0].rename_all_env, RenameAll::Lower);
    assert_eq!(fields[0].rename_all_value, RenameAll::Verbatim);
    assert_eq!(fields[0].flatten_labels, vec!["prefix0".to_string(), "prefix1".to_string()]);
}

#[test]
fn augment_args_names_under_the_struct_casing() {
    let plans = settings().augment_args(&vec!["prefix1".to_string()]).unwrap();
    match &plans[0] {
        FieldPlan::Argument(d) => {
            assert_eq!(d.name, "prefix_1_db_uri");
            assert_eq!(d.env.as_deref(), Some("prefix 1 db uri"));
            assert_eq!(d.value_name, "prefix1_db_uri");
        }
        other => panic!("not an argument: {:?}", other),
    }
    assert_eq!(
        settings().augment_args(&vec!["elsewhere".to_string()]).unwrap_err(),
        BuildError::NoPrefixLabel
    );
}

fn application() -> ClapParser {
    let mut name = field("name");
    name.short = Attr::Inherit;
    name.env = Attr::Absent;
    let mut flatten = field("flatten");
    flatten.ty = DeclaredType { segments: vec!["Flatten".to_string()], argument: None, text: "Flatten".to_string() };
    flatten.flatten = Attr::Explicit("flatten".to_string());
    ClapParser {
        ident: "Application".to_string(),
        name: None,
        fields: vec![name, flatten],
        rename_all: None,
        rename_all_env: None,
        rename_all_value: None,
    }
}

#[test]
fn parser_defaults() {
    let p = application();
    assert_eq!(p.get_rename_all(), RenameAll::Kebab);
    assert_eq!(p.get_rename_all_env(), RenameAll::ScreamingSnake);
    assert_eq!(p.get_rename_all_value(), RenameAll::ScreamingSnake);
    assert_eq!(p.get_name().unwrap(), "application");
    let named = ClapParser { name: Some("demo".to_string()), ..application() };
    assert_eq!(named.get_name().unwrap(), "demo");
}

#[test]
fn fields_test_parse() {
    let plans = application().to_args().augment_args(&Vec::new()).unwrap();
    let d = match &plans[0] {
        FieldPlan::Argument(d) => d,
        other => panic!("not an argument: {:?}", other),
    };
    assert_eq!(d.long.as_deref(), Some("name"));
    assert_eq!(d.short, Some('n'));
    let value: Result<Extracted<String>, _> =
        extract(d.shape, &d.name, true, vec![Ok("My app name".to_string())]);
    assert_eq!(value, Ok(Extracted::Single("My app name".to_string())));
    let prefix = match &plans[1] {
        FieldPlan::Flatten(p) => p.clone(),
        other => panic!("not a flatten: {:?}", other),
    };
    let mut flattened = field("flattened");
    flattened.ty = DeclaredType {
        segments: vec!["Option".to_string()],
        argument: Some(Box::new(DeclaredType { segments: vec!["u32".to_string()], argument: None, text: "u32".to_string() })),
        text: "Option<u32>".to_string(),
    };
    let child = ClapArgs {
        ident: "Flatten".to_string(),
        fields: vec![flattened],
        flatten: VecStringAttr::new(Vec::new()),
        rename_all: RenameAll::Kebab,
        rename_all_env: RenameAll::ScreamingSnake,
        rename_all_value: RenameAll::ScreamingSnake,
    };
    let plans = child.augment_args(&prefix).unwrap();
    let d = match &plans[0] {
        FieldPlan::Argument(d) => d,
        other => panic!("not an argument: {:?}", other),
    };
    assert_eq!(d.long.as_deref(), Some("flatten-flattened"));
    let absent: Result<Extracted<u32>, _> = extract(d.shape, &d.name, false, Vec::new());
    assert_eq!(absent, Ok(Extracted::Optional(None)));
}


#[test]
fn parser_name_outside_ascii() {
    let p = ClapParser { ident: "Appé".to_string(), ..application() };
    assert_eq!(p.get_name(), Err(BuildError::NonAsciiName("Appé".to_string())));
    let named = ClapParser { ident: "Appé".to_string(), name: Some("app".to_string()), ..application() };
    assert_eq!(named.get_name().unwrap(), "app");
    let verbatim = ClapParser { ident: "Appé".to_string(), rename_all: Some(RenameAll::Verbatim), ..application() };
    assert_eq!(verbatim.get_name().unwrap(), "Appé");
}
