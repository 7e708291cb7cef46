use clap_derive_darling::args::ClapParser;
use clap_derive_darling::docs::help_texts;
use clap_derive_darling::error::BuildError;
use clap_derive_darling::extract::MatchError;
use clap_derive_darling::field::{Attr, ClapField, FieldPlan, Validator};
use clap_derive_darling::rename::RenameAll;
use clap_derive_darling::shape::{DeclaredType, Shape};
use clap_derive_darling::subcommand::{
    augment_subcommands, compile, ActionKind, ClapSubcommand, ClapSubcommandVariant, Selection,
    SubActionKind, UpdateAction,
};

fn field(ident: &str) -> ClapField {
    ClapField {
        ident: ident.to_string(),
        ty: DeclaredType { segments: vec!["String".to_string()], argument: None, text: "String".to_string() },
        name: None,
        help: None,
        long_help: None,
        short: Attr::Absent,
        long: Attr::Inherit,
        env: Attr::Inherit,
        flatten: Attr::Absent,
        subcommand: false,
        skip: Attr::Absent,
        arg_enum: false,
        default_value: None,
        parse: None,
        flatten_labels: Vec::new(),
        rename_all: RenameAll::Kebab,
        rename_all_env: RenameAll::ScreamingSnake,
        rename_all_value: RenameAll::ScreamingSnake,
    }
}

fn plain(name: &str) -> DeclaredType {
    DeclaredType { segments: vec![name.to_string()], argument: None, text: name.to_string() }
}

fn wrap(segment: &str, inner: DeclaredType) -> DeclaredType {
    let text = format!("{}<{}>", segment, inner.text);
    DeclaredType { segments: vec![segment.to_string()], argument: Some(Box::new(inner)), text }
}

fn typed(ident: &str, ty: DeclaredType) -> ClapField {
    let mut f = field(ident);
    f.ty = ty;
    f.env = Attr::Absent;
    f
}


fn embedded_field() -> ClapField {
    typed("embedded", wrap("Option", plain("String")))
}

fn variant(ident: &str, name: Option<&str>, kind: ActionKind, skip: bool) -> ClapSubcommandVariant {
    ClapSubcommandVariant {
        ident: ident.to_string(),
        name: name.map(|n| n.to_string()),
        kind,
        skip,
        rename_all: RenameAll::Kebab,
        rename_all_env: RenameAll::ScreamingSnake,
        rename_all_value: RenameAll::ScreamingSnake,
        fields: Vec::new(),
    }
}

fn command() -> Vec<ClapSubcommandVariant> {
    let mut second = variant("Second", Some("2nd"), ActionKind::Inline, false);
    second.fields = vec![embedded_field()];
    vec![
        variant("First", None, ActionKind::Newtype, false),
        second,
        variant("SkipMe", None, ActionKind::Bare, true),
        variant("External", None, ActionKind::External, false),
    ]
}

fn strings(items: &[&str]) -> Vec<String> {
    items.iter().map(|s| s.to_string()).collect()
}

#[test]
fn test_subcommand() {
    let c = compile(&command()).unwrap();
    assert_eq!(c.from_match(Some("first"), &strings(&["--arg", "thing"])), Ok(Selection::Variant(0)));
    assert_eq!(c.from_match(Some("2nd"), &strings(&["--embedded", "yes"])), Ok(Selection::Variant(1)));
    assert_eq!(
        c.from_match(Some("skip-me"), &Vec::new()),
        Err(MatchError::UnrecognizedSubcommand("skip-me".to_string()))
    );
    assert_eq!(
        c.from_match(Some("other"), &strings(&["--external-arg", "x"])),
        Ok(Selection::External { variant: 3, args: strings(&["other", "--external-arg", "x"]) })
    );
    assert_eq!(c.from_match(None, &Vec::new()), Err(MatchError::MissingSubcommand));
}

#[test]
fn unrecognized_without_catch_all() {
    let c = compile(&vec![variant("First", None, ActionKind::Bare, false)]).unwrap();
    assert_eq!(
        c.from_match(Some("second"), &Vec::new()),
        Err(MatchError::UnrecognizedSubcommand("second".to_string()))
    );
}

#[test]
fn has_action_sees_named_variants_only() {
    let c = compile(&command()).unwrap();
    assert!(c.has_action("first"));
    assert!(c.has_action("2nd"));
    assert!(!c.has_action("second"));
    assert!(!c.has_action("skip-me"));
    assert!(!c.has_action("external"));
}

#[test]
fn update_in_place_or_replace() {
    let c = compile(&command()).unwrap();
    assert_eq!(c.update_from_match(0, Some("first"), &Vec::new()), Ok(UpdateAction::InPlace(0)));
    assert_eq!(
        c.update_from_match(0, Some("2nd"), &Vec::new()),
        Ok(UpdateAction::Replace(Selection::Variant(1)))
    );
    assert_eq!(c.update_from_match(1, None, &Vec::new()), Ok(UpdateAction::Keep));
    assert_eq!(
        c.update_from_match(1, Some("skip-me"), &Vec::new()),
        Err(MatchError::UnrecognizedSubcommand("skip-me".to_string()))
    );
}

#[test]
fn augment_registers_each_visible_variant() {
    let g = augment_subcommands(command()).unwrap();
    assert!(g.allow_external);
    assert_eq!(g.actions.len(), 3);
    assert_eq!(g.actions[0].name, "first");
    assert!(matches!(g.actions[0].kind, SubActionKind::Args));
    assert_eq!(g.actions[1].name, "2nd");
    match &g.actions[1].kind {
        SubActionKind::Inline(plans) => match &plans[0] {
            FieldPlan::Argument(d) => assert_eq!(d.long.as_deref(), Some("embedded")),
            other => panic!("not an argument: {:?}", other),
        },
        other => panic!("not inline: {:?}", other),
    }
    assert_eq!(g.actions[2].name, "external");
    assert!(matches!(g.actions[2].kind, SubActionKind::External));

    let plain = augment_subcommands(vec![variant("Add", None, ActionKind::Bare, false)]).unwrap();
    assert!(!plain.allow_external);
    assert!(matches!(plain.actions[0].kind, SubActionKind::Bare));
}

#[test]
fn duplicate_names_and_second_catch_all_are_refused() {
    let dup = vec![
        variant("Add", None, ActionKind::Bare, false),
        variant("Other", Some("add"), ActionKind::Bare, false),
    ];
    assert_eq!(compile(&dup).unwrap_err(), BuildError::DuplicateSubcommand("add".to_string()));
    let two = vec![
        variant("Ext1", None, ActionKind::External, false),
        variant("Ext2", None, ActionKind::External, false),
    ];
    assert_eq!(compile(&two).unwrap_err(), BuildError::SecondExternal("Ext2".to_string()));
    let skipped = vec![
        variant("Add", None, ActionKind::Bare, false),
        variant("Add", None, ActionKind::Bare, true),
    ];
    assert!(compile(&skipped).is_ok());
}

#[test]
fn declared_union_compiles_and_augments() {
    let u = ClapSubcommand { ident: "Command".to_string(), variants: command() };
    let c = u.compile().unwrap();
    assert!(c.has_action("2nd"));
    let g = u.augment_subcommands().unwrap();
    assert_eq!(g.actions.len(), 3);
}

fn check_parser_input() {
    let docs = vec!["Name".to_string(), String::new(), "Longer name".to_string()];
    let (help, long_help) = help_texts(&None, &None, &docs);
    let mut name = typed("name", plain("String"));
    name.short = Attr::Inherit;
    name.help = help;
    name.long_help = long_help;
    let mut option = typed("option", wrap("Option", plain("String")));
    option.help = Some("Option".to_string());
    option.long_help = Some("Longer help for Option".to_string());
    let mut flatten = typed("flatten", plain("Flatten"));
    flatten.flatten = Attr::Inherit;
    let mut opt_arg_enum = typed("opt_arg_enum", wrap("Option", plain("MyArgEnum")));
    opt_arg_enum.arg_enum = true;
    let mut opt_opt_arg_enum =
        typed("opt_opt_arg_enum", wrap("Option", wrap("Option", plain("MyArgEnum"))));
    opt_opt_arg_enum.arg_enum = true;
    let mut command = typed("command", plain("Command"));
    command.long = Attr::Absent;
    command.subcommand = true;
    let parser = ClapParser {
        ident: "Application".to_string(),
        name: None,
        fields: vec![
            name,
            option,
            flatten,
            opt_arg_enum,
            opt_opt_arg_enum,
            typed("bool", plain("bool")),
            typed("opt_opt_t", wrap("Option", wrap("Option", plain("u64")))),
            typed("vec_str", wrap("Vec", plain("String"))),
            typed("opt_vec_str", wrap("Option", wrap("Vec", plain("String")))),
            command,
        ],
        rename_all: None,
        rename_all_env: None,
        rename_all_value: None,
    };
    assert_eq!(parser.get_name().unwrap(), "application");
    let plans = parser.to_args().augment_args(&Vec::new()).unwrap();
    assert_eq!(plans.len(), 10);
    let arg = |i: usize| match &plans[i] {
        FieldPlan::Argument(d) => d,
        other => panic!("not an argument: {:?}", other),
    };
    assert_eq!(arg(0).name, "name");
    assert_eq!(arg(0).short, Some('n'));
    assert_eq!(arg(0).help.as_deref(), Some("Name"));
    assert_eq!(arg(0).long_help.as_deref(), Some("Longer name"));
    assert!(arg(0).required);
    assert_eq!(arg(1).shape, Shape::OptionalScalar);
    assert_eq!(arg(1).long_help.as_deref(), Some("Longer help for Option"));
    assert!(matches!(&plans[2], FieldPlan::Flatten(p) if p.is_empty()));
    assert_eq!(arg(3).long.as_deref(), Some("opt-arg-enum"));
    assert!(matches!(&arg(3).validator, Validator::ClosedSet(t) if t == "MyArgEnum"));
    assert_eq!(arg(4).shape, Shape::OptionalOptionalScalar);
    assert!(matches!(&arg(4).validator, Validator::ClosedSet(t) if t == "MyArgEnum"));
    assert_eq!(arg(5).shape, Shape::Bool);
    assert!(!arg(5).takes_value);
    assert_eq!(arg(6).value_name, "OPT_OPT_T");
    assert_eq!(arg(7).shape, Shape::RepeatedScalar);
    assert_eq!(arg(8).shape, Shape::OptionalRepeatedScalar);
    assert!(matches!(&plans[9], FieldPlan::Subcommand(p) if p.is_empty()));
}

fn check_subcommand_input() {
    let u = ClapSubcommand { ident: "Command".to_string(), variants: command() };
    let c = u.compile().unwrap();
    assert_eq!(c.entries.len(), 3);
    assert_eq!(c.entries[0].name, "first");
    assert_eq!(c.entries[1].name, "2nd");
    assert_eq!(c.entries[2].name, "external");
    assert_eq!(c.reserved, strings(&["skip-me"]));
    assert!(c.has_action("first"));
    assert!(c.has_action("2nd"));
    assert!(!c.has_action("skip-me"));
    let g = u.augment_subcommands().unwrap();
    assert!(g.allow_external);
    let names: Vec<String> = g.actions.iter().map(|a| a.name.clone()).collect();
    assert_eq!(names, strings(&["first", "2nd", "external"]));
    match &g.actions[1].kind {
        SubActionKind::Inline(plans) => match &plans[0] {
            FieldPlan::Argument(d) => {
                assert_eq!(d.name, "embedded");
                assert_eq!(d.long.as_deref(), Some("embedded"));
                assert_eq!(d.shape, Shape::OptionalScalar);
                assert!(!d.required);
            }
            other => panic!("not an argument: {:?}", other),
        },
        other => panic!("not inline: {:?}", other),
    }
}

#[test]
fn test_test() {
    check_parser_input();
    check_subcommand_input();
}

#[test]
fn inline_fields_take_the_variant_casing() {
    let mut second = variant("Second", None, ActionKind::Inline, false);
    second.rename_all = RenameAll::ScreamingSnake;
    second.rename_all_env = RenameAll::Camel;
    second.rename_all_value = RenameAll::Verbatim;
    second.fields = vec![field("max_count")];
    let g = augment_subcommands(vec![second]).unwrap();
    assert_eq!(g.actions[0].name, "SECOND");
    match &g.actions[0].kind {
        SubActionKind::Inline(plans) => match &plans[0] {
            FieldPlan::Argument(d) => {
                assert_eq!(d.name, "MAX_COUNT");
                assert_eq!(d.env.as_deref(), Some("maxCount"));
                assert_eq!(d.value_name, "max_count");
            }
            other => panic!("not an argument: {:?}", other),
        },
        other => panic!("not inline: {:?}", other),
    }
}

#[test]
fn variant_name_outside_ascii() {
    assert_eq!(
        compile(&vec![variant("Ok", None, ActionKind::Bare, false), variant("Évite", None, ActionKind::Bare, false)])
            .unwrap_err(),
        BuildError::NonAsciiName("Évite".to_string())
    );
    assert!(compile(&vec![variant("Évite", Some("evite"), ActionKind::Bare, false)]).is_ok());
}
