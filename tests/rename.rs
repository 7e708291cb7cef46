use clap_derive_darling::common::VecStringAttr;
use clap_derive_darling::rename::{
    ascii_text, cache_key, camel_case, can_cast, default_rename_all, default_rename_all_env, default_rename_all_value,
    kebab_case, lower_case, pascal_case, prefix, rename, screaming_snake_case, snake_case,
    upper_case, verbatim_case, RenameAll,
};

#[test]
fn word_cases() {
    assert_eq!(camel_case("my_var_name".to_string()), "myVarName");
    assert_eq!(kebab_case("timeout_ms".to_string()), "timeout-ms");
    assert_eq!(pascal_case("my_var".to_string()), "MyVar");
    assert_eq!(screaming_snake_case("timeout_ms".to_string()), "TIMEOUT_MS");
    assert_eq!(snake_case("MyVar".to_string()), "my_var");
    assert_eq!(lower_case("MyVar".to_string()), "my var");
    assert_eq!(upper_case("MyVar".to_string()), "MY VAR");
}

#[test]
fn verbatim_keeps_the_text() {
    assert_eq!(verbatim_case("My_odd-Name".to_string()), "My_odd-Name");
    assert_eq!(rename("My_odd-Name", RenameAll::Verbatim), "My_odd-Name");
}

#[test]
fn rename_applies_the_policy() {
    assert_eq!(rename("Variant0", RenameAll::Kebab), "variant-0");
    assert_eq!(rename("Variant1", RenameAll::ScreamingSnake), "VARIANT_1");
    assert_eq!(rename("", RenameAll::Kebab), "");
}

#[test]
fn default_policies() {
    assert_eq!(default_rename_all(), RenameAll::Kebab);
    assert_eq!(default_rename_all_env(), RenameAll::ScreamingSnake);
    assert_eq!(default_rename_all_value(), RenameAll::ScreamingSnake);
}

#[test]
fn prefix_joins_with_a_dash() {
    assert_eq!(prefix("name", &Some("db".to_string())), "db-name");
    assert_eq!(prefix("name", &None), "name");
}

#[test]
fn cache_key_prints_the_prefix() {
    assert_eq!(cache_key("long", "name", &Some("db".to_string())), "long|Some(\"db\")|name");
    assert_eq!(cache_key("env", "name", &None), "env|None|name");
}

#[test]
fn vec_string_attr_round_trip() {
    let attr = VecStringAttr::new(vec!["prefix0".to_string(), "prefix1".to_string()]);
    assert_eq!(attr.to_strings(), vec!["prefix0".to_string(), "prefix1".to_string()]);
    assert!(VecStringAttr::new(Vec::new()).to_strings().is_empty());
}

#[test]
fn ascii_checks() {
    assert!(ascii_text("timeout_ms"));
    assert!(ascii_text(""));
    assert!(!ascii_text("aÉ"));
    assert!(can_cast("aÉ", RenameAll::Verbatim));
    assert!(!can_cast("aéBc", RenameAll::Kebab));
    assert!(can_cast("aBc", RenameAll::Kebab));
}
