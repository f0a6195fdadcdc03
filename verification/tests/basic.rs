use alef_compiler::ast::PropName;
use alef_compiler::identmap::IdentMap;
use alef_compiler::jsx::is_event_prop;
use alef_compiler::resolve::to_component_name;
use alef_compiler::resolve::Resolver;
use alef_compiler::text::jsx_text_to_string;

#[test]
fn test_to_component_name() {
    assert_eq!(to_component_name("app.alef"), "App");
    assert_eq!(to_component_name("APP.alef"), "APP");
    assert_eq!(to_component_name("hello-world.alef"), "HelloWorld");
    assert_eq!(to_component_name("hello world.alef"), "HelloWorld");
    assert_eq!(to_component_name("hi798.alef"), "Hi798");
    assert_eq!(to_component_name("798hi.alef"), "Hi");
    assert_eq!(to_component_name("798.alef"), "App");
    assert_eq!(to_component_name("Hello 世界!.alef"), "Hello");
}

#[test]
fn test_is_event_prop() {
    assert_eq!(is_event_prop(&PropName::Str("onClick".to_owned())), true);
    assert_eq!(is_event_prop(&PropName::Str("onclick".to_owned())), false);
    assert_eq!(is_event_prop(&PropName::Ident("onClick".to_owned())), true);
    assert_eq!(is_event_prop(&PropName::Ident("onclick".to_owned())), false);
}

#[test]
fn test_jsx_text_collapsing() {
    assert_eq!(jsx_text_to_string("  \n   hello   world\n  "), "hello world");
    assert_eq!(jsx_text_to_string(" "), " ");
    assert_eq!(jsx_text_to_string("plain"), "plain");
    assert_eq!(jsx_text_to_string("  \n  \n  "), "");
}

#[test]
fn test_ident_map_indices() {
    let mut m = IdentMap::new();
    assert_eq!(m.get_or_create("a"), 0);
    assert_eq!(m.get_or_create("b"), 1);
    assert_eq!(m.get_or_create("a"), 0);
    assert_eq!(m.get_or_create("b"), 1);
    assert_eq!(m.get_or_create("c"), 2);
}

#[test]
fn test_resolver_new() {
    let r = Resolver::new("./Hi.alef", "alef-dom");
    assert_eq!(r.specifier, "./Hi.alef");
    assert_eq!(r.runtime_module, "alef-dom");
    assert!(r.dep_graph.is_empty());
    assert!(r.css.is_none());
}
