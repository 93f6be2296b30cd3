use heracless::{
    check_name_collisions, generate_code, generate_python_code, parse_tree, render,
    render_checked, field_descriptor, render_field_type, spell, Dialect, Number, RenderOptions,
    ScalarKind, SchemaError, Tree, TypeDescriptor, Value,
};

fn text(s: &str) -> Value {
    Value::String(s.to_string())
}

fn pos(n: u64) -> Value {
    Value::Number(Number::PosInt(n))
}

fn mapping(pairs: Vec<(&str, Value)>) -> Value {
    Value::Mapping(pairs.into_iter().map(|(k, v)| (text(k), v)).collect())
}

fn app_tree() -> Tree {
    // app:\n  name: myapp\n  version: 1\n  debug: true
    parse_tree(mapping(vec![(
        "app",
        mapping(vec![
            ("name", text("myapp")),
            ("version", pos(1)),
            ("debug", Value::Bool(true)),
        ]),
    )]))
    .unwrap()
}

fn test_tree() -> Tree {
    // test:\n  value: 42
    parse_tree(mapping(vec![("test", mapping(vec![("value", pos(42))]))])).unwrap()
}

#[test]
fn test_generate_types_string() {
    let code = generate_code(&app_tree(), true);
    assert!(code.contains("pub struct App"));
    assert!(code.contains("pub struct Config"));
    assert!(code.contains("pub name: String"));
}

#[test]
fn test_fight() {
    let code = generate_code(&test_tree(), true);
    assert!(code.contains("pub struct Test"));
    assert!(code.contains("pub struct Config"));
}

#[test]
fn struct_dialect_exact_text() {
    let code = generate_code(&test_tree(), true);
    assert_eq!(
        code,
        "use serde::Deserialize;\n\n\
         #[derive(Debug, Clone, PartialEq, Deserialize)]\n\
         pub struct Config {\n    pub test: Test,\n}\n\n\
         #[derive(Debug, Clone, PartialEq, Deserialize)]\n\
         pub struct Test {\n    pub value: i64,\n}\n\n"
    );
    let loose = generate_code(&test_tree(), false);
    assert!(loose.contains("#[derive(Debug, Deserialize)]\npub struct Test {\n    pub value: i64,\n}"));
}

#[test]
fn dataclass_dialect_exact_text() {
    let code = generate_python_code(&test_tree(), true);
    assert_eq!(
        code,
        "from dataclasses import dataclass\nfrom typing import Any, List, Optional\n\n\
         @dataclass(frozen=True)\nclass Test:\n    value: int\n\n\n\
         @dataclass(frozen=True)\nclass Config:\n    test: Test\n\n\n"
    );
    let loose = generate_python_code(&test_tree(), false);
    assert!(loose.contains("@dataclass\nclass Test:"));
    assert!(!loose.contains("frozen=True"));
}

#[test]
fn field_types_for_every_shape() {
    let doc = mapping(vec![
        ("db-host", text("x")),
        ("missing", Value::Null),
        ("ratio", Value::Number(Number::Float("0.5".to_string()))),
        ("big", pos(u64::MAX)),
        ("ports", Value::Sequence(vec![pos(80)])),
        ("empty", Value::Sequence(vec![])),
        ("servers", Value::Sequence(vec![mapping(vec![("ip", text("::1"))])])),
        ("nested", Value::Sequence(vec![Value::Sequence(vec![Value::Bool(true)])])),
        ("odd", Value::Tagged("!t".to_string(), Box::new(Value::Null))),
        ("blank", mapping(vec![])),
    ]);
    let tree = parse_tree(doc).unwrap();
    let rust = render(&tree, Dialect::Struct, RenderOptions { immutable: false });
    assert!(rust.contains("    pub db_host: String,\n"));
    assert!(rust.contains("    pub missing: Option<String>,\n"));
    assert!(rust.contains("    pub ratio: f64,\n"));
    assert!(rust.contains("    pub big: u64,\n"));
    assert!(rust.contains("    pub ports: Vec<i64>,\n"));
    assert!(rust.contains("    pub empty: Vec<serde_yaml::Value>,\n"));
    assert!(rust.contains("    pub servers: Vec<ServersItem>,\n"));
    assert!(rust.contains("    pub nested: Vec<Vec<bool>>,\n"));
    assert!(rust.contains("    pub odd: serde_yaml::Value,\n"));
    assert!(rust.contains("pub struct ServersItem {\n    pub ip: String,\n}"));
    assert!(rust.contains("pub struct Blank {\n}"));
    let py = render(&tree, Dialect::Dataclass, RenderOptions { immutable: false });
    assert!(py.contains("    db_host: str\n"));
    assert!(py.contains("    missing: Optional[str]\n"));
    assert!(py.contains("    ratio: float\n"));
    assert!(py.contains("    big: int\n"));
    assert!(py.contains("    ports: List[int]\n"));
    assert!(py.contains("    empty: List[Any]\n"));
    assert!(py.contains("    servers: List[ServersItem]\n"));
    assert!(py.contains("    nested: List[List[bool]]\n"));
    assert!(py.contains("class Blank:\n    pass\n"));
    let item = py.find("class ServersItem").unwrap();
    let root = py.find("class Config").unwrap();
    assert!(item < root);
}

#[test]
fn rendering_twice_gives_the_same_text() {
    let tree = app_tree();
    let options = RenderOptions { immutable: true };
    assert_eq!(
        render(&tree, Dialect::Struct, options),
        render(&tree, Dialect::Struct, options)
    );
    assert_eq!(
        render(&tree, Dialect::Dataclass, options),
        render(&tree, Dialect::Dataclass, options)
    );
}

#[test]
fn immutable_option_keeps_the_fields() {
    let tree = app_tree();
    let frozen = generate_code(&tree, true);
    let loose = generate_code(&tree, false);
    for line in ["    pub name: String,\n", "    pub version: i64,\n", "    pub debug: bool,\n"] {
        assert!(frozen.contains(line));
        assert!(loose.contains(line));
    }
}

#[test]
fn colliding_type_names_are_reported() {
    let doc = mapping(vec![
        ("a", mapping(vec![("db-host", mapping(vec![]))])),
        ("db_host", mapping(vec![])),
    ]);
    let tree = parse_tree(doc).unwrap();
    assert_eq!(
        check_name_collisions(&tree),
        Err(SchemaError::NameCollision {
            first: "db-host".to_string(),
            second: "db_host".to_string(),
        })
    );
    let options = RenderOptions { immutable: false };
    assert!(render_checked(&tree, Dialect::Struct, options).is_err());
}

#[test]
fn distinct_type_names_pass_the_check() {
    let tree = app_tree();
    assert_eq!(check_name_collisions(&tree), Ok(()));
    let options = RenderOptions { immutable: true };
    assert_eq!(
        render_checked(&tree, Dialect::Struct, options),
        Ok(render(&tree, Dialect::Struct, options))
    );
}

#[test]
fn descriptors_of_fields_and_their_spellings() {
    let tree = parse_tree(mapping(vec![
        ("servers", Value::Sequence(vec![mapping(vec![("ip", text("::1"))])])),
        ("ports", Value::Sequence(vec![pos(80)])),
    ]))
    .unwrap();
    let servers = field_descriptor(&tree.children[0]);
    assert_eq!(
        servers,
        TypeDescriptor::Collection(Box::new(TypeDescriptor::CompositeRef(
            "servers_item".to_string()
        )))
    );
    assert_eq!(spell(Dialect::Struct, &servers), "Vec<ServersItem>");
    assert_eq!(spell(Dialect::Dataclass, &servers), "List[ServersItem]");
    assert_eq!(render_field_type(Dialect::Struct, &tree.children[1]), "Vec<i64>");
    assert_eq!(
        spell(Dialect::Dataclass, &TypeDescriptor::Scalar(ScalarKind::UInt64)),
        "int"
    );
    assert_eq!(spell(Dialect::Struct, &TypeDescriptor::OptionalString), "Option<String>");
}

#[test]
fn single_composite_declaration() {
    let tree = test_tree();
    let structures = heracless::iterate_tree_structures(&tree);
    assert_eq!(structures.len(), 1);
    let options = RenderOptions { immutable: false };
    assert_eq!(
        heracless::render_structure(Dialect::Struct, structures[0], options),
        "#[derive(Debug, Deserialize)]\npub struct Test {\n    pub value: i64,\n}\n\n"
    );
    assert_eq!(
        heracless::render_structure(Dialect::Dataclass, structures[0], options),
        "@dataclass\nclass Test:\n    value: int\n\n\n"
    );
}
