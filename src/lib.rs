//! Derives static type declarations from the shape of a nested key-value
//! document and renders them as source text in several dialects.


pub mod codegen;
pub mod naming;
pub mod tree;

pub use codegen::{
    check_name_collisions, generate_code, generate_python_code, render, render_checked,
    render_field_type, render_structure, spell, Dialect, RenderOptions,
};
pub use naming::{replace_invalid_names, to_pascal_case, to_snake_case};
pub use tree::{
    build_tree, copy_descriptor, field_descriptor, infer_type, infer_type_name, iterate_structures,
    iterate_tree_structures, label_leaf_type, parse_tree, Leaf, Node, Number, ScalarKind, SchemaError, Structure, StructureKind, Tree,
    TypeDescriptor, Value,
};
