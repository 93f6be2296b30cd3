//! Rendering of a tree's composites as type declarations in a target dialect.

use crate::naming::{field_ident, to_pascal_case, to_snake_case, type_ident};
use crate::tree::{
    collect_all, descriptor_of, field_descriptor, iterate_tree_structures, pointees, Node,
    ScalarKind, SchemaError, Structure, Tree, TypeDescriptor,
};
use vstd::prelude::*;

verus! {

/// A target language for the declarations.
#[derive(Debug, Clone, Copy, PartialEq, Eq, Structural)]
pub enum Dialect {
    /// Structs with public fields that a deserializer can fill.
    Struct,
    /// Dataclasses with annotated fields.
    Dataclass,
}

/// What may vary in a rendering besides the dialect.
#[derive(Debug, Clone, Copy, PartialEq, Eq, Structural)]
pub struct RenderOptions {
    /// Give each declaration value semantics: equality and cloning for
    /// structs, frozen instances for dataclasses. The fields do not change.
    pub immutable: bool,
}

/// How a dialect spells a scalar type.
pub open spec fn scalar_spelling(d: Dialect, k: ScalarKind) -> Seq<char> {
    match d {
        Dialect::Struct => match k {
            ScalarKind::Bool => "bool"@,
            ScalarKind::Int64 => "i64"@,
            ScalarKind::UInt64 => "u64"@,
            ScalarKind::Float64 => "f64"@,
            ScalarKind::Str => "String"@,
        },
        Dialect::Dataclass => match k {
            ScalarKind::Bool => "bool"@,
            ScalarKind::Int64 => "int"@,
            ScalarKind::UInt64 => "int"@,
            ScalarKind::Float64 => "float"@,
            ScalarKind::Str => "str"@,
        },
    }
}

/// How a dialect spells a type.
pub open spec fn spelling(d: Dialect, t: TypeDescriptor) -> Seq<char>
    decreases t,
{
    match t {
        TypeDescriptor::Scalar(k) => scalar_spelling(d, k),
        TypeDescriptor::OptionalString => match d {
            Dialect::Struct => "Option<String>"@,
            Dialect::Dataclass => "Optional[str]"@,
        },
        TypeDescriptor::Collection(e) => collection_spelling(d, spelling(d, *e)),
        TypeDescriptor::CompositeRef(name) => type_ident(name@),
        TypeDescriptor::RawFallback => match d {
            Dialect::Struct => "serde_yaml::Value"@,
            Dialect::Dataclass => "Any"@,
        },
    }
}

/// How a dialect spells a collection of `elem`.
pub open spec fn collection_spelling(d: Dialect, elem: Seq<char>) -> Seq<char> {
    match d {
        Dialect::Struct => "Vec<"@ + elem + ">"@,
        Dialect::Dataclass => "List["@ + elem + "]"@,
    }
}

/// How dialect `d` spells the type of the field that holds node `n`.
pub open spec fn field_type(d: Dialect, n: Node) -> Seq<char> {
    spelling(d, descriptor_of(n))
}

/// The line that declares the field of node `n`.
pub open spec fn field_line(d: Dialect, n: Node) -> Seq<char> {
    match d {
        Dialect::Struct => "    pub "@ + field_ident(n.spec_name()) + ": "@ + field_type(d, n) + ",\n"@,
        Dialect::Dataclass => "    "@ + field_ident(n.spec_name()) + ": "@ + field_type(d, n) + "\n"@,
    }
}

/// The field lines of `ns`, in order.
pub open spec fn field_lines(d: Dialect, ns: Seq<Node>) -> Seq<char>
    decreases ns.len(),
{
    if ns.len() == 0 {
        seq![]
    } else {
        field_lines(d, ns.drop_last()) + field_line(d, ns.last())
    }
}

/// The line that precedes each declaration.
pub open spec fn decl_head(d: Dialect, immutable: bool) -> Seq<char> {
    match d {
        Dialect::Struct => if immutable {
            "#[derive(Debug, Clone, PartialEq, Deserialize)]\n"@
        } else {
            "#[derive(Debug, Deserialize)]\n"@
        },
        Dialect::Dataclass => if immutable {
            "@dataclass(frozen=True)\n"@
        } else {
            "@dataclass\n"@
        },
    }
}

/// The declaration of the composite `name` with the fields of `children`.
pub open spec fn decl(d: Dialect, name: Seq<char>, children: Seq<Node>, immutable: bool) -> Seq<
    char,
> {
    match d {
        Dialect::Struct => decl_head(d, immutable) + "pub struct "@ + type_ident(name) + " {\n"@
            + field_lines(d, children) + "}\n\n"@,
        Dialect::Dataclass => decl_head(d, immutable) + "class "@ + type_ident(name) + ":\n"@ + (
        if children.len() == 0 {
            "    pass\n"@
        } else {
            field_lines(d, children)
        }) + "\n\n"@,
    }
}

/// The declarations of `ss`, in order.
pub open spec fn decls_in_order(d: Dialect, ss: Seq<Structure>, immutable: bool) -> Seq<char>
    decreases ss.len(),
{
    if ss.len() == 0 {
        seq![]
    } else {
        decls_in_order(d, ss.drop_last(), immutable) + decl(
            d,
            ss.last().name@,
            ss.last().children@,
            immutable,
        )
    }
}

/// The declarations of `ss`, last first.
pub open spec fn decls_reversed(d: Dialect, ss: Seq<Structure>, immutable: bool) -> Seq<char>
    decreases ss.len(),
{
    if ss.len() == 0 {
        seq![]
    } else {
        decls_reversed(d, ss.drop_first(), immutable) + decl(
            d,
            ss.first().name@,
            ss.first().children@,
            immutable,
        )
    }
}

/// The text that opens every rendering.
pub open spec fn preamble(d: Dialect) -> Seq<char> {
    match d {
        Dialect::Struct => "use serde::Deserialize;\n\n"@,
        Dialect::Dataclass => "from dataclasses import dataclass\nfrom typing import Any, List, Optional\n\n"@,
    }
}

/// The text of a tree in a dialect: the root declaration and one declaration
/// per mapping structure below it. Structs come parents first; dataclasses,
/// which must be declared before use, come children first.
pub open spec fn rendered(t: Tree, d: Dialect, options: RenderOptions) -> Seq<char> {
    let root = decl(d, t.name@, t.children@, options.immutable);
    let rest = collect_all(t.children@);
    match d {
        Dialect::Struct => preamble(d) + root + decls_in_order(d, rest, options.immutable),
        Dialect::Dataclass => preamble(d) + decls_reversed(d, rest, options.immutable) + root,
    }
}

fn spell_scalar(d: Dialect, k: ScalarKind) -> (r: String)
    ensures
        r@ == scalar_spelling(d, k),
{
    match d {
        Dialect::Struct => match k {
            ScalarKind::Bool => String::from_str("bool"),
            ScalarKind::Int64 => String::from_str("i64"),
            ScalarKind::UInt64 => String::from_str("u64"),
            ScalarKind::Float64 => String::from_str("f64"),
            ScalarKind::Str => String::from_str("String"),
        },
        Dialect::Dataclass => match k {
            ScalarKind::Bool => String::from_str("bool"),
            ScalarKind::Int64 => String::from_str("int"),
            ScalarKind::UInt64 => String::from_str("int"),
            ScalarKind::Float64 => String::from_str("float"),
            ScalarKind::Str => String::from_str("str"),
        },
    }
}

/// How dialect `d` spells a type.
pub fn spell(d: Dialect, t: &TypeDescriptor) -> (r: String)
    ensures
        r@ == spelling(d, *t),
    decreases t,
{
    match t {
        TypeDescriptor::Scalar(k) => spell_scalar(d, *k),
        TypeDescriptor::OptionalString => match d {
            Dialect::Struct => String::from_str("Option<String>"),
            Dialect::Dataclass => String::from_str("Optional[str]"),
        },
        TypeDescriptor::Collection(e) => {
            let elem = spell(d, e);
            wrap_collection(d, elem)
        },
        TypeDescriptor::CompositeRef(name) => to_pascal_case(name.as_str()),
        TypeDescriptor::RawFallback => match d {
            Dialect::Struct => String::from_str("serde_yaml::Value"),
            Dialect::Dataclass => String::from_str("Any"),
        },
    }
}

fn wrap_collection(d: Dialect, elem: String) -> (r: String)
    ensures
        r@ == collection_spelling(d, elem@),
{
    match d {
        Dialect::Struct => {
            let mut r = String::from_str("Vec<");
            r.append(elem.as_str());
            r.append(">");
            r
        },
        Dialect::Dataclass => {
            let mut r = String::from_str("List[");
            r.append(elem.as_str());
            r.append("]");
            r
        },
    }
}

/// The type of the field that holds `node` in dialect `d`.
pub fn render_field_type(d: Dialect, node: &Node) -> (r: String)
    ensures
        r@ == field_type(d, *node),
{
    spell(d, &field_descriptor(node))
}

fn push_field_line(d: Dialect, node: &Node, out: &mut String)
    ensures
        final(out)@ == old(out)@ + field_line(d, *node),
{
    let field = to_snake_case(node.name());
    let ty = render_field_type(d, node);
    match d {
        Dialect::Struct => {
            out.append("    pub ");
            out.append(field.as_str());
            out.append(": ");
            out.append(ty.as_str());
            out.append(",\n");
        },
        Dialect::Dataclass => {
            out.append("    ");
            out.append(field.as_str());
            out.append(": ");
            out.append(ty.as_str());
            out.append("\n");
        },
    }
}

fn push_field_lines(d: Dialect, children: &Vec<Node>, out: &mut String)
    ensures
        final(out)@ == old(out)@ + field_lines(d, children@),
{
    let ghost start = out@;
    let mut i: usize = 0;
    while i < children.len()
        invariant
            i <= children@.len(),
            out@ == start + field_lines(d, children@.subrange(0, i as int)),
        decreases children@.len() - i,
    {
        push_field_line(d, &children[i], out);
        assert(children@.subrange(0, i as int + 1).drop_last() =~= children@.subrange(0, i as int));
        i = i + 1;
    }
    assert(children@.subrange(0, i as int) =~= children@);
}

fn push_decl(d: Dialect, name: &String, children: &Vec<Node>, immutable: bool, out: &mut String)
    ensures
        final(out)@ == old(out)@ + decl(d, name@, children@, immutable),
{
    let ty = to_pascal_case(name.as_str());
    match d {
        Dialect::Struct => {
            if immutable {
                out.append("#[derive(Debug, Clone, PartialEq, Deserialize)]\n");
            } else {
                out.append("#[derive(Debug, Deserialize)]\n");
            }
            out.append("pub struct ");
            out.append(ty.as_str());
            out.append(" {\n");
            push_field_lines(d, children, out);
            out.append("}\n\n");
        },
        Dialect::Dataclass => {
            if immutable {
                out.append("@dataclass(frozen=True)\n");
            } else {
                out.append("@dataclass\n");
            }
            out.append("class ");
            out.append(ty.as_str());
            out.append(":\n");
            if children.len() == 0 {
                out.append("    pass\n");
            } else {
                push_field_lines(d, children, out);
            }
            out.append("\n\n");
        },
    }
}

/// The declaration of one composite in a dialect.
pub fn render_structure(d: Dialect, structure: &Structure, options: RenderOptions) -> (r: String)
    ensures
        r@ == decl(d, structure.name@, structure.children@, options.immutable),
{
    let mut out = String::new();
    push_decl(d, &structure.name, &structure.children, options.immutable, &mut out);
    assert(out@ =~= decl(d, structure.name@, structure.children@, options.immutable));
    out
}

/// Renders a tree in a dialect: the root's declaration and one declaration
/// for each mapping structure below it.
pub fn render(tree: &Tree, dialect: Dialect, options: RenderOptions) -> (r: String)
    ensures
        r@ == rendered(*tree, dialect, options),
{
    let structures = iterate_tree_structures(tree);
    let ghost ss = pointees(structures@);
    let n = structures.len();
    let mut out = match dialect {
        Dialect::Struct => String::from_str("use serde::Deserialize;\n\n"),
        Dialect::Dataclass => String::from_str(
            "from dataclasses import dataclass\nfrom typing import Any, List, Optional\n\n",
        ),
    };
    let ghost pre = out@;
    match dialect {
        Dialect::Struct => {
            push_decl(dialect, &tree.name, &tree.children, options.immutable, &mut out);
            let ghost head = out@;
            let mut i: usize = 0;
            while i < n
                invariant
                    n == structures@.len(),
                    ss == pointees(structures@),
                    i <= n,
                    out@ == head + decls_in_order(dialect, ss.subrange(0, i as int), options.immutable),
                decreases n - i,
            {
                let s = structures[i];
                assert(*s == ss[i as int]);
                push_decl(dialect, &s.name, &s.children, options.immutable, &mut out);
                assert(ss.subrange(0, i as int + 1).drop_last() =~= ss.subrange(0, i as int));
                i = i + 1;
            }
            assert(ss.subrange(0, n as int) =~= ss);
        },
        Dialect::Dataclass => {
            let mut j: usize = n;
            assert(ss.subrange(n as int, n as int) =~= Seq::<Structure>::empty());
            while j > 0
                invariant
                    n == structures@.len(),
                    ss == pointees(structures@),
                    j <= n,
                    out@ == pre + decls_reversed(dialect, ss.subrange(j as int, n as int), options.immutable),
                decreases j,
            {
                let s = structures[j - 1];
                assert(*s == ss[j - 1]);
                push_decl(dialect, &s.name, &s.children, options.immutable, &mut out);
                assert(ss.subrange(j - 1, n as int).drop_first() =~= ss.subrange(j as int, n as int));
                j = j - 1;
            }
            assert(ss.subrange(0, n as int) =~= ss);
            push_decl(dialect, &tree.name, &tree.children, options.immutable, &mut out);
        },
    }
    out
}

/// Struct declarations for a tree; `frozen` adds value semantics.
pub fn generate_code(tree: &Tree, frozen: bool) -> (r: String)
    ensures
        r@ == rendered(*tree, Dialect::Struct, RenderOptions { immutable: frozen }),
{
    render(tree, Dialect::Struct, RenderOptions { immutable: frozen })
}

/// Dataclass declarations for a tree; `frozen` makes the instances frozen.
pub fn generate_python_code(tree: &Tree, frozen: bool) -> (r: String)
    ensures
        r@ == rendered(*tree, Dialect::Dataclass, RenderOptions { immutable: frozen }),
{
    render(tree, Dialect::Dataclass, RenderOptions { immutable: frozen })
}

/// The raw names of a tree's composites: the root's, then those of the
/// mapping structures below it, in collection order.
pub open spec fn composite_names(t: Tree) -> Seq<Seq<char>> {
    seq![t.name@] + collect_all(t.children@).map_values(|s: Structure| s.name@)
}

/// The composites at `i` and `j` of `names` are distinct and share a type
/// identifier.
pub open spec fn collide(names: Seq<Seq<char>>, i: int, j: int) -> bool {
    &&& 0 <= i < j < names.len()
    &&& type_ident(names[i]) == type_ident(names[j])
}

/// Whether any two composites of `t` share a type identifier.
pub open spec fn has_collision(t: Tree) -> bool {
    exists|i: int, j: int| collide(composite_names(t), i, j)
}

/// Fails with `NameCollision` when two distinct composites of the tree
/// would be declared under the same type identifier, naming the first such
/// pair in collection order.
pub fn check_name_collisions(tree: &Tree) -> (r: Result<(), SchemaError>)
    ensures
        r is Ok <==> !has_collision(*tree),
        match r {
            Ok(_) => true,
            Err(SchemaError::NameCollision { first, second }) => exists|i: int, j: int|
                {
                    &&& collide(composite_names(*tree), i, j)
                    &&& first@ == composite_names(*tree)[i]
                    &&& second@ == composite_names(*tree)[j]
                    &&& forall|a: int, b: int|
                        #[trigger] collide(composite_names(*tree), a, b) ==> i < a || (i == a
                            && j <= b)
                },
            Err(_) => false,
        },
{
    let ghost names = composite_names(*tree);
    let structures = iterate_tree_structures(tree);
    let mut raw: Vec<&String> = Vec::new();
    let mut idents: Vec<String> = Vec::new();
    raw.push(&tree.name);
    idents.push(to_pascal_case(tree.name.as_str()));
    let mut k: usize = 0;
    while k < structures.len()
        invariant
            k <= structures@.len(),
            pointees(structures@) == collect_all(tree.children@),
            names == composite_names(*tree),
            raw@.len() == k + 1,
            idents@.len() == k + 1,
            forall|a: int| 0 <= a <= k ==> #[trigger] raw@[a]@ == names[a],
            forall|a: int| 0 <= a <= k ==> #[trigger] idents@[a]@ == type_ident(names[a]),
        decreases structures@.len() - k,
    {
        let s = structures[k];
        assert(names[k + 1] == pointees(structures@)[k as int].name@);
        raw.push(&s.name);
        idents.push(to_pascal_case(s.name.as_str()));
        k = k + 1;
    }
    let n = idents.len();
    assert(names.len() == n);
    let mut i: usize = 0;
    while i < n
        invariant
            n == idents@.len(),
            n == raw@.len(),
            names.len() == n,
            names == composite_names(*tree),
            forall|a: int| 0 <= a < n ==> #[trigger] raw@[a]@ == names[a],
            forall|a: int| 0 <= a < n ==> #[trigger] idents@[a]@ == type_ident(names[a]),
            i <= n,
            forall|a: int, b: int| 0 <= a < i && a < b < n ==> !collide(names, a, b),
        decreases n - i,
    {
        let mut j: usize = i + 1;
        while j < n
            invariant
                n == idents@.len(),
                n == raw@.len(),
                names.len() == n,
                names == composite_names(*tree),
                forall|a: int| 0 <= a < n ==> #[trigger] raw@[a]@ == names[a],
                forall|a: int| 0 <= a < n ==> #[trigger] idents@[a]@ == type_ident(names[a]),
                i < n,
                i < j <= n,
                forall|a: int, b: int| 0 <= a < i && a < b < n ==> !collide(names, a, b),
                forall|b: int| i < b < j ==> !collide(names, i as int, b),
            decreases n - j,
        {
            if idents[i] == idents[j] {
                assert(collide(names, i as int, j as int));
                assert forall|a: int, b: int| #[trigger] collide(names, a, b) implies i < a || (i
                    == a && j <= b) by {
                    if a < i {
                    } else if a == i && b < j {
                    }
                }
                return Err(
                    SchemaError::NameCollision { first: raw[i].clone(), second: raw[j].clone() },
                );
            }
            j = j + 1;
        }
        i = i + 1;
    }
    Ok(())
}

/// Renders a tree as `render` does, after `check_name_collisions` has found
/// every composite's type identifier unique.
pub fn render_checked(tree: &Tree, dialect: Dialect, options: RenderOptions) -> (r: Result<
    String,
    SchemaError,
>)
    ensures
        !has_collision(*tree) <==> (r matches Ok(text) && text@ == rendered(*tree, dialect, options)),
        has_collision(*tree) ==> (r matches Err(SchemaError::NameCollision { .. })),
{
    match check_name_collisions(tree) {
        Ok(()) => Ok(render(tree, dialect, options)),
        Err(e) => Err(e),
    }
}

/// Rendering is a function of its arguments: equal trees, in one dialect and
/// with equal options, give the same text.
pub proof fn lemma_render_deterministic(t1: Tree, t2: Tree, d: Dialect, options: RenderOptions)
    requires
        t1 == t2,
    ensures
        rendered(t1, d, options) == rendered(t2, d, options),
{
}

} // verus!
