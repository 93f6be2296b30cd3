//! The document value model and the typed tree built from it.

use crate::codegen::{spell, spelling, Dialect};
use vstd::prelude::*;

verus! {

/// A number as the document parser reads it.
#[derive(Debug, Clone, PartialEq)]
pub enum Number {
    /// A non-negative integer.
    PosInt(u64),
    /// A negative integer.
    NegInt(i64),
    /// A floating-point number, kept in its textual form.
    Float(String),
}

/// A parsed document value.
#[derive(Debug, PartialEq)]
pub enum Value {
    Null,
    Bool(bool),
    Number(Number),
    String(String),
    Sequence(Vec<Value>),
    /// Key-value pairs in source order.
    Mapping(Vec<(Value, Value)>),
    /// A value under an explicit tag: the tag's text and the value.
    Tagged(String, Box<Value>),
}

/// The kinds of scalar that a leaf can hold.
#[derive(Debug, Clone, Copy, PartialEq, Eq, Structural)]
pub enum ScalarKind {
    Bool,
    Int64,
    UInt64,
    Float64,
    Str,
}

/// The type of a value, independent of any dialect's spelling.
#[derive(Debug, PartialEq)]
pub enum TypeDescriptor {
    Scalar(ScalarKind),
    /// An optional string: what a bare null is taken for.
    OptionalString,
    /// A collection of elements of one type.
    Collection(Box<TypeDescriptor>),
    /// A reference to the composite declared for the structure of this raw
    /// name.
    CompositeRef(String),
    /// An untyped placeholder for values of no known shape.
    RawFallback,
}

/// Whether a structure stands for a mapping or for a sequence.
#[derive(Debug, Clone, Copy, PartialEq, Eq, Structural)]
pub enum StructureKind {
    Mapping,
    Sequence,
}

/// A scalar node of the tree.
#[derive(Debug, PartialEq)]
pub struct Leaf {
    pub name: String,
    pub ty: TypeDescriptor,
    pub value: Value,
}

/// A composite node of the tree.
#[derive(Debug, PartialEq)]
pub struct Structure {
    pub name: String,
    pub kind: StructureKind,
    pub children: Vec<Node>,
}

/// A node of the tree.
#[derive(Debug, PartialEq)]
pub enum Node {
    Leaf(Leaf),
    Structure(Structure),
}

/// The root of the tree: a mapping under the root name.
#[derive(Debug, PartialEq)]
pub struct Tree {
    pub name: String,
    pub children: Vec<Node>,
}

/// Why a document has no tree.
#[derive(Debug, Clone, PartialEq)]
pub enum SchemaError {
    /// The document's root is not a mapping.
    RootNotMapping,
    /// Two distinct composites, under these raw names, share a type
    /// identifier.
    NameCollision { first: String, second: String },
}

/// A value that becomes a structure rather than a leaf.
pub open spec fn is_composite(v: Value) -> bool {
    v is Sequence || v is Mapping
}

/// The inferred type of a scalar value.
pub open spec fn inferred(v: Value) -> TypeDescriptor {
    match v {
        Value::Null => TypeDescriptor::OptionalString,
        Value::Bool(_) => TypeDescriptor::Scalar(ScalarKind::Bool),
        Value::Number(Number::PosInt(u)) => if u <= i64::MAX {
            TypeDescriptor::Scalar(ScalarKind::Int64)
        } else {
            TypeDescriptor::Scalar(ScalarKind::UInt64)
        },
        Value::Number(Number::NegInt(_)) => TypeDescriptor::Scalar(ScalarKind::Int64),
        Value::Number(Number::Float(_)) => TypeDescriptor::Scalar(ScalarKind::Float64),
        Value::String(_) => TypeDescriptor::Scalar(ScalarKind::Str),
        Value::Sequence(_) => TypeDescriptor::RawFallback,
        Value::Mapping(_) => TypeDescriptor::RawFallback,
        Value::Tagged(_, _) => TypeDescriptor::RawFallback,
    }
}

/// The label of a leaf type: its spelling in the struct dialect, but
/// `Value` for the untyped placeholder.
pub open spec fn leaf_label(t: TypeDescriptor) -> Seq<char> {
    match t {
        TypeDescriptor::RawFallback => "Value"@,
        _ => spelling(Dialect::Struct, t),
    }
}

/// The label of a value's type: its leaf type's label, or the kind of
/// composite it is.
pub open spec fn type_label(v: Value) -> Seq<char> {
    match v {
        Value::Sequence(_) => "Vec"@,
        Value::Mapping(_) => "Mapping"@,
        _ => leaf_label(inferred(v)),
    }
}

/// The name that a mapping key gives its child: the key's string, under
/// any tags, or `unknown` for a key that is not a string.
pub open spec fn key_name(k: Value) -> Seq<char>
    decreases k,
{
    match k {
        Value::String(s) => s@,
        Value::Tagged(_, inner) => key_name(*inner),
        _ => "unknown"@,
    }
}

/// The name of the representative element of a sequence named `name`.
pub open spec fn item_name(name: Seq<char>) -> Seq<char> {
    name + "_item"@
}

/// The root name of every tree.
pub open spec fn root_name() -> Seq<char> {
    "Config"@
}

impl Node {
    /// The node's raw name.
    pub open spec fn spec_name(self) -> Seq<char> {
        match self {
            Node::Leaf(l) => l.name@,
            Node::Structure(s) => s.name@,
        }
    }
}

/// `n` is the node built from `v` under the name `name`.
pub open spec fn builds(name: Seq<char>, v: Value, n: Node) -> bool
    decreases v,
{
    match v {
        Value::Mapping(pairs) => match n {
            Node::Structure(s) => {
                &&& s.name@ == name
                &&& s.kind == StructureKind::Mapping
                &&& s.children@.len() == pairs@.len()
                &&& forall|i: int|
                    0 <= i < pairs@.len() ==> builds(
                        key_name(pairs@[i].0),
                        pairs@[i].1,
                        #[trigger] s.children@[i],
                    )
            },
            _ => false,
        },
        Value::Sequence(items) => match n {
            Node::Structure(s) => {
                &&& s.name@ == name
                &&& s.kind == StructureKind::Sequence
                &&& if items@.len() == 0 {
                    s.children@.len() == 0
                } else {
                    s.children@.len() == 1 && builds(item_name(name), items@[0], s.children@[0])
                }
            },
            _ => false,
        },
        _ => match n {
            Node::Leaf(l) => l.name@ == name && l.ty == inferred(v) && l.value == v,
            _ => false,
        },
    }
}

/// The inferred type of a scalar value.
pub fn infer_type(value: &Value) -> (r: TypeDescriptor)
    requires
        !is_composite(*value),
    ensures
        r == inferred(*value),
{
    match value {
        Value::Null => TypeDescriptor::OptionalString,
        Value::Bool(_) => TypeDescriptor::Scalar(ScalarKind::Bool),
        Value::Number(Number::PosInt(u)) => {
            if *u <= i64::MAX as u64 {
                TypeDescriptor::Scalar(ScalarKind::Int64)
            } else {
                TypeDescriptor::Scalar(ScalarKind::UInt64)
            }
        },
        Value::Number(Number::NegInt(_)) => TypeDescriptor::Scalar(ScalarKind::Int64),
        Value::Number(Number::Float(_)) => TypeDescriptor::Scalar(ScalarKind::Float64),
        Value::String(_) => TypeDescriptor::Scalar(ScalarKind::Str),
        Value::Sequence(_) => TypeDescriptor::RawFallback,
        Value::Mapping(_) => TypeDescriptor::RawFallback,
        Value::Tagged(_, _) => TypeDescriptor::RawFallback,
    }
}

/// The label of a leaf type.
pub fn label_leaf_type(t: &TypeDescriptor) -> (r: String)
    ensures
        r@ == leaf_label(*t),
{
    match t {
        TypeDescriptor::RawFallback => String::from_str("Value"),
        _ => spell(Dialect::Struct, t),
    }
}

/// The label of a value's type: the label of its inferred type for a
/// scalar, `Vec` for a sequence and `Mapping` for a mapping.
pub fn infer_type_name(value: &Value) -> (r: String)
    ensures
        r@ == type_label(*value),
{
    match value {
        Value::Sequence(_) => String::from_str("Vec"),
        Value::Mapping(_) => String::from_str("Mapping"),
        _ => label_leaf_type(&infer_type(value)),
    }
}

fn key_to_name(key: Value) -> (r: String)
    ensures
        r@ == key_name(key),
    decreases key,
{
    match key {
        Value::String(s) => s,
        Value::Tagged(_, inner) => key_to_name(*inner),
        _ => String::from_str("unknown"),
    }
}

/// Builds the node of `value` under the name `name`: a mapping gives a
/// mapping structure with one child per pair, in order; a sequence gives a
/// sequence structure whose one child, if any, is built from its first item;
/// any other value gives a leaf of its inferred type.
pub fn build_tree(name: String, value: Value) -> (r: Result<Node, SchemaError>)
    ensures
        r matches Ok(n) && builds(name@, value, n),
    decreases value,
{
    let ghost v = value;
    match value {
        Value::Mapping(pairs) => {
            let ghost all = v->Mapping_0@;
            let mut rest = pairs;
            let mut children: Vec<Node> = Vec::new();
            let mut k: usize = 0;
            let total: usize = rest.len();
            assert(all.len() == total);
            while rest.len() > 0
                invariant
                    all == v->Mapping_0@,
                    v is Mapping,
                    v == value,
                    all.len() <= usize::MAX,
                    k <= all.len(),
                    rest@ == all.subrange(k as int, all.len() as int),
                    children@.len() == k,
                    forall|i: int|
                        0 <= i < k ==> builds(key_name(all[i].0), all[i].1, #[trigger] children@[i]),
                decreases rest@.len(),
            {
                assert(k < all.len());
                let (key, val) = rest.remove(0);
                assert(all[k as int] == (key, val));
                assert(val == v->Mapping_0@[k as int].1);
                proof {
                    assert(decreases_to!(v => v->Mapping_0));
                    assert(decreases_to!(v->Mapping_0 => v->Mapping_0@));
                    assert(decreases_to!(v->Mapping_0@ => v->Mapping_0@[k as int]));
                    assert(decreases_to!(v->Mapping_0@[k as int] => v->Mapping_0@[k as int].1));
                }
                let child_name = key_to_name(key);
                let child = build_tree(child_name, val);
                match child {
                    Ok(c) => children.push(c),
                    Err(e) => return Err(e),
                }
                k = k + 1;
            }
            Ok(Node::Structure(Structure { name, kind: StructureKind::Mapping, children }))
        },
        Value::Sequence(items) => {
            let mut items = items;
            let mut children: Vec<Node> = Vec::new();
            assert(items@ == v->Sequence_0@);
            if items.len() > 0 {
                let first = items.remove(0);
                proof {
                    assert(decreases_to!(v => v->Sequence_0));
                    assert(decreases_to!(v->Sequence_0 => v->Sequence_0@));
                    assert(decreases_to!(v->Sequence_0@ => v->Sequence_0@[0]));
                }
                let mut child_name = name.clone();
                child_name.append("_item");
                match build_tree(child_name, first) {
                    Ok(c) => children.push(c),
                    Err(e) => return Err(e),
                }
            }
            Ok(Node::Structure(Structure { name, kind: StructureKind::Sequence, children }))
        },
        other => {
            let ty = infer_type(&other);
            Ok(Node::Leaf(Leaf { name, ty, value: other }))
        },
    }
}

/// `t` is the tree of the document `v`: a mapping whose pairs give the
/// root's children, in order.
pub open spec fn tree_of(v: Value, t: Tree) -> bool {
    match v {
        Value::Mapping(pairs) => {
            &&& t.name@ == root_name()
            &&& t.children@.len() == pairs@.len()
            &&& forall|i: int|
                0 <= i < pairs@.len() ==> builds(
                    key_name(pairs@[i].0),
                    pairs@[i].1,
                    #[trigger] t.children@[i],
                )
        },
        _ => false,
    }
}

/// Builds the tree of a document, whose root must be a mapping.
pub fn parse_tree(value: Value) -> (r: Result<Tree, SchemaError>)
    ensures
        value is Mapping ==> (r matches Ok(t) && tree_of(value, t)),
        !(value is Mapping) ==> (r matches Err(SchemaError::RootNotMapping)),
{
    match value {
        Value::Mapping(_) => {
            let ghost v = value;
            match build_tree(String::from_str("Config"), value) {
                Ok(Node::Structure(s)) => Ok(Tree { name: s.name, children: s.children }),
                Ok(Node::Leaf(_)) => {
                    assert(false);
                    Err(SchemaError::RootNotMapping)
                },
                Err(e) => Err(e),
            }
        },
        _ => Err(SchemaError::RootNotMapping),
    }
}

impl Node {
    /// The node's raw name.
    pub fn name(&self) -> (r: &str)
        ensures
            r@ == self.spec_name(),
    {
        match self {
            Node::Leaf(leaf) => leaf.name.as_str(),
            Node::Structure(structure) => structure.name.as_str(),
        }
    }

    /// The node's type label: a leaf's type label, or `Mapping` or `Vec`
    /// for a structure.
    pub fn type_label(&self) -> (r: String)
        ensures
            r@ == match *self {
                Node::Leaf(l) => leaf_label(l.ty),
                Node::Structure(s) => if s.kind == StructureKind::Mapping {
                    "Mapping"@
                } else {
                    "Vec"@
                },
            },
    {
        match self {
            Node::Leaf(leaf) => label_leaf_type(&leaf.ty),
            Node::Structure(structure) => match structure.kind {
                StructureKind::Mapping => String::from_str("Mapping"),
                StructureKind::Sequence => String::from_str("Vec"),
            },
        }
    }
}

/// The mapping structures under `n`, `n` itself included, parents before
/// their children and siblings in order.
pub open spec fn collect(n: Node) -> Seq<Structure>
    decreases n,
{
    match n {
        Node::Leaf(_) => seq![],
        Node::Structure(s) => (if s.kind == StructureKind::Mapping {
            seq![s]
        } else {
            seq![]
        }) + collect_all(s.children@),
    }
}

/// The mapping structures under each of `ns`, in order.
pub open spec fn collect_all(ns: Seq<Node>) -> Seq<Structure>
    decreases ns,
{
    if ns.len() == 0 {
        seq![]
    } else {
        collect_all(ns.drop_last()) + collect(ns.last())
    }
}

/// The structures that a sequence of references points to.
pub open spec fn pointees(v: Seq<&Structure>) -> Seq<Structure> {
    v.map_values(|x: &Structure| *x)
}

proof fn lemma_collect_all_step(ns: Seq<Node>, i: int)
    requires
        0 <= i < ns.len(),
    ensures
        collect_all(ns.subrange(0, i + 1)) == collect_all(ns.subrange(0, i)) + collect(ns[i]),
{
    assert(ns.subrange(0, i + 1).drop_last() =~= ns.subrange(0, i));
}

fn collect_children<'a>(children: &'a Vec<Node>, result: &mut Vec<&'a Structure>)
    ensures
        pointees(final(result)@) == pointees(old(result)@) + collect_all(children@),
    decreases children@,
{
    let ghost start = pointees(result@);
    let mut i: usize = 0;
    while i < children.len()
        invariant
            i <= children@.len(),
            pointees(result@) == start + collect_all(children@.subrange(0, i as int)),
        decreases children@.len() - i,
    {
        proof {
            assert(decreases_to!(children@ => children@[i as int]));
        }
        let mut sub = iterate_structures(&children[i]);
        let ghost sub_view = sub@;
        proof {
            lemma_collect_all_step(children@, i as int);
        }
        let ghost before = result@;
        result.append(&mut sub);
        assert(pointees(result@) =~= pointees(before) + pointees(sub_view));
        assert(pointees(result@) =~= start + collect_all(children@.subrange(0, i as int + 1)));
        i = i + 1;
    }
    assert(children@.subrange(0, i as int) =~= children@);
}

/// The mapping structures under `node`, `node` itself included, parents
/// before their children and siblings in order.
pub fn iterate_structures(node: &Node) -> (r: Vec<&Structure>)
    ensures
        pointees(r@) == collect(*node),
    decreases node,
{
    let mut result: Vec<&Structure> = Vec::new();
    match node {
        Node::Structure(structure) => {
            if structure.kind == StructureKind::Mapping {
                result.push(structure);
            }
            assert(pointees(result@) =~= (if structure.kind == StructureKind::Mapping {
                seq![*structure]
            } else {
                seq![]
            }));
            proof {
                assert(decreases_to!(*node => node->Structure_0));
                assert(decreases_to!(node->Structure_0 => node->Structure_0.children));
            }
            collect_children(&structure.children, &mut result);
            assert(pointees(result@) =~= collect(*node));
        },
        Node::Leaf(_) => {},
    }
    result
}

/// The mapping structures of a tree below its root, parents before their
/// children and siblings in order.
pub fn iterate_tree_structures(tree: &Tree) -> (r: Vec<&Structure>)
    ensures
        pointees(r@) == collect_all(tree.children@),
{
    let mut result: Vec<&Structure> = Vec::new();
    assert(pointees(result@) =~= seq![]);
    collect_children(&tree.children, &mut result);
    assert(pointees(result@) =~= collect_all(tree.children@));
    result
}

/// A node built under a name carries that name.
pub proof fn lemma_built_name(name: Seq<char>, v: Value, n: Node)
    requires
        builds(name, v, n),
    ensures
        n.spec_name() == name,
{
}

/// Key order is kept: the tree of a mapping document has one child per
/// key, and its children carry the keys' names in the document's order.
pub proof fn lemma_key_order_preserved(v: Value, t: Tree)
    requires
        tree_of(v, t),
    ensures
        v is Mapping,
        t.children@.len() == v->Mapping_0@.len(),
        forall|i: int|
            0 <= i < t.children@.len() ==> (#[trigger] t.children@[i]).spec_name() == key_name(
                v->Mapping_0@[i].0,
            ),
{
    assert forall|i: int| 0 <= i < t.children@.len() implies (#[trigger] t.children@[i]).spec_name()
        == key_name(v->Mapping_0@[i].0) by {
        lemma_built_name(key_name(v->Mapping_0@[i].0), v->Mapping_0@[i].1, t.children@[i]);
    }
}

/// The type of the field that holds node `n`: a leaf's own type, a
/// reference to a mapping's composite, or a collection of the type of a
/// sequence's representative element (of `RawFallback` when it has none).
pub open spec fn descriptor_of(n: Node) -> TypeDescriptor
    decreases n,
{
    match n {
        Node::Leaf(l) => l.ty,
        Node::Structure(s) => if s.kind == StructureKind::Mapping {
            TypeDescriptor::CompositeRef(s.name)
        } else if s.children@.len() == 0 {
            TypeDescriptor::Collection(Box::new(TypeDescriptor::RawFallback))
        } else {
            TypeDescriptor::Collection(Box::new(descriptor_of(s.children@[0])))
        },
    }
}

/// The type of the field that holds `node`.
pub fn field_descriptor(node: &Node) -> (r: TypeDescriptor)
    ensures
        r == descriptor_of(*node),
    decreases node,
{
    match node {
        Node::Leaf(leaf) => copy_descriptor(&leaf.ty),
        Node::Structure(s) => {
            if s.kind == StructureKind::Mapping {
                TypeDescriptor::CompositeRef(s.name.clone())
            } else if s.children.len() == 0 {
                TypeDescriptor::Collection(Box::new(TypeDescriptor::RawFallback))
            } else {
                proof {
                    assert(decreases_to!(*node => node->Structure_0));
                    assert(decreases_to!(node->Structure_0 => node->Structure_0.children));
                    assert(decreases_to!(node->Structure_0.children => node->Structure_0.children@));
                    assert(decreases_to!(node->Structure_0.children@ => node->Structure_0.children@[0]));
                }
                TypeDescriptor::Collection(Box::new(field_descriptor(&s.children[0])))
            }
        },
    }
}

/// A copy of a descriptor.
pub fn copy_descriptor(t: &TypeDescriptor) -> (r: TypeDescriptor)
    ensures
        r == *t,
    decreases t,
{
    match t {
        TypeDescriptor::Scalar(k) => TypeDescriptor::Scalar(*k),
        TypeDescriptor::OptionalString => TypeDescriptor::OptionalString,
        TypeDescriptor::Collection(e) => TypeDescriptor::Collection(Box::new(copy_descriptor(e))),
        TypeDescriptor::CompositeRef(name) => TypeDescriptor::CompositeRef(name.clone()),
        TypeDescriptor::RawFallback => TypeDescriptor::RawFallback,
    }
}

} // verus!
