//! Nodes of a schema description: files, structs, enums and their fields, as
//! the schema compiler hands them over.

use vstd::prelude::*;
use crate::parser::ast::code_generator_request::RequestedFile;
use crate::parser::ast::code_generator_request::RequestedFileView;

pub mod code_generator_request;
pub mod field;
pub mod node;

verus! {

/// Identifies a node in one schema universe.
pub type Id = u64;

/// The type of a field's slot.
#[derive(Debug, PartialEq)]
pub enum Type {
    Void,
    Bool,
    Int8,
    Int16,
    Int32,
    Int64,
    Uint8,
    Uint16,
    Uint32,
    Uint64,
    Float32,
    Float64,
    Text,
    Data,
    List(Box<Type>),
    Enum { type_id: Id },
    Struct { type_id: Id },
    Interface { type_id: Id },
    AnyPointer,
}

impl View for Type {
    type V = Type;

    open spec fn view(&self) -> Type {
        *self
    }
}

impl Clone for Type {
    fn clone(&self) -> (r: Self)
        ensures
            r == *self,
        decreases self,
    {
        match self {
            Type::Void => Type::Void,
            Type::Bool => Type::Bool,
            Type::Int8 => Type::Int8,
            Type::Int16 => Type::Int16,
            Type::Int32 => Type::Int32,
            Type::Int64 => Type::Int64,
            Type::Uint8 => Type::Uint8,
            Type::Uint16 => Type::Uint16,
            Type::Uint32 => Type::Uint32,
            Type::Uint64 => Type::Uint64,
            Type::Float32 => Type::Float32,
            Type::Float64 => Type::Float64,
            Type::Text => Type::Text,
            Type::Data => Type::Data,
            Type::List(inner) => Type::List(Box::new((**inner).clone())),
            Type::Enum { type_id } => Type::Enum { type_id: *type_id },
            Type::Struct { type_id } => Type::Struct { type_id: *type_id },
            Type::Interface { type_id } => Type::Interface { type_id: *type_id },
            Type::AnyPointer => Type::AnyPointer,
        }
    }
}

/// The value of an annotation; only text is kept.
#[derive(Debug, PartialEq)]
pub enum Value {
    Text(String),
    Unknown,
}

/// The mathematical value of a [`Value`].
pub enum ValueView {
    Text(Seq<char>),
    Unknown,
}

impl View for Value {
    type V = ValueView;

    open spec fn view(&self) -> ValueView {
        match self {
            Value::Text(s) => ValueView::Text(s@),
            Value::Unknown => ValueView::Unknown,
        }
    }
}

impl Clone for Value {
    fn clone(&self) -> (r: Self)
        ensures
            r@ == self@,
    {
        match self {
            Value::Text(s) => Value::Text(s.clone()),
            Value::Unknown => Value::Unknown,
        }
    }
}

/// An annotation applied to a node.
#[derive(Debug, PartialEq)]
pub struct Annotation {
    pub id: Id,
    pub value: Value,
}

/// The mathematical value of an [`Annotation`].
pub struct AnnotationView {
    pub id: Id,
    pub value: ValueView,
}

impl View for Annotation {
    type V = AnnotationView;

    open spec fn view(&self) -> AnnotationView {
        AnnotationView { id: self.id, value: self.value@ }
    }
}

impl Clone for Annotation {
    fn clone(&self) -> (r: Self)
        ensures
            r@ == self@,
    {
        Annotation { id: self.id, value: self.value.clone() }
    }
}

impl Annotation {
    pub fn new(id: Id, value: Value) -> (r: Self)
        ensures
            r.id == id,
            r.value == value,
    {
        Annotation { id, value }
    }

    pub fn id(&self) -> (r: Id)
        ensures
            r == self.id,
    {
        self.id
    }

    pub fn value(&self) -> (r: &Value)
        ensures
            *r == self.value,
    {
        &self.value
    }
}

/// One value of a schema enum.
#[derive(Debug, PartialEq)]
pub struct Enumerant {
    pub name: String,
}

/// The mathematical value of an [`Enumerant`].
pub struct EnumerantView {
    pub name: Seq<char>,
}

impl View for Enumerant {
    type V = EnumerantView;

    open spec fn view(&self) -> EnumerantView {
        EnumerantView { name: self.name@ }
    }
}

impl Clone for Enumerant {
    fn clone(&self) -> (r: Self)
        ensures
            r@ == self@,
    {
        Enumerant { name: self.name.clone() }
    }
}

impl Enumerant {
    pub fn new(name: String) -> (r: Self)
        ensures
            r.name == name,
    {
        Enumerant { name }
    }

    pub fn name(&self) -> (r: &String)
        ensures
            *r == self.name,
    {
        &self.name
    }
}

/// A field of a struct node. `discriminant_value` is
/// [`field::NO_DISCRIMINANT`] unless the field belongs to the struct's union.
#[derive(Debug, PartialEq)]
pub struct Field {
    pub name: String,
    pub discriminant_value: u16,
    pub which: field::Which,
}

/// The mathematical value of a [`Field`].
pub struct FieldView {
    pub name: Seq<char>,
    pub discriminant_value: u16,
    pub which: field::Which,
}

impl View for Field {
    type V = FieldView;

    open spec fn view(&self) -> FieldView {
        FieldView {
            name: self.name@,
            discriminant_value: self.discriminant_value,
            which: self.which,
        }
    }
}

impl Clone for Field {
    fn clone(&self) -> (r: Self)
        ensures
            r@ == self@,
    {
        Field {
            name: self.name.clone(),
            discriminant_value: self.discriminant_value,
            which: self.which.clone(),
        }
    }
}

impl Field {
    pub fn new(name: String, discriminant_value: u16, which: field::Which) -> (r: Self)
        ensures
            r.name == name,
            r.discriminant_value == discriminant_value,
            r.which == which,
    {
        Field { name, discriminant_value, which }
    }

    pub fn name(&self) -> (r: &String)
        ensures
            *r == self.name,
    {
        &self.name
    }

    pub fn discriminant_value(&self) -> (r: u16)
        ensures
            r == self.discriminant_value,
    {
        self.discriminant_value
    }

    pub fn which(&self) -> (r: &field::Which)
        ensures
            *r == self.which,
    {
        &self.which
    }
}

/// One declaration of the schema: a file, a struct, an enum, or something the
/// compiler passes over.
#[derive(Debug, PartialEq)]
pub struct Node {
    pub id: Id,
    pub display_name: String,
    pub display_name_prefix_length: usize,
    pub scope_id: Id,
    pub nested_nodes: Vec<node::NestedNode>,
    pub annotations: Vec<Annotation>,
    pub which: node::Which,
}

/// The mathematical value of a [`Node`].
pub struct NodeView {
    pub id: Id,
    pub display_name: Seq<char>,
    pub display_name_prefix_length: usize,
    pub scope_id: Id,
    pub nested_nodes: Seq<node::NestedNodeView>,
    pub annotations: Seq<AnnotationView>,
    pub which: node::WhichView,
}

impl View for Node {
    type V = NodeView;

    open spec fn view(&self) -> NodeView {
        NodeView {
            id: self.id,
            display_name: self.display_name@,
            display_name_prefix_length: self.display_name_prefix_length,
            scope_id: self.scope_id,
            nested_nodes: self.nested_nodes@.map_values(|n: node::NestedNode| n@),
            annotations: self.annotations@.map_values(|a: Annotation| a@),
            which: self.which@,
        }
    }
}

impl Clone for Node {
    fn clone(&self) -> (r: Self)
        ensures
            r@ == self@,
    {
        let nested_nodes = self.nested_nodes.clone();
        let annotations = self.annotations.clone();
        proof {
            assert(nested_nodes@.map_values(|n: node::NestedNode| n@)
                =~= self.nested_nodes@.map_values(|n: node::NestedNode| n@));
            assert(annotations@.map_values(|a: Annotation| a@) =~= self.annotations@.map_values(
                |a: Annotation| a@,
            ));
        }
        Node {
            id: self.id,
            display_name: self.display_name.clone(),
            display_name_prefix_length: self.display_name_prefix_length,
            scope_id: self.scope_id,
            nested_nodes,
            annotations,
            which: self.which.clone(),
        }
    }
}

impl Node {
    pub fn new(
        id: Id,
        display_name: String,
        display_name_prefix_length: usize,
        scope_id: Id,
        nested_nodes: Vec<node::NestedNode>,
        annotations: Vec<Annotation>,
        which: node::Which,
    ) -> (r: Self)
        ensures
            r.id == id,
            r.display_name == display_name,
            r.display_name_prefix_length == display_name_prefix_length,
            r.scope_id == scope_id,
            r.nested_nodes == nested_nodes,
            r.annotations == annotations,
            r.which == which,
    {
        Node {
            id,
            display_name,
            display_name_prefix_length,
            scope_id,
            nested_nodes,
            annotations,
            which,
        }
    }

    pub fn id(&self) -> (r: Id)
        ensures
            r == self.id,
    {
        self.id
    }

    pub fn display_name(&self) -> (r: &String)
        ensures
            *r == self.display_name,
    {
        &self.display_name
    }

    pub fn display_name_prefix_length(&self) -> (r: usize)
        ensures
            r == self.display_name_prefix_length,
    {
        self.display_name_prefix_length
    }

    pub fn scope_id(&self) -> (r: Id)
        ensures
            r == self.scope_id,
    {
        self.scope_id
    }

    pub fn nested_nodes(&self) -> (r: &Vec<node::NestedNode>)
        ensures
            *r == self.nested_nodes,
    {
        &self.nested_nodes
    }

    pub fn annotations(&self) -> (r: &Vec<Annotation>)
        ensures
            *r == self.annotations,
    {
        &self.annotations
    }

    pub fn which(&self) -> (r: &node::Which)
        ensures
            *r == self.which,
    {
        &self.which
    }
}

/// What the schema compiler hands over: every node it knows, and the files it
/// was asked to generate code for.
#[derive(Debug, PartialEq)]
pub struct CodeGeneratorRequest {
    pub nodes: Vec<Node>,
    pub requested_files: Vec<RequestedFile>,
}

/// The mathematical value of a [`CodeGeneratorRequest`].
pub struct CodeGeneratorRequestView {
    pub nodes: Seq<NodeView>,
    pub requested_files: Seq<RequestedFileView>,
}

impl View for CodeGeneratorRequest {
    type V = CodeGeneratorRequestView;

    open spec fn view(&self) -> CodeGeneratorRequestView {
        CodeGeneratorRequestView {
            nodes: self.nodes@.map_values(|n: Node| n@),
            requested_files: self.requested_files@.map_values(|f: RequestedFile| f@),
        }
    }
}

impl Clone for CodeGeneratorRequest {
    fn clone(&self) -> (r: Self)
        ensures
            r@ == self@,
    {
        let nodes = self.nodes.clone();
        let requested_files = self.requested_files.clone();
        proof {
            assert(nodes@.map_values(|n: Node| n@) =~= self.nodes@.map_values(|n: Node| n@));
            assert(requested_files@.map_values(|f: RequestedFile| f@)
                =~= self.requested_files@.map_values(|f: RequestedFile| f@));
        }
        CodeGeneratorRequest { nodes, requested_files }
    }
}

impl CodeGeneratorRequest {
    pub fn new(nodes: Vec<Node>, requested_files: Vec<RequestedFile>) -> (r: Self)
        ensures
            r.nodes == nodes,
            r.requested_files == requested_files,
    {
        CodeGeneratorRequest { nodes, requested_files }
    }

    pub fn nodes(&self) -> (r: &Vec<Node>)
        ensures
            *r == self.nodes,
    {
        &self.nodes
    }

    pub fn requested_files(&self) -> (r: &Vec<RequestedFile>)
        ensures
            *r == self.requested_files,
    {
        &self.requested_files
    }
}

} // verus!
