//! What a node declares, and the nodes nested in it.

use vstd::prelude::*;
use crate::parser::ast::Enumerant;
use crate::parser::ast::EnumerantView;
use crate::parser::ast::Field;
use crate::parser::ast::FieldView;

verus! {

/// A declaration nested in a node: the id to look it up by, and its local name.
#[derive(Debug, PartialEq)]
pub struct NestedNode {
    pub id: u64,
    pub name: String,
}

/// The mathematical value of a [`NestedNode`].
pub struct NestedNodeView {
    pub id: u64,
    pub name: Seq<char>,
}

impl View for NestedNode {
    type V = NestedNodeView;

    open spec fn view(&self) -> NestedNodeView {
        NestedNodeView { id: self.id, name: self.name@ }
    }
}

impl Clone for NestedNode {
    fn clone(&self) -> (r: Self)
        ensures
            r@ == self@,
    {
        NestedNode { id: self.id, name: self.name.clone() }
    }
}

impl NestedNode {
    pub fn new(id: u64, name: String) -> (r: Self)
        ensures
            r.id == id,
            r.name == name,
    {
        NestedNode { id, name }
    }

    pub fn id(&self) -> (r: u64)
        ensures
            r == self.id,
    {
        self.id
    }

    pub fn name(&self) -> (r: &String)
        ensures
            *r == self.name,
    {
        &self.name
    }
}

/// The kind of a node, with what a struct or an enum declares.
#[derive(Debug, PartialEq)]
pub enum Which {
    File,
    Struct { is_group: bool, discriminant_count: u16, discriminant_offset: u32, fields: Vec<Field> },
    Enum(Vec<Enumerant>),
    Interface,
    Const,
    Annotation,
}

/// The mathematical value of a [`Which`].
pub enum WhichView {
    File,
    Struct {
        is_group: bool,
        discriminant_count: u16,
        discriminant_offset: u32,
        fields: Seq<FieldView>,
    },
    Enum(Seq<EnumerantView>),
    Interface,
    Const,
    Annotation,
}

impl View for Which {
    type V = WhichView;

    open spec fn view(&self) -> WhichView {
        match self {
            Which::File => WhichView::File,
            Which::Struct { is_group, discriminant_count, discriminant_offset, fields } => {
                WhichView::Struct {
                    is_group: *is_group,
                    discriminant_count: *discriminant_count,
                    discriminant_offset: *discriminant_offset,
                    fields: fields@.map_values(|f: Field| f@),
                }
            },
            Which::Enum(enumerants) => WhichView::Enum(
                enumerants@.map_values(|e: Enumerant| e@),
            ),
            Which::Interface => WhichView::Interface,
            Which::Const => WhichView::Const,
            Which::Annotation => WhichView::Annotation,
        }
    }
}

impl Clone for Which {
    fn clone(&self) -> (r: Self)
        ensures
            r@ == self@,
    {
        match self {
            Which::File => Which::File,
            Which::Struct { is_group, discriminant_count, discriminant_offset, fields } => {
                let copied = fields.clone();
                proof {
                    assert(copied@.map_values(|f: Field| f@) =~= fields@.map_values(
                        |f: Field| f@,
                    ));
                }
                Which::Struct {
                    is_group: *is_group,
                    discriminant_count: *discriminant_count,
                    discriminant_offset: *discriminant_offset,
                    fields: copied,
                }
            },
            Which::Enum(enumerants) => {
                let copied = enumerants.clone();
                proof {
                    assert(copied@.map_values(|e: Enumerant| e@) =~= enumerants@.map_values(
                        |e: Enumerant| e@,
                    ));
                }
                Which::Enum(copied)
            },
            Which::Interface => Which::Interface,
            Which::Const => Which::Const,
            Which::Annotation => Which::Annotation,
        }
    }
}

} // verus!
