//! What a field of a struct node holds.

use vstd::prelude::*;
use crate::parser::ast::Type;

verus! {

/// The discriminant value of a field that belongs to no union.
pub const NO_DISCRIMINANT: u16 = 0xFFFF;

/// A field is either a slot with a type or a group, named by the group's id.
#[derive(Debug, PartialEq)]
pub enum Which {
    Slot(Type),
    Group(u64),
}

impl View for Which {
    type V = Which;

    open spec fn view(&self) -> Which {
        *self
    }
}

impl Clone for Which {
    fn clone(&self) -> (r: Self)
        ensures
            r == *self,
    {
        match self {
            Which::Slot(t) => Which::Slot(t.clone()),
            Which::Group(id) => Which::Group(*id),
        }
    }
}

} // verus!
