//! The value of one content field.

use vstd::prelude::*;
use crate::model::field_meta::FieldType;

verus! {

/// A field value: its kind and its text.
#[derive(Debug, Clone)]
pub struct Field {
    pub field_type: FieldType,
    pub value: String,
}

impl Field {
    /// What contracts say of a field value: its kind and its characters.
    pub open spec fn view(&self) -> (FieldType, Seq<char>) {
        (self.field_type, self.value@)
    }

    pub fn new(field_type: FieldType, value: String) -> (r: Field)
        ensures
            r == (Field { field_type, value }),
    {
        Field { field_type, value }
    }
}

/// What contracts say of a sequence of field values.
pub open spec fn fields_view(fields: Seq<Field>) -> Seq<(FieldType, Seq<char>)> {
    Seq::new(fields.len(), |i: int| fields[i].view())
}

} // verus!
