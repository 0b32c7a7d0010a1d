//! The schema of one content field.

use vstd::prelude::*;
use crate::error::ValidationError;
use crate::text::same_text;
use crate::validation::{check_field_id, check_name, field_id_violation, first_of, name_violation};

verus! {

/// The kinds of value a content field can hold.
#[derive(Debug, Clone, Copy, PartialEq, Eq, Structural)]
pub enum FieldType {
    ShortText,
    LongText,
    RichText,
    Number,
    Boolean,
    DateTime,
    Media,
}

impl FieldType {
    /// The name under which the kind is stored.
    pub open spec fn name(self) -> Seq<char> {
        match self {
            FieldType::ShortText => "ShortText"@,
            FieldType::LongText => "LongText"@,
            FieldType::RichText => "RichText"@,
            FieldType::Number => "Number"@,
            FieldType::Boolean => "Boolean"@,
            FieldType::DateTime => "DateTime"@,
            FieldType::Media => "Media"@,
        }
    }

    /// The kind stored under `name`, if there is one.
    pub open spec fn named(name: Seq<char>) -> Option<FieldType> {
        if name == "ShortText"@ {
            Some(FieldType::ShortText)
        } else if name == "LongText"@ {
            Some(FieldType::LongText)
        } else if name == "RichText"@ {
            Some(FieldType::RichText)
        } else if name == "Number"@ {
            Some(FieldType::Number)
        } else if name == "Boolean"@ {
            Some(FieldType::Boolean)
        } else if name == "DateTime"@ {
            Some(FieldType::DateTime)
        } else if name == "Media"@ {
            Some(FieldType::Media)
        } else {
            None
        }
    }

    /// The name under which the kind is stored.
    pub fn as_name(&self) -> (r: &'static str)
        ensures
            r@ == self.name(),
    {
        match self {
            FieldType::ShortText => "ShortText",
            FieldType::LongText => "LongText",
            FieldType::RichText => "RichText",
            FieldType::Number => "Number",
            FieldType::Boolean => "Boolean",
            FieldType::DateTime => "DateTime",
            FieldType::Media => "Media",
        }
    }

    /// Reads a kind from its stored name.
    pub fn from_name(name: &str) -> (r: Option<FieldType>)
        ensures
            r == FieldType::named(name@),
    {
        if same_text(name, "ShortText") {
            Some(FieldType::ShortText)
        } else if same_text(name, "LongText") {
            Some(FieldType::LongText)
        } else if same_text(name, "RichText") {
            Some(FieldType::RichText)
        } else if same_text(name, "Number") {
            Some(FieldType::Number)
        } else if same_text(name, "Boolean") {
            Some(FieldType::Boolean)
        } else if same_text(name, "DateTime") {
            Some(FieldType::DateTime)
        } else if same_text(name, "Media") {
            Some(FieldType::Media)
        } else {
            None
        }
    }

    /// Every kind is read back from its own name.
    pub proof fn name_round_trip(kind: FieldType)
        ensures
            FieldType::named(kind.name()) == Some(kind),
    {
        reveal_strlit("ShortText");
        reveal_strlit("LongText");
        reveal_strlit("RichText");
        reveal_strlit("Number");
        reveal_strlit("Boolean");
        reveal_strlit("DateTime");
        reveal_strlit("Media");
        match kind {
            FieldType::ShortText => {},
            FieldType::LongText => {
                assert("LongText"@[0] != "ShortText"@[0]);
            },
            FieldType::RichText => {
                assert("RichText"@[0] != "ShortText"@[0]);
                assert("RichText"@[0] != "LongText"@[0]);
            },
            FieldType::Number => {
                assert("Number"@.len() == 6);
            },
            FieldType::Boolean => {
                assert("Boolean"@.len() == 7);
            },
            FieldType::DateTime => {
                assert("DateTime"@[0] != "ShortText"@[0]);
                assert("DateTime"@[0] != "LongText"@[0]);
                assert("DateTime"@[0] != "RichText"@[0]);
                assert("DateTime"@.len() == 8);
            },
            FieldType::Media => {
                assert("Media"@.len() == 5);
            },
        }
    }
}

/// The definition of one field of a content model: a name of at most 50
/// characters, a field id of at most 64, a kind, and whether a value is
/// required.
#[derive(Debug, Clone)]
pub struct FieldMeta {
    pub name: String,
    pub field_id: String,
    pub field_type: FieldType,
    pub is_required: bool,
}

/// The first rule that the fields of a field definition break, name before
/// field id.
pub open spec fn field_meta_violation(name: Seq<char>, field_id: Seq<char>) -> Option<
    ValidationError,
> {
    first_of(name_violation(name, false), field_id_violation(field_id))
}

impl FieldMeta {
    /// Whether the fields keep the bounds of a field definition.
    pub open spec fn well_formed(&self) -> bool {
        field_meta_violation(self.name@, self.field_id@) is None
    }

    /// Builds a field definition, or names the first rule that the fields
    /// break.
    pub fn try_new(name: String, field_id: String, field_type: FieldType, is_required: bool) -> (r:
        Result<FieldMeta, ValidationError>)
        ensures
            match field_meta_violation(name@, field_id@) {
                Some(e) => r == Err::<FieldMeta, ValidationError>(e),
                None => r == Ok::<FieldMeta, ValidationError>(
                    FieldMeta { name, field_id, field_type, is_required },
                ),
            },
            r is Ok ==> r->Ok_0.well_formed(),
    {
        if let Some(e) = check_name(name.as_str(), false) {
            return Err(e);
        }
        if let Some(e) = check_field_id(field_id.as_str()) {
            return Err(e);
        }
        Ok(FieldMeta { name, field_id, field_type, is_required })
    }
}

} // verus!
