use vstd::prelude::*;

verus! {

/// One named field of a record-type declaration: its name, used only for
/// diagnostic text, and the rendered textual form of its declared type,
/// which is the sole basis of comparison.
pub struct FieldEntry {
    pub field_name: String,
    pub type_signature: String,
}

/// The mathematical value of a `FieldEntry`: both strings as character
/// sequences.
pub struct FieldEntryModel {
    pub field_name: Seq<char>,
    pub type_signature: Seq<char>,
}

impl View for FieldEntry {
    type V = FieldEntryModel;

    open spec fn view(&self) -> FieldEntryModel {
        FieldEntryModel {
            field_name: self.field_name@,
            type_signature: self.type_signature@,
        }
    }
}

impl DeepView for FieldEntry {
    type V = FieldEntryModel;

    open spec fn deep_view(&self) -> FieldEntryModel {
        self@
    }
}

/// A parsed record-type declaration: the type's name and its fields in
/// declaration order. The order matters: the first field's type is the
/// reference that every other field is compared against.
pub struct RecordDeclaration {
    pub name: String,
    pub fields: Vec<FieldEntry>,
}

/// The mathematical value of a `RecordDeclaration`.
pub struct RecordModel {
    pub name: Seq<char>,
    pub fields: Seq<FieldEntryModel>,
}

impl View for RecordDeclaration {
    type V = RecordModel;

    open spec fn view(&self) -> RecordModel {
        RecordModel {
            name: self.name@,
            fields: self.fields.deep_view(),
        }
    }
}

} // verus!
