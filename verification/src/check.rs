use vstd::prelude::*;
use crate::record::{FieldEntry, FieldEntryModel, RecordDeclaration};

verus! {

/// Every field's rendered type matches the first field's rendered type.
/// An empty field sequence is vacuously uniform; the checker treats that
/// case separately, as outside the documented contract.
pub open spec fn uniform_types(fields: Seq<FieldEntryModel>) -> bool {
    forall|i: int|
        0 <= i < fields.len() ==> #[trigger] fields[i].type_signature
            == fields[0].type_signature
}

/// Position `j` holds the first field whose rendered type differs from the
/// reference (the first field's type): `j` mismatches and every earlier
/// position matches. Such a position is never 0, since the reference
/// trivially matches itself, and there is at most one such position.
pub open spec fn first_mismatch_at(fields: Seq<FieldEntryModel>, j: int) -> bool {
    &&& 0 <= j < fields.len()
    &&& fields[j].type_signature != fields[0].type_signature
    &&& forall|k: int|
        0 <= k < j ==> #[trigger] fields[k].type_signature == fields[0].type_signature
}

/// A record with exactly one field is always uniform, whatever its type:
/// the only field is the reference and trivially matches itself, so the
/// checker accepts it.
pub proof fn lemma_single_field_uniform(fields: Seq<FieldEntryModel>)
    requires
        fields.len() == 1,
    ensures
        uniform_types(fields),
{
}

/// Any number of fields sharing one identical rendered type expression is
/// uniform, so the checker accepts the declaration and passes it through.
pub proof fn lemma_shared_type_uniform(fields: Seq<FieldEntryModel>, t: Seq<char>)
    requires
        fields.len() >= 1,
        forall|i: int| 0 <= i < fields.len() ==> #[trigger] fields[i].type_signature == t,
    ensures
        uniform_types(fields),
{
}

/// Any field whose rendered type differs from the first field's, whatever
/// concrete type either spelling denotes, breaks uniformity: the
/// comparison is textual, not semantic.
pub proof fn lemma_textual_difference_breaks_uniformity(fields: Seq<FieldEntryModel>, j: int)
    requires
        0 <= j < fields.len(),
        fields[j].type_signature != fields[0].type_signature,
    ensures
        !uniform_types(fields),
{
}

/// The first mismatch wins: when the earliest field that differs from the
/// reference stands at position 2 of five, that position is the offending
/// one, and a later differing position, such as 4, is not.
pub proof fn lemma_first_mismatch_wins(fields: Seq<FieldEntryModel>)
    requires
        fields.len() == 5,
        fields[1].type_signature == fields[0].type_signature,
        fields[3].type_signature == fields[0].type_signature,
        fields[2].type_signature != fields[0].type_signature,
        fields[4].type_signature != fields[0].type_signature,
    ensures
        first_mismatch_at(fields, 2),
        !first_mismatch_at(fields, 4),
{
}

/// The reference is the first field, not the majority type: when the last
/// three of four fields agree with each other but not with the first, the
/// offending position is 1, reported against the first field's type.
pub proof fn lemma_reference_is_first(fields: Seq<FieldEntryModel>)
    requires
        fields.len() == 4,
        fields[2].type_signature == fields[1].type_signature,
        fields[3].type_signature == fields[1].type_signature,
        fields[1].type_signature != fields[0].type_signature,
    ensures
        first_mismatch_at(fields, 1),
{
}

/// The offending position is unique: a scan that reports the first
/// mismatch can report only one field.
pub proof fn lemma_first_mismatch_unique(fields: Seq<FieldEntryModel>, i: int, j: int)
    requires
        first_mismatch_at(fields, i),
        first_mismatch_at(fields, j),
    ensures
        i == j,
{
}

/// The diagnostic payload for the first offending field: the position of
/// that field together with the four strings the diagnostic text names.
pub struct Mismatch {
    pub index: usize,
    pub struct_name: String,
    pub reference_type: String,
    pub offending_type: String,
    pub offending_field: String,
}

/// The comparator's verdict on one declaration.
pub enum CheckOutcome {
    /// All fields share the reference type; the declaration passes through
    /// unchanged.
    Accepted(RecordDeclaration),
    /// The first offending field, in declaration order.
    Rejected(Mismatch),
    /// The declaration has no fields, so no reference type exists; this is
    /// outside the documented contract and gets no polished diagnostic.
    Malformed,
}

/// Left-to-right scan that compares each field's rendered type against the
/// reference, the first field's type, and stops at the first difference.
pub fn find_first_mismatch(fields: &Vec<FieldEntry>) -> (r: Option<usize>)
    requires
        fields@.len() >= 1,
    ensures
        r is None <==> uniform_types(fields.deep_view()),
        r matches Some(j) ==> first_mismatch_at(fields.deep_view(), j as int),
{
    let n: usize = fields.len();
    let mut i: usize = 0;
    while i < n
        invariant
            n == fields@.len(),
            1 <= n,
            i <= n,
            forall|k: int|
                0 <= k < i ==> #[trigger] fields.deep_view()[k].type_signature
                    == fields.deep_view()[0].type_signature,
        decreases n - i,
    {
        if !(fields[i].type_signature == fields[0].type_signature) {
            proof {
                assert(fields.deep_view()[i as int].type_signature
                    == fields@[i as int].type_signature@);
                assert(fields.deep_view()[0].type_signature == fields@[0].type_signature@);
            }
            return Some(i);
        }
        i = i + 1;
    }
    None
}

/// The whole comparator: the first field's rendered type is the reference,
/// and the fields are scanned in declaration order. A declaration with no
/// fields is malformed; one whose fields all match the reference is
/// accepted and handed back unchanged; otherwise the first offending field
/// is reported, with the struct name and both rendered types.
pub fn check_record(decl: RecordDeclaration) -> (r: CheckOutcome)
    ensures
        r is Malformed <==> decl@.fields.len() == 0,
        r is Accepted <==> decl@.fields.len() >= 1 && uniform_types(decl@.fields),
        r matches CheckOutcome::Accepted(d) ==> d@ == decl@,
        r matches CheckOutcome::Rejected(m) ==> {
            &&& first_mismatch_at(decl@.fields, m.index as int)
            &&& m.struct_name@ == decl@.name
            &&& m.reference_type@ == decl@.fields[0].type_signature
            &&& m.offending_type@ == decl@.fields[m.index as int].type_signature
            &&& m.offending_field@ == decl@.fields[m.index as int].field_name
        },
{
    if decl.fields.len() == 0 {
        return CheckOutcome::Malformed;
    }
    match find_first_mismatch(&decl.fields) {
        None => CheckOutcome::Accepted(decl),
        Some(j) => {
            let m = Mismatch {
                index: j,
                struct_name: decl.name.clone(),
                reference_type: decl.fields[0].type_signature.clone(),
                offending_type: decl.fields[j].type_signature.clone(),
                offending_field: decl.fields[j].field_name.clone(),
            };
            CheckOutcome::Rejected(m)
        },
    }
}

} // verus!
