use vstd::prelude::*;
use vstd::string::StringExecFns;
use crate::check::Mismatch;

verus! {

/// The exact text of the uniformity diagnostic, as a function of the four
/// strings it names: the struct's name, the reference type (the first
/// field's rendered type), the offending rendered type, and the offending
/// field's name.
pub open spec fn diagnostic_text(
    struct_name: Seq<char>,
    reference_type: Seq<char>,
    offending_type: Seq<char>,
    offending_field: Seq<char>,
) -> Seq<char> {
    "Struct "@ + struct_name + " has fields of different types. Expected uniform use of "@
        + reference_type + ", found "@ + offending_type + " in field "@ + offending_field + "."@
}

/// Renders the diagnostic text for one mismatch.
pub fn diagnostic_message(m: &Mismatch) -> (s: String)
    ensures
        s@ == diagnostic_text(
            m.struct_name@,
            m.reference_type@,
            m.offending_type@,
            m.offending_field@,
        ),
{
    let mut s: String = String::new();
    s.append("Struct ");
    s.append(m.struct_name.as_str());
    s.append(" has fields of different types. Expected uniform use of ");
    s.append(m.reference_type.as_str());
    s.append(", found ");
    s.append(m.offending_type.as_str());
    s.append(" in field ");
    s.append(m.offending_field.as_str());
    s.append(".");
    proof {
        assert(s@ =~= diagnostic_text(
            m.struct_name@,
            m.reference_type@,
            m.offending_type@,
            m.offending_field@,
        ));
    }
    s
}

} // verus!
