use ensure_uniform_type::check::{check_record, CheckOutcome};
use ensure_uniform_type::message::diagnostic_message;
use ensure_uniform_type::record::{FieldEntry, RecordDeclaration};

fn field(name: &str, ty: &str) -> FieldEntry {
    FieldEntry { field_name: String::from(name), type_signature: String::from(ty) }
}

fn record(name: &str, fields: Vec<FieldEntry>) -> RecordDeclaration {
    RecordDeclaration { name: String::from(name), fields }
}

#[test]
fn single_field_always_accepted() {
    let types = ["u32", "T", "Vec < Box < u8 > >", "MyOwnAlias"];
    for ty in types {
        let decl = record("Solo", vec![field("only", ty)]);
        assert!(matches!(check_record(decl), CheckOutcome::Accepted(_)));
    }
}

#[test]
fn uniform_fields_accepted() {
    let decl = record(
        "Quad",
        vec![field("a", "T"), field("b", "T"), field("c", "T"), field("d", "T")],
    );
    assert!(matches!(check_record(decl), CheckOutcome::Accepted(_)));
}

#[test]
fn accepted_declaration_is_unchanged() {
    let decl = record("Pair", vec![field("x", "T"), field("not_offending", "T")]);
    match check_record(decl) {
        CheckOutcome::Accepted(d) => {
            assert_eq!(d.name, "Pair");
            assert_eq!(d.fields.len(), 2);
            assert_eq!(d.fields[0].field_name, "x");
            assert_eq!(d.fields[0].type_signature, "T");
            assert_eq!(d.fields[1].field_name, "not_offending");
            assert_eq!(d.fields[1].type_signature, "T");
        }
        _ => panic!("uniform declaration was not accepted"),
    }
}

#[test]
fn first_mismatch_is_reported() {
    let decl = record(
        "Mixed",
        vec![
            field("a", "T"),
            field("b", "T"),
            field("c", "U"),
            field("d", "T"),
            field("e", "V"),
        ],
    );
    match check_record(decl) {
        CheckOutcome::Rejected(m) => {
            assert_eq!(m.index, 2);
            assert_eq!(m.struct_name, "Mixed");
            assert_eq!(m.reference_type, "T");
            assert_eq!(m.offending_type, "U");
            assert_eq!(m.offending_field, "c");
        }
        _ => panic!("mixed declaration was not rejected"),
    }
}

#[test]
fn reference_is_first_not_majority() {
    let decl = record(
        "Majority",
        vec![field("a", "U"), field("b", "T"), field("c", "T"), field("d", "T")],
    );
    match check_record(decl) {
        CheckOutcome::Rejected(m) => {
            assert_eq!(m.index, 1);
            assert_eq!(m.reference_type, "U");
            assert_eq!(m.offending_type, "T");
            assert_eq!(m.offending_field, "b");
        }
        _ => panic!("majority declaration was not rejected"),
    }
}

#[test]
fn alias_spelling_is_a_mismatch() {
    let decl = record("Lengths", vec![field("len", "usize"), field("cap", "SizeAlias")]);
    match check_record(decl) {
        CheckOutcome::Rejected(m) => {
            assert_eq!(m.offending_type, "SizeAlias");
            assert_eq!(m.offending_field, "cap");
        }
        _ => panic!("alias spelling was not rejected"),
    }
}

#[test]
fn zero_fields_is_malformed() {
    let decl = record("Empty", Vec::new());
    assert!(matches!(check_record(decl), CheckOutcome::Malformed));
}

#[test]
fn diagnostic_message_has_exact_shape() {
    let decl = record("Example", vec![field("x", "T"), field("offending", "u32")]);
    match check_record(decl) {
        CheckOutcome::Rejected(m) => {
            let msg = diagnostic_message(&m);
            assert_eq!(
                msg,
                "Struct Example has fields of different types. Expected uniform use of T, \
                 found u32 in field offending."
            );
        }
        _ => panic!("mismatching declaration was not rejected"),
    }
}
