use vstd::prelude::*;
use crate::record::{FieldEntry, RecordDeclaration, RecordModel};
use crate::check::{check_record, first_mismatch_at, uniform_types, CheckOutcome};
use crate::message::{diagnostic_message, diagnostic_text};

verus! {

/// Raw token streams of `proc_macro2` carry the surface syntax of a
/// declaration in and out of the checker; the library treats them as
/// opaque handles.
#[verifier::external_type_specification]
#[verifier::external_body]
pub struct ExTokenStream(proc_macro2::TokenStream);

/// The parsed syntax tree of a struct item, as `syn` holds it. The library
/// reads it only through the trusted functions below.
#[verifier::external_type_specification]
#[verifier::external_body]
pub struct ExItemStruct(syn::ItemStruct);

/// A parse error of `syn`.
#[verifier::external_type_specification]
#[verifier::external_body]
pub struct ExSynError(syn::Error);

/// A declaration outside the documented contract. These inputs are
/// programmer misuse and get an unrecoverable failure rather than the
/// polished uniformity diagnostic.
#[derive(Debug)]
pub enum ShapeViolation {
    /// The input is not a struct declaration at all.
    NotARecord,
    /// The declaration's fields are positional or absent: a tuple struct
    /// or a unit-like struct.
    UnnamedFields,
    /// A named-field declaration with zero fields, so no reference type
    /// exists.
    NoFields,
}

/// What `syn::parse2` makes of the given tokens: parsing is a function of
/// the tokens alone.
pub uninterp spec fn parse_of(item: proc_macro2::TokenStream) -> Result<
    syn::ItemStruct,
    syn::Error,
>;

/// The record a parsed struct item denotes, if its fields are named:
/// the struct's name and, in declaration order, each field's name and
/// rendered type. `None` stands for a positional or absent field list.
/// A function of the item alone.
pub uninterp spec fn item_record(item: syn::ItemStruct) -> Option<RecordModel>;

/// The re-serialized tokens of a parsed struct item: a function of the
/// item alone.
pub uninterp spec fn tokens_of(item: syn::ItemStruct) -> proc_macro2::TokenStream;

/// The compile-error tokens for the given item and message: a function of
/// the two alone.
pub uninterp spec fn error_tokens_of(
    item: syn::ItemStruct,
    message: Seq<char>,
) -> proc_macro2::TokenStream;

/// Relies on `syn::parse2`: parses the raw tokens as one struct item and
/// fails on any other construct, never panicking.
#[verifier::external_body]
fn parse_item_struct(item: proc_macro2::TokenStream) -> (r: Result<syn::ItemStruct, syn::Error>)
    ensures
        r == parse_of(item),
{
    syn::parse2(item)
}

/// Relies on the shape of `syn::ItemStruct`: `ident` is the struct's name,
/// `fields` tells named fields from positional or absent ones, and quote's
/// `ToTokens` renders each field's declared type back to its canonical
/// textual form. Returns `None` for any field shape other than named
/// fields.
#[verifier::external_body]
fn record_of_item(item: &syn::ItemStruct) -> (r: Option<RecordDeclaration>)
    ensures
        r is Some <==> item_record(*item) is Some,
        r matches Some(d) ==> item_record(*item) == Some(d@),
{
    let named = match &item.fields {
        syn::Fields::Named(f) => &f.named,
        _ => return None,
    };
    let mut fields: Vec<FieldEntry> = Vec::new();
    for f in named.iter() {
        let ident = f.ident.as_ref()?;
        let rendered = quote::ToTokens::to_token_stream(&f.ty).to_string();
        fields.push(FieldEntry { field_name: ident.to_string(), type_signature: rendered });
    }
    Some(RecordDeclaration { name: item.ident.to_string(), fields })
}

/// Relies on quote's `ToTokens` for `syn::ItemStruct`: re-serializes the
/// declaration exactly as `syn` holds it, so the passthrough emits what
/// was received.
#[verifier::external_body]
fn declaration_tokens(item: &syn::ItemStruct) -> (r: proc_macro2::TokenStream)
    ensures
        r == tokens_of(*item),
{
    quote::ToTokens::to_token_stream(item)
}

/// Relies on `syn::Error::new_spanned` and `syn::Error::to_compile_error`:
/// a compile-time diagnostic carrying the given message, anchored to the
/// span of the whole declaration.
#[verifier::external_body]
fn compile_error_tokens(item: &syn::ItemStruct, message: &str) -> (r: proc_macro2::TokenStream)
    ensures
        r == error_tokens_of(*item, message@),
{
    syn::Error::new_spanned(item, message).to_compile_error()
}

/// What the checker returns for one raw declaration, case by case: input
/// that does not parse as a struct, then positional or absent fields, then
/// an empty named-field list all fail unrecoverably with their shape
/// violation; a uniform declaration passes through as its own tokens; and
/// otherwise exactly one diagnostic is emitted in the declaration's place,
/// carrying the template text for the first offending field. Attribute
/// arguments play no part: the result is a function of `item` alone.
pub open spec fn expansion_of(
    item: proc_macro2::TokenStream,
    r: Result<proc_macro2::TokenStream, ShapeViolation>,
) -> bool {
    match parse_of(item) {
        Err(_) => r == Err::<proc_macro2::TokenStream, ShapeViolation>(ShapeViolation::NotARecord),
        Ok(s) => match item_record(s) {
            None => r == Err::<proc_macro2::TokenStream, ShapeViolation>(
                ShapeViolation::UnnamedFields,
            ),
            Some(rec) => if rec.fields.len() == 0 {
                r == Err::<proc_macro2::TokenStream, ShapeViolation>(ShapeViolation::NoFields)
            } else if uniform_types(rec.fields) {
                r == Ok::<proc_macro2::TokenStream, ShapeViolation>(tokens_of(s))
            } else {
                exists|j: int|
                    #[trigger] first_mismatch_at(rec.fields, j) && r == Ok::<
                        proc_macro2::TokenStream,
                        ShapeViolation,
                    >(
                        error_tokens_of(
                            s,
                            diagnostic_text(
                                rec.name,
                                rec.fields[0].type_signature,
                                rec.fields[j].type_signature,
                                rec.fields[j].field_name,
                            ),
                        ),
                    )
            },
        },
    }
}

/// The checker is a pure function of the declaration tokens alone: any two
/// results it can return for the same tokens are equal, whatever the
/// attribute arguments were and however many times it is invoked.
pub proof fn lemma_expansion_deterministic(
    item: proc_macro2::TokenStream,
    r1: Result<proc_macro2::TokenStream, ShapeViolation>,
    r2: Result<proc_macro2::TokenStream, ShapeViolation>,
)
    requires
        expansion_of(item, r1),
        expansion_of(item, r2),
    ensures
        r1 == r2,
{
    match parse_of(item) {
        Ok(s) => match item_record(s) {
            Some(rec) => {
                if rec.fields.len() > 0 && !uniform_types(rec.fields) {
                    let j1 = choose|j: int|
                        #[trigger] first_mismatch_at(rec.fields, j) && r1 == Ok::<
                            proc_macro2::TokenStream,
                            ShapeViolation,
                        >(
                            error_tokens_of(
                                s,
                                diagnostic_text(
                                    rec.name,
                                    rec.fields[0].type_signature,
                                    rec.fields[j].type_signature,
                                    rec.fields[j].field_name,
                                ),
                            ),
                        );
                    let j2 = choose|j: int|
                        #[trigger] first_mismatch_at(rec.fields, j) && r2 == Ok::<
                            proc_macro2::TokenStream,
                            ShapeViolation,
                        >(
                            error_tokens_of(
                                s,
                                diagnostic_text(
                                    rec.name,
                                    rec.fields[0].type_signature,
                                    rec.fields[j].type_signature,
                                    rec.fields[j].field_name,
                                ),
                            ),
                        );
                    crate::check::lemma_first_mismatch_unique(rec.fields, j1, j2);
                }
            },
            None => {},
        },
        Err(_) => {},
    }
}

/// The whole checker, as the host build process invokes it once per
/// annotated declaration: parse the declaration, compare every field's
/// rendered type against the first field's, and either re-emit the
/// declaration unchanged or emit a single compile-time diagnostic in its
/// place. A declaration outside the documented contract comes back as
/// `Err`, for the caller to fail on unrecoverably. Attribute arguments are
/// accepted and ignored.
pub fn ensure_uniform_type(
    _attr: proc_macro2::TokenStream,
    item: proc_macro2::TokenStream,
) -> (r: Result<proc_macro2::TokenStream, ShapeViolation>)
    ensures
        expansion_of(item, r),
{
    let parsed = match parse_item_struct(item) {
        Ok(p) => p,
        Err(_) => return Err(ShapeViolation::NotARecord),
    };
    let decl = match record_of_item(&parsed) {
        Some(d) => d,
        None => return Err(ShapeViolation::UnnamedFields),
    };
    match check_record(decl) {
        CheckOutcome::Accepted(_) => Ok(declaration_tokens(&parsed)),
        CheckOutcome::Rejected(m) => {
            let msg = diagnostic_message(&m);
            proof {
                assert(first_mismatch_at(item_record(parsed)->Some_0.fields, m.index as int));
            }
            Ok(compile_error_tokens(&parsed, msg.as_str()))
        },
        CheckOutcome::Malformed => Err(ShapeViolation::NoFields),
    }
}

} // verus!
