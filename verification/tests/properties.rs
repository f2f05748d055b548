//! The generator's stated behaviour on concrete descriptors: one scenario
//! per rule, the error cases, and idempotence.

use from_wrap::descriptor::{FieldDescriptor, TypeDescriptor, TypeShape, VariantDescriptor, VariantShape};
use from_wrap::error::GenerationError;
use from_wrap::fragment::{ConstructionForm, ConversionFragment};
use from_wrap::generate::simple_from;

fn named(type_ref: &str, field_name: &str) -> FieldDescriptor {
    FieldDescriptor { type_ref: type_ref.to_owned(), field_name: Some(field_name.to_owned()) }
}

fn bare(type_ref: &str) -> FieldDescriptor {
    FieldDescriptor { type_ref: type_ref.to_owned(), field_name: None }
}

fn case(name: &str, shape: VariantShape, tags: &[&str]) -> VariantDescriptor {
    VariantDescriptor {
        variant_name: name.to_owned(),
        shape,
        tags: tags.iter().map(|tag| (*tag).to_owned()).collect(),
    }
}

#[test]
fn record_single_text_field() {
    let descriptor = TypeDescriptor {
        name: "Note".to_owned(),
        shape: TypeShape::Record(vec![named("Text", "body")]),
    };
    let fragments = simple_from(&descriptor).unwrap();
    assert_eq!(fragments.len(), 1);
    assert_eq!(fragments[0].source_type, "Text");
    assert_eq!(fragments[0].target_type, "Note");
    assert_eq!(
        fragments[0].construction_form,
        ConstructionForm::RecordConstruction("body".to_owned())
    );
}

#[test]
fn positional_single_integer_field() {
    let descriptor = TypeDescriptor {
        name: "Count".to_owned(),
        shape: TypeShape::Positional(vec![bare("Integer")]),
    };
    let fragments = simple_from(&descriptor).unwrap();
    assert_eq!(
        fragments,
        vec![ConversionFragment {
            source_type: "Integer".to_owned(),
            target_type: "Count".to_owned(),
            construction_form: ConstructionForm::PositionalConstruction,
        }]
    );
}

#[test]
fn union_untagged_variants_in_declaration_order() {
    let descriptor = TypeDescriptor {
        name: "Value".to_owned(),
        shape: TypeShape::Union(vec![
            case("Str", VariantShape::Positional(vec![bare("Text")]), &[]),
            case("Int", VariantShape::Positional(vec![bare("Integer")]), &[]),
        ]),
    };
    let fragments = simple_from(&descriptor).unwrap();
    assert_eq!(fragments.len(), 2);
    assert_eq!(fragments[0].source_type, "Text");
    assert_eq!(fragments[0].target_type, "Value::Str");
    assert_eq!(fragments[1].source_type, "Integer");
    assert_eq!(fragments[1].target_type, "Value::Int");
}

#[test]
fn union_generate_tag_overrides_not_generate() {
    let descriptor = TypeDescriptor {
        name: "Choice".to_owned(),
        shape: TypeShape::Union(vec![
            case("A", VariantShape::Positional(vec![bare("Text")]), &["generate"]),
            case("B", VariantShape::Positional(vec![bare("Integer")]), &[]),
            case("C", VariantShape::Positional(vec![bare("Flag")]), &["not_generate"]),
        ]),
    };
    let fragments = simple_from(&descriptor).unwrap();
    assert_eq!(
        fragments,
        vec![ConversionFragment {
            source_type: "Text".to_owned(),
            target_type: "Choice::A".to_owned(),
            construction_form: ConstructionForm::VariantPositionalConstruction("A".to_owned()),
        }]
    );
}

#[test]
fn union_single_unit_variant_emits_nothing() {
    let descriptor = TypeDescriptor {
        name: "Marker".to_owned(),
        shape: TypeShape::Union(vec![case("Nothing", VariantShape::Unit, &[])]),
    };
    let fragments = simple_from(&descriptor).unwrap();
    assert_eq!(fragments, vec![]);
}

#[test]
fn record_two_fields_is_an_arity_error() {
    let descriptor = TypeDescriptor {
        name: "Pair".to_owned(),
        shape: TypeShape::Record(vec![named("Integer", "a"), named("Integer", "b")]),
    };
    let error = simple_from(&descriptor).unwrap_err();
    assert_eq!(error, GenerationError::ArityError { offender: "Pair".to_owned() });
}

#[test]
fn record_zero_fields_is_an_arity_error() {
    let descriptor = TypeDescriptor {
        name: "Empty".to_owned(),
        shape: TypeShape::Record(vec![]),
    };
    let error = simple_from(&descriptor).unwrap_err();
    assert_eq!(error, GenerationError::ArityError { offender: "Empty".to_owned() });
}

#[test]
fn positional_two_fields_is_an_arity_error() {
    let descriptor = TypeDescriptor {
        name: "Twin".to_owned(),
        shape: TypeShape::Positional(vec![bare("Integer"), bare("Integer")]),
    };
    let error = simple_from(&descriptor).unwrap_err();
    assert_eq!(error, GenerationError::ArityError { offender: "Twin".to_owned() });
}

#[test]
fn other_shape_is_unsupported() {
    let descriptor = TypeDescriptor { name: "Bare".to_owned(), shape: TypeShape::Other };
    let error = simple_from(&descriptor).unwrap_err();
    assert_eq!(error, GenerationError::UnsupportedShapeError { offender: "Bare".to_owned() });
}

#[test]
fn error_messages_name_the_offending_type_and_rule() {
    let arity = GenerationError::ArityError { offender: "Pair".to_owned() };
    assert_eq!(arity.offending_type().as_str(), "Pair");
    assert_eq!(
        arity.message(),
        "Pair: conversion generation is defined for exactly one field"
    );
    let unsupported = GenerationError::UnsupportedShapeError { offender: "Bare".to_owned() };
    assert_eq!(
        unsupported.message(),
        "Bare: conversion generation is defined for record, positional and union shapes only"
    );
}

#[test]
fn unrecognized_tags_are_ignored() {
    let descriptor = TypeDescriptor {
        name: "Odd".to_owned(),
        shape: TypeShape::Union(vec![
            case("Keep", VariantShape::Positional(vec![bare("Text")]), &["frobnicate"]),
        ]),
    };
    let fragments = simple_from(&descriptor).unwrap();
    assert_eq!(fragments.len(), 1);
    assert_eq!(fragments[0].target_type, "Odd::Keep");
}

#[test]
fn multi_field_variants_are_skipped_not_fatal() {
    let descriptor = TypeDescriptor {
        name: "Wide".to_owned(),
        shape: TypeShape::Union(vec![
            case("Two", VariantShape::Positional(vec![bare("Integer"), bare("Integer")]), &[]),
            case("One", VariantShape::Positional(vec![bare("Text")]), &[]),
        ]),
    };
    let fragments = simple_from(&descriptor).unwrap();
    assert_eq!(fragments.len(), 1);
    assert_eq!(fragments[0].target_type, "Wide::One");
}

#[test]
fn duplicate_inner_types_emit_duplicate_fragments() {
    let descriptor = TypeDescriptor {
        name: "Either".to_owned(),
        shape: TypeShape::Union(vec![
            case("Left", VariantShape::Positional(vec![bare("Integer")]), &[]),
            case("Right", VariantShape::Positional(vec![bare("Integer")]), &[]),
        ]),
    };
    let fragments = simple_from(&descriptor).unwrap();
    assert_eq!(fragments.len(), 2);
    assert_eq!(fragments[0].source_type, "Integer");
    assert_eq!(fragments[1].source_type, "Integer");
    assert_ne!(fragments[0].target_type, fragments[1].target_type);
}

#[test]
fn generation_is_idempotent() {
    let descriptor = TypeDescriptor {
        name: "Value".to_owned(),
        shape: TypeShape::Union(vec![
            case("Str", VariantShape::Record(vec![named("Text", "s")]), &["generate"]),
            case("Int", VariantShape::Positional(vec![bare("Integer")]), &[]),
            case("Nothing", VariantShape::Unit, &["not_generate"]),
        ]),
    };
    let first = simple_from(&descriptor);
    let second = simple_from(&descriptor);
    assert_eq!(first, second);
}
