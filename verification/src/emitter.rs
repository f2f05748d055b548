//! The conversion emitter: one fragment per accepted shape.
//!
//! A whole record or positional type with its single field becomes one
//! fragment.  An accepted union variant becomes one fragment where it
//! carries exactly one field; a value-less variant has no source type to
//! convert from, and a variant with two or more fields is skipped, so
//! neither emits anything.  Skipping is deliberate and silent: it is
//! per-variant, where the whole-type arity check fails loudly instead.

use vstd::prelude::*;
use vstd::pervasive::unreached;
use vstd::string::StringExecFns;
use crate::descriptor::{FieldDescriptor, FieldModel, VariantDescriptor, VariantModel, VariantShape, VariantShapeModel};
use crate::fragment::{ConstructionForm, ConversionFragment, FormModel, FragmentModel};

verus! {

/// A union variant's fully qualified name: the owning type's name, the
/// path separator, then the variant's name.
pub open spec fn spec_qualified_name(owner_name: Seq<char>, variant_name: Seq<char>) -> Seq<char> {
    owner_name + "::"@ + variant_name
}

/// The fragment for a whole record type with its single field.
pub open spec fn spec_record_fragment(owner_name: Seq<char>, field: FieldModel) -> FragmentModel
    recommends
        field.field_name is Some,
{
    FragmentModel {
        source_type: field.type_ref,
        target_type: owner_name,
        construction_form: FormModel::RecordConstruction(field.field_name->0),
    }
}

/// The fragment for a whole positional type with its single field.
pub open spec fn spec_positional_fragment(owner_name: Seq<char>, field: FieldModel) -> FragmentModel {
    FragmentModel {
        source_type: field.type_ref,
        target_type: owner_name,
        construction_form: FormModel::PositionalConstruction,
    }
}

/// What one accepted union variant emits: exactly one fragment where the
/// variant carries exactly one field, nothing otherwise.
pub open spec fn spec_variant_fragment(owner_name: Seq<char>, v: VariantModel) -> Option<
    FragmentModel,
> {
    match v.shape {
        VariantShapeModel::Record(fields) => if fields.len() == 1 {
            Some(
                FragmentModel {
                    source_type: fields[0].type_ref,
                    target_type: spec_qualified_name(owner_name, v.variant_name),
                    construction_form: FormModel::VariantRecordConstruction(
                        v.variant_name,
                        fields[0].field_name->0,
                    ),
                },
            )
        } else {
            None
        },
        VariantShapeModel::Positional(fields) => if fields.len() == 1 {
            Some(
                FragmentModel {
                    source_type: fields[0].type_ref,
                    target_type: spec_qualified_name(owner_name, v.variant_name),
                    construction_form: FormModel::VariantPositionalConstruction(v.variant_name),
                },
            )
        } else {
            None
        },
        VariantShapeModel::Unit => None,
    }
}

/// A union variant's fully qualified name.
pub fn qualified_name(owner_name: &String, variant_name: &String) -> (name: String)
    ensures
        name@ == spec_qualified_name(owner_name@, variant_name@),
{
    let name = owner_name.clone().concat("::").concat(variant_name.as_str());
    proof {
        assert(name@ =~= spec_qualified_name(owner_name@, variant_name@));
    }
    name
}

/// The field's name, which a well-formed record-style field always carries.
fn field_name_of(field: &FieldDescriptor) -> (name: String)
    requires
        field@.field_name is Some,
    ensures
        name@ == field@.field_name->0,
{
    match &field.field_name {
        Some(name) => name.clone(),
        None => unreached(),
    }
}

/// The fragment for a whole record type: build the target by naming its
/// single field.
pub fn record_fragment(owner_name: &String, field: &FieldDescriptor) -> (fragment:
    ConversionFragment)
    requires
        field@.field_name is Some,
    ensures
        fragment@ == spec_record_fragment(owner_name@, field@),
{
    ConversionFragment {
        source_type: field.type_ref.clone(),
        target_type: owner_name.clone(),
        construction_form: ConstructionForm::RecordConstruction(field_name_of(field)),
    }
}

/// The fragment for a whole positional type: build the target by position.
pub fn positional_fragment(owner_name: &String, field: &FieldDescriptor) -> (fragment:
    ConversionFragment)
    ensures
        fragment@ == spec_positional_fragment(owner_name@, field@),
{
    ConversionFragment {
        source_type: field.type_ref.clone(),
        target_type: owner_name.clone(),
        construction_form: ConstructionForm::PositionalConstruction,
    }
}

/// What one accepted union variant emits: a fragment for a single carried
/// field, nothing for a value-less or multi-field variant.
pub fn variant_fragment(owner_name: &String, variant: &VariantDescriptor) -> (emitted: Option<
    ConversionFragment,
>)
    requires
        variant@.wf(),
    ensures
        emitted.deep_view() == spec_variant_fragment(owner_name@, variant@),
{
    match &variant.shape {
        VariantShape::Record(fields) => {
            if fields.len() == 1 {
                let field = &fields[0];
                Some(
                    ConversionFragment {
                        source_type: field.type_ref.clone(),
                        target_type: qualified_name(owner_name, &variant.variant_name),
                        construction_form: ConstructionForm::VariantRecordConstruction(
                            variant.variant_name.clone(),
                            field_name_of(field),
                        ),
                    },
                )
            } else {
                None
            }
        },
        VariantShape::Positional(fields) => {
            if fields.len() == 1 {
                let field = &fields[0];
                Some(
                    ConversionFragment {
                        source_type: field.type_ref.clone(),
                        target_type: qualified_name(owner_name, &variant.variant_name),
                        construction_form: ConstructionForm::VariantPositionalConstruction(
                            variant.variant_name.clone(),
                        ),
                    },
                )
            } else {
                None
            }
        },
        VariantShape::Unit => None,
    }
}

} // verus!
