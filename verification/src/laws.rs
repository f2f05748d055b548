//! The laws of generation, stated over the specification and proved once
//! for all descriptors.

use vstd::prelude::*;
use crate::descriptor::{TypeModel, TypeShapeModel, VariantModel, VariantShapeModel};
use crate::emitter::{spec_qualified_name, spec_variant_fragment};
use crate::error::ErrorModel;
use crate::fragment::FragmentModel;
use crate::generate::{spec_generate, spec_union_fragments};
use crate::selector::{
    lemma_pass1_membership, lemma_pass2_membership, spec_accepted, spec_any_generate,
    spec_excluded, spec_explicitly_included,
};

verus! {

/// A record or positional type with exactly one field generates exactly
/// one fragment, whose source type is that field's declared type.
pub proof fn lemma_single_field_one_fragment(t: TypeModel)
    requires
        (t.shape matches TypeShapeModel::Record(fields) && fields.len() == 1) || (t.shape matches
        TypeShapeModel::Positional(fields) && fields.len() == 1),
    ensures
        spec_generate(t) is Ok,
        spec_generate(t)->Ok_0.len() == 1,
        (match t.shape {
            TypeShapeModel::Record(fields) => spec_generate(t)->Ok_0[0].source_type == fields[
                0].type_ref,
            TypeShapeModel::Positional(fields) => spec_generate(t)->Ok_0[0].source_type == fields[
                0].type_ref,
            _ => false,
        }),
{
}

/// A record or positional type with zero fields, or with two or more,
/// fails with the arity error and generates nothing.
pub proof fn lemma_wrong_arity_fails(t: TypeModel)
    requires
        (t.shape matches TypeShapeModel::Record(fields) && fields.len() != 1) || (t.shape matches
        TypeShapeModel::Positional(fields) && fields.len() != 1),
    ensures
        spec_generate(t) == Result::<Seq<FragmentModel>, ErrorModel>::Err(
            ErrorModel::ArityError { offender: t.name },
        ),
{
}

/// A shape that is neither record, positional nor union fails with the
/// unsupported-shape error and generates nothing.
pub proof fn lemma_other_shape_fails(t: TypeModel)
    requires
        t.shape is Other,
    ensures
        spec_generate(t) == Result::<Seq<FragmentModel>, ErrorModel>::Err(
            ErrorModel::UnsupportedShapeError { offender: t.name },
        ),
{
}

/// Precedence: where at least one variant carries the `generate` tag, the
/// accepted sequence holds exactly the `generate`-tagged variants — every
/// accepted variant carries the tag and comes from the union, and every
/// tagged variant is accepted — whatever `not_generate` tags stand
/// elsewhere.
pub proof fn lemma_explicit_inclusion_precedence(variants: Seq<VariantModel>)
    requires
        spec_any_generate(variants),
    ensures
        forall|k: int|
            0 <= k < spec_accepted(variants).len() ==> spec_explicitly_included(
                #[trigger] spec_accepted(variants)[k],
            ) && variants.contains(spec_accepted(variants)[k]),
        forall|i: int|
            0 <= i < variants.len() && spec_explicitly_included(#[trigger] variants[i])
                ==> spec_accepted(variants).contains(variants[i]),
{
    lemma_pass1_membership(variants);
}

/// Implicit inclusion: where no variant carries the `generate` tag, the
/// accepted sequence holds exactly the variants not carrying the
/// `not_generate` tag.
pub proof fn lemma_implicit_inclusion_by_exclusion(variants: Seq<VariantModel>)
    requires
        !spec_any_generate(variants),
    ensures
        forall|k: int|
            0 <= k < spec_accepted(variants).len() ==> !spec_excluded(
                #[trigger] spec_accepted(variants)[k],
            ) && variants.contains(spec_accepted(variants)[k]),
        forall|i: int|
            0 <= i < variants.len() && !spec_excluded(#[trigger] variants[i]) ==> spec_accepted(
                variants,
            ).contains(variants[i]),
{
    lemma_pass2_membership(variants);
}

/// An accepted variant emits exactly one fragment where it carries exactly
/// one field, and none where it carries zero fields or two or more.
pub proof fn lemma_variant_fragment_arity(owner_name: Seq<char>, v: VariantModel)
    ensures
        v.field_count() == 1 <==> spec_variant_fragment(owner_name, v) is Some,
{
}

/// The output guarantee for a variant's fragment: its source type equals
/// the single field's declared type, and its target is the variant's fully
/// qualified name.
pub proof fn lemma_variant_fragment_output(owner_name: Seq<char>, v: VariantModel)
    requires
        v.field_count() == 1,
    ensures
        spec_variant_fragment(owner_name, v) is Some,
        (match v.shape {
            VariantShapeModel::Record(fields) => spec_variant_fragment(
                owner_name,
                v,
            )->0.source_type == fields[0].type_ref,
            VariantShapeModel::Positional(fields) => spec_variant_fragment(
                owner_name,
                v,
            )->0.source_type == fields[0].type_ref,
            VariantShapeModel::Unit => false,
        }),
        spec_variant_fragment(owner_name, v)->0.target_type == spec_qualified_name(
            owner_name,
            v.variant_name,
        ),
{
}

/// How many of the given variants carry exactly one field.
pub open spec fn spec_convertible_count(variants: Seq<VariantModel>) -> nat
    decreases variants.len(),
{
    if variants.len() == 0 {
        0
    } else {
        spec_convertible_count(variants.drop_last()) + (if variants.last().field_count() == 1 {
            1nat
        } else {
            0nat
        })
    }
}

/// A union's accepted variants emit one fragment per variant carrying
/// exactly one field, and nothing else: the aggregate count is the count
/// of such variants.
pub proof fn lemma_one_fragment_per_convertible_variant(
    owner_name: Seq<char>,
    accepted: Seq<VariantModel>,
)
    ensures
        spec_union_fragments(owner_name, accepted).len() == spec_convertible_count(accepted),
    decreases accepted.len(),
{
    if accepted.len() == 0 {
    } else {
        lemma_one_fragment_per_convertible_variant(owner_name, accepted.drop_last());
    }
}

/// Generation is a pure function of the descriptor: any two results of
/// generation on the same unmodified descriptor are identical.
pub proof fn lemma_generation_deterministic(
    t: TypeModel,
    first: Result<Seq<FragmentModel>, ErrorModel>,
    second: Result<Seq<FragmentModel>, ErrorModel>,
)
    requires
        first == spec_generate(t),
        second == spec_generate(t),
    ensures
        first == second,
{
}

} // verus!
