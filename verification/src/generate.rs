//! The entry point: classify the shape, select variants where the shape is
//! a union, emit fragments, and aggregate them in order.
//!
//! A record or positional type with exactly one field yields one fragment;
//! any other field count is an arity failure.  A union yields the
//! fragments of its accepted variants in declaration order, possibly none,
//! which is valid.  Any other shape is an unsupported-shape failure.
//! Either failure aborts the invocation with no partial output.

use vstd::prelude::*;
use crate::descriptor::{TypeDescriptor, TypeModel, TypeShape, TypeShapeModel, VariantModel};
use crate::emitter::{
    positional_fragment, record_fragment, spec_positional_fragment, spec_record_fragment,
    spec_variant_fragment, variant_fragment,
};
use crate::error::{ErrorModel, GenerationError};
use crate::fragment::{ConversionFragment, FragmentModel};
use crate::selector::{lemma_accepted_from_variants, select_variants, spec_accepted};

verus! {

/// The fragments the accepted variants emit, in declaration order: one per
/// variant carrying exactly one field, none for the others.
pub open spec fn spec_union_fragments(owner_name: Seq<char>, accepted: Seq<VariantModel>) -> Seq<
    FragmentModel,
>
    decreases accepted.len(),
{
    if accepted.len() == 0 {
        Seq::empty()
    } else {
        spec_union_fragments(owner_name, accepted.drop_last()) + (match spec_variant_fragment(
            owner_name,
            accepted.last(),
        ) {
            Some(fragment) => seq![fragment],
            None => Seq::empty(),
        })
    }
}

/// What generation returns for a descriptor: the emitted fragments in
/// order, or the fatal error that aborts the invocation.
pub open spec fn spec_generate(t: TypeModel) -> Result<Seq<FragmentModel>, ErrorModel> {
    match t.shape {
        TypeShapeModel::Record(fields) => if fields.len() == 1 {
            Ok(seq![spec_record_fragment(t.name, fields[0])])
        } else {
            Err(ErrorModel::ArityError { offender: t.name })
        },
        TypeShapeModel::Positional(fields) => if fields.len() == 1 {
            Ok(seq![spec_positional_fragment(t.name, fields[0])])
        } else {
            Err(ErrorModel::ArityError { offender: t.name })
        },
        TypeShapeModel::Union(variants) => Ok(
            spec_union_fragments(t.name, spec_accepted(variants)),
        ),
        TypeShapeModel::Other => Err(ErrorModel::UnsupportedShapeError { offender: t.name }),
    }
}

/// Emitting for one more accepted variant appends its fragment where it
/// has one, and nothing otherwise.
proof fn lemma_union_fragments_take_step(
    owner_name: Seq<char>,
    accepted: Seq<VariantModel>,
    i: int,
)
    requires
        0 <= i < accepted.len(),
    ensures
        spec_union_fragments(owner_name, accepted.take(i + 1)) == spec_union_fragments(
            owner_name,
            accepted.take(i),
        ) + (match spec_variant_fragment(owner_name, accepted[i]) {
            Some(fragment) => seq![fragment],
            None => Seq::<FragmentModel>::empty(),
        }),
{
    assert(accepted.take(i + 1).drop_last() =~= accepted.take(i));
    assert(accepted.take(i + 1).last() == accepted[i]);
}

/// Generation: classify the descriptor, select and emit, aggregate.  The
/// result is exactly what [`spec_generate`] says of the descriptor's model:
/// the fragments in order on success, the fatal error otherwise.
pub fn simple_from(input: &TypeDescriptor) -> (result: Result<
    Vec<ConversionFragment>,
    GenerationError,
>)
    requires
        input@.wf(),
    ensures
        (match result {
            Ok(fragments) => spec_generate(input@) == Result::<
                Seq<FragmentModel>,
                ErrorModel,
            >::Ok(fragments.deep_view()),
            Err(error) => spec_generate(input@) == Result::<
                Seq<FragmentModel>,
                ErrorModel,
            >::Err(error@),
        }),
{
    match &input.shape {
        TypeShape::Record(fields) => {
            if fields.len() == 1 {
                let mut fragments: Vec<ConversionFragment> = Vec::new();
                fragments.push(record_fragment(&input.name, &fields[0]));
                proof {
                    assert(fragments.deep_view() =~= seq![
                        spec_record_fragment(input@.name, fields.deep_view()[0]),
                    ]);
                }
                Ok(fragments)
            } else {
                Err(GenerationError::ArityError { offender: input.name.clone() })
            }
        },
        TypeShape::Positional(fields) => {
            if fields.len() == 1 {
                let mut fragments: Vec<ConversionFragment> = Vec::new();
                fragments.push(positional_fragment(&input.name, &fields[0]));
                proof {
                    assert(fragments.deep_view() =~= seq![
                        spec_positional_fragment(input@.name, fields.deep_view()[0]),
                    ]);
                }
                Ok(fragments)
            } else {
                Err(GenerationError::ArityError { offender: input.name.clone() })
            }
        },
        TypeShape::Union(variants) => {
            let accepted = select_variants(variants);
            let ghost variant_models: Seq<VariantModel> = variants.deep_view();
            let ghost accepted_models: Seq<VariantModel> = accepted.deep_view();
            proof {
                lemma_accepted_from_variants(variant_models);
                assert forall|k: int| 0 <= k < accepted_models.len() implies (
                #[trigger] accepted_models[k]).wf() by {
                    assert(variant_models.contains(accepted_models[k]));
                    let j = choose|j: int|
                        0 <= j < variant_models.len() && variant_models[j] == accepted_models[k];
                    assert(variant_models[j].wf());
                }
            }
            let mut fragments: Vec<ConversionFragment> = Vec::new();
            let mut i: usize = 0;
            while i < accepted.len()
                invariant
                    i <= accepted.len(),
                    accepted_models == accepted.deep_view(),
                    input@.shape matches TypeShapeModel::Union(vs) && accepted_models
                        == spec_accepted(vs),
                    forall|k: int| 0 <= k < accepted_models.len() ==> (#[trigger] accepted_models[k]).wf(),
                    fragments.deep_view() == spec_union_fragments(
                        input@.name,
                        accepted_models.take(i as int),
                    ),
                decreases accepted.len() - i,
            {
                proof {
                    lemma_union_fragments_take_step(input@.name, accepted_models, i as int);
                }
                let emitted = variant_fragment(&input.name, accepted[i]);
                match emitted {
                    Some(fragment) => {
                        let ghost before = fragments.deep_view();
                        fragments.push(fragment);
                        proof {
                            assert(fragments.deep_view() =~= before + seq![
                                spec_variant_fragment(input@.name, accepted_models[i as int])->0,
                            ]);
                        }
                    },
                    None => {
                        proof {
                            assert(fragments.deep_view() =~= spec_union_fragments(
                                input@.name,
                                accepted_models.take(i as int),
                            ) + Seq::<FragmentModel>::empty());
                        }
                    },
                }
                i += 1;
            }
            proof {
                assert(accepted_models.take(accepted.len() as int) =~= accepted_models);
            }
            Ok(fragments)
        },
        TypeShape::Other => {
            Err(GenerationError::UnsupportedShapeError { offender: input.name.clone() })
        },
    }
}

} // verus!
