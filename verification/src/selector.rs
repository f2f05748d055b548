//! The variant selector: which variants of a union receive a conversion.
//!
//! Two tags are recognized.  A first pass collects every variant carrying
//! the `generate` tag; only if that pass finds none does a second pass
//! collect every variant not carrying the `not_generate` tag.  Explicit
//! inclusion therefore takes precedence, and `not_generate` tags beside any
//! `generate` tag are silently ignored.  Declaration order is kept.

use vstd::prelude::*;
use crate::descriptor::{VariantDescriptor, VariantModel};

verus! {

/// The tag that explicitly includes a variant.
pub open spec fn generate_tag() -> Seq<char> {
    "generate"@
}

/// The tag that excludes a variant where no `generate` tag exists.
pub open spec fn not_generate_tag() -> Seq<char> {
    "not_generate"@
}

/// Whether the variant carries the given tag.
pub open spec fn spec_has_tag(v: VariantModel, tag: Seq<char>) -> bool {
    v.tags.contains(tag)
}

/// Whether the variant is explicitly included by the `generate` tag.
pub open spec fn spec_explicitly_included(v: VariantModel) -> bool {
    spec_has_tag(v, generate_tag())
}

/// Whether the variant is excluded by the `not_generate` tag, where the
/// second pass runs at all.
pub open spec fn spec_excluded(v: VariantModel) -> bool {
    spec_has_tag(v, not_generate_tag())
}

/// Whether any variant of the union carries the `generate` tag.
pub open spec fn spec_any_generate(variants: Seq<VariantModel>) -> bool {
    exists|i: int| 0 <= i < variants.len() && spec_explicitly_included(#[trigger] variants[i])
}

/// The first pass: the variants carrying the `generate` tag, in
/// declaration order.
pub open spec fn spec_pass1(variants: Seq<VariantModel>) -> Seq<VariantModel>
    decreases variants.len(),
{
    if variants.len() == 0 {
        Seq::empty()
    } else {
        let rest = spec_pass1(variants.drop_last());
        if spec_explicitly_included(variants.last()) {
            rest.push(variants.last())
        } else {
            rest
        }
    }
}

/// The second pass: the variants not carrying the `not_generate` tag, in
/// declaration order.
pub open spec fn spec_pass2(variants: Seq<VariantModel>) -> Seq<VariantModel>
    decreases variants.len(),
{
    if variants.len() == 0 {
        Seq::empty()
    } else {
        let rest = spec_pass2(variants.drop_last());
        if !spec_excluded(variants.last()) {
            rest.push(variants.last())
        } else {
            rest
        }
    }
}

/// The accepted variants of a union: the first pass where it finds
/// anything, the second pass otherwise.
pub open spec fn spec_accepted(variants: Seq<VariantModel>) -> Seq<VariantModel> {
    if spec_any_generate(variants) {
        spec_pass1(variants)
    } else {
        spec_pass2(variants)
    }
}

/// Extending the scanned prefix by one variant extends the first pass by
/// that variant exactly where it carries the `generate` tag.
pub proof fn lemma_pass1_take_step(variants: Seq<VariantModel>, i: int)
    requires
        0 <= i < variants.len(),
    ensures
        spec_pass1(variants.take(i + 1)) == (if spec_explicitly_included(variants[i]) {
            spec_pass1(variants.take(i)).push(variants[i])
        } else {
            spec_pass1(variants.take(i))
        }),
{
    assert(variants.take(i + 1).drop_last() =~= variants.take(i));
    assert(variants.take(i + 1).last() == variants[i]);
}

/// Extending the scanned prefix by one variant extends the second pass by
/// that variant exactly where it lacks the `not_generate` tag.
pub proof fn lemma_pass2_take_step(variants: Seq<VariantModel>, i: int)
    requires
        0 <= i < variants.len(),
    ensures
        spec_pass2(variants.take(i + 1)) == (if !spec_excluded(variants[i]) {
            spec_pass2(variants.take(i)).push(variants[i])
        } else {
            spec_pass2(variants.take(i))
        }),
{
    assert(variants.take(i + 1).drop_last() =~= variants.take(i));
    assert(variants.take(i + 1).last() == variants[i]);
}

/// The first pass finds something if and only if some variant carries the
/// `generate` tag.
pub proof fn lemma_pass1_empty_iff_no_generate(variants: Seq<VariantModel>)
    ensures
        spec_pass1(variants).len() == 0 <==> !spec_any_generate(variants),
    decreases variants.len(),
{
    if variants.len() == 0 {
    } else {
        let rest = variants.drop_last();
        lemma_pass1_empty_iff_no_generate(rest);
        assert(forall|i: int| 0 <= i < rest.len() ==> rest[i] == variants[i]);
        if spec_explicitly_included(variants.last()) {
            assert(spec_any_generate(variants));
        } else {
            assert(spec_any_generate(variants) ==> spec_any_generate(rest)) by {
                if spec_any_generate(variants) {
                    let i = choose|i: int|
                        0 <= i < variants.len() && spec_explicitly_included(variants[i]);
                    assert(i < rest.len() && spec_explicitly_included(rest[i]));
                }
            }
        }
    }
}

/// Every variant the first pass keeps carries the `generate` tag and stands
/// in the scanned sequence; every variant carrying the tag is kept.
pub proof fn lemma_pass1_membership(variants: Seq<VariantModel>)
    ensures
        forall|k: int|
            0 <= k < spec_pass1(variants).len() ==> spec_explicitly_included(
                #[trigger] spec_pass1(variants)[k],
            ) && variants.contains(spec_pass1(variants)[k]),
        forall|i: int|
            0 <= i < variants.len() && spec_explicitly_included(#[trigger] variants[i])
                ==> spec_pass1(variants).contains(variants[i]),
    decreases variants.len(),
{
    if variants.len() == 0 {
    } else {
        let rest = variants.drop_last();
        let kept = spec_pass1(variants);
        let kept_rest = spec_pass1(rest);
        lemma_pass1_membership(rest);
        assert(forall|i: int| 0 <= i < rest.len() ==> rest[i] == variants[i]);
        assert forall|k: int| 0 <= k < kept.len() implies spec_explicitly_included(
            #[trigger] kept[k],
        ) && variants.contains(kept[k]) by {
            if k < kept_rest.len() {
                assert(kept[k] == kept_rest[k]);
                let j = choose|j: int| 0 <= j < rest.len() && rest[j] == kept_rest[k];
                assert(variants[j] == kept[k]);
            } else {
                assert(kept[k] == variants.last());
                assert(variants[variants.len() - 1] == variants.last());
            }
        }
        assert forall|i: int|
            0 <= i < variants.len() && spec_explicitly_included(
                #[trigger] variants[i],
            ) implies kept.contains(variants[i]) by {
            if i < rest.len() {
                assert(kept_rest.contains(rest[i]));
                let k = choose|k: int| 0 <= k < kept_rest.len() && kept_rest[k] == rest[i];
                assert(kept[k] == variants[i]);
            } else {
                assert(kept[kept.len() - 1] == variants[i]);
            }
        }
    }
}

/// Every variant the second pass keeps lacks the `not_generate` tag and
/// stands in the scanned sequence; every variant lacking the tag is kept.
pub proof fn lemma_pass2_membership(variants: Seq<VariantModel>)
    ensures
        forall|k: int|
            0 <= k < spec_pass2(variants).len() ==> !spec_excluded(
                #[trigger] spec_pass2(variants)[k],
            ) && variants.contains(spec_pass2(variants)[k]),
        forall|i: int|
            0 <= i < variants.len() && !spec_excluded(#[trigger] variants[i]) ==> spec_pass2(
                variants,
            ).contains(variants[i]),
    decreases variants.len(),
{
    if variants.len() == 0 {
    } else {
        let rest = variants.drop_last();
        let kept = spec_pass2(variants);
        let kept_rest = spec_pass2(rest);
        lemma_pass2_membership(rest);
        assert(forall|i: int| 0 <= i < rest.len() ==> rest[i] == variants[i]);
        assert forall|k: int| 0 <= k < kept.len() implies !spec_excluded(#[trigger] kept[k])
            && variants.contains(kept[k]) by {
            if k < kept_rest.len() {
                assert(kept[k] == kept_rest[k]);
                let j = choose|j: int| 0 <= j < rest.len() && rest[j] == kept_rest[k];
                assert(variants[j] == kept[k]);
            } else {
                assert(kept[k] == variants.last());
                assert(variants[variants.len() - 1] == variants.last());
            }
        }
        assert forall|i: int|
            0 <= i < variants.len() && !spec_excluded(#[trigger] variants[i]) implies kept.contains(
            variants[i],
        ) by {
            if i < rest.len() {
                assert(kept_rest.contains(rest[i]));
                let k = choose|k: int| 0 <= k < kept_rest.len() && kept_rest[k] == rest[i];
                assert(kept[k] == variants[i]);
            } else {
                assert(kept[kept.len() - 1] == variants[i]);
            }
        }
    }
}

/// Every accepted variant stands in the scanned sequence.
pub proof fn lemma_accepted_from_variants(variants: Seq<VariantModel>)
    ensures
        forall|k: int|
            0 <= k < spec_accepted(variants).len() ==> variants.contains(
                #[trigger] spec_accepted(variants)[k],
            ),
{
    lemma_pass1_membership(variants);
    lemma_pass2_membership(variants);
}

/// Whether the variant carries the given tag.
pub fn has_tag(variant: &VariantDescriptor, tag: &String) -> (found: bool)
    ensures
        found == spec_has_tag(variant@, tag@),
{
    let mut j: usize = 0;
    while j < variant.tags.len()
        invariant
            j <= variant.tags.len(),
            forall|k: int| 0 <= k < j ==> variant@.tags[k] != tag@,
        decreases variant.tags.len() - j,
    {
        if variant.tags[j] == *tag {
            proof {
                assert(variant@.tags[j as int] == tag@);
            }
            return true;
        }
        j += 1;
    }
    false
}

/// The selector: the accepted variants of a union, in declaration order,
/// under the two-pass precedence policy.
pub fn select_variants<'a>(variants: &'a Vec<VariantDescriptor>) -> (accepted: Vec<
    &'a VariantDescriptor,
>)
    ensures
        accepted.deep_view() == spec_accepted(variants.deep_view()),
{
    let ghost all: Seq<VariantModel> = variants.deep_view();
    let generate_name: String = "generate".to_owned();
    let mut accepted: Vec<&'a VariantDescriptor> = Vec::new();

    let mut i: usize = 0;
    while i < variants.len()
        invariant
            i <= variants.len(),
            all == variants.deep_view(),
            generate_name@ == generate_tag(),
            accepted.deep_view() == spec_pass1(all.take(i as int)),
        decreases variants.len() - i,
    {
        proof {
            lemma_pass1_take_step(all, i as int);
        }
        if has_tag(&variants[i], &generate_name) {
            let ghost before = accepted.deep_view();
            accepted.push(&variants[i]);
            proof {
                assert(accepted.deep_view() =~= before.push(all[i as int]));
            }
        }
        i += 1;
    }
    proof {
        assert(all.take(variants.len() as int) =~= all);
        lemma_pass1_empty_iff_no_generate(all);
    }

    if accepted.len() == 0 {
        let not_generate_name: String = "not_generate".to_owned();
        let mut i: usize = 0;
        while i < variants.len()
            invariant
                i <= variants.len(),
                all == variants.deep_view(),
                not_generate_name@ == not_generate_tag(),
                !spec_any_generate(all),
                accepted.deep_view() == spec_pass2(all.take(i as int)),
            decreases variants.len() - i,
        {
            proof {
                lemma_pass2_take_step(all, i as int);
            }
            if !has_tag(&variants[i], &not_generate_name) {
                let ghost before = accepted.deep_view();
                accepted.push(&variants[i]);
                proof {
                    assert(accepted.deep_view() =~= before.push(all[i as int]));
                }
            }
            i += 1;
        }
        proof {
            assert(all.take(variants.len() as int) =~= all);
        }
    }
    accepted
}

} // verus!
