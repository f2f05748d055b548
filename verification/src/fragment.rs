//! The generator's output unit: one conversion fragment per accepted shape,
//! together with its mathematical model.

use vstd::prelude::*;

verus! {

/// How the target value is built from the incoming value.
#[derive(Debug, PartialEq, Eq)]
pub enum ConstructionForm {
    /// Build the whole record by naming its single field.
    RecordConstruction(String),
    /// Build the whole positional type by position.
    PositionalConstruction,
    /// Build one record-style union variant: the variant's name, then the
    /// name of its single field.
    VariantRecordConstruction(String, String),
    /// Build one positional union variant: the variant's name.
    VariantPositionalConstruction(String),
}

/// The mathematical value of a [`ConstructionForm`].
pub enum FormModel {
    /// Build the whole record by naming its single field.
    RecordConstruction(Seq<char>),
    /// Build the whole positional type by position.
    PositionalConstruction,
    /// Build one record-style union variant.
    VariantRecordConstruction(Seq<char>, Seq<char>),
    /// Build one positional union variant.
    VariantPositionalConstruction(Seq<char>),
}

impl View for ConstructionForm {
    type V = FormModel;

    open spec fn view(&self) -> FormModel {
        match self {
            ConstructionForm::RecordConstruction(field_name) => FormModel::RecordConstruction(
                field_name@,
            ),
            ConstructionForm::PositionalConstruction => FormModel::PositionalConstruction,
            ConstructionForm::VariantRecordConstruction(variant_name, field_name) => {
                FormModel::VariantRecordConstruction(variant_name@, field_name@)
            },
            ConstructionForm::VariantPositionalConstruction(variant_name) => {
                FormModel::VariantPositionalConstruction(variant_name@)
            },
        }
    }
}

impl DeepView for ConstructionForm {
    type V = FormModel;

    open spec fn deep_view(&self) -> FormModel {
        self.view()
    }
}

/// One emitted conversion: wrap an incoming value of `source_type` into the
/// target shape named by `target_type`.
#[derive(Debug, PartialEq, Eq)]
pub struct ConversionFragment {
    /// The inner field's declared type: the conversion's input.
    pub source_type: String,
    /// The constructed type's name, qualified by the variant's name where
    /// the target is one union variant.
    pub target_type: String,
    /// How the target value is built.
    pub construction_form: ConstructionForm,
}

/// The mathematical value of a [`ConversionFragment`].
pub struct FragmentModel {
    /// The conversion's input type.
    pub source_type: Seq<char>,
    /// The constructed type's name, qualified by the variant's name where
    /// the target is one union variant.
    pub target_type: Seq<char>,
    /// How the target value is built.
    pub construction_form: FormModel,
}

impl View for ConversionFragment {
    type V = FragmentModel;

    open spec fn view(&self) -> FragmentModel {
        FragmentModel {
            source_type: self.source_type@,
            target_type: self.target_type@,
            construction_form: self.construction_form@,
        }
    }
}

impl DeepView for ConversionFragment {
    type V = FragmentModel;

    open spec fn deep_view(&self) -> FragmentModel {
        self.view()
    }
}

} // verus!
