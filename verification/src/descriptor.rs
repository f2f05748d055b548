//! The structural description of an annotated type, as the outer parser
//! hands it to the generator, together with its mathematical model.

use vstd::prelude::*;

verus! {

/// One field of a record-style or positional shape: the name of its declared
/// type, and the field's own name where the shape is record-style.
pub struct FieldDescriptor {
    /// The field's declared type, as the parser spelled it.
    pub type_ref: String,
    /// The field's name: present for record-style fields, absent for
    /// positional ones.
    pub field_name: Option<String>,
}

/// The mathematical value of a [`FieldDescriptor`].
pub struct FieldModel {
    /// The field's declared type.
    pub type_ref: Seq<char>,
    /// The field's name, where the enclosing shape is record-style.
    pub field_name: Option<Seq<char>>,
}

impl View for FieldDescriptor {
    type V = FieldModel;

    open spec fn view(&self) -> FieldModel {
        FieldModel { type_ref: self.type_ref@, field_name: self.field_name.deep_view() }
    }
}

impl DeepView for FieldDescriptor {
    type V = FieldModel;

    open spec fn deep_view(&self) -> FieldModel {
        self.view()
    }
}

/// The structural shape of one union variant: record-style named fields,
/// positional fields, or no fields at all.
pub enum VariantShape {
    /// Named fields, built by naming each field.
    Record(Vec<FieldDescriptor>),
    /// Unnamed, order-based fields.
    Positional(Vec<FieldDescriptor>),
    /// A value-less, unit-like case.
    Unit,
}

/// The mathematical value of a [`VariantShape`].
pub enum VariantShapeModel {
    /// Named fields.
    Record(Seq<FieldModel>),
    /// Unnamed, order-based fields.
    Positional(Seq<FieldModel>),
    /// A value-less case.
    Unit,
}

impl View for VariantShape {
    type V = VariantShapeModel;

    open spec fn view(&self) -> VariantShapeModel {
        match self {
            VariantShape::Record(fields) => VariantShapeModel::Record(fields.deep_view()),
            VariantShape::Positional(fields) => VariantShapeModel::Positional(fields.deep_view()),
            VariantShape::Unit => VariantShapeModel::Unit,
        }
    }
}

impl DeepView for VariantShape {
    type V = VariantShapeModel;

    open spec fn deep_view(&self) -> VariantShapeModel {
        self.view()
    }
}

/// One case of a union: its name, its structural shape, and the metadata
/// tags attached to it.
pub struct VariantDescriptor {
    /// The variant's name.
    pub variant_name: String,
    /// The variant's structural shape, fields included.
    pub shape: VariantShape,
    /// The metadata tags attached to this variant; order carries no meaning.
    pub tags: Vec<String>,
}

/// The mathematical value of a [`VariantDescriptor`].
pub struct VariantModel {
    /// The variant's name.
    pub variant_name: Seq<char>,
    /// The variant's structural shape.
    pub shape: VariantShapeModel,
    /// The metadata tags attached to this variant.
    pub tags: Seq<Seq<char>>,
}

impl View for VariantDescriptor {
    type V = VariantModel;

    open spec fn view(&self) -> VariantModel {
        VariantModel {
            variant_name: self.variant_name@,
            shape: self.shape@,
            tags: self.tags.deep_view(),
        }
    }
}

impl DeepView for VariantDescriptor {
    type V = VariantModel;

    open spec fn deep_view(&self) -> VariantModel {
        self.view()
    }
}

/// The structural shape of a whole annotated type.
pub enum TypeShape {
    /// A record with named fields.
    Record(Vec<FieldDescriptor>),
    /// A positional type with unnamed, order-based fields.
    Positional(Vec<FieldDescriptor>),
    /// A tagged union with a fixed set of variants.
    Union(Vec<VariantDescriptor>),
    /// Any other shape; the generator rejects it.
    Other,
}

/// The mathematical value of a [`TypeShape`].
pub enum TypeShapeModel {
    /// A record with named fields.
    Record(Seq<FieldModel>),
    /// A positional type.
    Positional(Seq<FieldModel>),
    /// A tagged union.
    Union(Seq<VariantModel>),
    /// Any other shape.
    Other,
}

impl View for TypeShape {
    type V = TypeShapeModel;

    open spec fn view(&self) -> TypeShapeModel {
        match self {
            TypeShape::Record(fields) => TypeShapeModel::Record(fields.deep_view()),
            TypeShape::Positional(fields) => TypeShapeModel::Positional(fields.deep_view()),
            TypeShape::Union(variants) => TypeShapeModel::Union(variants.deep_view()),
            TypeShape::Other => TypeShapeModel::Other,
        }
    }
}

impl DeepView for TypeShape {
    type V = TypeShapeModel;

    open spec fn deep_view(&self) -> TypeShapeModel {
        self.view()
    }
}

/// The annotated type handed to the generator: its name and its shape.
pub struct TypeDescriptor {
    /// The type's name.
    pub name: String,
    /// The type's structural shape, fields or variants included.
    pub shape: TypeShape,
}

/// The mathematical value of a [`TypeDescriptor`].
pub struct TypeModel {
    /// The type's name.
    pub name: Seq<char>,
    /// The type's structural shape.
    pub shape: TypeShapeModel,
}

impl View for TypeDescriptor {
    type V = TypeModel;

    open spec fn view(&self) -> TypeModel {
        TypeModel { name: self.name@, shape: self.shape@ }
    }
}

impl DeepView for TypeDescriptor {
    type V = TypeModel;

    open spec fn deep_view(&self) -> TypeModel {
        self.view()
    }
}

/// Every record-style field carries a name.
pub open spec fn record_fields_named(fields: Seq<FieldModel>) -> bool {
    forall|i: int| 0 <= i < fields.len() ==> (#[trigger] fields[i].field_name) is Some
}

/// No positional field carries a name.
pub open spec fn positional_fields_unnamed(fields: Seq<FieldModel>) -> bool {
    forall|i: int| 0 <= i < fields.len() ==> (#[trigger] fields[i].field_name) is None
}

impl VariantModel {
    /// The descriptor invariant the outer parser guarantees: field names are
    /// present exactly on record-style fields.
    pub open spec fn wf(self) -> bool {
        match self.shape {
            VariantShapeModel::Record(fields) => record_fields_named(fields),
            VariantShapeModel::Positional(fields) => positional_fields_unnamed(fields),
            VariantShapeModel::Unit => true,
        }
    }

    /// How many fields the variant carries.
    pub open spec fn field_count(self) -> nat {
        match self.shape {
            VariantShapeModel::Record(fields) => fields.len(),
            VariantShapeModel::Positional(fields) => fields.len(),
            VariantShapeModel::Unit => 0,
        }
    }
}

impl TypeModel {
    /// The descriptor invariant the outer parser guarantees: field names are
    /// present exactly on record-style fields, in the type itself and in
    /// every variant of a union.
    pub open spec fn wf(self) -> bool {
        match self.shape {
            TypeShapeModel::Record(fields) => record_fields_named(fields),
            TypeShapeModel::Positional(fields) => positional_fields_unnamed(fields),
            TypeShapeModel::Union(variants) => forall|i: int|
                0 <= i < variants.len() ==> (#[trigger] variants[i]).wf(),
            TypeShapeModel::Other => true,
        }
    }
}

} // verus!
