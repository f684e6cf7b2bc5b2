//! The schema as the renderer reads it: models, fields, attributes.
//!
//! These are plain values. Whoever parses and validates a schema hands the
//! result over in this form, keeping declaration order at every level.

use vstd::prelude::*;

verus! {

/// An annotation attached to a field. Only its name matters to the renderer.
#[derive(Clone, Debug, PartialEq, Eq)]
pub struct Attribute {
    pub name: String,
}

/// The type of a field: the name it resolved to, or the token that the
/// schema gave for a type it does not support.
#[derive(Clone, Debug, PartialEq, Eq)]
pub enum FieldType {
    Supported(String),
    Unsupported(String),
}

/// A named, typed member of a model.
#[derive(Clone, Debug, PartialEq, Eq)]
pub struct Field {
    pub name: String,
    pub field_type: FieldType,
    pub attributes: Vec<Attribute>,
}

/// A named entity with its fields in declaration order.
#[derive(Clone, Debug, PartialEq, Eq)]
pub struct Model {
    pub name: String,
    pub fields: Vec<Field>,
}

/// The models of a schema in declaration order.
#[derive(Clone, Debug, PartialEq, Eq)]
pub struct Schema {
    pub models: Vec<Model>,
}

/// The value of an [`Attribute`].
pub struct AttributeView {
    pub name: Seq<char>,
}

/// The value of a [`FieldType`].
pub enum FieldTypeView {
    Supported(Seq<char>),
    Unsupported(Seq<char>),
}

/// The value of a [`Field`].
pub struct FieldView {
    pub name: Seq<char>,
    pub field_type: FieldTypeView,
    pub attributes: Seq<AttributeView>,
}

/// The value of a [`Model`].
pub struct ModelView {
    pub name: Seq<char>,
    pub fields: Seq<FieldView>,
}

/// The value of a [`Schema`].
pub struct SchemaView {
    pub models: Seq<ModelView>,
}

/// The values of a sequence of attributes, in order.
pub open spec fn attributes_view(attributes: Seq<Attribute>) -> Seq<AttributeView> {
    Seq::new(attributes.len(), |i: int| attributes[i]@)
}

/// The values of a sequence of fields, in order.
pub open spec fn fields_view(fields: Seq<Field>) -> Seq<FieldView> {
    Seq::new(fields.len(), |i: int| fields[i]@)
}

/// The values of a sequence of models, in order.
pub open spec fn models_view(models: Seq<Model>) -> Seq<ModelView> {
    Seq::new(models.len(), |i: int| models[i]@)
}

impl View for Attribute {
    type V = AttributeView;

    open spec fn view(&self) -> AttributeView {
        AttributeView { name: self.name@ }
    }
}

impl View for FieldType {
    type V = FieldTypeView;

    open spec fn view(&self) -> FieldTypeView {
        match self {
            FieldType::Supported(name) => FieldTypeView::Supported(name@),
            FieldType::Unsupported(token) => FieldTypeView::Unsupported(token@),
        }
    }
}

impl View for Field {
    type V = FieldView;

    open spec fn view(&self) -> FieldView {
        FieldView {
            name: self.name@,
            field_type: self.field_type@,
            attributes: attributes_view(self.attributes@),
        }
    }
}

impl View for Model {
    type V = ModelView;

    open spec fn view(&self) -> ModelView {
        ModelView { name: self.name@, fields: fields_view(self.fields@) }
    }
}

impl View for Schema {
    type V = SchemaView;

    open spec fn view(&self) -> SchemaView {
        SchemaView { models: models_view(self.models@) }
    }
}

impl FieldTypeView {
    /// The text shown as the column's datatype: the resolved name, or the
    /// unsupported token as it stands.
    pub open spec fn datatype(self) -> Seq<char> {
        match self {
            FieldTypeView::Supported(name) => name,
            FieldTypeView::Unsupported(token) => token,
        }
    }
}

impl SchemaView {
    /// Every model has a name and no two models share one.
    pub open spec fn well_formed(self) -> bool {
        &&& forall|i: int| 0 <= i < self.models.len() ==> (#[trigger] self.models[i]).name.len() > 0
        &&& forall|i: int, j: int|
            0 <= i < j < self.models.len() ==> (#[trigger] self.models[i]).name != (
            #[trigger] self.models[j]).name
    }
}

impl FieldType {
    /// The text shown as the column's datatype.
    pub fn datatype(&self) -> (name: &String)
        ensures
            name@ == self@.datatype(),
    {
        match self {
            FieldType::Supported(name) => name,
            FieldType::Unsupported(token) => token,
        }
    }
}

} // verus!
