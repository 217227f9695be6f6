//! The traversal engine: one overridable hook per node kind and per
//! collection kind, each defaulting to "do nothing but recurse into
//! children". A backend overrides only the hooks it cares about;
//! overriding a composite hook replaces its whole default body, so an
//! override that wants the subtree visited must re-invoke the child
//! dispatches itself.

use vstd::prelude::*;

use crate::model::Attribute;
use crate::model::Enum;
use crate::model::EnumConstant;
use crate::model::Field;
use crate::model::Schema;
use crate::model::Struct;
use crate::model::Type;
use crate::model::UserType;

verus! {

/// The extension surface of the traversal engine. Every hook has a
/// default body: composite hooks dispatch to their children in document
/// order, leaf hooks do nothing. The `default_ensures` clauses hold
/// only where the default body is inherited; an override is free to
/// replace the behavior entirely.
pub trait Visitor: Sized {
    /// Entry point: visits a whole schema by dispatching to
    /// `visit_declarations` on its declaration sequence.
    fn visit_schema(&mut self, schema: &Schema) {
        self.visit_declarations(schema.declarations())
    }

    /// Visits each top-level declaration in order, dispatching by
    /// variant to `visit_struct` or `visit_enum`.
    fn visit_declarations(&mut self, declarations: &Vec<UserType>) {
        for i in 0..declarations.len() {
            match &declarations[i] {
                UserType::Struct(declaration) => {
                    self.visit_struct(declaration);
                }
                UserType::Enum(declaration) => {
                    self.visit_enum(declaration);
                }
            }
        }
    }

    /// Visits a struct: its base type if present, then its fields,
    /// then its struct-level attributes.
    fn visit_struct(&mut self, declaration: &Struct) {
        if let Some(base) = declaration.base() {
            self.visit_base(base);
        }
        self.visit_fields(declaration.fields());
        self.visit_struct_attributes(declaration.attributes());
    }

    /// Leaf hook for a struct's base type reference.
    fn visit_base(&mut self, declaration: &Type)
        default_ensures
            *final(self) == *old(self),
    {
    }

    /// Visits each field in order, dispatching `visit_field` on each.
    fn visit_fields(&mut self, fields: &Vec<Field>) {
        for i in 0..fields.len() {
            self.visit_field(&fields[i]);
        }
    }

    /// Leaf hook for a single field.
    fn visit_field(&mut self, field: &Field)
        default_ensures
            *final(self) == *old(self),
    {
    }

    /// Visits each struct-level attribute in order, dispatching
    /// `visit_struct_attribute` on each.
    fn visit_struct_attributes(&mut self, attributes: &Vec<Attribute>) {
        for i in 0..attributes.len() {
            self.visit_struct_attribute(&attributes[i]);
        }
    }

    /// Leaf hook for a single struct-level attribute.
    fn visit_struct_attribute(&mut self, attribute: &Attribute)
        default_ensures
            *final(self) == *old(self),
    {
    }

    /// Visits an enum: its constants, then its enum-level attributes.
    fn visit_enum(&mut self, declaration: &Enum) {
        self.visit_enum_constants(declaration.constants());
        self.visit_enum_attributes(declaration.attributes());
    }

    /// Visits each enum constant in order, dispatching
    /// `visit_enum_constant` on each.
    fn visit_enum_constants(&mut self, constants: &Vec<EnumConstant>) {
        for i in 0..constants.len() {
            self.visit_enum_constant(&constants[i]);
        }
    }

    /// Leaf hook for a single enum constant.
    fn visit_enum_constant(&mut self, constant: &EnumConstant)
        default_ensures
            *final(self) == *old(self),
    {
    }

    /// Visits each enum-level attribute in order, dispatching
    /// `visit_enum_attribute` on each.
    fn visit_enum_attributes(&mut self, attributes: &Vec<Attribute>) {
        for i in 0..attributes.len() {
            self.visit_enum_attribute(&attributes[i]);
        }
    }

    /// Leaf hook for a single enum-level attribute.
    fn visit_enum_attribute(&mut self, attribute: &Attribute)
        default_ensures
            *final(self) == *old(self),
    {
    }
}

/// The fully default visitor: it overrides nothing, carries no state,
/// and so traverses any schema without an observable effect.
pub struct DefaultVisitor;

impl Visitor for DefaultVisitor {
}

} // verus!
