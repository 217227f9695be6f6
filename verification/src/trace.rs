//! The canonical trace of a traversal: a mathematical description of
//! which hooks the default traversal invokes, on which nodes, in which
//! order. Contracts of concrete visitors and the traversal laws are
//! stated over these spec functions.

use vstd::prelude::*;

use crate::model::Attribute;
use crate::model::Enum;
use crate::model::EnumConstant;
use crate::model::Field;
use crate::model::Schema;
use crate::model::Struct;
use crate::model::Type;
use crate::model::UserType;

verus! {

/// One observed hook invocation, as recorded by a recording visitor:
/// which node kind was dispatched, and the name of the node.
#[derive(Debug, PartialEq, Eq, Clone)]
pub enum Event {
    /// `visit_struct` was dispatched on a struct with this name.
    Struct(String),
    /// `visit_base` was dispatched on a base type with this name.
    Base(String),
    /// `visit_field` was dispatched on a field with this name.
    Field(String),
    /// `visit_struct_attribute` was dispatched on an attribute with
    /// this name.
    StructAttribute(String),
    /// `visit_enum` was dispatched on an enum with this name.
    Enum(String),
    /// `visit_enum_constant` was dispatched on a constant with this
    /// name.
    EnumConstant(String),
    /// `visit_enum_attribute` was dispatched on an attribute with this
    /// name.
    EnumAttribute(String),
}

/// The mathematical value of an [`Event`]: the same variants over
/// character sequences.
pub enum EventView {
    Struct(Seq<char>),
    Base(Seq<char>),
    Field(Seq<char>),
    StructAttribute(Seq<char>),
    Enum(Seq<char>),
    EnumConstant(Seq<char>),
    EnumAttribute(Seq<char>),
}

impl View for Event {
    type V = EventView;

    open spec fn view(&self) -> EventView {
        match self {
            Event::Struct(name) => EventView::Struct(name@),
            Event::Base(name) => EventView::Base(name@),
            Event::Field(name) => EventView::Field(name@),
            Event::StructAttribute(name) => EventView::StructAttribute(name@),
            Event::Enum(name) => EventView::Enum(name@),
            Event::EnumConstant(name) => EventView::EnumConstant(name@),
            Event::EnumAttribute(name) => EventView::EnumAttribute(name@),
        }
    }
}

/// The mathematical value of a recorded event list.
pub open spec fn events_view(events: Seq<Event>) -> Seq<EventView> {
    events.map_values(|e: Event| e@)
}

/// The trace of visiting an optional base type: one `Base` event when
/// present, nothing otherwise.
pub open spec fn base_trace(base: Option<Type>) -> Seq<EventView> {
    match base {
        Some(t) => seq![EventView::Base(t@)],
        None => Seq::empty(),
    }
}

/// The trace of visiting a field sequence: one `Field` event per
/// field, in order.
pub open spec fn fields_trace(fields: Seq<Field>) -> Seq<EventView> {
    fields.map_values(|f: Field| EventView::Field(f@))
}

/// The trace of visiting a struct-level attribute sequence.
pub open spec fn struct_attributes_trace(attributes: Seq<Attribute>) -> Seq<EventView> {
    attributes.map_values(|a: Attribute| EventView::StructAttribute(a@))
}

/// The trace of visiting one struct: the entry event, then its base
/// type if present, then its fields, then its attributes.
pub open spec fn struct_trace(declaration: Struct) -> Seq<EventView> {
    seq![EventView::Struct(declaration.name@)] + base_trace(declaration.base)
        + fields_trace(declaration.fields@) + struct_attributes_trace(declaration.attributes@)
}

/// The trace of visiting an enum constant sequence.
pub open spec fn enum_constants_trace(constants: Seq<EnumConstant>) -> Seq<EventView> {
    constants.map_values(|c: EnumConstant| EventView::EnumConstant(c@))
}

/// The trace of visiting an enum-level attribute sequence.
pub open spec fn enum_attributes_trace(attributes: Seq<Attribute>) -> Seq<EventView> {
    attributes.map_values(|a: Attribute| EventView::EnumAttribute(a@))
}

/// The trace of visiting one enum: the entry event, then its
/// constants, then its attributes.
pub open spec fn enum_trace(declaration: Enum) -> Seq<EventView> {
    seq![EventView::Enum(declaration.name@)] + enum_constants_trace(declaration.constants@)
        + enum_attributes_trace(declaration.attributes@)
}

/// The trace of visiting one declaration, by variant.
pub open spec fn declaration_trace(declaration: UserType) -> Seq<EventView> {
    match declaration {
        UserType::Struct(s) => struct_trace(s),
        UserType::Enum(e) => enum_trace(e),
    }
}

/// The trace of visiting a declaration sequence, in order.
pub open spec fn declarations_trace(declarations: Seq<UserType>) -> Seq<EventView>
    decreases declarations.len(),
{
    if declarations.len() == 0 {
        Seq::empty()
    } else {
        declaration_trace(declarations[0]) + declarations_trace(declarations.skip(1))
    }
}

/// The trace of a whole traversal of a schema.
pub open spec fn schema_trace(schema: Schema) -> Seq<EventView> {
    declarations_trace(schema.declarations@)
}

/// Appending one declaration to a sequence appends that declaration's
/// trace to the sequence's trace.
pub proof fn lemma_declarations_trace_push(declarations: Seq<UserType>, declaration: UserType)
    ensures
        declarations_trace(declarations.push(declaration)) == declarations_trace(declarations)
            + declaration_trace(declaration),
    decreases declarations.len(),
{
    let p = declarations.push(declaration);
    if declarations.len() == 0 {
        assert(p[0] == declaration);
        assert(p.skip(1) =~= Seq::<UserType>::empty());
        assert(declarations_trace(p.skip(1)) == Seq::<EventView>::empty());
        assert(declarations_trace(p) == declaration_trace(declaration) + Seq::<
            EventView,
        >::empty());
        assert(declarations_trace(p) =~= declarations_trace(declarations) + declaration_trace(
            declaration,
        ));
    } else {
        assert(p[0] == declarations[0]);
        assert(p.skip(1) =~= declarations.skip(1).push(declaration));
        lemma_declarations_trace_push(declarations.skip(1), declaration);
        assert(declarations_trace(p) == declaration_trace(declarations[0]) + declarations_trace(
            p.skip(1),
        ));
        assert(declarations_trace(declarations) == declaration_trace(declarations[0])
            + declarations_trace(declarations.skip(1)));
        assert(declarations_trace(p) =~= declarations_trace(declarations) + declaration_trace(
            declaration,
        ));
    }
}

} // verus!
