//! A verified traversal framework for an interface-definition-language
//! schema model: structs and enums with their fields, constants and
//! attributes are walked depth-first in a fixed order, dispatching to
//! overridable visitor hooks.

mod laws;
mod model;
mod recording;
mod trace;
mod visitor;

pub use laws::declared_fields;
pub use laws::dispatch_event;
pub use laws::dispatch_events;
pub use laws::dispatch_schedule;
pub use laws::event_kind;
pub use laws::events_of_kind;
pub use laws::is_dispatch_event;
pub use laws::lemma_base_visited_once_before_fields;
pub use laws::lemma_declarations_dispatched_in_order;
pub use laws::lemma_fields_visited_in_order;
pub use laws::lemma_struct_attributes_after_fields;
pub use laws::own_fields;
pub use laws::NodeKind;
pub use model::Attribute;
pub use model::Enum;
pub use model::EnumConstant;
pub use model::Field;
pub use model::Schema;
pub use model::Struct;
pub use model::Type;
pub use model::UserType;
pub use recording::RecordingVisitor;
pub use trace::base_trace;
pub use trace::declaration_trace;
pub use trace::declarations_trace;
pub use trace::enum_attributes_trace;
pub use trace::enum_constants_trace;
pub use trace::events_view;
pub use trace::fields_trace;
pub use trace::schema_trace;
pub use trace::struct_attributes_trace;
pub use trace::struct_trace;
pub use trace::Event;
pub use trace::EventView;
pub use visitor::DefaultVisitor;
pub use visitor::Visitor;
