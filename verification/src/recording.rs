//! A visitor that records every hook invocation it observes. Its
//! contracts pin the recorded sequence to the canonical trace, so it
//! doubles as the executable witness of the traversal order.

use vstd::prelude::*;

use crate::model::Attribute;
use crate::model::Enum;
use crate::model::EnumConstant;
use crate::model::Field;
use crate::model::Schema;
use crate::model::Struct;
use crate::model::Type;
use crate::model::UserType;
use crate::trace::declarations_trace;
use crate::trace::enum_attributes_trace;
use crate::trace::enum_constants_trace;
use crate::trace::enum_trace;
use crate::trace::events_view;
use crate::trace::fields_trace;
use crate::trace::lemma_declarations_trace_push;
use crate::trace::schema_trace;
use crate::trace::struct_attributes_trace;
use crate::trace::struct_trace;
use crate::trace::Event;
use crate::trace::EventView;
use crate::visitor::Visitor;

verus! {

/// A concrete visitor that appends one [`Event`] per dispatched node
/// to its event list, following the default traversal order exactly.
pub struct RecordingVisitor {
    pub events: Vec<Event>,
}

proof fn lemma_events_view_push(events: Seq<Event>, event: Event)
    ensures
        events_view(events.push(event)) == events_view(events) + seq![event@],
{
    assert(events_view(events.push(event)) =~= events_view(events) + seq![event@]);
}

impl RecordingVisitor {
    /// Creates a recorder with an empty event list.
    pub fn new() -> (r: RecordingVisitor)
        ensures
            r.events@ == Seq::<Event>::empty(),
    {
        RecordingVisitor { events: Vec::new() }
    }

    /// The events recorded so far, in the order they were observed.
    pub fn events(&self) -> (r: &Vec<Event>)
        ensures
            r == self.events,
    {
        &self.events
    }
}

impl Visitor for RecordingVisitor {
    fn visit_schema(&mut self, schema: &Schema)
        ensures
            events_view(final(self).events@) == events_view(old(self).events@) + schema_trace(
                *schema,
            ),
    {
        self.visit_declarations(schema.declarations())
    }

    fn visit_declarations(&mut self, declarations: &Vec<UserType>)
        ensures
            events_view(final(self).events@) == events_view(old(self).events@)
                + declarations_trace(declarations@),
    {
        for i in 0..declarations.len()
            invariant
                events_view(self.events@) == events_view(old(self).events@) + declarations_trace(
                    declarations@.take(i as int),
                ),
        {
            match &declarations[i] {
                UserType::Struct(declaration) => {
                    self.visit_struct(declaration);
                }
                UserType::Enum(declaration) => {
                    self.visit_enum(declaration);
                }
            }
            proof {
                assert(declarations@.take(i as int + 1) =~= declarations@.take(i as int).push(
                    declarations@[i as int],
                ));
                lemma_declarations_trace_push(
                    declarations@.take(i as int),
                    declarations@[i as int],
                );
                assert(events_view(self.events@) =~= events_view(old(self).events@)
                    + declarations_trace(declarations@.take(i as int + 1)));
            }
        }
        proof {
            assert(declarations@.take(declarations@.len() as int) =~= declarations@);
        }
    }

    fn visit_struct(&mut self, declaration: &Struct)
        ensures
            events_view(final(self).events@) == events_view(old(self).events@) + struct_trace(
                *declaration,
            ),
    {
        self.events.push(Event::Struct(declaration.name.clone()));
        proof {
            lemma_events_view_push(
                old(self).events@,
                Event::Struct(declaration.name),
            );
        }
        if let Some(base) = declaration.base() {
            self.visit_base(base);
        }
        self.visit_fields(declaration.fields());
        self.visit_struct_attributes(declaration.attributes());
        proof {
            assert(events_view(self.events@) =~= events_view(old(self).events@) + struct_trace(
                *declaration,
            ));
        }
    }

    fn visit_base(&mut self, declaration: &Type)
        ensures
            events_view(final(self).events@) == events_view(old(self).events@) + seq![
                EventView::Base(declaration@),
            ],
    {
        self.events.push(Event::Base(declaration.name.clone()));
        proof {
            lemma_events_view_push(old(self).events@, Event::Base(declaration.name));
        }
    }

    fn visit_fields(&mut self, fields: &Vec<Field>)
        ensures
            events_view(final(self).events@) == events_view(old(self).events@) + fields_trace(
                fields@,
            ),
    {
        for i in 0..fields.len()
            invariant
                events_view(self.events@) == events_view(old(self).events@) + fields_trace(
                    fields@.take(i as int),
                ),
        {
            self.visit_field(&fields[i]);
            proof {
                assert(fields_trace(fields@.take(i as int + 1)) =~= fields_trace(
                    fields@.take(i as int),
                ) + seq![EventView::Field(fields@[i as int]@)]);
                assert(events_view(self.events@) =~= events_view(old(self).events@) + fields_trace(
                    fields@.take(i as int + 1),
                ));
            }
        }
        proof {
            assert(fields@.take(fields@.len() as int) =~= fields@);
        }
    }

    fn visit_field(&mut self, field: &Field)
        ensures
            events_view(final(self).events@) == events_view(old(self).events@) + seq![
                EventView::Field(field@),
            ],
    {
        self.events.push(Event::Field(field.name.clone()));
        proof {
            lemma_events_view_push(old(self).events@, Event::Field(field.name));
        }
    }

    fn visit_struct_attributes(&mut self, attributes: &Vec<Attribute>)
        ensures
            events_view(final(self).events@) == events_view(old(self).events@)
                + struct_attributes_trace(attributes@),
    {
        for i in 0..attributes.len()
            invariant
                events_view(self.events@) == events_view(old(self).events@)
                    + struct_attributes_trace(attributes@.take(i as int)),
        {
            self.visit_struct_attribute(&attributes[i]);
            proof {
                assert(struct_attributes_trace(attributes@.take(i as int + 1))
                    =~= struct_attributes_trace(attributes@.take(i as int)) + seq![
                    EventView::StructAttribute(attributes@[i as int]@),
                ]);
                assert(events_view(self.events@) =~= events_view(old(self).events@)
                    + struct_attributes_trace(attributes@.take(i as int + 1)));
            }
        }
        proof {
            assert(attributes@.take(attributes@.len() as int) =~= attributes@);
        }
    }

    fn visit_struct_attribute(&mut self, attribute: &Attribute)
        ensures
            events_view(final(self).events@) == events_view(old(self).events@) + seq![
                EventView::StructAttribute(attribute@),
            ],
    {
        self.events.push(Event::StructAttribute(attribute.name.clone()));
        proof {
            lemma_events_view_push(
                old(self).events@,
                Event::StructAttribute(attribute.name),
            );
        }
    }

    fn visit_enum(&mut self, declaration: &Enum)
        ensures
            events_view(final(self).events@) == events_view(old(self).events@) + enum_trace(
                *declaration,
            ),
    {
        self.events.push(Event::Enum(declaration.name.clone()));
        proof {
            lemma_events_view_push(old(self).events@, Event::Enum(declaration.name));
        }
        self.visit_enum_constants(declaration.constants());
        self.visit_enum_attributes(declaration.attributes());
        proof {
            assert(events_view(self.events@) =~= events_view(old(self).events@) + enum_trace(
                *declaration,
            ));
        }
    }

    fn visit_enum_constants(&mut self, constants: &Vec<EnumConstant>)
        ensures
            events_view(final(self).events@) == events_view(old(self).events@)
                + enum_constants_trace(constants@),
    {
        for i in 0..constants.len()
            invariant
                events_view(self.events@) == events_view(old(self).events@) + enum_constants_trace(
                    constants@.take(i as int),
                ),
        {
            self.visit_enum_constant(&constants[i]);
            proof {
                assert(enum_constants_trace(constants@.take(i as int + 1)) =~= enum_constants_trace(
                    constants@.take(i as int),
                ) + seq![EventView::EnumConstant(constants@[i as int]@)]);
                assert(events_view(self.events@) =~= events_view(old(self).events@)
                    + enum_constants_trace(constants@.take(i as int + 1)));
            }
        }
        proof {
            assert(constants@.take(constants@.len() as int) =~= constants@);
        }
    }

    fn visit_enum_constant(&mut self, constant: &EnumConstant)
        ensures
            events_view(final(self).events@) == events_view(old(self).events@) + seq![
                EventView::EnumConstant(constant@),
            ],
    {
        self.events.push(Event::EnumConstant(constant.name.clone()));
        proof {
            lemma_events_view_push(old(self).events@, Event::EnumConstant(constant.name));
        }
    }

    fn visit_enum_attributes(&mut self, attributes: &Vec<Attribute>)
        ensures
            events_view(final(self).events@) == events_view(old(self).events@)
                + enum_attributes_trace(attributes@),
    {
        for i in 0..attributes.len()
            invariant
                events_view(self.events@) == events_view(old(self).events@) + enum_attributes_trace(
                    attributes@.take(i as int),
                ),
        {
            self.visit_enum_attribute(&attributes[i]);
            proof {
                assert(enum_attributes_trace(attributes@.take(i as int + 1))
                    =~= enum_attributes_trace(attributes@.take(i as int)) + seq![
                    EventView::EnumAttribute(attributes@[i as int]@),
                ]);
                assert(events_view(self.events@) =~= events_view(old(self).events@)
                    + enum_attributes_trace(attributes@.take(i as int + 1)));
            }
        }
        proof {
            assert(attributes@.take(attributes@.len() as int) =~= attributes@);
        }
    }

    fn visit_enum_attribute(&mut self, attribute: &Attribute)
        ensures
            events_view(final(self).events@) == events_view(old(self).events@) + seq![
                EventView::EnumAttribute(attribute@),
            ],
    {
        self.events.push(Event::EnumAttribute(attribute.name.clone()));
        proof {
            lemma_events_view_push(
                old(self).events@,
                Event::EnumAttribute(attribute.name),
            );
        }
    }
}

} // verus!
