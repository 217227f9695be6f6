//! Laws of the traversal order, stated and proved over the canonical
//! trace: which node kinds appear in a trace, how often, and in which
//! order.

use vstd::prelude::*;

use crate::model::Field;
use crate::model::Schema;
use crate::model::Struct;
use crate::model::UserType;
use crate::trace::base_trace;
use crate::trace::declaration_trace;
use crate::trace::declarations_trace;
use crate::trace::enum_attributes_trace;
use crate::trace::enum_constants_trace;
use crate::trace::fields_trace;
use crate::trace::schema_trace;
use crate::trace::struct_attributes_trace;
use crate::trace::struct_trace;
use crate::trace::EventView;

verus! {

/// The node kind of a traversal event.
pub enum NodeKind {
    Struct,
    Base,
    Field,
    StructAttribute,
    Enum,
    EnumConstant,
    EnumAttribute,
}

/// The kind of one event.
pub open spec fn event_kind(event: EventView) -> NodeKind {
    match event {
        EventView::Struct(_) => NodeKind::Struct,
        EventView::Base(_) => NodeKind::Base,
        EventView::Field(_) => NodeKind::Field,
        EventView::StructAttribute(_) => NodeKind::StructAttribute,
        EventView::Enum(_) => NodeKind::Enum,
        EventView::EnumConstant(_) => NodeKind::EnumConstant,
        EventView::EnumAttribute(_) => NodeKind::EnumAttribute,
    }
}

/// The subsequence of a trace made of the events of one kind, in
/// trace order.
pub open spec fn events_of_kind(trace: Seq<EventView>, kind: NodeKind) -> Seq<EventView>
    decreases trace.len(),
{
    if trace.len() == 0 {
        Seq::empty()
    } else {
        (if event_kind(trace[0]) == kind {
            seq![trace[0]]
        } else {
            Seq::empty()
        }) + events_of_kind(trace.skip(1), kind)
    }
}

proof fn lemma_events_of_kind_add(a: Seq<EventView>, b: Seq<EventView>, kind: NodeKind)
    ensures
        events_of_kind(a + b, kind) == events_of_kind(a, kind) + events_of_kind(b, kind),
    decreases a.len(),
{
    if a.len() == 0 {
        assert(a + b =~= b);
        assert(events_of_kind(a, kind) =~= Seq::<EventView>::empty());
        assert(events_of_kind(a, kind) + events_of_kind(b, kind) =~= events_of_kind(b, kind));
    } else {
        assert((a + b)[0] == a[0]);
        assert((a + b).skip(1) =~= a.skip(1) + b);
        lemma_events_of_kind_add(a.skip(1), b, kind);
        assert(events_of_kind(a + b, kind) =~= events_of_kind(a, kind) + events_of_kind(b, kind));
    }
}

proof fn lemma_events_of_kind_none(trace: Seq<EventView>, kind: NodeKind)
    requires
        forall|i: int| 0 <= i < trace.len() ==> event_kind(#[trigger] trace[i]) != kind,
    ensures
        events_of_kind(trace, kind) == Seq::<EventView>::empty(),
    decreases trace.len(),
{
    if trace.len() != 0 {
        lemma_events_of_kind_none(trace.skip(1), kind);
        assert(events_of_kind(trace, kind) =~= Seq::<EventView>::empty());
    }
}

proof fn lemma_events_of_kind_all(trace: Seq<EventView>, kind: NodeKind)
    requires
        forall|i: int| 0 <= i < trace.len() ==> event_kind(#[trigger] trace[i]) == kind,
    ensures
        events_of_kind(trace, kind) == trace,
    decreases trace.len(),
{
    if trace.len() == 0 {
        assert(events_of_kind(trace, kind) =~= trace);
    } else {
        lemma_events_of_kind_all(trace.skip(1), kind);
        assert(events_of_kind(trace, kind) =~= seq![trace[0]] + trace.skip(1));
        assert(seq![trace[0]] + trace.skip(1) =~= trace);
    }
}

/// The fields a declaration contributes to a traversal: a struct's
/// fields, nothing for an enum.
pub open spec fn own_fields(declaration: UserType) -> Seq<Field> {
    match declaration {
        UserType::Struct(s) => s.fields@,
        UserType::Enum(_) => Seq::empty(),
    }
}

/// All fields of all structs of a declaration sequence, struct by
/// struct in declaration order, each struct's fields in field order.
pub open spec fn declared_fields(declarations: Seq<UserType>) -> Seq<Field>
    decreases declarations.len(),
{
    if declarations.len() == 0 {
        Seq::empty()
    } else {
        own_fields(declarations[0]) + declared_fields(declarations.skip(1))
    }
}

proof fn lemma_declaration_field_events(declaration: UserType)
    ensures
        events_of_kind(declaration_trace(declaration), NodeKind::Field) == fields_trace(
            own_fields(declaration),
        ),
{
    match declaration {
        UserType::Struct(s) => {
            let a = seq![EventView::Struct(s.name@)];
            let b = base_trace(s.base);
            let c = fields_trace(s.fields@);
            let d = struct_attributes_trace(s.attributes@);
            lemma_events_of_kind_add(a + b + c, d, NodeKind::Field);
            lemma_events_of_kind_add(a + b, c, NodeKind::Field);
            lemma_events_of_kind_add(a, b, NodeKind::Field);
            lemma_events_of_kind_none(a, NodeKind::Field);
            lemma_events_of_kind_none(b, NodeKind::Field);
            lemma_events_of_kind_all(c, NodeKind::Field);
            lemma_events_of_kind_none(d, NodeKind::Field);
            assert(events_of_kind(declaration_trace(declaration), NodeKind::Field) =~= c);
        },
        UserType::Enum(e) => {
            let a = seq![EventView::Enum(e.name@)];
            let b = enum_constants_trace(e.constants@);
            let c = enum_attributes_trace(e.attributes@);
            lemma_events_of_kind_add(a + b, c, NodeKind::Field);
            lemma_events_of_kind_add(a, b, NodeKind::Field);
            lemma_events_of_kind_none(a, NodeKind::Field);
            lemma_events_of_kind_none(b, NodeKind::Field);
            lemma_events_of_kind_none(c, NodeKind::Field);
            assert(events_of_kind(declaration_trace(declaration), NodeKind::Field)
                =~= fields_trace(own_fields(declaration)));
        },
    }
}

proof fn lemma_declarations_field_events(declarations: Seq<UserType>)
    ensures
        events_of_kind(declarations_trace(declarations), NodeKind::Field) == fields_trace(
            declared_fields(declarations),
        ),
    decreases declarations.len(),
{
    if declarations.len() == 0 {
        assert(events_of_kind(declarations_trace(declarations), NodeKind::Field) =~= fields_trace(
            declared_fields(declarations),
        ));
    } else {
        lemma_declaration_field_events(declarations[0]);
        lemma_declarations_field_events(declarations.skip(1));
        lemma_events_of_kind_add(
            declaration_trace(declarations[0]),
            declarations_trace(declarations.skip(1)),
            NodeKind::Field,
        );
        assert(fields_trace(own_fields(declarations[0]) + declared_fields(declarations.skip(1)))
            =~= fields_trace(own_fields(declarations[0])) + fields_trace(
            declared_fields(declarations.skip(1)),
        ));
        assert(events_of_kind(declarations_trace(declarations), NodeKind::Field) =~= fields_trace(
            declared_fields(declarations),
        ));
    }
}

/// Law: over a whole traversal, the field events are exactly one event
/// per declared field, struct by struct in declaration order, each
/// struct's fields in their original order.
pub proof fn lemma_fields_visited_in_order(schema: Schema)
    ensures
        events_of_kind(schema_trace(schema), NodeKind::Field) == fields_trace(
            declared_fields(schema.declarations@),
        ),
{
    lemma_declarations_field_events(schema.declarations@);
}

/// Law: a struct with a base type contributes exactly one base event
/// to its trace, and it comes before every field event of that trace;
/// a struct without a base type contributes none.
pub proof fn lemma_base_visited_once_before_fields(declaration: Struct)
    ensures
        declaration.base matches Some(t) ==> events_of_kind(
            struct_trace(declaration),
            NodeKind::Base,
        ) == seq![EventView::Base(t@)],
        declaration.base is None ==> events_of_kind(struct_trace(declaration), NodeKind::Base)
            == Seq::<EventView>::empty(),
        forall|i: int, j: int|
            0 <= i < struct_trace(declaration).len() && 0 <= j < struct_trace(declaration).len()
                && (#[trigger] struct_trace(declaration)[i]) is Base && (#[trigger] struct_trace(
                declaration,
            )[j]) is Field ==> i < j,
{
    let a = seq![EventView::Struct(declaration.name@)];
    let b = base_trace(declaration.base);
    let c = fields_trace(declaration.fields@);
    let d = struct_attributes_trace(declaration.attributes@);
    let t = struct_trace(declaration);
    lemma_events_of_kind_add(a + b + c, d, NodeKind::Base);
    lemma_events_of_kind_add(a + b, c, NodeKind::Base);
    lemma_events_of_kind_add(a, b, NodeKind::Base);
    lemma_events_of_kind_none(a, NodeKind::Base);
    lemma_events_of_kind_all(b, NodeKind::Base);
    lemma_events_of_kind_none(c, NodeKind::Base);
    lemma_events_of_kind_none(d, NodeKind::Base);
    assert(events_of_kind(t, NodeKind::Base) =~= b);
    assert forall|i: int, j: int|
        0 <= i < t.len() && 0 <= j < t.len() && (#[trigger] t[i]) is Base && (#[trigger] t[j]) is Field implies i
        < j by {
        assert(i < a.len() + b.len()) by {
            if a.len() + b.len() <= i < a.len() + b.len() + c.len() {
                assert(t[i] == c[i - a.len() - b.len()]);
            }
            if a.len() + b.len() + c.len() <= i {
                assert(t[i] == d[i - a.len() - b.len() - c.len()]);
            }
        }
        assert(j >= a.len() + b.len()) by {
            if j < a.len() {
                assert(t[j] == a[j]);
            }
            if a.len() <= j < a.len() + b.len() {
                assert(t[j] == b[j - a.len()]);
            }
        }
    }
}

/// Law: a struct's attribute events are exactly one per attribute of
/// its attribute list, in the list's order, and each comes after every
/// field event of that struct's trace.
pub proof fn lemma_struct_attributes_after_fields(declaration: Struct)
    ensures
        events_of_kind(struct_trace(declaration), NodeKind::StructAttribute)
            == struct_attributes_trace(declaration.attributes@),
        forall|i: int, j: int|
            0 <= i < struct_trace(declaration).len() && 0 <= j < struct_trace(declaration).len()
                && (#[trigger] struct_trace(declaration)[i]) is Field && (#[trigger] struct_trace(
                declaration,
            )[j]) is StructAttribute ==> i < j,
{
    let a = seq![EventView::Struct(declaration.name@)];
    let b = base_trace(declaration.base);
    let c = fields_trace(declaration.fields@);
    let d = struct_attributes_trace(declaration.attributes@);
    let t = struct_trace(declaration);
    lemma_events_of_kind_add(a + b + c, d, NodeKind::StructAttribute);
    lemma_events_of_kind_add(a + b, c, NodeKind::StructAttribute);
    lemma_events_of_kind_add(a, b, NodeKind::StructAttribute);
    lemma_events_of_kind_none(a, NodeKind::StructAttribute);
    lemma_events_of_kind_none(b, NodeKind::StructAttribute);
    lemma_events_of_kind_none(c, NodeKind::StructAttribute);
    lemma_events_of_kind_all(d, NodeKind::StructAttribute);
    assert(events_of_kind(t, NodeKind::StructAttribute) =~= d);
    assert forall|i: int, j: int|
        0 <= i < t.len() && 0 <= j < t.len() && (#[trigger] t[i]) is Field && (#[trigger] t[j]) is StructAttribute implies i
        < j by {
        assert(i < a.len() + b.len() + c.len()) by {
            if a.len() + b.len() + c.len() <= i {
                assert(t[i] == d[i - a.len() - b.len() - c.len()]);
            }
        }
        assert(j >= a.len() + b.len() + c.len()) by {
            if j < a.len() {
                assert(t[j] == a[j]);
            }
            if a.len() <= j < a.len() + b.len() {
                assert(t[j] == b[j - a.len()]);
            }
            if a.len() + b.len() <= j < a.len() + b.len() + c.len() {
                assert(t[j] == c[j - a.len() - b.len()]);
            }
        }
    }
}

/// The dispatch event a declaration produces when the declaration
/// walk reaches it: a struct event or an enum event, with its name.
pub open spec fn dispatch_event(declaration: UserType) -> EventView {
    match declaration {
        UserType::Struct(s) => EventView::Struct(s.name@),
        UserType::Enum(e) => EventView::Enum(e.name@),
    }
}

/// One dispatch event per declaration, in declaration order.
pub open spec fn dispatch_schedule(declarations: Seq<UserType>) -> Seq<EventView>
    decreases declarations.len(),
{
    if declarations.len() == 0 {
        Seq::empty()
    } else {
        seq![dispatch_event(declarations[0])] + dispatch_schedule(declarations.skip(1))
    }
}

/// Whether an event marks the dispatch of a top-level declaration.
pub open spec fn is_dispatch_event(event: EventView) -> bool {
    event is Struct || event is Enum
}

/// The subsequence of a trace made of the declaration dispatch events,
/// in trace order.
pub open spec fn dispatch_events(trace: Seq<EventView>) -> Seq<EventView>
    decreases trace.len(),
{
    if trace.len() == 0 {
        Seq::empty()
    } else {
        (if is_dispatch_event(trace[0]) {
            seq![trace[0]]
        } else {
            Seq::empty()
        }) + dispatch_events(trace.skip(1))
    }
}

proof fn lemma_dispatch_events_add(a: Seq<EventView>, b: Seq<EventView>)
    ensures
        dispatch_events(a + b) == dispatch_events(a) + dispatch_events(b),
    decreases a.len(),
{
    if a.len() == 0 {
        assert(a + b =~= b);
        assert(dispatch_events(a) =~= Seq::<EventView>::empty());
        assert(dispatch_events(a) + dispatch_events(b) =~= dispatch_events(b));
    } else {
        assert((a + b)[0] == a[0]);
        assert((a + b).skip(1) =~= a.skip(1) + b);
        lemma_dispatch_events_add(a.skip(1), b);
        assert(dispatch_events(a + b) =~= dispatch_events(a) + dispatch_events(b));
    }
}

proof fn lemma_dispatch_events_none(trace: Seq<EventView>)
    requires
        forall|i: int| 0 <= i < trace.len() ==> !is_dispatch_event(#[trigger] trace[i]),
    ensures
        dispatch_events(trace) == Seq::<EventView>::empty(),
    decreases trace.len(),
{
    if trace.len() != 0 {
        lemma_dispatch_events_none(trace.skip(1));
        assert(dispatch_events(trace) =~= Seq::<EventView>::empty());
    }
}

proof fn lemma_declaration_dispatch_events(declaration: UserType)
    ensures
        dispatch_events(declaration_trace(declaration)) == seq![dispatch_event(declaration)],
{
    match declaration {
        UserType::Struct(s) => {
            let a = seq![EventView::Struct(s.name@)];
            let b = base_trace(s.base);
            let c = fields_trace(s.fields@);
            let d = struct_attributes_trace(s.attributes@);
            lemma_dispatch_events_add(a + b + c, d);
            lemma_dispatch_events_add(a + b, c);
            lemma_dispatch_events_add(a, b);
            lemma_dispatch_events_none(b);
            lemma_dispatch_events_none(c);
            lemma_dispatch_events_none(d);
            assert(a.skip(1) =~= Seq::<EventView>::empty());
            assert(dispatch_events(a.skip(1)) =~= Seq::<EventView>::empty());
            assert(dispatch_events(a) =~= a);
            assert(dispatch_events(declaration_trace(declaration)) =~= seq![
                dispatch_event(declaration),
            ]);
        },
        UserType::Enum(e) => {
            let a = seq![EventView::Enum(e.name@)];
            let b = enum_constants_trace(e.constants@);
            let c = enum_attributes_trace(e.attributes@);
            lemma_dispatch_events_add(a + b, c);
            lemma_dispatch_events_add(a, b);
            lemma_dispatch_events_none(b);
            lemma_dispatch_events_none(c);
            assert(a.skip(1) =~= Seq::<EventView>::empty());
            assert(dispatch_events(a.skip(1)) =~= Seq::<EventView>::empty());
            assert(dispatch_events(a) =~= a);
            assert(dispatch_events(declaration_trace(declaration)) =~= seq![
                dispatch_event(declaration),
            ]);
        },
    }
}

proof fn lemma_declarations_dispatch_events(declarations: Seq<UserType>)
    ensures
        dispatch_events(declarations_trace(declarations)) == dispatch_schedule(declarations),
    decreases declarations.len(),
{
    if declarations.len() == 0 {
        assert(dispatch_events(declarations_trace(declarations)) =~= dispatch_schedule(
            declarations,
        ));
    } else {
        lemma_declaration_dispatch_events(declarations[0]);
        lemma_declarations_dispatch_events(declarations.skip(1));
        lemma_dispatch_events_add(
            declaration_trace(declarations[0]),
            declarations_trace(declarations.skip(1)),
        );
        assert(dispatch_events(declarations_trace(declarations)) =~= dispatch_schedule(
            declarations,
        ));
    }
}

/// Law: the struct and enum dispatch events of a whole traversal are
/// exactly one per top-level declaration, in the schema's declaration
/// order, never reordered.
pub proof fn lemma_declarations_dispatched_in_order(schema: Schema)
    ensures
        dispatch_events(schema_trace(schema)) == dispatch_schedule(schema.declarations@),
{
    lemma_declarations_dispatch_events(schema.declarations@);
}

} // verus!
