use schema_visitor::Attribute;
use schema_visitor::DefaultVisitor;
use schema_visitor::Enum;
use schema_visitor::EnumConstant;
use schema_visitor::Event;
use schema_visitor::Field;
use schema_visitor::RecordingVisitor;
use schema_visitor::Schema;
use schema_visitor::Struct;
use schema_visitor::Type;
use schema_visitor::UserType;
use schema_visitor::Visitor;

fn field(name: &str) -> Field {
    Field { name: name.to_string() }
}

fn attribute(name: &str) -> Attribute {
    Attribute { name: name.to_string() }
}

fn constant(name: &str) -> EnumConstant {
    EnumConstant { name: name.to_string() }
}

fn point_and_color_schema() -> Schema {
    Schema {
        declarations: vec![
            UserType::Struct(Struct {
                name: "Point".to_string(),
                base: None,
                fields: vec![field("x"), field("y")],
                attributes: vec![],
            }),
            UserType::Enum(Enum {
                name: "Color".to_string(),
                constants: vec![constant("Red"), constant("Green"), constant("Blue")],
                attributes: vec![],
            }),
        ],
    }
}

/// A visitor that overrides only the struct-attribute leaf hook and
/// inherits every other default.
struct StructAttributeCollector {
    collected: Vec<String>,
}

impl Visitor for StructAttributeCollector {
    fn visit_struct_attribute(&mut self, attribute: &Attribute) {
        self.collected.push(attribute.name.clone());
    }
}

/// A visitor whose struct override does not recurse: children of a
/// struct must then stay unvisited.
struct NonRecursingVisitor {
    structs: Vec<String>,
    fields: Vec<String>,
}

impl Visitor for NonRecursingVisitor {
    fn visit_struct(&mut self, declaration: &Struct) {
        self.structs.push(declaration.name.clone());
    }

    fn visit_field(&mut self, f: &Field) {
        self.fields.push(f.name.clone());
    }
}

/// A visitor that overrides only the five leaf hooks, so the whole
/// dispatch runs through the inherited composite defaults.
struct LeafRecorder {
    events: Vec<Event>,
}

impl Visitor for LeafRecorder {
    fn visit_base(&mut self, declaration: &Type) {
        self.events.push(Event::Base(declaration.name.clone()));
    }

    fn visit_field(&mut self, f: &Field) {
        self.events.push(Event::Field(f.name.clone()));
    }

    fn visit_struct_attribute(&mut self, a: &Attribute) {
        self.events.push(Event::StructAttribute(a.name.clone()));
    }

    fn visit_enum_constant(&mut self, c: &EnumConstant) {
        self.events.push(Event::EnumConstant(c.name.clone()));
    }

    fn visit_enum_attribute(&mut self, a: &Attribute) {
        self.events.push(Event::EnumAttribute(a.name.clone()));
    }
}

#[test]
fn default_composite_bodies_dispatch_leaves_in_order() {
    let schema = Schema {
        declarations: vec![
            UserType::Struct(Struct {
                name: "Derived".to_string(),
                base: Some(Type { name: "Parent".to_string() }),
                fields: vec![field("x"), field("y")],
                attributes: vec![attribute("Deprecated"), attribute("Serialize")],
            }),
            UserType::Enum(Enum {
                name: "E".to_string(),
                constants: vec![constant("A"), constant("B")],
                attributes: vec![attribute("Tagged")],
            }),
        ],
    };
    let mut visitor = LeafRecorder { events: vec![] };
    visitor.visit_schema(&schema);
    let expected = vec![
        Event::Base("Parent".to_string()),
        Event::Field("x".to_string()),
        Event::Field("y".to_string()),
        Event::StructAttribute("Deprecated".to_string()),
        Event::StructAttribute("Serialize".to_string()),
        Event::EnumConstant("A".to_string()),
        Event::EnumConstant("B".to_string()),
        Event::EnumAttribute("Tagged".to_string()),
    ];
    assert_eq!(visitor.events, expected);
}

#[test]
fn default_visitor_completes_on_empty_schema() {
    let schema = Schema { declarations: vec![] };
    let mut visitor = DefaultVisitor;
    visitor.visit_schema(&schema);
}

#[test]
fn default_visitor_completes_on_mixed_schema() {
    let mut visitor = DefaultVisitor;
    visitor.visit_schema(&point_and_color_schema());
}

#[test]
fn recording_visitor_sees_nothing_in_empty_schema() {
    let schema = Schema { declarations: vec![] };
    let mut visitor = RecordingVisitor::new();
    visitor.visit_schema(&schema);
    assert_eq!(visitor.events(), &Vec::<Event>::new());
}

#[test]
fn fields_recorded_in_declaration_order_across_structs() {
    let schema = Schema {
        declarations: vec![
            UserType::Struct(Struct {
                name: "First".to_string(),
                base: None,
                fields: vec![field("a"), field("b")],
                attributes: vec![],
            }),
            UserType::Enum(Enum {
                name: "Middle".to_string(),
                constants: vec![constant("M")],
                attributes: vec![],
            }),
            UserType::Struct(Struct {
                name: "Second".to_string(),
                base: None,
                fields: vec![field("c")],
                attributes: vec![],
            }),
        ],
    };
    let mut visitor = RecordingVisitor::new();
    visitor.visit_schema(&schema);
    let field_events: Vec<Event> = visitor
        .events()
        .iter()
        .filter(|e| matches!(e, Event::Field(_)))
        .cloned()
        .collect();
    let expected = vec![
        Event::Field("a".to_string()),
        Event::Field("b".to_string()),
        Event::Field("c".to_string()),
    ];
    assert_eq!(field_events, expected);
}

#[test]
fn overriding_one_hook_leaves_other_paths_default() {
    let schema = Schema {
        declarations: vec![
            UserType::Struct(Struct {
                name: "S".to_string(),
                base: None,
                fields: vec![field("f")],
                attributes: vec![attribute("Deprecated"), attribute("Serialize")],
            }),
            UserType::Enum(Enum {
                name: "E".to_string(),
                constants: vec![constant("C")],
                attributes: vec![attribute("EnumOnly")],
            }),
        ],
    };
    let mut visitor = StructAttributeCollector { collected: vec![] };
    visitor.visit_schema(&schema);
    // Struct attributes arrive through the overridden hook, in order;
    // enum attributes stay on their own, default, path.
    assert_eq!(
        visitor.collected,
        vec!["Deprecated".to_string(), "Serialize".to_string()]
    );
}

#[test]
fn base_visited_exactly_once_and_before_fields() {
    let schema = Schema {
        declarations: vec![UserType::Struct(Struct {
            name: "Derived".to_string(),
            base: Some(Type { name: "Parent".to_string() }),
            fields: vec![field("x"), field("y")],
            attributes: vec![],
        })],
    };
    let mut visitor = RecordingVisitor::new();
    visitor.visit_schema(&schema);
    let events = visitor.events();
    let base_positions: Vec<usize> = events
        .iter()
        .enumerate()
        .filter(|(_, e)| matches!(e, Event::Base(_)))
        .map(|(i, _)| i)
        .collect();
    let field_positions: Vec<usize> = events
        .iter()
        .enumerate()
        .filter(|(_, e)| matches!(e, Event::Field(_)))
        .map(|(i, _)| i)
        .collect();
    assert_eq!(base_positions.len(), 1);
    assert_eq!(field_positions.len(), 2);
    for p in &field_positions {
        assert!(base_positions[0] < *p);
    }
    assert_eq!(events[base_positions[0]], Event::Base("Parent".to_string()));
}

#[test]
fn struct_without_base_produces_no_base_event() {
    let mut visitor = RecordingVisitor::new();
    visitor.visit_schema(&point_and_color_schema());
    assert!(visitor.events().iter().all(|e| !matches!(e, Event::Base(_))));
}

#[test]
fn declarations_dispatched_in_schema_order() {
    let schema = Schema {
        declarations: vec![
            UserType::Struct(Struct {
                name: "StructA".to_string(),
                base: None,
                fields: vec![],
                attributes: vec![],
            }),
            UserType::Enum(Enum {
                name: "EnumB".to_string(),
                constants: vec![],
                attributes: vec![],
            }),
            UserType::Struct(Struct {
                name: "StructC".to_string(),
                base: None,
                fields: vec![],
                attributes: vec![],
            }),
        ],
    };
    let mut visitor = RecordingVisitor::new();
    visitor.visit_schema(&schema);
    let expected = vec![
        Event::Struct("StructA".to_string()),
        Event::Enum("EnumB".to_string()),
        Event::Struct("StructC".to_string()),
    ];
    assert_eq!(visitor.events(), &expected);
}

#[test]
fn point_and_color_trace_is_exact() {
    let mut visitor = RecordingVisitor::new();
    visitor.visit_schema(&point_and_color_schema());
    let expected = vec![
        Event::Struct("Point".to_string()),
        Event::Field("x".to_string()),
        Event::Field("y".to_string()),
        Event::Enum("Color".to_string()),
        Event::EnumConstant("Red".to_string()),
        Event::EnumConstant("Green".to_string()),
        Event::EnumConstant("Blue".to_string()),
    ];
    assert_eq!(visitor.events(), &expected);
}

#[test]
fn struct_attributes_visited_in_order_after_fields() {
    let schema = Schema {
        declarations: vec![UserType::Struct(Struct {
            name: "S".to_string(),
            base: None,
            fields: vec![field("x"), field("y")],
            attributes: vec![attribute("Deprecated"), attribute("Serialize")],
        })],
    };
    let mut visitor = RecordingVisitor::new();
    visitor.visit_schema(&schema);
    let expected = vec![
        Event::Struct("S".to_string()),
        Event::Field("x".to_string()),
        Event::Field("y".to_string()),
        Event::StructAttribute("Deprecated".to_string()),
        Event::StructAttribute("Serialize".to_string()),
    ];
    assert_eq!(visitor.events(), &expected);
}

#[test]
fn enum_constants_then_enum_attributes() {
    let schema = Schema {
        declarations: vec![UserType::Enum(Enum {
            name: "E".to_string(),
            constants: vec![constant("A"), constant("B")],
            attributes: vec![attribute("Tagged")],
        })],
    };
    let mut visitor = RecordingVisitor::new();
    visitor.visit_schema(&schema);
    let expected = vec![
        Event::Enum("E".to_string()),
        Event::EnumConstant("A".to_string()),
        Event::EnumConstant("B".to_string()),
        Event::EnumAttribute("Tagged".to_string()),
    ];
    assert_eq!(visitor.events(), &expected);
}

#[test]
fn full_struct_trace_with_base_fields_and_attributes() {
    let schema = Schema {
        declarations: vec![UserType::Struct(Struct {
            name: "Derived".to_string(),
            base: Some(Type { name: "Parent".to_string() }),
            fields: vec![field("x")],
            attributes: vec![attribute("Deprecated")],
        })],
    };
    let mut visitor = RecordingVisitor::new();
    visitor.visit_schema(&schema);
    let expected = vec![
        Event::Struct("Derived".to_string()),
        Event::Base("Parent".to_string()),
        Event::Field("x".to_string()),
        Event::StructAttribute("Deprecated".to_string()),
    ];
    assert_eq!(visitor.events(), &expected);
}

#[test]
fn overriding_a_composite_hook_replaces_its_whole_body() {
    let mut visitor = NonRecursingVisitor { structs: vec![], fields: vec![] };
    visitor.visit_schema(&point_and_color_schema());
    // The struct override did not re-invoke the child dispatches, so
    // no field was visited.
    assert_eq!(visitor.structs, vec!["Point".to_string()]);
    assert_eq!(visitor.fields, Vec::<String>::new());
}
