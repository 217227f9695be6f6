//! The schema model: an immutable tree of declarations that the
//! traversal engine walks. Each node carries a name; the engine itself
//! never reads anything else, so every leaf is opaque to it.

use vstd::prelude::*;

verus! {

/// A field of a struct declaration. A leaf node for the traversal.
pub struct Field {
    pub name: String,
}

/// A constant of an enum declaration. A leaf node for the traversal.
pub struct EnumConstant {
    pub name: String,
}

/// An annotation attached to a struct or an enum. A leaf node for the
/// traversal.
pub struct Attribute {
    pub name: String,
}

/// A non-owning reference to another declaration, used as a struct's
/// optional base type. The engine treats it as a leaf: it carries only
/// the identity (name) of the declaration it points to.
pub struct Type {
    pub name: String,
}

/// A struct declaration: an optional base type, then fields, then
/// struct-level attributes.
pub struct Struct {
    pub name: String,
    pub base: Option<Type>,
    pub fields: Vec<Field>,
    pub attributes: Vec<Attribute>,
}

/// An enum declaration: constants, then enum-level attributes.
pub struct Enum {
    pub name: String,
    pub constants: Vec<EnumConstant>,
    pub attributes: Vec<Attribute>,
}

/// A top-level declaration: exactly a struct or an enum.
pub enum UserType {
    Struct(Struct),
    Enum(Enum),
}

/// The top-level unit: an ordered sequence of declarations. The order
/// is significant and is preserved by the traversal.
pub struct Schema {
    pub declarations: Vec<UserType>,
}

impl Struct {
    /// The optional base type of this struct.
    pub fn base(&self) -> (r: &Option<Type>)
        ensures
            r == self.base,
    {
        &self.base
    }

    /// The fields of this struct, in declaration order.
    pub fn fields(&self) -> (r: &Vec<Field>)
        ensures
            r == self.fields,
    {
        &self.fields
    }

    /// The struct-level attributes, in declaration order.
    pub fn attributes(&self) -> (r: &Vec<Attribute>)
        ensures
            r == self.attributes,
    {
        &self.attributes
    }
}

impl Enum {
    /// The constants of this enum, in declaration order.
    pub fn constants(&self) -> (r: &Vec<EnumConstant>)
        ensures
            r == self.constants,
    {
        &self.constants
    }

    /// The enum-level attributes, in declaration order.
    pub fn attributes(&self) -> (r: &Vec<Attribute>)
        ensures
            r == self.attributes,
    {
        &self.attributes
    }
}

impl Schema {
    /// The top-level declarations, in document order.
    pub fn declarations(&self) -> (r: &Vec<UserType>)
        ensures
            r == self.declarations,
    {
        &self.declarations
    }
}

impl View for Field {
    type V = Seq<char>;

    open spec fn view(&self) -> Seq<char> {
        self.name@
    }
}

impl View for Type {
    type V = Seq<char>;

    open spec fn view(&self) -> Seq<char> {
        self.name@
    }
}

impl View for EnumConstant {
    type V = Seq<char>;

    open spec fn view(&self) -> Seq<char> {
        self.name@
    }
}

impl View for Attribute {
    type V = Seq<char>;

    open spec fn view(&self) -> Seq<char> {
        self.name@
    }
}

} // verus!
