//! A record declaration as it was written: its shape, its fields in order,
//! and the attributes on each field.

use vstd::prelude::*;

verus! {

/// The model of a vector of values that each have a model of their own.
pub open spec fn view_all<T: View>(items: Seq<T>) -> Seq<T::V> {
    Seq::new(items.len(), |i: int| items[i]@)
}

/// The syntactic shape of a declaration.
#[derive(Clone, Copy, Debug, PartialEq, Eq, Structural)]
pub enum DeclShape {
    /// `struct S { a: A, .. }`
    NamedStruct,
    /// `struct S(A, ..);`
    TupleStruct,
    /// `struct S;`
    UnitStruct,
    /// `enum E { .. }`
    Enum,
    /// `union U { .. }`
    Union,
}

/// The form of an attribute.
#[derive(Clone, Copy, Debug, PartialEq, Eq, Structural)]
pub enum AttrForm {
    /// A bare path: `#[name]`.
    Path,
    /// A path with a delimited payload: `#[name(payload)]`.
    List,
    /// A path with a value: `#[name = value]`.
    NameValue,
}

/// One attribute on a field. `payload` is the text between the delimiters
/// of a list, the text of the value of a name-value pair, and empty for a
/// bare path.
#[derive(Clone, Debug, PartialEq, Eq)]
pub struct AttrDecl {
    pub name: String,
    pub form: AttrForm,
    pub payload: String,
}

/// The mathematical model of an [`AttrDecl`].
pub struct AttrDeclView {
    pub name: Seq<char>,
    pub form: AttrForm,
    pub payload: Seq<char>,
}

impl View for AttrDecl {
    type V = AttrDeclView;

    open spec fn view(&self) -> AttrDeclView {
        AttrDeclView { name: self.name@, form: self.form, payload: self.payload@ }
    }
}

/// One field of a declaration: its name where it has one, its type as
/// written, and its attributes in order.
#[derive(Clone, Debug, PartialEq, Eq)]
pub struct FieldDecl {
    pub name: Option<String>,
    pub declared_type: String,
    pub attrs: Vec<AttrDecl>,
}

/// The mathematical model of a [`FieldDecl`].
pub struct FieldDeclView {
    pub name: Option<Seq<char>>,
    pub declared_type: Seq<char>,
    pub attrs: Seq<AttrDeclView>,
}

impl View for FieldDecl {
    type V = FieldDeclView;

    open spec fn view(&self) -> FieldDeclView {
        FieldDeclView {
            name: match self.name {
                Some(name) => Some(name@),
                None => None,
            },
            declared_type: self.declared_type@,
            attrs: view_all(self.attrs@),
        }
    }
}

/// A declaration: its name, its shape and its fields in declaration order.
#[derive(Clone, Debug, PartialEq, Eq)]
pub struct RecordDecl {
    pub name: String,
    pub shape: DeclShape,
    pub fields: Vec<FieldDecl>,
}

/// The mathematical model of a [`RecordDecl`].
pub struct RecordDeclView {
    pub name: Seq<char>,
    pub shape: DeclShape,
    pub fields: Seq<FieldDeclView>,
}

impl View for RecordDecl {
    type V = RecordDeclView;

    open spec fn view(&self) -> RecordDeclView {
        RecordDeclView { name: self.name@, shape: self.shape, fields: view_all(self.fields@) }
    }
}

} // verus!
