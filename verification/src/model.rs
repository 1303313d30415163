//! The document model that ingestion fills and the emitters read.
//!
//! The model is a tree: a [`Document`] owns its classes, functions, macros
//! and enumeration constants; a [`Class`] owns its callables, one sequence
//! for each role, and its fields. Every sequence keeps the order of the
//! source.

use vstd::prelude::*;

verus! {

/// A constructor, function, method, virtual method or macro.
#[derive(Clone, Debug, PartialEq, Eq)]
pub struct Function {
    pub name: String,
    pub doc: Option<String>,
    /// Each parameter's name and its translated type.
    pub params: Vec<(String, String)>,
    /// The translated return types.
    pub returns: Vec<String>,
}

/// A [`Function`], as contracts see it.
pub struct FunctionView {
    pub name: Seq<char>,
    pub doc: Option<Seq<char>>,
    pub params: Seq<(Seq<char>, Seq<char>)>,
    pub returns: Seq<Seq<char>>,
}

impl View for Function {
    type V = FunctionView;

    open spec fn view(&self) -> FunctionView {
        FunctionView {
            name: self.name@,
            doc: self.doc.deep_view(),
            params: self.params.deep_view(),
            returns: self.returns.deep_view(),
        }
    }
}

impl DeepView for Function {
    type V = FunctionView;

    open spec fn deep_view(&self) -> FunctionView {
        self@
    }
}

/// A class with its callables, parted by role, and its documented fields.
#[derive(Clone, Debug, PartialEq, Eq)]
pub struct Class {
    pub name: String,
    pub doc: Option<String>,
    pub constructors: Vec<Function>,
    pub functions: Vec<Function>,
    pub methods: Vec<Function>,
    pub virtual_methods: Vec<Function>,
    /// Each field's name and its documentation.
    pub fields: Vec<(String, String)>,
}

/// A [`Class`], as contracts see it.
pub struct ClassView {
    pub name: Seq<char>,
    pub doc: Option<Seq<char>>,
    pub constructors: Seq<FunctionView>,
    pub functions: Seq<FunctionView>,
    pub methods: Seq<FunctionView>,
    pub virtual_methods: Seq<FunctionView>,
    pub fields: Seq<(Seq<char>, Seq<char>)>,
}

impl View for Class {
    type V = ClassView;

    open spec fn view(&self) -> ClassView {
        ClassView {
            name: self.name@,
            doc: self.doc.deep_view(),
            constructors: self.constructors.deep_view(),
            functions: self.functions.deep_view(),
            methods: self.methods.deep_view(),
            virtual_methods: self.virtual_methods.deep_view(),
            fields: self.fields.deep_view(),
        }
    }
}

impl DeepView for Class {
    type V = ClassView;

    open spec fn deep_view(&self) -> ClassView {
        self@
    }
}

/// All that one namespace declares.
#[derive(Clone, Debug, PartialEq, Eq)]
pub struct Document {
    /// Free text for the emitter's heading; ingestion leaves it empty.
    pub title: String,
    /// Free text that the emitter puts before names; ingestion leaves it empty.
    pub prefix: String,
    pub namespace: String,
    pub classes: Vec<Class>,
    pub functions: Vec<Function>,
    pub macros: Vec<Function>,
    /// The fully qualified enumeration constants.
    pub enums: Vec<String>,
}

/// A [`Document`], as contracts see it.
pub struct DocumentView {
    pub title: Seq<char>,
    pub prefix: Seq<char>,
    pub namespace: Seq<char>,
    pub classes: Seq<ClassView>,
    pub functions: Seq<FunctionView>,
    pub macros: Seq<FunctionView>,
    pub enums: Seq<Seq<char>>,
}

impl View for Document {
    type V = DocumentView;

    open spec fn view(&self) -> DocumentView {
        DocumentView {
            title: self.title@,
            prefix: self.prefix@,
            namespace: self.namespace@,
            classes: self.classes.deep_view(),
            functions: self.functions.deep_view(),
            macros: self.macros.deep_view(),
            enums: self.enums.deep_view(),
        }
    }
}

impl DeepView for Document {
    type V = DocumentView;

    open spec fn deep_view(&self) -> DocumentView {
        self@
    }
}

} // verus!
