//! The input surface of the compiler: a schema declaration made of plain
//! data. A declaration names its component, lists the declared properties in
//! order — each with a type shape and zero or more metadata annotations — and
//! may carry schema-level annotations choosing the element tag and the
//! children policy.
//!
//! An annotation is a list of key/value entries; one that does not have that
//! form is recorded as malformed and rejected by the metadata parser. Every
//! annotation and every property carries an opaque span token identifying its
//! source location for diagnostics.

use vstd::prelude::*;

verus! {

// ------------------------------------------------------------------
// Mathematical model
// ------------------------------------------------------------------
/// Model of one element of a `dynamic_tag` case list: a qualified path given
/// by its segments, or some other expression the compiler cannot read.
pub enum SpecPattern {
    Path(Seq<Seq<char>>),
    Other,
}

/// Model of an annotation entry's value.
pub enum SpecMetaValue {
    Str(Seq<char>),
    Flag(bool),
    Patterns(Seq<SpecPattern>),
    Other,
}

/// Model of one key/value entry of an annotation.
pub struct SpecMetaEntry {
    pub key: Seq<char>,
    pub value: SpecMetaValue,
}

/// Model of an annotation's form: a key/value list, or anything else.
pub enum SpecAnnotationForm {
    Entries(Seq<SpecMetaEntry>),
    Malformed,
}

/// Model of a metadata annotation with its source span.
pub struct SpecAnnotation {
    pub form: SpecAnnotationForm,
    pub span: u64,
}

/// Model of one declared property.
pub struct SpecPropertyDecl {
    pub name: Seq<char>,
    pub shape: TypeShape,
    pub annotations: Seq<SpecAnnotation>,
    pub span: u64,
}

/// Model of a whole schema declaration.
pub struct SpecSchemaDecl {
    pub name: Seq<char>,
    pub annotations: Seq<SpecAnnotation>,
    pub props: Seq<SpecPropertyDecl>,
    pub span: u64,
}

/// The views of a path's segments.
pub open spec fn segments_view(v: Seq<String>) -> Seq<Seq<char>> {
    v.map_values(|s: String| s@)
}

/// The views of a pattern list.
pub open spec fn patterns_view(v: Seq<PatternExpr>) -> Seq<SpecPattern> {
    v.map_values(|p: PatternExpr| p@)
}

/// The views of an entry list.
pub open spec fn entries_view(v: Seq<MetaEntry>) -> Seq<SpecMetaEntry> {
    v.map_values(|e: MetaEntry| e@)
}

/// The views of an annotation list.
pub open spec fn anns_view(v: Seq<Annotation>) -> Seq<SpecAnnotation> {
    v.map_values(|a: Annotation| a@)
}

/// The views of a property declaration list.
pub open spec fn prop_decls_view(v: Seq<PropertyDecl>) -> Seq<SpecPropertyDecl> {
    v.map_values(|p: PropertyDecl| p@)
}

// ------------------------------------------------------------------
// Executable representation
// ------------------------------------------------------------------
/// The shape of a property's declared type, as far as classification needs
/// to read it. Shapes have no spans or payloads of their own; the shape of a
/// declared type is fixed by the declaration alone.
#[derive(Debug, Clone, Copy, PartialEq, Eq, Structural)]
pub enum TypeShape {
    /// A path type with no recognized wrapper.
    Plain,
    /// A reactive wrapper: the value must be re-read on every rebuild.
    Reactive,
    /// A bare callback wrapper.
    BareCallback,
    /// An optional callback wrapper.
    OptionalCallback,
    /// A type that is not a path and cannot be inspected.
    NonPath,
}

/// One element of a `dynamic_tag` case list.
#[derive(Debug, Clone, PartialEq, Eq)]
pub enum PatternExpr {
    /// A qualified path, given by its segments in order.
    Path(Vec<String>),
    /// Some other expression; the parser passes such elements over.
    Other,
}

impl View for PatternExpr {
    type V = SpecPattern;

    open spec fn view(&self) -> SpecPattern {
        match self {
            PatternExpr::Path(segments) => SpecPattern::Path(segments_view(segments@)),
            PatternExpr::Other => SpecPattern::Other,
        }
    }
}

/// The value of an annotation entry.
#[derive(Debug, Clone, PartialEq, Eq)]
pub enum MetaValue {
    /// A string literal.
    Str(String),
    /// A boolean literal.
    Flag(bool),
    /// A bracketed list of pattern expressions.
    Patterns(Vec<PatternExpr>),
    /// A value of any other kind, or no value at all.
    Other,
}

impl View for MetaValue {
    type V = SpecMetaValue;

    open spec fn view(&self) -> SpecMetaValue {
        match self {
            MetaValue::Str(s) => SpecMetaValue::Str(s@),
            MetaValue::Flag(b) => SpecMetaValue::Flag(*b),
            MetaValue::Patterns(ps) => SpecMetaValue::Patterns(patterns_view(ps@)),
            MetaValue::Other => SpecMetaValue::Other,
        }
    }
}

/// One key/value entry of an annotation.
#[derive(Debug, Clone, PartialEq, Eq)]
pub struct MetaEntry {
    pub key: String,
    pub value: MetaValue,
}

impl View for MetaEntry {
    type V = SpecMetaEntry;

    open spec fn view(&self) -> SpecMetaEntry {
        SpecMetaEntry { key: self.key@, value: self.value@ }
    }
}

/// The form of an annotation: a parenthesized key/value list, or anything
/// else (which the parser rejects as malformed).
#[derive(Debug, Clone, PartialEq, Eq)]
pub enum AnnotationForm {
    Entries(Vec<MetaEntry>),
    Malformed,
}

impl View for AnnotationForm {
    type V = SpecAnnotationForm;

    open spec fn view(&self) -> SpecAnnotationForm {
        match self {
            AnnotationForm::Entries(entries) => SpecAnnotationForm::Entries(
                entries_view(entries@),
            ),
            AnnotationForm::Malformed => SpecAnnotationForm::Malformed,
        }
    }
}

/// A metadata annotation attached to the schema or to one property, with the
/// span token of its source location.
#[derive(Debug, Clone, PartialEq, Eq)]
pub struct Annotation {
    pub form: AnnotationForm,
    pub span: u64,
}

impl View for Annotation {
    type V = SpecAnnotation;

    open spec fn view(&self) -> SpecAnnotation {
        SpecAnnotation { form: self.form@, span: self.span }
    }
}

/// One declared property: its name, the shape of its declared type, its
/// metadata annotations in source order, and its span token.
#[derive(Debug, Clone, PartialEq, Eq)]
pub struct PropertyDecl {
    pub name: String,
    pub shape: TypeShape,
    pub annotations: Vec<Annotation>,
    pub span: u64,
}

impl View for PropertyDecl {
    type V = SpecPropertyDecl;

    open spec fn view(&self) -> SpecPropertyDecl {
        SpecPropertyDecl {
            name: self.name@,
            shape: self.shape,
            annotations: anns_view(self.annotations@),
            span: self.span,
        }
    }
}

/// A whole schema declaration: the component's name, its schema-level
/// annotations in source order, its properties in declaration order, and the
/// span token of the declaration itself.
#[derive(Debug, Clone, PartialEq, Eq)]
pub struct SchemaDecl {
    pub name: String,
    pub annotations: Vec<Annotation>,
    pub props: Vec<PropertyDecl>,
    pub span: u64,
}

impl View for SchemaDecl {
    type V = SpecSchemaDecl;

    open spec fn view(&self) -> SpecSchemaDecl {
        SpecSchemaDecl {
            name: self.name@,
            annotations: anns_view(self.annotations@),
            props: prop_decls_view(self.props@),
            span: self.span,
        }
    }
}

} // verus!
