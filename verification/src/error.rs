//! Compile-time diagnostics. Every failure of the compiler carries the kind
//! of fault and the span token of the offending annotation, property or
//! schema, so the caller can surface the diagnostic at the right source
//! location.

use vstd::prelude::*;

verus! {

/// Mathematical model of an error kind.
pub enum SpecErrorKind {
    /// An annotation that is not a parenthesized key/value list.
    MalformedAnnotation,
    /// An annotation key outside the recognized set, with the key.
    UnknownOption(Seq<char>),
    /// A value of the wrong literal kind for its key.
    TypeMismatch,
    /// Neither a static tag nor a dynamic-tag selector is declared.
    MissingTagSpecification,
    /// Both a static tag and a dynamic-tag selector are declared.
    ConflictingTagSpecification,
    /// A property whose declared type is not in an inspectable shape.
    NonPathType,
    /// More than one property asks to receive the node reference.
    DuplicateNodeRef,
}

/// Mathematical model of a diagnostic: an error kind at a source span.
pub struct SpecError {
    pub kind: SpecErrorKind,
    pub span: u64,
}

/// The kind of a compile-time fault.
#[derive(Debug, Clone, PartialEq, Eq)]
pub enum ErrorKind {
    /// An annotation that is not a parenthesized key/value list.
    MalformedAnnotation,
    /// An annotation key outside the recognized set, with the key.
    UnknownOption(String),
    /// A value of the wrong literal kind for its key.
    TypeMismatch,
    /// Neither a static tag nor a dynamic-tag selector is declared.
    MissingTagSpecification,
    /// Both a static tag and a dynamic-tag selector are declared.
    ConflictingTagSpecification,
    /// A property whose declared type is not in an inspectable shape.
    NonPathType,
    /// More than one property asks to receive the node reference.
    DuplicateNodeRef,
}

impl View for ErrorKind {
    type V = SpecErrorKind;

    open spec fn view(&self) -> SpecErrorKind {
        match self {
            ErrorKind::MalformedAnnotation => SpecErrorKind::MalformedAnnotation,
            ErrorKind::UnknownOption(key) => SpecErrorKind::UnknownOption(key@),
            ErrorKind::TypeMismatch => SpecErrorKind::TypeMismatch,
            ErrorKind::MissingTagSpecification => SpecErrorKind::MissingTagSpecification,
            ErrorKind::ConflictingTagSpecification => SpecErrorKind::ConflictingTagSpecification,
            ErrorKind::NonPathType => SpecErrorKind::NonPathType,
            ErrorKind::DuplicateNodeRef => SpecErrorKind::DuplicateNodeRef,
        }
    }
}

/// A compile-time diagnostic: an error kind at a source span.
#[derive(Debug, Clone, PartialEq, Eq)]
pub struct CompileError {
    pub kind: ErrorKind,
    pub span: u64,
}

impl View for CompileError {
    type V = SpecError;

    open spec fn view(&self) -> SpecError {
        SpecError { kind: self.kind@, span: self.span }
    }
}

} // verus!
