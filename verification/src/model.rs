//! The declaration model: an explicit, immutable tree of the typed declaration
//! nodes that the generator reads from the native header. The parser front-end
//! is an external collaborator; it hands the generator this tree as plain
//! values (names, kinds, paths), and the generator never looks further.

use vstd::prelude::*;

verus! {

/// What a pointer parameter points at.
#[derive(Clone, Debug)]
pub enum PtrDesc {
    /// `const char *`: an owned string on the safe side.
    Char,
    /// `unsigned char *`.
    UChar,
    /// `char **`: a sequence of owned strings on the safe side.
    CharPtr,
    /// A pointer to a pointer to anything but `char`: not mapped.
    PtrPtrOther,
    /// A pointer to a record declaration, named by its declaration path.
    Record { path: Vec<String> },
    /// A pointer to an elaborated type, carrying its display name.
    Elaborated { display: String, is_const: bool },
    /// A pointer to some other declared entity, named by its path.
    OtherDecl { path: Vec<String> },
    /// A pointee with no declaration at all: not mapped; `kind` names it.
    OtherNoDecl { kind: String },
}

/// The resolved underlying type of a typedef parameter.
#[derive(Clone, Debug)]
pub enum TdDesc {
    /// Underlying `char`.
    Char,
    /// Underlying pointer: mapped exactly as a plain pointer parameter.
    Ptr { pointee: PtrDesc },
    /// Underlying `int`.
    Int,
    /// Underlying `bool`.
    Bool,
    /// Underlying record or elaborated type, named by its declaration path.
    RecordLike { path: Vec<String>, elaborated: bool },
    /// Underlying `char[size]`.
    ArrayChar { size: u64 },
    /// Underlying `int[size]`.
    ArrayInt { size: u64 },
    /// A constant array of any other element type: not mapped.
    ArrayOther { element_kind: String },
    /// Underlying `long long`.
    LongLong { is_const: bool },
    /// Any other underlying kind: not mapped; `kind` names it.
    Other { kind: String },
}

/// The native type of one parameter, as the mapper distinguishes them.
#[derive(Clone, Debug)]
pub enum TypeDesc {
    Bool,
    Int,
    UInt,
    ULongLong,
    Double,
    /// An enumeration, named by the full path of its declaration.
    Enum { path: Vec<String> },
    Pointer { pointee: PtrDesc },
    Typedef { underlying: TdDesc },
    IncompleteArray,
    /// Any other type kind: generation aborts naming it.
    Other { kind: String },
}

/// One parameter declaration of a native method.
#[derive(Clone, Debug)]
pub struct ParamDecl {
    pub name: String,
    pub ty: TypeDesc,
}

/// A child node of a method declaration. Only parameters have a handler;
/// other children are skipped by the dispatch engine.
#[derive(Clone, Debug)]
pub enum MethodChild {
    Param(ParamDecl),
    Other { kind: String },
}

/// One method (function prototype) declaration of a native record.
#[derive(Clone, Debug)]
pub struct MethodDecl {
    pub name: String,
    /// The display name of the native result type, e.g. `"bool"` or `"void"`.
    pub result_type: String,
    pub children: Vec<MethodChild>,
}

/// A child node of a record declaration.
#[derive(Clone, Debug)]
pub enum RecordChild {
    Method(MethodDecl),
    Other { kind: String },
}

/// One record (class) declaration of the native header.
#[derive(Clone, Debug)]
pub struct RecordDecl {
    /// The record's display name, e.g. `"YDListener"`.
    pub name: String,
    /// The names of the record's enclosing declarations, outermost first,
    /// ending with the record's own name.
    pub path: Vec<String>,
    pub children: Vec<RecordChild>,
}

/// A child node of the translation unit.
#[derive(Clone, Debug)]
pub enum TopDecl {
    Record(RecordDecl),
    Other { kind: String },
}

/// The root of the declaration tree: one parsed native header.
#[derive(Clone, Debug)]
pub struct TranslationUnit {
    pub children: Vec<TopDecl>,
}

} // verus!
