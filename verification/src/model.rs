//! The in-memory model the extractor produces: one record per
//! struct-category element of the registry, holding one record per member,
//! plus the fatal-error vocabulary of the strict schema checks.

use vstd::prelude::*;

use crate::text::str_eq;

verus! {

/// The category a registry element declares through its `category`
/// attribute.  Only struct-category elements are extracted; the other
/// categories are recognized so they can be passed over deliberately.
#[derive(Clone, Copy, Debug, PartialEq, Eq, Structural)]
pub enum TypeCategory {
    Unset,
    Struct,
    Union,
    Enum,
    Other,
}

/// The category named by the literal value of a `category` attribute.
pub open spec fn category_spec(s: Seq<char>) -> TypeCategory {
    if s == "struct"@ {
        TypeCategory::Struct
    } else if s == "union"@ {
        TypeCategory::Union
    } else if s == "enum"@ {
        TypeCategory::Enum
    } else {
        TypeCategory::Other
    }
}

/// Maps a `category` attribute value to its tag.
pub fn category(s: &str) -> (c: TypeCategory)
    ensures
        c == category_spec(s@),
{
    if str_eq(s, "struct") {
        TypeCategory::Struct
    } else if str_eq(s, "union") {
        TypeCategory::Union
    } else if str_eq(s, "enum") {
        TypeCategory::Enum
    } else {
        TypeCategory::Other
    }
}

/// One field of a struct-category element.
#[derive(Clone, Debug, PartialEq)]
pub struct Member {
    /// Raw type token, normalized to the target primitive where the
    /// fixed table knows it.
    pub ty: String,
    /// Field name; must be non-empty when the member is finalized.
    pub name: String,
    /// The member's content carried a pointer marker token.
    pub is_ptr: bool,
    /// The member's content carried a const-qualifier token.
    pub is_const: bool,
    /// The member's content carried a struct-keyword token.
    pub is_struct: bool,
    /// `optional="true"` appeared among the attributes.
    pub optional: bool,
    /// `noautovalidity="true"` appeared among the attributes.
    pub noautovalidity: bool,
    /// `externsync="true"` appeared among the attributes.
    pub externsync: bool,
    /// Array dimension: a bracketed numeric literal from the content, or a
    /// symbolic length reference from an `enum` sub-element.
    pub array_size: Option<String>,
    /// Documentation from a `comment` sub-element.
    pub comment: Option<String>,
    /// The `values` attribute, verbatim.
    pub values: Option<String>,
    /// The `len` attribute, verbatim.
    pub len: Option<String>,
    /// The `altlen` attribute, verbatim.
    pub altlen: Option<String>,
}

/// Mathematical image of a [`Member`]: the same record over character
/// sequences.
pub ghost struct MemberV {
    pub ty: Seq<char>,
    pub name: Seq<char>,
    pub is_ptr: bool,
    pub is_const: bool,
    pub is_struct: bool,
    pub optional: bool,
    pub noautovalidity: bool,
    pub externsync: bool,
    pub array_size: Option<Seq<char>>,
    pub comment: Option<Seq<char>>,
    pub values: Option<Seq<char>>,
    pub len: Option<Seq<char>>,
    pub altlen: Option<Seq<char>>,
}

impl MemberV {
    /// The member every accumulation starts from: empty names, all flags
    /// clear, no metadata.
    pub open spec fn default() -> MemberV {
        MemberV {
            ty: Seq::empty(),
            name: Seq::empty(),
            is_ptr: false,
            is_const: false,
            is_struct: false,
            optional: false,
            noautovalidity: false,
            externsync: false,
            array_size: None,
            comment: None,
            values: None,
            len: None,
            altlen: None,
        }
    }
}

impl View for Member {
    type V = MemberV;

    open spec fn view(&self) -> MemberV {
        MemberV {
            ty: self.ty@,
            name: self.name@,
            is_ptr: self.is_ptr,
            is_const: self.is_const,
            is_struct: self.is_struct,
            optional: self.optional,
            noautovalidity: self.noautovalidity,
            externsync: self.externsync,
            array_size: self.array_size.deep_view(),
            comment: self.comment.deep_view(),
            values: self.values.deep_view(),
            len: self.len.deep_view(),
            altlen: self.altlen.deep_view(),
        }
    }
}

impl DeepView for Member {
    type V = MemberV;

    open spec fn deep_view(&self) -> MemberV {
        self.view()
    }
}

impl Member {
    /// The finalization check: a member may only be sealed once a `name`
    /// sub-element filled its field name in.
    pub fn validate(&self) -> (r: bool)
        ensures
            r == (self@.name.len() > 0),
    {
        !self.name.as_str().is_empty()
    }
}

/// One struct-category element of the registry.
#[derive(Clone, Debug, PartialEq)]
pub struct Struct {
    /// The `name` attribute; required.
    pub name: String,
    /// `returnedonly="true"` appeared among the attributes.
    pub returnedonly: bool,
    /// The `structextends` attribute: the entity this one extends.
    pub structextends: Option<String>,
    /// Documentation, from the `comment` attribute or a nested `comment`
    /// element.
    pub comment: String,
    /// The members, in document order.
    pub members: Vec<Member>,
}

/// Mathematical image of a [`Struct`].
pub ghost struct StructV {
    pub name: Seq<char>,
    pub returnedonly: bool,
    pub structextends: Option<Seq<char>>,
    pub comment: Seq<char>,
    pub members: Seq<MemberV>,
}

impl View for Struct {
    type V = StructV;

    open spec fn view(&self) -> StructV {
        StructV {
            name: self.name@,
            returnedonly: self.returnedonly,
            structextends: self.structextends.deep_view(),
            comment: self.comment@,
            members: self.members.deep_view(),
        }
    }
}

impl DeepView for Struct {
    type V = StructV;

    open spec fn deep_view(&self) -> StructV {
        self.view()
    }
}

/// A schema-validation failure: the registry broke an assumption the
/// extractor is entitled to make.  Every variant identifies the offending
/// tag, attribute or token.
#[derive(Clone, Debug, PartialEq)]
pub enum FatalError {
    /// An attribute name outside the recognized set, with its value.
    UnknownAttribute { name: String, value: String },
    /// A struct-category element without a `name` attribute.
    MissingStructName,
    /// A member whose end-element was reached with no field name filled in.
    MissingMemberName,
    /// An element tag inside a struct-category element outside the
    /// recognized set.
    UnknownTag { name: String },
    /// A type token in the fixed table's gaps that matches neither naming
    /// convention.
    UnknownType { name: String },
    /// A stray text fragment matching no recognized form.
    UnknownToken { text: String },
    /// A character that is neither a digit nor a bracket inside a bracketed
    /// array-size token.
    InvalidArraySizeChar { text: String },
    /// A closing bracket somewhere other than the end of a bracketed
    /// array-size token.
    MisplacedBracket { text: String },
    /// A `member` start-element while a member was already under
    /// construction.
    MemberAlreadyOpen,
    /// A struct-category start-element while a struct was already under
    /// construction.
    StructAlreadyOpen,
    /// An end-element with no matching start: below the document root, or a
    /// `member` end at the recorded member depth with no member open.
    UnmatchedEnd { name: String },
    /// The struct-category element's end was reached while a member was
    /// still under construction.
    UnclosedMember,
}

/// Mathematical image of a [`FatalError`].
pub ghost enum ErrorV {
    UnknownAttribute { name: Seq<char>, value: Seq<char> },
    MissingStructName,
    MissingMemberName,
    UnknownTag { name: Seq<char> },
    UnknownType { name: Seq<char> },
    UnknownToken { text: Seq<char> },
    InvalidArraySizeChar { text: Seq<char> },
    MisplacedBracket { text: Seq<char> },
    MemberAlreadyOpen,
    StructAlreadyOpen,
    UnmatchedEnd { name: Seq<char> },
    UnclosedMember,
}

impl View for FatalError {
    type V = ErrorV;

    open spec fn view(&self) -> ErrorV {
        match self {
            FatalError::UnknownAttribute { name, value } => ErrorV::UnknownAttribute {
                name: name@,
                value: value@,
            },
            FatalError::MissingStructName => ErrorV::MissingStructName,
            FatalError::MissingMemberName => ErrorV::MissingMemberName,
            FatalError::UnknownTag { name } => ErrorV::UnknownTag { name: name@ },
            FatalError::UnknownType { name } => ErrorV::UnknownType { name: name@ },
            FatalError::UnknownToken { text } => ErrorV::UnknownToken { text: text@ },
            FatalError::InvalidArraySizeChar { text } => ErrorV::InvalidArraySizeChar {
                text: text@,
            },
            FatalError::MisplacedBracket { text } => ErrorV::MisplacedBracket { text: text@ },
            FatalError::MemberAlreadyOpen => ErrorV::MemberAlreadyOpen,
            FatalError::StructAlreadyOpen => ErrorV::StructAlreadyOpen,
            FatalError::UnmatchedEnd { name } => ErrorV::UnmatchedEnd { name: name@ },
            FatalError::UnclosedMember => ErrorV::UnclosedMember,
        }
    }
}

} // verus!
