//! The type normalizer: maps a raw type-name token to the target
//! representation.  A small fixed table covers the primitive tokens; any
//! other token passes through unchanged only if it follows one of the two
//! naming conventions of the registry (function-pointer typedefs and
//! native type names).

use vstd::prelude::*;

use crate::model::{ErrorV, FatalError};
use crate::text::{has_prefix, str_eq, str_has_prefix};

verus! {

/// What [`convert_type`] returns for a raw type token.
pub open spec fn convert_type_spec(t: Seq<char>) -> Result<Seq<char>, ErrorV> {
    if t == "float"@ {
        Ok("f32"@)
    } else if t == "int32_t"@ {
        Ok("i32"@)
    } else if t == "uint32_t"@ {
        Ok("u32"@)
    } else if t == "char"@ {
        Ok("i8"@)
    } else if t == "uint8_t"@ {
        Ok("u8"@)
    } else if t == "void"@ {
        Ok("()"@)
    } else if has_prefix(t, "PFN_"@) || has_prefix(t, "Vk"@) {
        Ok(t)
    } else {
        Err(ErrorV::UnknownType { name: t })
    }
}

/// Normalizes a raw type token: the fixed table for primitives, the token
/// itself for the two accepted naming conventions, and a fatal error for
/// everything else.
pub fn convert_type(orig_type: &str) -> (r: Result<String, FatalError>)
    ensures
        match r {
            Ok(s) => convert_type_spec(orig_type@) == Ok::<Seq<char>, ErrorV>(s@),
            Err(e) => convert_type_spec(orig_type@) == Err::<Seq<char>, ErrorV>(e@),
        },
{
    if str_eq(orig_type, "float") {
        Ok("f32".to_owned())
    } else if str_eq(orig_type, "int32_t") {
        Ok("i32".to_owned())
    } else if str_eq(orig_type, "uint32_t") {
        Ok("u32".to_owned())
    } else if str_eq(orig_type, "char") {
        Ok("i8".to_owned())
    } else if str_eq(orig_type, "uint8_t") {
        Ok("u8".to_owned())
    } else if str_eq(orig_type, "void") {
        Ok("()".to_owned())
    } else if str_has_prefix(orig_type, "PFN_") || str_has_prefix(orig_type, "Vk") {
        Ok(orig_type.to_owned())
    } else {
        Err(FatalError::UnknownType { name: orig_type.to_owned() })
    }
}

} // verus!
