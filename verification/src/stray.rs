//! The token classifier: the small grammar over the anonymous text
//! fragments that appear as member content outside any named sub-element.
//! They carry the member's pointer, const and struct qualifiers and its
//! bracketed array dimensions.
//!
//! Every bracketed numeric token stores its digits as the member's array
//! size — the two common dimensions through their own tokens, every other
//! dimension through the general character scan.

use vstd::prelude::*;

use crate::model::{ErrorV, FatalError, Member, MemberV};
use crate::text::{chars_of, has_prefix, push_char, str_eq, str_has_prefix};

verus! {

/// What a stray text fragment means.
#[derive(Clone, Debug, PartialEq)]
pub enum StrayToken {
    /// A lone bracket: structural punctuation around a symbolic length
    /// reference, carrying nothing by itself.
    Punctuation,
    /// The bracketed literal for dimension two.
    Dim2,
    /// The bracketed literal for dimension four.
    Dim4,
    /// A fragment opening with the const-qualifier keyword.
    ConstQualifier,
    /// A fragment opening with the struct keyword.
    StructKeyword,
    /// A fragment opening with the pointer marker.
    PointerMarker,
    /// Any other bracketed fragment: the digits it contains, in order.
    ArraySize(String),
}

/// Mathematical image of a [`StrayToken`].
pub ghost enum StrayTokenV {
    Punctuation,
    Dim2,
    Dim4,
    ConstQualifier,
    StructKeyword,
    PointerMarker,
    ArraySize(Seq<char>),
}

impl View for StrayToken {
    type V = StrayTokenV;

    open spec fn view(&self) -> StrayTokenV {
        match self {
            StrayToken::Punctuation => StrayTokenV::Punctuation,
            StrayToken::Dim2 => StrayTokenV::Dim2,
            StrayToken::Dim4 => StrayTokenV::Dim4,
            StrayToken::ConstQualifier => StrayTokenV::ConstQualifier,
            StrayToken::StructKeyword => StrayTokenV::StructKeyword,
            StrayToken::PointerMarker => StrayTokenV::PointerMarker,
            StrayToken::ArraySize(d) => StrayTokenV::ArraySize(d@),
        }
    }
}

/// An ASCII decimal digit.
pub open spec fn is_digit(c: char) -> bool {
    '0' <= c && c <= '9'
}

/// The character scan over a bracketed fragment, from position `i` with the
/// digits `acc` already collected: brackets are skipped — the closing one
/// only at the last position — digits are collected, and anything else is
/// fatal.
pub open spec fn scan_array_size_spec(s: Seq<char>, i: int, acc: Seq<char>) -> Result<
    Seq<char>,
    ErrorV,
>
    decreases s.len() - i,
{
    if i < 0 || i >= s.len() {
        Ok(acc)
    } else if s[i] == '[' {
        scan_array_size_spec(s, i + 1, acc)
    } else if s[i] == ']' {
        if i == s.len() - 1 {
            scan_array_size_spec(s, i + 1, acc)
        } else {
            Err(ErrorV::MisplacedBracket { text: s })
        }
    } else if is_digit(s[i]) {
        scan_array_size_spec(s, i + 1, acc.push(s[i]))
    } else {
        Err(ErrorV::InvalidArraySizeChar { text: s })
    }
}

/// What [`classify_stray`] returns for a fragment.
pub open spec fn classify_stray_spec(s: Seq<char>) -> Result<StrayTokenV, ErrorV> {
    if s == "["@ || s == "]"@ {
        Ok(StrayTokenV::Punctuation)
    } else if s == "[2]"@ {
        Ok(StrayTokenV::Dim2)
    } else if s == "[4]"@ {
        Ok(StrayTokenV::Dim4)
    } else if has_prefix(s, "const"@) {
        Ok(StrayTokenV::ConstQualifier)
    } else if has_prefix(s, "struct"@) {
        Ok(StrayTokenV::StructKeyword)
    } else if has_prefix(s, "*"@) {
        Ok(StrayTokenV::PointerMarker)
    } else if has_prefix(s, "["@) {
        match scan_array_size_spec(s, 0, Seq::empty()) {
            Ok(digits) => Ok(StrayTokenV::ArraySize(digits)),
            Err(e) => Err(e),
        }
    } else {
        Err(ErrorV::UnknownToken { text: s })
    }
}

/// Classifies one stray fragment, without touching any member.
#[verifier::loop_isolation(false)]
pub fn classify_stray(s: &str) -> (r: Result<StrayToken, FatalError>)
    ensures
        match r {
            Ok(t) => classify_stray_spec(s@) == Ok::<StrayTokenV, ErrorV>(t@),
            Err(e) => classify_stray_spec(s@) == Err::<StrayTokenV, ErrorV>(e@),
        },
{
    if str_eq(s, "[") || str_eq(s, "]") {
        Ok(StrayToken::Punctuation)
    } else if str_eq(s, "[2]") {
        Ok(StrayToken::Dim2)
    } else if str_eq(s, "[4]") {
        Ok(StrayToken::Dim4)
    } else if str_has_prefix(s, "const") {
        Ok(StrayToken::ConstQualifier)
    } else if str_has_prefix(s, "struct") {
        Ok(StrayToken::StructKeyword)
    } else if str_has_prefix(s, "*") {
        Ok(StrayToken::PointerMarker)
    } else if str_has_prefix(s, "[") {
        let v = chars_of(s);
        let mut digits = String::new();
        let mut i: usize = 0;
        while i < v.len()
            invariant
                v@ == s@,
                i <= v@.len(),
                scan_array_size_spec(s@, i as int, digits@) == scan_array_size_spec(
                    s@,
                    0,
                    Seq::<char>::empty(),
                ),
            decreases v@.len() - i,
        {
            let c = v[i];
            if c == '[' {
            } else if c == ']' {
                if i != v.len() - 1 {
                    return Err(FatalError::MisplacedBracket { text: s.to_owned() });
                }
            } else if '0' <= c && c <= '9' {
                let ghost pre = digits@;
                push_char(&mut digits, c);
                proof {
                    assert(digits@ =~= pre.push(c));
                }
            } else {
                return Err(FatalError::InvalidArraySizeChar { text: s.to_owned() });
            }
            i += 1;
        }
        Ok(StrayToken::ArraySize(digits))
    } else {
        Err(FatalError::UnknownToken { text: s.to_owned() })
    }
}

/// The member [`parse_stray_text`] leaves behind when the fragment means
/// `t`.
pub open spec fn apply_stray_spec(m: MemberV, t: StrayTokenV) -> MemberV {
    match t {
        StrayTokenV::Punctuation => m,
        StrayTokenV::Dim2 => MemberV { array_size: Some("2"@), ..m },
        StrayTokenV::Dim4 => MemberV { array_size: Some("4"@), ..m },
        StrayTokenV::ConstQualifier => MemberV { is_const: true, ..m },
        StrayTokenV::StructKeyword => MemberV { is_struct: true, ..m },
        StrayTokenV::PointerMarker => MemberV { is_ptr: true, ..m },
        StrayTokenV::ArraySize(digits) => MemberV { array_size: Some(digits), ..m },
    }
}

/// Interprets one stray fragment of member content and records its meaning
/// on the member under construction; on an unrecognized fragment the member
/// is left untouched and the fragment is reported.
pub fn parse_stray_text(s: &str, current_member: &mut Member) -> (r: Result<(), FatalError>)
    ensures
        match r {
            Ok(()) => {
                &&& classify_stray_spec(s@) matches Ok(t)
                &&& final(current_member)@ == apply_stray_spec(old(current_member)@, t)
            },
            Err(e) => {
                &&& classify_stray_spec(s@) == Err::<StrayTokenV, ErrorV>(e@)
                &&& *final(current_member) == *old(current_member)
            },
        },
{
    let token = match classify_stray(s) {
        Ok(t) => t,
        Err(e) => {
            return Err(e);
        },
    };
    match token {
        StrayToken::Punctuation => (),
        StrayToken::Dim2 => {
            current_member.array_size = Some("2".to_owned());
        },
        StrayToken::Dim4 => {
            current_member.array_size = Some("4".to_owned());
        },
        StrayToken::ConstQualifier => {
            current_member.is_const = true;
        },
        StrayToken::StructKeyword => {
            current_member.is_struct = true;
        },
        StrayToken::PointerMarker => {
            current_member.is_ptr = true;
        },
        StrayToken::ArraySize(digits) => {
            current_member.array_size = Some(digits);
        },
    }
    Ok(())
}

} // verus!
