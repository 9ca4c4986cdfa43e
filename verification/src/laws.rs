//! Laws of the extractor, stated and proved against the same spec
//! functions its contracts use.

use vstd::prelude::*;

use crate::attrs::{
    apply_member_attr_spec, apply_struct_attr_spec, member_attrs_fold, member_from_attrs_spec,
    struct_attrs_fold, struct_from_attrs_spec, StructAttrsV,
};
use crate::events::EventV;
use crate::machine::{end_spec, run_steps, step_spec, ExtractionV, StateV};
use crate::model::{ErrorV, MemberV};
use crate::stray::{apply_stray_spec, classify_stray_spec, StrayTokenV};
use crate::text::has_prefix;

verus! {

/// Some attribute of the list sets `key` to the exact literal `"true"`.
pub open spec fn has_true_attr(attrs: Seq<(Seq<char>, Seq<char>)>, key: Seq<char>) -> bool {
    exists|i: int| 0 <= i < attrs.len() && attrs[i].0 == key && #[trigger] attrs[i].1 == "true"@
}

proof fn lemma_fold_optional(m: MemberV, attrs: Seq<(Seq<char>, Seq<char>)>)
    requires
        member_attrs_fold(m, attrs) is Ok,
    ensures
        member_attrs_fold(m, attrs)->Ok_0.optional == (m.optional || has_true_attr(
            attrs,
            "optional"@,
        )),
    decreases attrs.len(),
{
    reveal_strlit("values");
    reveal_strlit("optional");
    reveal_strlit("len");
    reveal_strlit("noautovalidity");
    reveal_strlit("altlen");
    reveal_strlit("externsync");
    if attrs.len() == 0 {
        assert(!has_true_attr(attrs, "optional"@));
    } else {
        let rest = attrs.drop_first();
        let m1 = apply_member_attr_spec(m, attrs[0].0, attrs[0].1)->Ok_0;
        lemma_fold_optional(m1, rest);
        let first_sets = attrs[0].0 == "optional"@ && attrs[0].1 == "true"@;
        assert("values"@.len() == 6 && "optional"@.len() == 8 && "len"@.len() == 3
            && "noautovalidity"@.len() == 14 && "altlen"@.len() == 6 && "externsync"@.len() == 10);
        assert(m1.optional == (m.optional || first_sets));
        if has_true_attr(rest, "optional"@) {
            let j = choose|j: int|
                0 <= j < rest.len() && rest[j].0 == "optional"@ && #[trigger] rest[j].1 == "true"@;
            assert(attrs[j + 1] == rest[j]);
            assert(has_true_attr(attrs, "optional"@));
        }
        if has_true_attr(attrs, "optional"@) && !first_sets {
            let i = choose|i: int|
                0 <= i < attrs.len() && attrs[i].0 == "optional"@ && #[trigger] attrs[i].1
                    == "true"@;
            assert(i > 0);
            assert(rest[i - 1] == attrs[i]);
            assert(has_true_attr(rest, "optional"@));
        }
    }
}

/// A member's `optional` flag holds exactly when some `optional` attribute
/// carries the literal value `"true"`: `optional="false"` and absence both
/// leave it clear, by exact string match rather than boolean parsing.
pub proof fn lemma_optional_attribute(attrs: Seq<(Seq<char>, Seq<char>)>)
    requires
        member_from_attrs_spec(attrs) is Ok,
    ensures
        member_from_attrs_spec(attrs)->Ok_0.optional == has_true_attr(attrs, "optional"@),
{
    lemma_fold_optional(MemberV::default(), attrs);
}

/// Names of the attributes a member element may carry.
pub open spec fn member_attr_recognized(name: Seq<char>) -> bool {
    ||| name == "values"@
    ||| name == "optional"@
    ||| name == "len"@
    ||| name == "noautovalidity"@
    ||| name == "altlen"@
    ||| name == "externsync"@
}

proof fn lemma_fold_unknown(m: MemberV, attrs: Seq<(Seq<char>, Seq<char>)>, k: int)
    requires
        0 <= k < attrs.len(),
        !member_attr_recognized(attrs[k].0),
    ensures
        member_attrs_fold(m, attrs) matches Err(e) && (e matches ErrorV::UnknownAttribute {
            name,
            value,
        } && !member_attr_recognized(name) && exists|j: int|
            0 <= j < attrs.len() && #[trigger] attrs[j] == (name, value)),
    decreases attrs.len(),
{
    if member_attr_recognized(attrs[0].0) {
        let rest = attrs.drop_first();
        let m1 = apply_member_attr_spec(m, attrs[0].0, attrs[0].1)->Ok_0;
        assert(k > 0);
        assert(rest[k - 1] == attrs[k]);
        lemma_fold_unknown(m1, rest, k - 1);
        let e = member_attrs_fold(m1, rest)->Err_0;
        let (name, value) = (e->UnknownAttribute_name, e->UnknownAttribute_value);
        let j = choose|j: int| 0 <= j < rest.len() && #[trigger] rest[j] == (name, value);
        assert(attrs[j + 1] == rest[j]);
    } else {
        assert(attrs[0] == (attrs[0].0, attrs[0].1));
    }
}

/// An attribute name outside a member's recognized set is fatal: the
/// validation fails with an unknown-attribute report naming an attribute of
/// the list that is indeed unrecognized, with its value.
pub proof fn lemma_member_unknown_attribute(attrs: Seq<(Seq<char>, Seq<char>)>, k: int)
    requires
        0 <= k < attrs.len(),
        !member_attr_recognized(attrs[k].0),
    ensures
        member_from_attrs_spec(attrs) matches Err(e) && (e matches ErrorV::UnknownAttribute {
            name,
            value,
        } && !member_attr_recognized(name) && exists|j: int|
            0 <= j < attrs.len() && #[trigger] attrs[j] == (name, value)),
{
    lemma_fold_unknown(MemberV::default(), attrs, k);
}

proof fn lemma_fold_keeps_missing_name(a: StructAttrsV, attrs: Seq<(Seq<char>, Seq<char>)>)
    requires
        forall|i: int| 0 <= i < attrs.len() ==> #[trigger] attrs[i].0 != "name"@,
    ensures
        struct_attrs_fold(a, attrs) matches Ok(a2) ==> a2.name == a.name,
    decreases attrs.len(),
{
    if attrs.len() > 0 {
        match apply_struct_attr_spec(a, attrs[0].0, attrs[0].1) {
            Ok(a1) => {
                assert(attrs.drop_first() =~= attrs.subrange(1, attrs.len() as int));
                assert(forall|i: int|
                    0 <= i < attrs.drop_first().len() ==> #[trigger] attrs.drop_first()[i].0
                        != "name"@);
                lemma_fold_keeps_missing_name(a1, attrs.drop_first());
            },
            Err(_) => {},
        }
    }
}

/// A struct-category element without a `name` attribute cannot be
/// constructed: its validation is fatal.
pub proof fn lemma_struct_missing_name(attrs: Seq<(Seq<char>, Seq<char>)>)
    requires
        forall|i: int| 0 <= i < attrs.len() ==> #[trigger] attrs[i].0 != "name"@,
    ensures
        struct_from_attrs_spec(attrs) is Err,
{
    lemma_fold_keeps_missing_name(StructAttrsV::default(), attrs);
}

/// A member whose field name is still empty when its end-element arrives at
/// the recorded member depth is fatal: the missing `name` sub-element is
/// reported.
pub proof fn lemma_missing_member_name(s: StateV)
    requires
        s.current_struct is Some,
        s.current_member matches Some(m) && m.name.len() == 0,
        s.depth == s.member_start_depth + 1,
    ensures
        end_spec(s, "member"@) == Err::<StateV, ErrorV>(ErrorV::MissingMemberName),
{
}

/// A stray fragment opening with the const keyword followed by one opening
/// with the pointer marker leave both the const and the pointer flag set,
/// whatever the member held before.
pub proof fn lemma_const_then_pointer(m: MemberV, s1: Seq<char>, s2: Seq<char>)
    requires
        has_prefix(s1, "const"@),
        has_prefix(s2, "*"@),
    ensures
        classify_stray_spec(s1) == Ok::<StrayTokenV, ErrorV>(StrayTokenV::ConstQualifier),
        classify_stray_spec(s2) == Ok::<StrayTokenV, ErrorV>(StrayTokenV::PointerMarker),
        apply_stray_spec(apply_stray_spec(m, StrayTokenV::ConstQualifier), StrayTokenV::PointerMarker)
            == (MemberV { is_const: true, is_ptr: true, ..m }),
{
    reveal_strlit("const");
    reveal_strlit("struct");
    reveal_strlit("*");
    reveal_strlit("[");
    reveal_strlit("]");
    reveal_strlit("[2]");
    reveal_strlit("[4]");
    assert(s1[0] == 'c') by {
        assert(s1.subrange(0, 5)[0] == s1[0]);
    }
    assert(s2[0] == '*') by {
        assert(s2.subrange(0, 1)[0] == s2[0]);
    }
    assert(s1 != "["@ && s1 != "]"@ && s1 != "[2]"@ && s1 != "[4]"@);
    assert(s2 != "["@ && s2 != "]"@ && s2 != "[2]"@ && s2 != "[4]"@);
    assert(!has_prefix(s2, "const"@)) by {
        if has_prefix(s2, "const"@) {
            assert(s2.subrange(0, 5)[0] == s2[0]);
        }
    }
    assert(!has_prefix(s2, "struct"@)) by {
        if has_prefix(s2, "struct"@) {
            assert(s2.subrange(0, 6)[0] == s2[0]);
        }
    }
}

/// The events of a stream without source errors, folded through the
/// accumulators from `s`, ending in a state rather than an extraction.
pub open spec fn steps(s: StateV, events: Seq<EventV>) -> Result<StateV, ErrorV>
    decreases events.len(),
{
    if events.len() == 0 {
        Ok(s)
    } else {
        match step_spec(s, events[0]) {
            Ok(s2) => steps(s2, events.drop_first()),
            Err(e) => Err(e),
        }
    }
}

/// A source-stream error halts the scan at once: the run's outcome is the
/// structs collected over the events before the first source error, with
/// the error's description reported — not an abort.
pub proof fn lemma_source_error_halts(
    s: StateV,
    events: Seq<EventV>,
    i: int,
    msg: Seq<char>,
)
    requires
        0 <= i < events.len(),
        events[i] == EventV::SourceError(msg),
        forall|j: int| 0 <= j < i ==> !(#[trigger] events[j] is SourceError),
    ensures
        run_steps(s, events) == (match steps(s, events.take(i)) {
            Ok(s2) => Ok(ExtractionV { structs: s2.structs, source_error: Some(msg) }),
            Err(e) => Err::<ExtractionV, ErrorV>(e),
        }),
    decreases i,
{
    if i == 0 {
        assert(events.take(0) =~= Seq::<EventV>::empty());
    } else {
        match step_spec(s, events[0]) {
            Ok(s2) => {
                let rest = events.drop_first();
                assert(rest[i - 1] == events[i]);
                assert(forall|j: int| 0 <= j < i - 1 ==> #[trigger] rest[j] == events[j + 1]);
                lemma_source_error_halts(s2, rest, i - 1, msg);
                assert(rest.take(i - 1) =~= events.take(i).drop_first());
                assert(events.take(i)[0] == events[0]);
            },
            Err(_) => {
                assert(events.take(i)[0] == events[0]);
            },
        }
    }
}

} // verus!
