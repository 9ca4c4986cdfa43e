//! The attribute validator: turns an element's attribute list into the
//! typed record for its kind.  The recognized sets are distinct for
//! struct-category elements and for member elements; boolean attributes
//! compare their value against the exact literal `"true"`, string
//! attributes are copied verbatim, and any attribute name outside the
//! recognized set is fatal.

use vstd::prelude::*;

use crate::model::{
    category, category_spec, ErrorV, FatalError, Member, MemberV, Struct, StructV, TypeCategory,
};
use crate::text::str_eq;

verus! {

/// One attribute applied to a member record: the recognized names update
/// their field, anything else is fatal.
pub open spec fn apply_member_attr_spec(m: MemberV, name: Seq<char>, value: Seq<char>) -> Result<
    MemberV,
    ErrorV,
> {
    if name == "values"@ {
        Ok(MemberV { values: Some(value), ..m })
    } else if name == "optional"@ {
        Ok(MemberV { optional: m.optional || value == "true"@, ..m })
    } else if name == "len"@ {
        Ok(MemberV { len: Some(value), ..m })
    } else if name == "noautovalidity"@ {
        Ok(MemberV { noautovalidity: m.noautovalidity || value == "true"@, ..m })
    } else if name == "altlen"@ {
        Ok(MemberV { altlen: Some(value), ..m })
    } else if name == "externsync"@ {
        Ok(MemberV { externsync: m.externsync || value == "true"@, ..m })
    } else {
        Err(ErrorV::UnknownAttribute { name, value })
    }
}

/// The member attributes applied in order, starting from `m`.
pub open spec fn member_attrs_fold(m: MemberV, attrs: Seq<(Seq<char>, Seq<char>)>) -> Result<
    MemberV,
    ErrorV,
>
    decreases attrs.len(),
{
    if attrs.len() == 0 {
        Ok(m)
    } else {
        match apply_member_attr_spec(m, attrs[0].0, attrs[0].1) {
            Ok(m2) => member_attrs_fold(m2, attrs.drop_first()),
            Err(e) => Err(e),
        }
    }
}

/// What [`Member::new`] returns for an attribute list.
pub open spec fn member_from_attrs_spec(attrs: Seq<(Seq<char>, Seq<char>)>) -> Result<
    MemberV,
    ErrorV,
> {
    member_attrs_fold(MemberV::default(), attrs)
}

impl Member {
    /// Builds the member a `member` start-element opens, from its
    /// attribute list.
    #[verifier::loop_isolation(false)]
    pub fn new(attribs: &Vec<(String, String)>) -> (r: Result<Member, FatalError>)
        ensures
            match r {
                Ok(m) => member_from_attrs_spec(attribs.deep_view()) == Ok::<MemberV, ErrorV>(m@),
                Err(e) => member_from_attrs_spec(attribs.deep_view()) == Err::<MemberV, ErrorV>(
                    e@,
                ),
            },
    {
        let mut member = Member {
            ty: String::new(),
            name: String::new(),
            is_ptr: false,
            is_const: false,
            is_struct: false,
            optional: false,
            noautovalidity: false,
            externsync: false,
            array_size: None,
            comment: None,
            values: None,
            len: None,
            altlen: None,
        };
        let ghost attrs = attribs.deep_view();
        proof {
            assert(attrs.skip(0) =~= attrs);
        }
        let mut i: usize = 0;
        while i < attribs.len()
            invariant
                i <= attribs.len(),
                member_attrs_fold(member@, attrs.skip(i as int)) == member_from_attrs_spec(attrs),
            decreases attribs.len() - i,
        {
            proof {
                assert(attrs.skip(i as int)[0] == attrs[i as int]);
                assert(attrs.skip(i as int).drop_first() =~= attrs.skip(i as int + 1));
            }
            let name = attribs[i].0.as_str();
            if str_eq(name, "values") {
                member.values = Some(attribs[i].1.clone());
            } else if str_eq(name, "optional") {
                member.optional = member.optional || str_eq(attribs[i].1.as_str(), "true");
            } else if str_eq(name, "len") {
                member.len = Some(attribs[i].1.clone());
            } else if str_eq(name, "noautovalidity") {
                member.noautovalidity = member.noautovalidity || str_eq(
                    attribs[i].1.as_str(),
                    "true",
                );
            } else if str_eq(name, "altlen") {
                member.altlen = Some(attribs[i].1.clone());
            } else if str_eq(name, "externsync") {
                member.externsync = member.externsync || str_eq(attribs[i].1.as_str(), "true");
            } else {
                return Err(FatalError::UnknownAttribute {
                    name: attribs[i].0.clone(),
                    value: attribs[i].1.clone(),
                });
            }
            i += 1;
        }
        Ok(member)
    }
}

/// The partial record a struct-category element's attributes accumulate
/// into before the required `name` is checked.
pub ghost struct StructAttrsV {
    pub name: Option<Seq<char>>,
    pub returnedonly: bool,
    pub structextends: Option<Seq<char>>,
    pub comment: Seq<char>,
}

impl StructAttrsV {
    /// Before any attribute: no name, flags clear, empty comment.
    pub open spec fn default() -> StructAttrsV {
        StructAttrsV { name: None, returnedonly: false, structextends: None, comment: Seq::empty() }
    }
}

/// One attribute applied to a struct record; `category` was already used
/// to recognize the element and carries nothing further.
pub open spec fn apply_struct_attr_spec(a: StructAttrsV, name: Seq<char>, value: Seq<char>) -> Result<
    StructAttrsV,
    ErrorV,
> {
    if name == "category"@ {
        Ok(a)
    } else if name == "name"@ {
        Ok(StructAttrsV { name: Some(value), ..a })
    } else if name == "returnedonly"@ {
        Ok(StructAttrsV { returnedonly: a.returnedonly || value == "true"@, ..a })
    } else if name == "structextends"@ {
        Ok(StructAttrsV { structextends: Some(value), ..a })
    } else if name == "comment"@ {
        Ok(StructAttrsV { comment: value, ..a })
    } else {
        Err(ErrorV::UnknownAttribute { name, value })
    }
}

/// The struct attributes applied in order, starting from `a`.
pub open spec fn struct_attrs_fold(a: StructAttrsV, attrs: Seq<(Seq<char>, Seq<char>)>) -> Result<
    StructAttrsV,
    ErrorV,
>
    decreases attrs.len(),
{
    if attrs.len() == 0 {
        Ok(a)
    } else {
        match apply_struct_attr_spec(a, attrs[0].0, attrs[0].1) {
            Ok(a2) => struct_attrs_fold(a2, attrs.drop_first()),
            Err(e) => Err(e),
        }
    }
}

/// What [`Struct::new`] returns for an attribute list: the accumulated
/// record with no members yet, or the fatal absence of a `name`.
pub open spec fn struct_from_attrs_spec(attrs: Seq<(Seq<char>, Seq<char>)>) -> Result<
    StructV,
    ErrorV,
> {
    match struct_attrs_fold(StructAttrsV::default(), attrs) {
        Ok(a) => match a.name {
            Some(n) => Ok(
                StructV {
                    name: n,
                    returnedonly: a.returnedonly,
                    structextends: a.structextends,
                    comment: a.comment,
                    members: Seq::empty(),
                },
            ),
            None => Err(ErrorV::MissingStructName),
        },
        Err(e) => Err(e),
    }
}

impl Struct {
    /// Builds the struct a struct-category start-element opens, from its
    /// attribute list; the `name` attribute is required.
    #[verifier::loop_isolation(false)]
    pub fn new(attribs: &Vec<(String, String)>) -> (r: Result<Struct, FatalError>)
        ensures
            match r {
                Ok(s) => struct_from_attrs_spec(attribs.deep_view()) == Ok::<StructV, ErrorV>(s@),
                Err(e) => struct_from_attrs_spec(attribs.deep_view()) == Err::<StructV, ErrorV>(
                    e@,
                ),
            },
    {
        let mut name: Option<String> = None;
        let mut returnedonly = false;
        let mut structextends: Option<String> = None;
        let mut comment = String::new();
        let ghost attrs = attribs.deep_view();
        proof {
            assert(attrs.skip(0) =~= attrs);
        }
        let mut i: usize = 0;
        while i < attribs.len()
            invariant
                i <= attribs.len(),
                struct_attrs_fold(
                    StructAttrsV {
                        name: name.deep_view(),
                        returnedonly,
                        structextends: structextends.deep_view(),
                        comment: comment@,
                    },
                    attrs.skip(i as int),
                ) == struct_attrs_fold(StructAttrsV::default(), attrs),
            decreases attribs.len() - i,
        {
            proof {
                assert(attrs.skip(i as int)[0] == attrs[i as int]);
                assert(attrs.skip(i as int).drop_first() =~= attrs.skip(i as int + 1));
            }
            let aname = attribs[i].0.as_str();
            if str_eq(aname, "category") {
            } else if str_eq(aname, "name") {
                name = Some(attribs[i].1.clone());
            } else if str_eq(aname, "returnedonly") {
                returnedonly = returnedonly || str_eq(attribs[i].1.as_str(), "true");
            } else if str_eq(aname, "structextends") {
                structextends = Some(attribs[i].1.clone());
            } else if str_eq(aname, "comment") {
                comment = attribs[i].1.clone();
            } else {
                return Err(FatalError::UnknownAttribute {
                    name: attribs[i].0.clone(),
                    value: attribs[i].1.clone(),
                });
            }
            i += 1;
        }
        match name {
            Some(n) => {
                let s = Struct { name: n, returnedonly, structextends, comment, members: Vec::new() };
                proof {
                    assert(s@.members =~= Seq::<MemberV>::empty());
                }
                Ok(s)
            },
            None => Err(FatalError::MissingStructName),
        }
    }
}

/// The category the element declares: the value of the last `category`
/// attribute in its list, or no category at all.
pub open spec fn category_attr_spec(attrs: Seq<(Seq<char>, Seq<char>)>) -> TypeCategory
    decreases attrs.len(),
{
    if attrs.len() == 0 {
        TypeCategory::Unset
    } else if attrs.last().0 == "category"@ {
        category_spec(attrs.last().1)
    } else {
        category_attr_spec(attrs.drop_last())
    }
}

/// Scans an attribute list for its `category` attribute.
#[verifier::loop_isolation(false)]
pub fn category_attr(attribs: &Vec<(String, String)>) -> (c: TypeCategory)
    ensures
        c == category_attr_spec(attribs.deep_view()),
{
    let ghost attrs = attribs.deep_view();
    let mut cur = TypeCategory::Unset;
    let mut i: usize = 0;
    while i < attribs.len()
        invariant
            i <= attribs.len(),
            cur == category_attr_spec(attrs.take(i as int)),
        decreases attribs.len() - i,
    {
        proof {
            assert(attrs.take(i as int + 1).drop_last() =~= attrs.take(i as int));
            assert(attrs.take(i as int + 1).last() == attrs[i as int]);
        }
        if str_eq(attribs[i].0.as_str(), "category") {
            cur = category(attribs[i].1.as_str());
        }
        i += 1;
    }
    proof {
        assert(attrs.take(attribs.len() as int) =~= attrs);
    }
    cur
}

} // verus!
