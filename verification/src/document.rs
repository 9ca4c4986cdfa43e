//! A tree model of well-formed registry documents, and the laws it
//! supports: over any document of this shape, the extractor collects
//! exactly one record per struct-category element, in document order, with
//! the fields and the member count that element carries.
//!
//! The event source hands the extractor a flat stream; this module builds
//! the nesting back up as a ghost tree, says which trees the schema admits,
//! and proves what a run over the tree's event stream produces.

use vstd::prelude::*;

use crate::attrs::{category_attr_spec, member_from_attrs_spec, struct_from_attrs_spec};
use crate::events::EventV;
use crate::laws::steps;
use crate::machine::{run_spec, run_steps, start_spec, step_spec, text_spec, Armed, ExtractionV, StateV};
use crate::model::{ErrorV, MemberV, StructV, TypeCategory};
use crate::normalize::convert_type_spec;
use crate::stray::{apply_stray_spec, classify_stray_spec};

verus! {

/// One node of the document tree.
pub ghost enum NodeV {
    /// An element with its attributes and content.
    Element { name: Seq<char>, attrs: Seq<(Seq<char>, Seq<char>)>, children: Seq<NodeV> },
    /// Character data.
    Text(Seq<char>),
}

/// The event stream of one node: its start tag, its content's events, its
/// end tag.
pub open spec fn flatten_node(n: NodeV) -> Seq<EventV>
    decreases n,
{
    match n {
        NodeV::Text(t) => seq![EventV::Text(t)],
        NodeV::Element { name, attrs, children } => seq![
            EventV::StartElement { name, attributes: attrs },
        ] + flatten_nodes(children) + seq![EventV::EndElement { name }],
    }
}

/// The event stream of a forest: each node's events in order.
pub open spec fn flatten_nodes(ns: Seq<NodeV>) -> Seq<EventV>
    decreases ns,
{
    if ns.len() == 0 {
        Seq::empty()
    } else {
        flatten_node(ns[0]) + flatten_nodes(ns.drop_first())
    }
}

/// The element opens a struct-category entity.
pub open spec fn is_struct_element(n: NodeV) -> bool {
    match n {
        NodeV::Element { name, attrs, .. } => name == "type"@ && category_attr_spec(attrs)
            == TypeCategory::Struct,
        NodeV::Text(_) => false,
    }
}

/// An element named `tag` with no attributes and exactly one text child.
pub open spec fn is_leaf(n: NodeV, tag: Seq<char>) -> bool {
    match n {
        NodeV::Element { name, attrs, children } => name == tag && attrs.len() == 0
            && children.len() == 1 && children[0] is Text,
        NodeV::Text(_) => false,
    }
}

/// The text of a leaf element.
pub open spec fn leaf_text(n: NodeV) -> Seq<char> {
    match n {
        NodeV::Element { children, .. } => match children[0] {
            NodeV::Text(t) => t,
            NodeV::Element { .. } => Seq::empty(),
        },
        NodeV::Text(t) => t,
    }
}

/// What a member element may contain: `type`, `name`, `enum` and `comment`
/// leaves with non-empty text — the type's through the normalizer's table —
/// and stray text the token classifier recognizes.
pub open spec fn ok_member_child(n: NodeV) -> bool {
    match n {
        NodeV::Text(t) => t.len() == 0 || classify_stray_spec(t) is Ok,
        NodeV::Element { .. } => {
            &&& leaf_text(n).len() > 0
            &&& {
                ||| (is_leaf(n, "type"@) && convert_type_spec(leaf_text(n)) is Ok)
                ||| is_leaf(n, "name"@)
                ||| is_leaf(n, "enum"@)
                ||| is_leaf(n, "comment"@)
            }
        },
    }
}

/// One piece of member content folded onto the member under construction.
pub open spec fn member_child_apply(m: MemberV, n: NodeV) -> MemberV {
    match n {
        NodeV::Text(t) => if t.len() == 0 {
            m
        } else {
            match classify_stray_spec(t) {
                Ok(tok) => apply_stray_spec(m, tok),
                Err(_) => m,
            }
        },
        NodeV::Element { name, .. } => if name == "type"@ {
            match convert_type_spec(leaf_text(n)) {
                Ok(ty) => MemberV { ty, ..m },
                Err(_) => m,
            }
        } else if name == "name"@ {
            MemberV { name: leaf_text(n), ..m }
        } else if name == "enum"@ {
            MemberV { array_size: Some(leaf_text(n)), ..m }
        } else {
            MemberV { comment: Some(leaf_text(n)), ..m }
        },
    }
}

/// A member's content folded in document order.
pub open spec fn member_fold(m: MemberV, ns: Seq<NodeV>) -> MemberV
    decreases ns.len(),
{
    if ns.len() == 0 {
        m
    } else {
        member_fold(member_child_apply(m, ns[0]), ns.drop_first())
    }
}

/// The member record a member element denotes: its attributes, then its
/// content.
pub open spec fn member_of(attrs: Seq<(Seq<char>, Seq<char>)>, children: Seq<NodeV>) -> MemberV {
    match member_from_attrs_spec(attrs) {
        Ok(m0) => member_fold(m0, children),
        Err(_) => MemberV::default(),
    }
}

/// A member element the schema admits: recognized attributes, recognized
/// content, and a field name filled in by the time it closes.
pub open spec fn ok_member_element(attrs: Seq<(Seq<char>, Seq<char>)>, children: Seq<NodeV>) -> bool {
    &&& member_from_attrs_spec(attrs) is Ok
    &&& (forall|i: int| 0 <= i < children.len() ==> ok_member_child(#[trigger] children[i]))
    &&& member_of(attrs, children).name.len() > 0
}

/// What a struct-category element may contain: member elements and comment
/// leaves with non-empty text.
pub open spec fn ok_struct_child(n: NodeV) -> bool {
    match n {
        NodeV::Element { name, attrs, children } => {
            ||| (name == "member"@ && ok_member_element(attrs, children))
            ||| (is_leaf(n, "comment"@) && leaf_text(n).len() > 0)
        },
        NodeV::Text(_) => false,
    }
}

/// One piece of struct content folded onto the struct under construction.
pub open spec fn struct_child_apply(st: StructV, n: NodeV) -> StructV {
    match n {
        NodeV::Element { name, attrs, children } => if name == "member"@ {
            StructV { members: st.members.push(member_of(attrs, children)), ..st }
        } else {
            StructV { comment: leaf_text(n), ..st }
        },
        NodeV::Text(_) => st,
    }
}

/// A struct's content folded in document order.
pub open spec fn struct_fold(st: StructV, ns: Seq<NodeV>) -> StructV
    decreases ns.len(),
{
    if ns.len() == 0 {
        st
    } else {
        struct_fold(struct_child_apply(st, ns[0]), ns.drop_first())
    }
}

/// The struct record a struct-category element denotes: its attributes,
/// then its content.
pub open spec fn struct_of(attrs: Seq<(Seq<char>, Seq<char>)>, children: Seq<NodeV>) -> StructV {
    match struct_from_attrs_spec(attrs) {
        Ok(st0) => struct_fold(st0, children),
        Err(_) => struct_fold(
            StructV {
                name: Seq::empty(),
                returnedonly: false,
                structextends: None,
                comment: Seq::empty(),
                members: Seq::empty(),
            },
            children,
        ),
    }
}

/// A struct-category element the schema admits.
pub open spec fn ok_struct_element(n: NodeV) -> bool {
    match n {
        NodeV::Element { name, attrs, children } => {
            &&& name == "type"@
            &&& category_attr_spec(attrs) == TypeCategory::Struct
            &&& struct_from_attrs_spec(attrs) is Ok
            &&& (forall|i: int| 0 <= i < children.len() ==> ok_struct_child(#[trigger] children[i]))
        },
        NodeV::Text(_) => false,
    }
}

/// A document the schema admits: text anywhere, struct-category elements
/// of the admitted shape, and any other element as long as everything
/// nested inside it is itself admitted.
pub open spec fn ok_doc_node(n: NodeV) -> bool
    decreases n,
{
    match n {
        NodeV::Text(_) => true,
        NodeV::Element { name, attrs, children } => if is_struct_element(n) {
            ok_struct_element(n)
        } else {
            forall|i: int| 0 <= i < children.len() ==> ok_doc_node(#[trigger] children[i])
        },
    }
}

/// Every node of the forest is admitted.
pub open spec fn ok_doc_nodes(ns: Seq<NodeV>) -> bool {
    forall|i: int| 0 <= i < ns.len() ==> ok_doc_node(#[trigger] ns[i])
}

/// The struct records a node carries, in document order.
pub open spec fn doc_structs(n: NodeV) -> Seq<StructV>
    decreases n,
{
    match n {
        NodeV::Text(_) => Seq::empty(),
        NodeV::Element { name, attrs, children } => if is_struct_element(n) {
            seq![struct_of(attrs, children)]
        } else {
            doc_structs_seq(children)
        },
    }
}

/// The struct records of a forest, in document order.
pub open spec fn doc_structs_seq(ns: Seq<NodeV>) -> Seq<StructV>
    decreases ns,
{
    if ns.len() == 0 {
        Seq::empty()
    } else {
        doc_structs(ns[0]) + doc_structs_seq(ns.drop_first())
    }
}

/// The extractor between two nodes of a member's content: both
/// accumulators open, nothing armed, the two recorded depths directly
/// below the current one.
pub open spec fn member_open_inv(s: StateV) -> bool {
    &&& s.current_struct is Some
    &&& s.current_member is Some
    &&& s.armed == Armed::NotArmed
    &&& !s.struct_comment_armed
    &&& s.member_start_depth + 1 == s.depth
    &&& s.struct_start_depth + 2 == s.depth
}

/// The extractor between two nodes of a struct's content: the struct open,
/// no member, nothing armed.
pub open spec fn struct_open_inv(s: StateV) -> bool {
    &&& s.current_struct is Some
    &&& s.current_member is None
    &&& s.armed == Armed::NotArmed
    &&& !s.struct_comment_armed
    &&& s.struct_start_depth + 1 == s.depth
}

/// The extractor between two top-level nodes: nothing open, nothing armed.
pub open spec fn idle_inv(s: StateV) -> bool {
    &&& s.current_struct is None
    &&& s.current_member is None
    &&& s.armed == Armed::NotArmed
    &&& !s.struct_comment_armed
}

proof fn lemma_steps_append(s: StateV, a: Seq<EventV>, b: Seq<EventV>)
    ensures
        steps(s, a + b) == (match steps(s, a) {
            Ok(s2) => steps(s2, b),
            Err(e) => Err::<StateV, ErrorV>(e),
        }),
    decreases a.len(),
{
    if a.len() == 0 {
        assert(a + b =~= b);
    } else {
        assert((a + b)[0] == a[0]);
        assert((a + b).drop_first() =~= a.drop_first() + b);
        match step_spec(s, a[0]) {
            Ok(s2) => {
                lemma_steps_append(s2, a.drop_first(), b);
            },
            Err(_) => {},
        }
    }
}

proof fn lemma_tag_literals()
    ensures
        "type"@.len() == 4,
        "name"@.len() == 4,
        "enum"@.len() == 4,
        "member"@.len() == 6,
        "comment"@.len() == 7,
        "type"@[0] == 't',
        "name"@[0] == 'n',
        "enum"@[0] == 'e',
{
    reveal_strlit("type");
    reveal_strlit("name");
    reveal_strlit("enum");
    reveal_strlit("member");
    reveal_strlit("comment");
}

proof fn lemma_member_child(s: StateV, m: MemberV, n: NodeV)
    requires
        member_open_inv(s),
        s.current_member == Some(m),
        ok_member_child(n),
    ensures
        steps(s, flatten_node(n)) == Ok::<StateV, ErrorV>(
            StateV { current_member: Some(member_child_apply(m, n)), ..s },
        ),
{
    lemma_tag_literals();
    match n {
        NodeV::Text(t) => {
            let evs = flatten_node(n);
            assert(evs[0] == EventV::Text(t));
            assert(evs.drop_first() =~= Seq::<EventV>::empty());
            let s1 = StateV { current_member: Some(member_child_apply(m, n)), ..s };
            if t.len() == 0 {
                assert(s1 == s);
            }
            assert(text_spec(s, t) == Ok::<StateV, ErrorV>(s1));
            assert(step_spec(s, evs[0]) == Ok::<StateV, ErrorV>(s1));
            assert(steps(s1, evs.drop_first()) == Ok::<StateV, ErrorV>(s1));
            assert(steps(s, evs) == Ok::<StateV, ErrorV>(s1));
        },
        NodeV::Element { name, attrs, children } => {
            let e0 = EventV::StartElement { name, attributes: attrs };
            let t = leaf_text(n);
            let e1 = EventV::Text(t);
            let e2 = EventV::EndElement { name };
            assert(flatten_nodes(children) =~= seq![e1]) by {
                assert(children[0] == NodeV::Text(t));
                assert(flatten_nodes(children.drop_first()) =~= Seq::<EventV>::empty());
                assert(flatten_node(children[0]) =~= seq![e1]);
            }
            let evs = flatten_node(n);
            assert(evs =~= seq![e0, e1, e2]);
            assert(evs.drop_first() =~= seq![e1, e2]);
            assert(seq![e1, e2].drop_first() =~= seq![e2]);
            assert(seq![e2].drop_first() =~= Seq::<EventV>::empty());
            assert(category_attr_spec(attrs) == TypeCategory::Unset);
            let target = StateV { current_member: Some(member_child_apply(m, n)), ..s };
            let s1 = start_spec(s, name, attrs)->Ok_0;
            assert(step_spec(s, e0) == Ok::<StateV, ErrorV>(s1));
            let s2 = text_spec(s1, t)->Ok_0;
            assert(step_spec(s1, e1) == Ok::<StateV, ErrorV>(s2));
            assert(step_spec(s2, e2) == Ok::<StateV, ErrorV>(target));
            assert(steps(target, Seq::<EventV>::empty()) == Ok::<StateV, ErrorV>(target));
            assert(steps(s2, seq![e2]) == Ok::<StateV, ErrorV>(target));
            assert(steps(s1, seq![e1, e2]) == Ok::<StateV, ErrorV>(target));
            assert(steps(s, evs) == Ok::<StateV, ErrorV>(target));
        },
    }
}

proof fn lemma_member_children(s: StateV, m: MemberV, ns: Seq<NodeV>)
    requires
        member_open_inv(s),
        s.current_member == Some(m),
        forall|i: int| 0 <= i < ns.len() ==> ok_member_child(#[trigger] ns[i]),
    ensures
        steps(s, flatten_nodes(ns)) == Ok::<StateV, ErrorV>(
            StateV { current_member: Some(member_fold(m, ns)), ..s },
        ),
    decreases ns.len(),
{
    if ns.len() == 0 {
        assert(StateV { current_member: Some(m), ..s } == s);
    } else {
        let m1 = member_child_apply(m, ns[0]);
        let s1 = StateV { current_member: Some(m1), ..s };
        lemma_member_child(s, m, ns[0]);
        lemma_steps_append(s, flatten_node(ns[0]), flatten_nodes(ns.drop_first()));
        let rest = ns.drop_first();
        assert forall|i: int| 0 <= i < rest.len() implies ok_member_child(#[trigger] rest[i]) by {
            assert(rest[i] == ns[i + 1]);
        }
        lemma_member_children(s1, m1, rest);
        assert(StateV { current_member: Some(member_fold(m1, rest)), ..s1 } == (StateV {
            current_member: Some(member_fold(m, ns)),
            ..s
        }));
    }
}

proof fn lemma_member_element(
    s: StateV,
    st: StructV,
    attrs: Seq<(Seq<char>, Seq<char>)>,
    children: Seq<NodeV>,
)
    requires
        struct_open_inv(s),
        s.current_struct == Some(st),
        ok_member_element(attrs, children),
    ensures
        steps(s, flatten_node(NodeV::Element { name: "member"@, attrs, children })) == Ok::<
            StateV,
            ErrorV,
        >(
            StateV {
                current_struct: Some(
                    StructV { members: st.members.push(member_of(attrs, children)), ..st },
                ),
                current_member: None,
                member_start_depth: s.depth,
                armed: Armed::NotArmed,
                ..s
            },
        ),
{
    lemma_tag_literals();
    let n = NodeV::Element { name: "member"@, attrs, children };
    let e0 = EventV::StartElement { name: "member"@, attributes: attrs };
    let e2 = EventV::EndElement { name: "member"@ };
    let mid = flatten_nodes(children);
    let evs = flatten_node(n);
    assert(evs == seq![e0] + mid + seq![e2]);
    let m0 = member_from_attrs_spec(attrs)->Ok_0;
    let s_open = StateV {
        depth: s.depth + 1,
        current_member: Some(m0),
        member_start_depth: s.depth,
        armed: Armed::NotArmed,
        ..s
    };
    assert(step_spec(s, e0) == Ok::<StateV, ErrorV>(s_open));
    assert(steps(s_open, Seq::<EventV>::empty()) == Ok::<StateV, ErrorV>(s_open));
    assert(seq![e0].drop_first() =~= Seq::<EventV>::empty());
    assert(steps(s, seq![e0]) == Ok::<StateV, ErrorV>(s_open));
    assert(member_open_inv(s_open));
    lemma_member_children(s_open, m0, children);
    let mf = member_fold(m0, children);
    let s_mid = StateV { current_member: Some(mf), ..s_open };
    assert(mf == member_of(attrs, children));
    assert(mf.name.len() > 0);
    let target = StateV {
        current_struct: Some(StructV { members: st.members.push(mf), ..st }),
        current_member: None,
        member_start_depth: s.depth,
        armed: Armed::NotArmed,
        ..s
    };
    assert(step_spec(s_mid, e2) == Ok::<StateV, ErrorV>(target));
    assert(steps(target, Seq::<EventV>::empty()) == Ok::<StateV, ErrorV>(target));
    assert(seq![e2].drop_first() =~= Seq::<EventV>::empty());
    assert(steps(s_mid, seq![e2]) == Ok::<StateV, ErrorV>(target));
    lemma_steps_append(s, seq![e0] + mid, seq![e2]);
    lemma_steps_append(s, seq![e0], mid);
}

proof fn lemma_struct_comment_child(s: StateV, st: StructV, n: NodeV)
    requires
        struct_open_inv(s),
        s.current_struct == Some(st),
        is_leaf(n, "comment"@),
        leaf_text(n).len() > 0,
    ensures
        steps(s, flatten_node(n)) == Ok::<StateV, ErrorV>(
            StateV { current_struct: Some(StructV { comment: leaf_text(n), ..st }), ..s },
        ),
{
    lemma_tag_literals();
    match n {
        NodeV::Element { name, attrs, children } => {
            let e0 = EventV::StartElement { name, attributes: attrs };
            let t = leaf_text(n);
            let e1 = EventV::Text(t);
            let e2 = EventV::EndElement { name };
            assert(flatten_nodes(children) =~= seq![e1]) by {
                assert(children[0] == NodeV::Text(t));
                assert(flatten_nodes(children.drop_first()) =~= Seq::<EventV>::empty());
                assert(flatten_node(children[0]) =~= seq![e1]);
            }
            let evs = flatten_node(n);
            assert(evs =~= seq![e0, e1, e2]);
            assert(evs.drop_first() =~= seq![e1, e2]);
            assert(seq![e1, e2].drop_first() =~= seq![e2]);
            assert(seq![e2].drop_first() =~= Seq::<EventV>::empty());
            assert(category_attr_spec(attrs) == TypeCategory::Unset);
            let s1 = StateV { depth: s.depth + 1, struct_comment_armed: true, ..s };
            assert(step_spec(s, e0) == Ok::<StateV, ErrorV>(s1));
            let s2 = StateV {
                depth: s.depth + 1,
                current_struct: Some(StructV { comment: t, ..st }),
                ..s
            };
            assert(step_spec(s1, e1) == Ok::<StateV, ErrorV>(s2));
            let target = StateV { current_struct: Some(StructV { comment: t, ..st }), ..s };
            assert(step_spec(s2, e2) == Ok::<StateV, ErrorV>(target));
            assert(steps(target, Seq::<EventV>::empty()) == Ok::<StateV, ErrorV>(target));
            assert(steps(s2, seq![e2]) == Ok::<StateV, ErrorV>(target));
            assert(steps(s1, seq![e1, e2]) == Ok::<StateV, ErrorV>(target));
            assert(steps(s, evs) == Ok::<StateV, ErrorV>(target));
        },
        NodeV::Text(_) => {},
    }
}

proof fn lemma_struct_children(s: StateV, st: StructV, ns: Seq<NodeV>)
    requires
        struct_open_inv(s),
        s.current_struct == Some(st),
        forall|i: int| 0 <= i < ns.len() ==> ok_struct_child(#[trigger] ns[i]),
    ensures
        steps(s, flatten_nodes(ns)) matches Ok(s2) && struct_open_inv(s2) && s2.current_struct
            == Some(struct_fold(st, ns)) && s2.depth == s.depth && s2.structs == s.structs
            && s2.struct_start_depth == s.struct_start_depth,
    decreases ns.len(),
{
    if ns.len() == 0 {
    } else {
        lemma_tag_literals();
        assert(ok_struct_child(ns[0]));
        let st1 = struct_child_apply(st, ns[0]);
        lemma_steps_append(s, flatten_node(ns[0]), flatten_nodes(ns.drop_first()));
        let s1: StateV;
        match ns[0] {
            NodeV::Element { name, attrs, children } => {
                if name == "member"@ {
                    lemma_member_element(s, st, attrs, children);
                    s1 = StateV {
                        current_struct: Some(st1),
                        current_member: None,
                        member_start_depth: s.depth,
                        armed: Armed::NotArmed,
                        ..s
                    };
                } else {
                    lemma_struct_comment_child(s, st, ns[0]);
                    s1 = StateV { current_struct: Some(st1), ..s };
                }
            },
            NodeV::Text(_) => {
                s1 = s;
                assert(false);
            },
        }
        assert(steps(s, flatten_node(ns[0])) == Ok::<StateV, ErrorV>(s1));
        assert(struct_open_inv(s1));
        let rest = ns.drop_first();
        assert forall|i: int| 0 <= i < rest.len() implies ok_struct_child(#[trigger] rest[i]) by {
            assert(rest[i] == ns[i + 1]);
        }
        lemma_struct_children(s1, st1, rest);
    }
}

proof fn lemma_struct_element(
    s: StateV,
    attrs: Seq<(Seq<char>, Seq<char>)>,
    children: Seq<NodeV>,
)
    requires
        idle_inv(s),
        category_attr_spec(attrs) == TypeCategory::Struct,
        struct_from_attrs_spec(attrs) is Ok,
        forall|i: int| 0 <= i < children.len() ==> ok_struct_child(#[trigger] children[i]),
    ensures
        steps(s, flatten_node(NodeV::Element { name: "type"@, attrs, children })) matches Ok(s2)
            && idle_inv(s2) && s2.depth == s.depth && s2.structs == s.structs.push(
            struct_of(attrs, children),
        ),
{
    lemma_tag_literals();
    let n = NodeV::Element { name: "type"@, attrs, children };
    let e0 = EventV::StartElement { name: "type"@, attributes: attrs };
    let e2 = EventV::EndElement { name: "type"@ };
    let mid = flatten_nodes(children);
    let evs = flatten_node(n);
    assert(evs == seq![e0] + mid + seq![e2]);
    let st0 = struct_from_attrs_spec(attrs)->Ok_0;
    let s_open = StateV {
        depth: s.depth + 1,
        current_struct: Some(st0),
        struct_start_depth: s.depth,
        struct_comment_armed: false,
        armed: Armed::NotArmed,
        ..s
    };
    assert(step_spec(s, e0) == Ok::<StateV, ErrorV>(s_open));
    assert(steps(s_open, Seq::<EventV>::empty()) == Ok::<StateV, ErrorV>(s_open));
    assert(seq![e0].drop_first() =~= Seq::<EventV>::empty());
    assert(steps(s, seq![e0]) == Ok::<StateV, ErrorV>(s_open));
    assert(struct_open_inv(s_open));
    lemma_struct_children(s_open, st0, children);
    let s_mid = steps(s_open, mid)->Ok_0;
    let stf = struct_fold(st0, children);
    assert(stf == struct_of(attrs, children));
    let target = StateV {
        depth: s.depth,
        structs: s.structs.push(stf),
        current_struct: None,
        struct_comment_armed: false,
        ..s_mid
    };
    assert(step_spec(s_mid, e2) == Ok::<StateV, ErrorV>(target));
    assert(steps(target, Seq::<EventV>::empty()) == Ok::<StateV, ErrorV>(target));
    assert(seq![e2].drop_first() =~= Seq::<EventV>::empty());
    assert(steps(s_mid, seq![e2]) == Ok::<StateV, ErrorV>(target));
    lemma_steps_append(s, seq![e0] + mid, seq![e2]);
    lemma_steps_append(s, seq![e0], mid);
    assert(idle_inv(target));
}

proof fn lemma_doc_node(s: StateV, n: NodeV)
    requires
        idle_inv(s),
        ok_doc_node(n),
    ensures
        steps(s, flatten_node(n)) matches Ok(s2) && idle_inv(s2) && s2.depth == s.depth
            && s2.structs == s.structs + doc_structs(n),
    decreases n,
{
    lemma_tag_literals();
    match n {
        NodeV::Text(t) => {
            let evs = flatten_node(n);
            assert(evs[0] == EventV::Text(t));
            assert(evs.drop_first() =~= Seq::<EventV>::empty());
            assert(step_spec(s, evs[0]) == Ok::<StateV, ErrorV>(s));
            assert(steps(s, Seq::<EventV>::empty()) == Ok::<StateV, ErrorV>(s));
            assert(steps(s, evs) == Ok::<StateV, ErrorV>(s));
            assert(s.structs + doc_structs(n) =~= s.structs);
        },
        NodeV::Element { name, attrs, children } => {
            if is_struct_element(n) {
                lemma_struct_element(s, attrs, children);
                let s2 = steps(s, flatten_node(n))->Ok_0;
                assert(s.structs + doc_structs(n) =~= s.structs.push(struct_of(attrs, children)));
            } else {
                let e0 = EventV::StartElement { name, attributes: attrs };
                let e2 = EventV::EndElement { name };
                let mid = flatten_nodes(children);
                let evs = flatten_node(n);
                assert(evs == seq![e0] + mid + seq![e2]);
                let s_open = StateV { depth: s.depth + 1, ..s };
                assert(step_spec(s, e0) == Ok::<StateV, ErrorV>(s_open));
                assert(steps(s_open, Seq::<EventV>::empty()) == Ok::<StateV, ErrorV>(s_open));
                assert(seq![e0].drop_first() =~= Seq::<EventV>::empty());
                assert(steps(s, seq![e0]) == Ok::<StateV, ErrorV>(s_open));
                lemma_doc_nodes(s_open, children);
                let s_mid = steps(s_open, mid)->Ok_0;
                let target = StateV { depth: s.depth, ..s_mid };
                assert(step_spec(s_mid, e2) == Ok::<StateV, ErrorV>(target));
                assert(steps(target, Seq::<EventV>::empty()) == Ok::<StateV, ErrorV>(target));
                assert(seq![e2].drop_first() =~= Seq::<EventV>::empty());
                assert(steps(s_mid, seq![e2]) == Ok::<StateV, ErrorV>(target));
                lemma_steps_append(s, seq![e0] + mid, seq![e2]);
                lemma_steps_append(s, seq![e0], mid);
            }
        },
    }
}

proof fn lemma_doc_nodes(s: StateV, ns: Seq<NodeV>)
    requires
        idle_inv(s),
        ok_doc_nodes(ns),
    ensures
        steps(s, flatten_nodes(ns)) matches Ok(s2) && idle_inv(s2) && s2.depth == s.depth
            && s2.structs == s.structs + doc_structs_seq(ns),
    decreases ns,
{
    if ns.len() == 0 {
        assert(s.structs + doc_structs_seq(ns) =~= s.structs);
    } else {
        assert(ok_doc_node(ns[0]));
        lemma_doc_node(s, ns[0]);
        lemma_steps_append(s, flatten_node(ns[0]), flatten_nodes(ns.drop_first()));
        let s1 = steps(s, flatten_node(ns[0]))->Ok_0;
        let rest = ns.drop_first();
        assert forall|i: int| 0 <= i < rest.len() implies ok_doc_node(#[trigger] rest[i]) by {
            assert(rest[i] == ns[i + 1]);
        }
        lemma_doc_nodes(s1, rest);
        assert(s1.structs + doc_structs_seq(rest) =~= s.structs + doc_structs_seq(ns));
    }
}

/// No node of the tree flattens to a source error.
proof fn lemma_flatten_node_no_source(n: NodeV)
    ensures
        forall|i: int|
            0 <= i < flatten_node(n).len() ==> !(#[trigger] flatten_node(n)[i] is SourceError),
    decreases n,
{
    match n {
        NodeV::Text(_) => {},
        NodeV::Element { name, attrs, children } => {
            lemma_flatten_nodes_no_source(children);
            let e0 = EventV::StartElement { name, attributes: attrs };
            let e2 = EventV::EndElement { name };
            let mid = flatten_nodes(children);
            let evs = flatten_node(n);
            assert(evs == seq![e0] + mid + seq![e2]);
            assert forall|i: int| 0 <= i < evs.len() implies !(#[trigger] evs[i] is SourceError) by {
                if 1 <= i < 1 + mid.len() {
                    assert(evs[i] == mid[i - 1]);
                }
            }
        },
    }
}

proof fn lemma_flatten_nodes_no_source(ns: Seq<NodeV>)
    ensures
        forall|i: int|
            0 <= i < flatten_nodes(ns).len() ==> !(#[trigger] flatten_nodes(ns)[i] is SourceError),
    decreases ns,
{
    if ns.len() > 0 {
        lemma_flatten_node_no_source(ns[0]);
        lemma_flatten_nodes_no_source(ns.drop_first());
        let a = flatten_node(ns[0]);
        let b = flatten_nodes(ns.drop_first());
        let evs = flatten_nodes(ns);
        assert(evs == a + b);
        assert forall|i: int| 0 <= i < evs.len() implies !(#[trigger] evs[i] is SourceError) by {
            if a.len() <= i {
                assert(evs[i] == b[i - a.len()]);
            } else {
                assert(evs[i] == a[i]);
            }
        }
    }
}

proof fn lemma_run_steps_is_steps(s: StateV, events: Seq<EventV>)
    requires
        forall|i: int| 0 <= i < events.len() ==> !(#[trigger] events[i] is SourceError),
    ensures
        run_steps(s, events) == (match steps(s, events) {
            Ok(s2) => Ok(ExtractionV { structs: s2.structs, source_error: None }),
            Err(e) => Err::<ExtractionV, ErrorV>(e),
        }),
    decreases events.len(),
{
    if events.len() > 0 {
        match step_spec(s, events[0]) {
            Ok(s2) => {
                let rest = events.drop_first();
                assert forall|i: int|
                    0 <= i < rest.len() implies !(#[trigger] rest[i] is SourceError) by {
                    assert(rest[i] == events[i + 1]);
                }
                lemma_run_steps_is_steps(s2, rest);
            },
            Err(_) => {},
        }
    }
}

/// For every document the schema admits, the run over its event stream
/// succeeds and collects exactly one record per struct-category element, in
/// document order, each the record its element denotes — name, qualifiers,
/// extends, comment and members included.
pub proof fn theorem_well_formed_extraction(ns: Seq<NodeV>)
    requires
        ok_doc_nodes(ns),
    ensures
        run_spec(flatten_nodes(ns)) == Ok::<ExtractionV, ErrorV>(
            ExtractionV { structs: doc_structs_seq(ns), source_error: None },
        ),
{
    let s0 = StateV::initial();
    lemma_doc_nodes(s0, ns);
    lemma_flatten_nodes_no_source(ns);
    lemma_run_steps_is_steps(s0, flatten_nodes(ns));
    assert(s0.structs + doc_structs_seq(ns) =~= doc_structs_seq(ns));
}

/// A member element among a struct element's children.
pub open spec fn is_member_element(n: NodeV) -> bool {
    match n {
        NodeV::Element { name, .. } => name == "member"@,
        NodeV::Text(_) => false,
    }
}

/// How many direct children of the element are member elements.
pub open spec fn member_child_count(ns: Seq<NodeV>) -> nat
    decreases ns.len(),
{
    if ns.len() == 0 {
        0
    } else {
        (if is_member_element(ns[0]) {
            1 as nat
        } else {
            0 as nat
        }) + member_child_count(ns.drop_first())
    }
}

proof fn lemma_struct_fold_member_count(st: StructV, ns: Seq<NodeV>)
    ensures
        struct_fold(st, ns).members.len() == st.members.len() + member_child_count(ns),
    decreases ns.len(),
{
    if ns.len() > 0 {
        lemma_struct_fold_member_count(struct_child_apply(st, ns[0]), ns.drop_first());
    }
}

/// The number of member records under a struct equals the number of
/// `member` elements that are direct children of its element.
pub proof fn theorem_member_count(attrs: Seq<(Seq<char>, Seq<char>)>, children: Seq<NodeV>)
    requires
        struct_from_attrs_spec(attrs) is Ok,
    ensures
        struct_of(attrs, children).members.len() == member_child_count(children),
{
    lemma_struct_fold_member_count(struct_from_attrs_spec(attrs)->Ok_0, children);
}

proof fn lemma_struct_fold_keeps_attr_fields(st: StructV, ns: Seq<NodeV>)
    ensures
        struct_fold(st, ns).name == st.name,
        struct_fold(st, ns).returnedonly == st.returnedonly,
        struct_fold(st, ns).structextends == st.structextends,
    decreases ns.len(),
{
    if ns.len() > 0 {
        lemma_struct_fold_keeps_attr_fields(struct_child_apply(st, ns[0]), ns.drop_first());
    }
}

/// The record a struct-category element denotes keeps the name, the
/// returned-only flag and the extends reference exactly as its attribute
/// list set them; only its content can touch the comment and the members.
pub proof fn theorem_struct_fields_from_attrs(
    attrs: Seq<(Seq<char>, Seq<char>)>,
    children: Seq<NodeV>,
)
    requires
        struct_from_attrs_spec(attrs) is Ok,
    ensures
        struct_of(attrs, children).name == struct_from_attrs_spec(attrs)->Ok_0.name,
        struct_of(attrs, children).returnedonly == struct_from_attrs_spec(
            attrs,
        )->Ok_0.returnedonly,
        struct_of(attrs, children).structextends == struct_from_attrs_spec(
            attrs,
        )->Ok_0.structextends,
{
    lemma_struct_fold_keeps_attr_fields(struct_from_attrs_spec(attrs)->Ok_0, children);
}

} // verus!
