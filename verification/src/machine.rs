//! The extractor itself: the struct-level and member-level accumulators
//! driven by one event stream, with a depth counter and two remembered
//! start depths standing in for the tree structure the flat stream lacks.
//!
//! An end-element closes an accumulator exactly when the post-decrement
//! depth equals the depth recorded when that accumulator opened.  At most
//! one struct and at most one member are ever under construction; opening
//! a second of either is a fatal state-machine error.

use vstd::prelude::*;

use crate::attrs::{category_attr, category_attr_spec, member_from_attrs_spec, struct_from_attrs_spec};
use crate::events::{EventV, ParseEvent};
use crate::model::{ErrorV, FatalError, Member, MemberV, Struct, StructV, TypeCategory};
use crate::normalize::{convert_type, convert_type_spec};
use crate::stray::{apply_stray_spec, classify_stray_spec, parse_stray_text};
use crate::text::str_eq;

verus! {

/// Which field of the open member the next text event fills; the member
/// accumulator's armed states.
#[derive(Clone, Copy, Debug, PartialEq, Eq, Structural)]
pub enum Armed {
    /// No sub-element armed: text is stray content for the token
    /// classifier.
    NotArmed,
    /// A `type` sub-element opened: text is the member's type, through the
    /// type normalizer.
    MemberType,
    /// A `name` sub-element opened: text is the member's field name.
    MemberName,
    /// An `enum` sub-element opened: text is a symbolic length reference.
    MemberArraySize,
    /// A `comment` sub-element opened: text is the member's documentation.
    MemberComment,
}

/// Mathematical image of the extractor between two events.
pub ghost struct StateV {
    /// Nesting level of the next event.
    pub depth: nat,
    /// The completed structs, in document order.
    pub structs: Seq<StructV>,
    /// The struct under construction, if any.
    pub current_struct: Option<StructV>,
    /// Depth at which the open struct's start-element stood.
    pub struct_start_depth: nat,
    /// A `comment` element opened directly under the struct: the next text
    /// is the struct's documentation.
    pub struct_comment_armed: bool,
    /// The member under construction, if any.
    pub current_member: Option<MemberV>,
    /// Depth at which the open member's start-element stood.
    pub member_start_depth: nat,
    /// The member accumulator's armed state.
    pub armed: Armed,
}

impl StateV {
    /// Before any event: depth zero, nothing open, nothing collected.
    pub open spec fn initial() -> StateV {
        StateV {
            depth: 0,
            structs: Seq::empty(),
            current_struct: None,
            struct_start_depth: 0,
            struct_comment_armed: false,
            current_member: None,
            member_start_depth: 0,
            armed: Armed::NotArmed,
        }
    }
}

/// A start-element dispatched to the accumulators.  A struct-category
/// `type` element opens the struct accumulator; inside an open struct the
/// recognized tags open the member accumulator or arm a field, and any
/// other tag is fatal; outside a struct the element is passed over.
/// The depth counter grows after the dispatch.
pub open spec fn start_spec(s: StateV, name: Seq<char>, attrs: Seq<(Seq<char>, Seq<char>)>) -> Result<
    StateV,
    ErrorV,
> {
    if name == "type"@ && category_attr_spec(attrs) == TypeCategory::Struct {
        if s.current_struct is Some || s.current_member is Some {
            Err(ErrorV::StructAlreadyOpen)
        } else {
            match struct_from_attrs_spec(attrs) {
                Ok(st) => Ok(
                    StateV {
                        depth: s.depth + 1,
                        current_struct: Some(st),
                        struct_start_depth: s.depth,
                        struct_comment_armed: false,
                        armed: Armed::NotArmed,
                        ..s
                    },
                ),
                Err(e) => Err(e),
            }
        }
    } else if s.current_struct is Some {
        if name == "member"@ {
            if s.current_member is Some {
                Err(ErrorV::MemberAlreadyOpen)
            } else {
                match member_from_attrs_spec(attrs) {
                    Ok(m) => Ok(
                        StateV {
                            depth: s.depth + 1,
                            current_member: Some(m),
                            member_start_depth: s.depth,
                            armed: Armed::NotArmed,
                            ..s
                        },
                    ),
                    Err(e) => Err(e),
                }
            }
        } else if name == "type"@ {
            Ok(StateV { depth: s.depth + 1, armed: Armed::MemberType, ..s })
        } else if name == "name"@ {
            Ok(StateV { depth: s.depth + 1, armed: Armed::MemberName, ..s })
        } else if name == "enum"@ {
            Ok(StateV { depth: s.depth + 1, armed: Armed::MemberArraySize, ..s })
        } else if name == "comment"@ {
            if s.current_member is Some {
                Ok(StateV { depth: s.depth + 1, armed: Armed::MemberComment, ..s })
            } else {
                Ok(StateV { depth: s.depth + 1, struct_comment_armed: true, ..s })
            }
        } else {
            Err(ErrorV::UnknownTag { name })
        }
    } else {
        Ok(StateV { depth: s.depth + 1, ..s })
    }
}

/// A text event.  Inside an open member it fills the armed field — the
/// type through the normalizer — or goes to the token classifier; directly
/// inside a struct it fills an armed comment; empty text and text outside
/// any accumulator are passed over.
pub open spec fn text_spec(s: StateV, t: Seq<char>) -> Result<StateV, ErrorV> {
    if t.len() == 0 {
        Ok(s)
    } else {
        match s.current_member {
            Some(m) => match s.armed {
                Armed::MemberType => match convert_type_spec(t) {
                    Ok(ty) => Ok(
                        StateV {
                            current_member: Some(MemberV { ty, ..m }),
                            armed: Armed::NotArmed,
                            ..s
                        },
                    ),
                    Err(e) => Err(e),
                },
                Armed::MemberName => Ok(
                    StateV {
                        current_member: Some(MemberV { name: t, ..m }),
                        armed: Armed::NotArmed,
                        ..s
                    },
                ),
                Armed::MemberArraySize => Ok(
                    StateV {
                        current_member: Some(MemberV { array_size: Some(t), ..m }),
                        armed: Armed::NotArmed,
                        ..s
                    },
                ),
                Armed::MemberComment => Ok(
                    StateV {
                        current_member: Some(MemberV { comment: Some(t), ..m }),
                        armed: Armed::NotArmed,
                        ..s
                    },
                ),
                Armed::NotArmed => match classify_stray_spec(t) {
                    Ok(tok) => Ok(StateV { current_member: Some(apply_stray_spec(m, tok)), ..s }),
                    Err(e) => Err(e),
                },
            },
            None => match s.current_struct {
                Some(st) => if s.struct_comment_armed {
                    Ok(
                        StateV {
                            current_struct: Some(StructV { comment: t, ..st }),
                            struct_comment_armed: false,
                            ..s
                        },
                    )
                } else {
                    Ok(s)
                },
                None => Ok(s),
            },
        }
    }
}

/// An end-element.  The depth counter shrinks before the dispatch; at the
/// recorded member depth a `member` end seals the member — its field name
/// must be filled in — and at the recorded struct depth a `type` end seals
/// the struct into the output.  An end below the document root has no
/// matching start and is fatal.
pub open spec fn end_spec(s: StateV, name: Seq<char>) -> Result<StateV, ErrorV> {
    if s.depth == 0 {
        Err(ErrorV::UnmatchedEnd { name })
    } else {
        let d = (s.depth - 1) as nat;
        match s.current_struct {
            Some(st) => if name == "member"@ && d == s.member_start_depth {
                match s.current_member {
                    Some(m) => if m.name.len() > 0 {
                        Ok(
                            StateV {
                                depth: d,
                                current_struct: Some(StructV { members: st.members.push(m), ..st }),
                                current_member: None,
                                armed: Armed::NotArmed,
                                ..s
                            },
                        )
                    } else {
                        Err(ErrorV::MissingMemberName)
                    },
                    None => Err(ErrorV::UnmatchedEnd { name }),
                }
            } else if name == "type"@ && d == s.struct_start_depth {
                if s.current_member is Some {
                    Err(ErrorV::UnclosedMember)
                } else {
                    Ok(
                        StateV {
                            depth: d,
                            structs: s.structs.push(st),
                            current_struct: None,
                            struct_comment_armed: false,
                            ..s
                        },
                    )
                }
            } else {
                Ok(StateV { depth: d, ..s })
            },
            None => Ok(StateV { depth: d, ..s }),
        }
    }
}

/// One event dispatched to the accumulators.  A source error is the
/// driving loop's to handle and changes no state here; markup events carry
/// nothing the extractor reads.
pub open spec fn step_spec(s: StateV, e: EventV) -> Result<StateV, ErrorV> {
    match e {
        EventV::StartElement { name, attributes } => start_spec(s, name, attributes),
        EventV::EndElement { name } => end_spec(s, name),
        EventV::Text(t) => text_spec(s, t),
        EventV::SourceError(_) => Ok(s),
        EventV::Markup => Ok(s),
    }
}

/// The extractor's full state between two events.
pub struct Extractor {
    depth: usize,
    structs: Vec<Struct>,
    current_struct: Option<Struct>,
    struct_start_depth: usize,
    struct_comment_armed: bool,
    current_member: Option<Member>,
    member_start_depth: usize,
    armed: Armed,
}

impl View for Extractor {
    type V = StateV;

    closed spec fn view(&self) -> StateV {
        StateV {
            depth: self.depth as nat,
            structs: self.structs.deep_view(),
            current_struct: self.current_struct.deep_view(),
            struct_start_depth: self.struct_start_depth as nat,
            struct_comment_armed: self.struct_comment_armed,
            current_member: self.current_member.deep_view(),
            member_start_depth: self.member_start_depth as nat,
            armed: self.armed,
        }
    }
}

impl Extractor {
    /// An extractor that has seen no event.
    pub fn new() -> (e: Extractor)
        ensures
            e@ == StateV::initial(),
    {
        let e = Extractor {
            depth: 0,
            structs: Vec::new(),
            current_struct: None,
            struct_start_depth: 0,
            struct_comment_armed: false,
            current_member: None,
            member_start_depth: 0,
            armed: Armed::NotArmed,
        };
        proof {
            assert(e@.structs =~= Seq::<StructV>::empty());
        }
        e
    }

    /// Dispatches one event; on a fatal schema violation the extractor is
    /// left exactly as it was and the violation is reported.
    pub fn step(&mut self, event: &ParseEvent) -> (r: Result<(), FatalError>)
        requires
            old(self)@.depth < usize::MAX,
        ensures
            match r {
                Ok(()) => {
                    &&& step_spec(old(self)@, event@) matches Ok(s2)
                    &&& final(self)@ == s2
                },
                Err(e) => {
                    &&& step_spec(old(self)@, event@) == Err::<StateV, ErrorV>(e@)
                    &&& final(self)@ == old(self)@
                },
            },
    {
        match event {
            ParseEvent::StartElement { name, attributes } => self.start_element(name, attributes),
            ParseEvent::EndElement { name } => self.end_element(name),
            ParseEvent::Text(t) => self.text(t),
            ParseEvent::SourceError(_) => Ok(()),
            ParseEvent::Markup => Ok(()),
        }
    }

    /// The structs collected so far, surrendering the extractor.
    pub fn finish(self) -> (v: Vec<Struct>)
        ensures
            v.deep_view() == self@.structs,
    {
        self.structs
    }

    fn start_element(&mut self, name: &String, attributes: &Vec<(String, String)>) -> (r: Result<
        (),
        FatalError,
    >)
        requires
            old(self)@.depth < usize::MAX,
        ensures
            match r {
                Ok(()) => {
                    &&& start_spec(old(self)@, name@, attributes.deep_view()) matches Ok(s2)
                    &&& final(self)@ == s2
                },
                Err(e) => {
                    &&& start_spec(old(self)@, name@, attributes.deep_view()) == Err::<
                        StateV,
                        ErrorV,
                    >(e@)
                    &&& final(self)@ == old(self)@
                },
            },
    {
        let is_struct_start = str_eq(name.as_str(), "type") && category_attr(attributes)
            == TypeCategory::Struct;
        if is_struct_start {
            if self.current_struct.is_some() || self.current_member.is_some() {
                return Err(FatalError::StructAlreadyOpen);
            }
            let st = match Struct::new(attributes) {
                Ok(st) => st,
                Err(e) => {
                    return Err(e);
                },
            };
            self.struct_start_depth = self.depth;
            self.current_struct = Some(st);
            self.struct_comment_armed = false;
            self.armed = Armed::NotArmed;
            self.depth = self.depth + 1;
            Ok(())
        } else if self.current_struct.is_some() {
            if str_eq(name.as_str(), "member") {
                if self.current_member.is_some() {
                    return Err(FatalError::MemberAlreadyOpen);
                }
                let m = match Member::new(attributes) {
                    Ok(m) => m,
                    Err(e) => {
                        return Err(e);
                    },
                };
                self.member_start_depth = self.depth;
                self.current_member = Some(m);
                self.armed = Armed::NotArmed;
                self.depth = self.depth + 1;
                Ok(())
            } else if str_eq(name.as_str(), "type") {
                self.armed = Armed::MemberType;
                self.depth = self.depth + 1;
                Ok(())
            } else if str_eq(name.as_str(), "name") {
                self.armed = Armed::MemberName;
                self.depth = self.depth + 1;
                Ok(())
            } else if str_eq(name.as_str(), "enum") {
                self.armed = Armed::MemberArraySize;
                self.depth = self.depth + 1;
                Ok(())
            } else if str_eq(name.as_str(), "comment") {
                if self.current_member.is_some() {
                    self.armed = Armed::MemberComment;
                } else {
                    self.struct_comment_armed = true;
                }
                self.depth = self.depth + 1;
                Ok(())
            } else {
                Err(FatalError::UnknownTag { name: name.clone() })
            }
        } else {
            self.depth = self.depth + 1;
            Ok(())
        }
    }

    fn text(&mut self, t: &String) -> (r: Result<(), FatalError>)
        ensures
            match r {
                Ok(()) => {
                    &&& text_spec(old(self)@, t@) matches Ok(s2)
                    &&& final(self)@ == s2
                },
                Err(e) => {
                    &&& text_spec(old(self)@, t@) == Err::<StateV, ErrorV>(e@)
                    &&& final(self)@ == old(self)@
                },
            },
    {
        if t.as_str().is_empty() {
            return Ok(());
        }
        match &mut self.current_member {
            Some(m) => {
                match self.armed {
                    Armed::MemberType => {
                        let ty = match convert_type(t.as_str()) {
                            Ok(ty) => ty,
                            Err(e) => {
                                return Err(e);
                            },
                        };
                        m.ty = ty;
                        self.armed = Armed::NotArmed;
                        Ok(())
                    },
                    Armed::MemberName => {
                        m.name = t.clone();
                        self.armed = Armed::NotArmed;
                        Ok(())
                    },
                    Armed::MemberArraySize => {
                        m.array_size = Some(t.clone());
                        self.armed = Armed::NotArmed;
                        Ok(())
                    },
                    Armed::MemberComment => {
                        m.comment = Some(t.clone());
                        self.armed = Armed::NotArmed;
                        Ok(())
                    },
                    Armed::NotArmed => {
                        match parse_stray_text(t.as_str(), m) {
                            Ok(()) => Ok(()),
                            Err(e) => Err(e),
                        }
                    },
                }
            },
            None => {
                if self.struct_comment_armed {
                    match &mut self.current_struct {
                        Some(st) => {
                            st.comment = t.clone();
                            self.struct_comment_armed = false;
                            Ok(())
                        },
                        None => Ok(()),
                    }
                } else {
                    Ok(())
                }
            },
        }
    }

    fn end_element(&mut self, name: &String) -> (r: Result<(), FatalError>)
        ensures
            match r {
                Ok(()) => {
                    &&& end_spec(old(self)@, name@) matches Ok(s2)
                    &&& final(self)@ == s2
                },
                Err(e) => {
                    &&& end_spec(old(self)@, name@) == Err::<StateV, ErrorV>(e@)
                    &&& final(self)@ == old(self)@
                },
            },
    {
        if self.depth == 0 {
            return Err(FatalError::UnmatchedEnd { name: name.clone() });
        }
        let d = self.depth - 1;
        if self.current_struct.is_some() {
            if str_eq(name.as_str(), "member") && d == self.member_start_depth {
                match &self.current_member {
                    Some(m) => {
                        if !m.validate() {
                            return Err(FatalError::MissingMemberName);
                        }
                    },
                    None => {
                        return Err(FatalError::UnmatchedEnd { name: name.clone() });
                    },
                }
                let m = self.current_member.take().unwrap();
                match &mut self.current_struct {
                    Some(st) => {
                        let ghost pre_members = st.members.deep_view();
                        st.members.push(m);
                        proof {
                            assert(st.members.deep_view() =~= pre_members.push(m@));
                        }
                    },
                    None => (),
                }
                self.armed = Armed::NotArmed;
                self.depth = d;
                Ok(())
            } else if str_eq(name.as_str(), "type") && d == self.struct_start_depth {
                if self.current_member.is_some() {
                    return Err(FatalError::UnclosedMember);
                }
                let st = self.current_struct.take().unwrap();
                let ghost pre_structs = self.structs.deep_view();
                self.structs.push(st);
                proof {
                    assert(self.structs.deep_view() =~= pre_structs.push(st@));
                }
                self.struct_comment_armed = false;
                self.depth = d;
                Ok(())
            } else {
                self.depth = d;
                Ok(())
            }
        } else {
            self.depth = d;
            Ok(())
        }
    }
}

/// What a whole run produces: the completed structs in document order,
/// and the source's own error report where the scan halted early.
#[derive(Clone, Debug, PartialEq)]
pub struct Extraction {
    /// The completed structs, in document order.
    pub structs: Vec<Struct>,
    /// The source-stream error that halted the scan, if one arrived.
    pub source_error: Option<String>,
}

/// Mathematical image of an [`Extraction`].
pub ghost struct ExtractionV {
    pub structs: Seq<StructV>,
    pub source_error: Option<Seq<char>>,
}

impl View for Extraction {
    type V = ExtractionV;

    open spec fn view(&self) -> ExtractionV {
        ExtractionV { structs: self.structs.deep_view(), source_error: self.source_error.deep_view() }
    }
}

impl Extraction {
    /// How many structs the run collected.
    pub fn count(&self) -> (n: usize)
        ensures
            n == self@.structs.len(),
    {
        self.structs.len()
    }
}

/// The events from `s` onward, folded through the accumulators.  A source
/// error halts the scan at once, keeping whatever was already collected; a
/// schema violation aborts the run.
pub open spec fn run_steps(s: StateV, events: Seq<EventV>) -> Result<ExtractionV, ErrorV>
    decreases events.len(),
{
    if events.len() == 0 {
        Ok(ExtractionV { structs: s.structs, source_error: None })
    } else {
        match events[0] {
            EventV::SourceError(msg) => Ok(
                ExtractionV { structs: s.structs, source_error: Some(msg) },
            ),
            _ => match step_spec(s, events[0]) {
                Ok(s2) => run_steps(s2, events.drop_first()),
                Err(e) => Err(e),
            },
        }
    }
}

/// What [`run`] returns for an event sequence.
pub open spec fn run_spec(events: Seq<EventV>) -> Result<ExtractionV, ErrorV> {
    run_steps(StateV::initial(), events)
}

/// The driving loop: pulls the events in order until exhaustion, a source
/// error — which halts the scan but keeps the structs already collected —
/// or a fatal schema violation, which aborts the run.
#[verifier::loop_isolation(false)]
pub fn run(events: &Vec<ParseEvent>) -> (r: Result<Extraction, FatalError>)
    ensures
        match r {
            Ok(x) => run_spec(events.deep_view()) == Ok::<ExtractionV, ErrorV>(x@),
            Err(e) => run_spec(events.deep_view()) == Err::<ExtractionV, ErrorV>(e@),
        },
{
    let ghost evs = events.deep_view();
    let mut ex = Extractor::new();
    proof {
        assert(evs.skip(0) =~= evs);
    }
    let mut i: usize = 0;
    while i < events.len()
        invariant
            i <= events.len(),
            ex@.depth <= i,
            run_steps(ex@, evs.skip(i as int)) == run_spec(evs),
        decreases events.len() - i,
    {
        proof {
            assert(evs[i as int] == events@[i as int]@);
            assert(evs.skip(i as int)[0] == evs[i as int]);
            assert(evs.skip(i as int).drop_first() =~= evs.skip(i as int + 1));
        }
        let ev = &events[i];
        match ev {
            ParseEvent::SourceError(msg) => {
                let message = msg.clone();
                return Ok(Extraction { structs: ex.finish(), source_error: Some(message) });
            },
            _ => {
                match ex.step(ev) {
                    Ok(()) => (),
                    Err(e) => {
                        return Err(e);
                    },
                }
            },
        }
        i += 1;
    }
    Ok(Extraction { structs: ex.finish(), source_error: None })
}

} // verus!
