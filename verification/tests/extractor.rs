use registry_extract::events::ParseEvent;
use registry_extract::machine::Extractor;
use registry_extract::machine::run;
use registry_extract::model::FatalError;
use registry_extract::source::extract_from_bytes;

fn start(name: &str, attrs: &[(&str, &str)]) -> ParseEvent {
    ParseEvent::StartElement {
        name: name.to_string(),
        attributes: attrs.iter().map(|(n, v)| (n.to_string(), v.to_string())).collect(),
    }
}

fn end(name: &str) -> ParseEvent {
    ParseEvent::EndElement { name: name.to_string() }
}

fn text(t: &str) -> ParseEvent {
    ParseEvent::Text(t.to_string())
}

#[test]
fn example_info_scenario() {
    let doc = br#"<registry><types>
<type category="struct" name="ExampleInfo">
  <member><type>int32_t</type> <name>count</name></member>
  <member>const <type>char</type>* <name>label</name></member>
</type>
</types></registry>"#;
    let out = extract_from_bytes(doc).expect("well-formed registry");
    assert!(out.source_error.is_none());
    assert_eq!(out.structs.len(), 1);
    let st = &out.structs[0];
    assert_eq!(st.name, "ExampleInfo");
    assert_eq!(st.members.len(), 2);
    assert_eq!(st.members[0].ty, "i32");
    assert_eq!(st.members[0].name, "count");
    assert!(!st.members[0].is_const);
    assert!(!st.members[0].is_ptr);
    assert_eq!(st.members[1].ty, "i8");
    assert_eq!(st.members[1].name, "label");
    assert!(st.members[1].is_const);
    assert!(st.members[1].is_ptr);
}

#[test]
fn struct_fields_carry_over_in_document_order() {
    let doc = br#"<registry>
<type category="struct" name="Alpha" returnedonly="true" structextends="Base" comment="first">
  <member optional="true"><type>uint32_t</type> <name>a</name></member>
</type>
<type category="struct" name="Beta">
  <comment>second struct</comment>
  <member len="a"><type>float</type> <name>b</name></member>
  <member><type>void</type> <name>c</name></member>
</type>
</registry>"#;
    let out = extract_from_bytes(doc).expect("well-formed registry");
    assert_eq!(out.structs.len(), 2);
    let a = &out.structs[0];
    assert_eq!(a.name, "Alpha");
    assert!(a.returnedonly);
    assert_eq!(a.structextends.as_deref(), Some("Base"));
    assert_eq!(a.comment, "first");
    assert_eq!(a.members.len(), 1);
    assert!(a.members[0].optional);
    assert_eq!(a.members[0].ty, "u32");
    let b = &out.structs[1];
    assert_eq!(b.name, "Beta");
    assert!(!b.returnedonly);
    assert_eq!(b.structextends, None);
    assert_eq!(b.comment, "second struct");
    assert_eq!(b.members.len(), 2);
    assert_eq!(b.members[0].len.as_deref(), Some("a"));
    assert_eq!(b.members[0].ty, "f32");
    assert_eq!(b.members[1].ty, "()");
}

#[test]
fn source_error_keeps_collected_structs() {
    let mut doc = Vec::new();
    doc.extend_from_slice(
        br#"<registry>
<type category="struct" name="One"><member><type>uint8_t</type><name>x</name></member></type>
<type category="struct" name="Two"><member><type>int32_t</type><name>y</name></member></type>
"#,
    );
    doc.extend_from_slice(b"<<< not xml");
    let out = extract_from_bytes(&doc).expect("source errors are not fatal");
    assert_eq!(out.count(), 2);
    assert_eq!(out.structs.len(), 2);
    assert_eq!(out.structs[0].name, "One");
    assert_eq!(out.structs[1].name, "Two");
    assert!(out.source_error.is_some());
}

#[test]
fn source_error_event_halts_run() {
    let events = vec![
        start("type", &[("category", "struct"), ("name", "Kept")]),
        end("type"),
        ParseEvent::SourceError("stream broke".to_string()),
        start("type", &[("category", "struct"), ("name", "Lost")]),
        end("type"),
    ];
    let out = run(&events).expect("source errors are not fatal");
    assert_eq!(out.structs.len(), 1);
    assert_eq!(out.structs[0].name, "Kept");
    assert_eq!(out.source_error.as_deref(), Some("stream broke"));
}

#[test]
fn optional_exact_string_match() {
    let doc = br#"<r>
<type category="struct" name="S">
  <member optional="true"><type>uint32_t</type><name>a</name></member>
  <member optional="false"><type>uint32_t</type><name>b</name></member>
  <member optional="True"><type>uint32_t</type><name>c</name></member>
  <member><type>uint32_t</type><name>d</name></member>
</type>
</r>"#;
    let out = extract_from_bytes(doc).expect("well-formed registry");
    let members = &out.structs[0].members;
    assert!(members[0].optional);
    assert!(!members[1].optional);
    assert!(!members[2].optional);
    assert!(!members[3].optional);
}

#[test]
fn member_attributes_carry_over() {
    let doc = br#"<r>
<type category="struct" name="S">
  <member values="V" len="L" altlen="A" noautovalidity="true" externsync="true">
    <type>uint32_t</type><name>f</name><comment>doc text</comment>
  </member>
</type>
</r>"#;
    let out = extract_from_bytes(doc).expect("well-formed registry");
    let m = &out.structs[0].members[0];
    assert_eq!(m.values.as_deref(), Some("V"));
    assert_eq!(m.len.as_deref(), Some("L"));
    assert_eq!(m.altlen.as_deref(), Some("A"));
    assert!(m.noautovalidity);
    assert!(m.externsync);
    assert_eq!(m.comment.as_deref(), Some("doc text"));
}

#[test]
fn symbolic_length_reference_from_enum_element() {
    let doc = br#"<r>
<type category="struct" name="S">
  <member><type>char</type> <name>s</name>[<enum>MAX_LEN</enum>]</member>
</type>
</r>"#;
    let out = extract_from_bytes(doc).expect("well-formed registry");
    let m = &out.structs[0].members[0];
    assert_eq!(m.array_size.as_deref(), Some("MAX_LEN"));
}

#[test]
fn bracketed_dimensions_two_and_four() {
    let doc = br#"<r>
<type category="struct" name="S">
  <member><type>float</type> <name>m2</name>[2]</member>
  <member><type>float</type> <name>m4</name>[4]</member>
  <member><type>float</type> <name>m16</name>[16]</member>
</type>
</r>"#;
    let out = extract_from_bytes(doc).expect("well-formed registry");
    let members = &out.structs[0].members;
    assert_eq!(members[0].array_size.as_deref(), Some("2"));
    assert_eq!(members[1].array_size.as_deref(), Some("4"));
    assert_eq!(members[2].array_size.as_deref(), Some("16"));
}

#[test]
fn sub_element_ends_do_not_close_accumulators() {
    // End-elements of a member's sub-elements arrive above the recorded
    // depths and must close neither the member nor the struct.
    let events = vec![
        start("type", &[("category", "struct"), ("name", "S")]),
        start("member", &[]),
        start("type", &[]),
        text("uint32_t"),
        end("type"),
        start("name", &[]),
        text("f"),
        end("name"),
        end("member"),
        end("type"),
    ];
    let out = run(&events).expect("well-formed stream");
    assert_eq!(out.structs.len(), 1);
    assert_eq!(out.structs[0].members.len(), 1);
}

#[test]
fn missing_member_name_is_fatal() {
    let doc = br#"<r>
<type category="struct" name="S">
  <member><type>uint32_t</type></member>
</type>
</r>"#;
    let err = extract_from_bytes(doc).unwrap_err();
    assert_eq!(err, FatalError::MissingMemberName);
}

#[test]
fn missing_struct_name_is_fatal() {
    let doc = br#"<r><type category="struct" comment="anonymous"/></r>"#;
    let err = extract_from_bytes(doc).unwrap_err();
    assert_eq!(err, FatalError::MissingStructName);
}

#[test]
fn unknown_member_attribute_is_fatal() {
    let doc = br#"<r>
<type category="struct" name="S">
  <member unknownAttr="1"><type>uint32_t</type><name>f</name></member>
</type>
</r>"#;
    let err = extract_from_bytes(doc).unwrap_err();
    assert_eq!(
        err,
        FatalError::UnknownAttribute { name: "unknownAttr".to_string(), value: "1".to_string() },
    );
}

#[test]
fn unknown_struct_attribute_is_fatal() {
    let doc = br#"<r><type category="struct" name="S" oddity="x"/></r>"#;
    let err = extract_from_bytes(doc).unwrap_err();
    assert_eq!(
        err,
        FatalError::UnknownAttribute { name: "oddity".to_string(), value: "x".to_string() },
    );
}

#[test]
fn unknown_tag_inside_struct_is_fatal() {
    let doc = br#"<r><type category="struct" name="S"><bogus/></type></r>"#;
    let err = extract_from_bytes(doc).unwrap_err();
    assert_eq!(err, FatalError::UnknownTag { name: "bogus".to_string() });
}

#[test]
fn unknown_type_token_is_fatal() {
    let doc = br#"<r>
<type category="struct" name="S">
  <member><type>mystery_t</type><name>f</name></member>
</type>
</r>"#;
    let err = extract_from_bytes(doc).unwrap_err();
    assert_eq!(err, FatalError::UnknownType { name: "mystery_t".to_string() });
}

#[test]
fn unknown_stray_token_is_fatal() {
    let doc = br#"<r>
<type category="struct" name="S">
  <member>mystery <type>uint32_t</type><name>f</name></member>
</type>
</r>"#;
    let err = extract_from_bytes(doc).unwrap_err();
    assert_eq!(err, FatalError::UnknownToken { text: "mystery ".to_string() });
}

#[test]
fn member_inside_member_is_fatal() {
    let events = vec![
        start("type", &[("category", "struct"), ("name", "S")]),
        start("member", &[]),
        start("member", &[]),
    ];
    let err = run(&events).unwrap_err();
    assert_eq!(err, FatalError::MemberAlreadyOpen);
}

#[test]
fn struct_inside_struct_is_fatal() {
    let events = vec![
        start("type", &[("category", "struct"), ("name", "Outer")]),
        start("type", &[("category", "struct"), ("name", "Inner")]),
    ];
    let err = run(&events).unwrap_err();
    assert_eq!(err, FatalError::StructAlreadyOpen);
}

#[test]
fn end_below_root_is_fatal() {
    let events = vec![end("registry")];
    let err = run(&events).unwrap_err();
    assert_eq!(err, FatalError::UnmatchedEnd { name: "registry".to_string() });
}

#[test]
fn member_end_without_member_is_fatal() {
    let events = vec![
        start("type", &[("category", "struct"), ("name", "S")]),
        start("member", &[]),
        start("name", &[]),
        text("f"),
        end("name"),
        end("member"),
        start("comment", &[]),
        end("member"),
    ];
    let err = run(&events).unwrap_err();
    assert_eq!(err, FatalError::UnmatchedEnd { name: "member".to_string() });
}

#[test]
fn struct_end_with_open_member_is_fatal() {
    let events = vec![
        start("type", &[("category", "struct"), ("name", "S")]),
        start("member", &[]),
        end("type"),
        end("type"),
    ];
    let err = run(&events).unwrap_err();
    assert_eq!(err, FatalError::UnclosedMember);
}

#[test]
fn non_struct_categories_are_passed_over() {
    let doc = br#"<r>
<type category="union" name="U" whatever="ignored"><junk/></type>
<type category="enum" name="E"/>
<type name="plain"/>
<type category="struct" name="S"><member><type>uint32_t</type><name>f</name></member></type>
</r>"#;
    let out = extract_from_bytes(doc).expect("non-struct content is ignored");
    assert_eq!(out.structs.len(), 1);
    assert_eq!(out.structs[0].name, "S");
}

#[test]
fn extractor_can_be_stepped_by_hand() {
    let events = vec![
        start("registry", &[]),
        start("type", &[("category", "struct"), ("name", "S")]),
        start("member", &[]),
        start("type", &[]),
        text("uint32_t"),
        end("type"),
        start("name", &[]),
        text("f"),
        end("name"),
        end("member"),
        end("type"),
        end("registry"),
    ];
    let mut ex = Extractor::new();
    for ev in &events {
        ex.step(ev).expect("well-formed stream");
    }
    let structs = ex.finish();
    assert_eq!(structs.len(), 1);
    assert_eq!(structs[0].name, "S");
    assert_eq!(structs[0].members.len(), 1);
    assert_eq!(structs[0].members[0].ty, "u32");
    assert_eq!(structs[0].members[0].name, "f");
}

#[test]
fn empty_document_yields_no_structs() {
    let out = extract_from_bytes(b"<registry></registry>").expect("well-formed registry");
    assert_eq!(out.structs.len(), 0);
    assert!(out.source_error.is_none());
}
