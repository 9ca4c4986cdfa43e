use registry_extract::attrs::category_attr;
use registry_extract::model::{category, FatalError, Member, Struct, TypeCategory};
use registry_extract::normalize::convert_type;
use registry_extract::stray::{classify_stray, parse_stray_text, StrayToken};
use registry_extract::text::{indent, str_eq, str_has_prefix};

fn attrs(pairs: &[(&str, &str)]) -> Vec<(String, String)> {
    pairs.iter().map(|(n, v)| (n.to_string(), v.to_string())).collect()
}

fn blank_member() -> Member {
    Member::new(&Vec::new()).expect("no attributes are always valid")
}

#[test]
fn convert_type_fixed_table() {
    assert_eq!(convert_type("float").unwrap(), "f32");
    assert_eq!(convert_type("int32_t").unwrap(), "i32");
    assert_eq!(convert_type("uint32_t").unwrap(), "u32");
    assert_eq!(convert_type("char").unwrap(), "i8");
    assert_eq!(convert_type("uint8_t").unwrap(), "u8");
    assert_eq!(convert_type("void").unwrap(), "()");
}

#[test]
fn convert_type_naming_conventions() {
    assert_eq!(convert_type("PFN_vkAllocationFunction").unwrap(), "PFN_vkAllocationFunction");
    assert_eq!(convert_type("VkDeviceSize").unwrap(), "VkDeviceSize");
    assert_eq!(
        convert_type("size_t").unwrap_err(),
        FatalError::UnknownType { name: "size_t".to_string() },
    );
    assert_eq!(convert_type("up").unwrap_err(), FatalError::UnknownType { name: "up".to_string() });
}

#[test]
fn category_table() {
    assert_eq!(category("struct"), TypeCategory::Struct);
    assert_eq!(category("union"), TypeCategory::Union);
    assert_eq!(category("enum"), TypeCategory::Enum);
    assert_eq!(category("bitmask"), TypeCategory::Other);
}

#[test]
fn category_attr_last_occurrence_wins() {
    assert_eq!(category_attr(&attrs(&[])), TypeCategory::Unset);
    assert_eq!(category_attr(&attrs(&[("name", "X")])), TypeCategory::Unset);
    assert_eq!(
        category_attr(&attrs(&[("category", "union"), ("category", "struct")])),
        TypeCategory::Struct,
    );
}

#[test]
fn classify_stray_forms() {
    assert_eq!(classify_stray("[").unwrap(), StrayToken::Punctuation);
    assert_eq!(classify_stray("]").unwrap(), StrayToken::Punctuation);
    assert_eq!(classify_stray("[2]").unwrap(), StrayToken::Dim2);
    assert_eq!(classify_stray("[4]").unwrap(), StrayToken::Dim4);
    assert_eq!(classify_stray("const ").unwrap(), StrayToken::ConstQualifier);
    assert_eq!(classify_stray("struct ").unwrap(), StrayToken::StructKeyword);
    assert_eq!(classify_stray("* ").unwrap(), StrayToken::PointerMarker);
    assert_eq!(classify_stray("[16]").unwrap(), StrayToken::ArraySize("16".to_string()));
    assert_eq!(classify_stray("[[37]").unwrap(), StrayToken::ArraySize("37".to_string()));
}

#[test]
fn classify_stray_failures() {
    assert_eq!(
        classify_stray("weird").unwrap_err(),
        FatalError::UnknownToken { text: "weird".to_string() },
    );
    assert_eq!(
        classify_stray("[a]").unwrap_err(),
        FatalError::InvalidArraySizeChar { text: "[a]".to_string() },
    );
    assert_eq!(
        classify_stray("[1]2").unwrap_err(),
        FatalError::MisplacedBracket { text: "[1]2".to_string() },
    );
}

#[test]
fn stray_const_then_pointer_sets_both_flags() {
    let mut m = blank_member();
    parse_stray_text("const ", &mut m).unwrap();
    parse_stray_text("* ", &mut m).unwrap();
    assert!(m.is_const);
    assert!(m.is_ptr);
    assert!(!m.is_struct);
}

#[test]
fn stray_dimension_tokens_set_array_size() {
    let mut m = blank_member();
    parse_stray_text("[2]", &mut m).unwrap();
    assert_eq!(m.array_size.as_deref(), Some("2"));
    parse_stray_text("[4]", &mut m).unwrap();
    assert_eq!(m.array_size.as_deref(), Some("4"));
    parse_stray_text("[12]", &mut m).unwrap();
    assert_eq!(m.array_size.as_deref(), Some("12"));
}

#[test]
fn stray_error_leaves_member_untouched() {
    let mut m = blank_member();
    parse_stray_text("junk", &mut m).unwrap_err();
    assert_eq!(m, blank_member());
}

#[test]
fn member_new_applies_attributes() {
    let m = Member::new(&attrs(&[
        ("values", "A"),
        ("optional", "true"),
        ("len", "null-terminated"),
        ("noautovalidity", "maybe"),
        ("altlen", "B"),
        ("externsync", "true"),
    ]))
    .unwrap();
    assert_eq!(m.values.as_deref(), Some("A"));
    assert!(m.optional);
    assert_eq!(m.len.as_deref(), Some("null-terminated"));
    assert!(!m.noautovalidity);
    assert_eq!(m.altlen.as_deref(), Some("B"));
    assert!(m.externsync);
    assert_eq!(m.ty, "");
    assert_eq!(m.name, "");
    assert_eq!(m.array_size, None);
    assert_eq!(m.comment, None);
}

#[test]
fn member_new_rejects_unknown_attribute() {
    assert_eq!(
        Member::new(&attrs(&[("optional", "true"), ("name", "sneaky")])).unwrap_err(),
        FatalError::UnknownAttribute { name: "name".to_string(), value: "sneaky".to_string() },
    );
}

#[test]
fn member_validate_requires_field_name() {
    let mut m = blank_member();
    assert!(!m.validate());
    m.name = "x".to_string();
    assert!(m.validate());
}

#[test]
fn struct_new_applies_attributes() {
    let s = Struct::new(&attrs(&[
        ("category", "struct"),
        ("name", "Thing"),
        ("returnedonly", "true"),
        ("structextends", "Base"),
        ("comment", "doc"),
    ]))
    .unwrap();
    assert_eq!(s.name, "Thing");
    assert!(s.returnedonly);
    assert_eq!(s.structextends.as_deref(), Some("Base"));
    assert_eq!(s.comment, "doc");
    assert!(s.members.is_empty());
}

#[test]
fn struct_new_requires_name() {
    assert_eq!(
        Struct::new(&attrs(&[("category", "struct")])).unwrap_err(),
        FatalError::MissingStructName,
    );
}

#[test]
fn struct_new_rejects_unknown_attribute() {
    assert_eq!(
        Struct::new(&attrs(&[("name", "S"), ("optional", "true")])).unwrap_err(),
        FatalError::UnknownAttribute { name: "optional".to_string(), value: "true".to_string() },
    );
}

#[test]
fn text_helpers() {
    assert!(str_eq("abc", "abc"));
    assert!(!str_eq("abc", "abd"));
    assert!(!str_eq("abc", "ab"));
    assert!(str_has_prefix("const int", "const"));
    assert!(!str_has_prefix("con", "const"));
    assert!(str_has_prefix("anything", ""));
    assert_eq!(indent(0), "");
    assert_eq!(indent(3), "            ");
}
