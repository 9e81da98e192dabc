use krpc_build::types::{decode_class, decode_list, decode_tuple, decode_type};

fn object(text: &str) -> serde_json::Map<String, serde_json::Value> {
    let value: serde_json::Value = serde_json::from_str(text).unwrap();
    value.as_object().unwrap().clone()
}

fn resolved(text: &str) -> Option<String> {
    decode_type(&object(text))
}

#[test]
fn primitive_kinds_resolve_to_their_fixed_names() {
    assert_eq!(resolved(r#"{"code": "STRING"}"#), Some("String".to_string()));
    assert_eq!(resolved(r#"{"code": "SINT32"}"#), Some("i32".to_string()));
    assert_eq!(resolved(r#"{"code": "BOOL"}"#), Some("bool".to_string()));
    assert_eq!(resolved(r#"{"code": "FLOAT"}"#), Some("f32".to_string()));
    assert_eq!(resolved(r#"{"code": "DOUBLE"}"#), Some("f64".to_string()));
}

#[test]
fn an_unknown_code_resolves_to_the_empty_expression() {
    assert_eq!(resolved(r#"{"code": "ENUMERATION"}"#), Some(String::new()));
    assert_eq!(resolved(r#"{"code": "string"}"#), Some(String::new()));
    assert_eq!(resolved(r#"{"code": ""}"#), Some(String::new()));
}

#[test]
fn an_unknown_code_reads_nothing_else() {
    assert_eq!(resolved(r#"{"code": "UINT64", "types": 7}"#), Some(String::new()));
}

#[test]
fn a_type_without_a_string_code_is_refused() {
    assert_eq!(resolved(r#"{}"#), None);
    assert_eq!(resolved(r#"{"name": "STRING"}"#), None);
    assert_eq!(resolved(r#"{"code": 3}"#), None);
    assert_eq!(resolved(r#"{"code": null}"#), None);
    assert_eq!(resolved(r#"{"code": ["STRING"]}"#), None);
}

#[test]
fn a_tuple_nests_its_elements_in_order() {
    let text = r#"{"code": "TUPLE", "types": [{"code": "SINT32"}, {"code": "STRING"}]}"#;
    assert_eq!(resolved(text), Some("(i32, String)".to_string()));
    assert_eq!(decode_tuple(&object(text)), Some("(i32, String)".to_string()));
    let swapped = r#"{"code": "TUPLE", "types": [{"code": "STRING"}, {"code": "SINT32"}]}"#;
    assert_eq!(resolved(swapped), Some("(String, i32)".to_string()));
}

#[test]
fn a_tuple_of_one_and_of_none() {
    assert_eq!(
        resolved(r#"{"code": "TUPLE", "types": [{"code": "BOOL"}]}"#),
        Some("(bool)".to_string())
    );
    assert_eq!(resolved(r#"{"code": "TUPLE", "types": []}"#), Some("()".to_string()));
}

#[test]
fn a_tuple_of_three_with_a_nested_tuple() {
    let text = r#"{"code": "TUPLE", "types": [
        {"code": "DOUBLE"},
        {"code": "TUPLE", "types": [{"code": "FLOAT"}, {"code": "BOOL"}]},
        {"code": "LIST", "types": [{"code": "STRING"}]}
    ]}"#;
    assert_eq!(resolved(text), Some("(f64, (f32, bool), Vec<String>)".to_string()));
}

#[test]
fn a_tuple_with_a_bad_element_is_refused() {
    assert_eq!(resolved(r#"{"code": "TUPLE"}"#), None);
    assert_eq!(resolved(r#"{"code": "TUPLE", "types": {}}"#), None);
    assert_eq!(resolved(r#"{"code": "TUPLE", "types": [{"code": "BOOL"}, 1]}"#), None);
    assert_eq!(resolved(r#"{"code": "TUPLE", "types": [{"code": "BOOL"}, {}]}"#), None);
    assert_eq!(
        resolved(r#"{"code": "TUPLE", "types": [{"code": "LIST", "types": []}, {"code": "BOOL"}]}"#),
        None
    );
}

#[test]
fn a_list_wraps_its_element() {
    let text = r#"{"code": "LIST", "types": [{"code": "DOUBLE"}]}"#;
    assert_eq!(resolved(text), Some("Vec<f64>".to_string()));
    assert_eq!(decode_list(&object(text)), Some("Vec<f64>".to_string()));
}

#[test]
fn a_list_reads_only_its_first_element_type() {
    let text = r#"{"code": "LIST", "types": [{"code": "SINT32"}, {"code": "STRING"}]}"#;
    assert_eq!(resolved(text), Some("Vec<i32>".to_string()));
    let text = r#"{"code": "LIST", "types": [{"code": "SINT32"}, 12, {}]}"#;
    assert_eq!(resolved(text), Some("Vec<i32>".to_string()));
}

#[test]
fn a_list_without_an_element_type_is_refused() {
    assert_eq!(resolved(r#"{"code": "LIST", "types": []}"#), None);
    assert_eq!(resolved(r#"{"code": "LIST"}"#), None);
    assert_eq!(resolved(r#"{"code": "LIST", "types": ["STRING"]}"#), None);
    assert_eq!(resolved(r#"{"code": "LIST", "types": [{}]}"#), None);
    assert_eq!(resolved(r#"{"code": "LIST", "types": "STRING"}"#), None);
}

#[test]
fn a_class_is_a_path_into_the_namespace_of_its_service() {
    let text = r#"{"code": "CLASS", "service": "SpaceCenter", "name": "Vessel"}"#;
    assert_eq!(
        resolved(text),
        Some("crate::services::space_center::Vessel".to_string())
    );
    assert_eq!(
        decode_class(&object(text)),
        Some("crate::services::space_center::Vessel".to_string())
    );
}

#[test]
fn a_class_keeps_the_casing_of_its_own_name() {
    let text = r#"{"code": "CLASS", "service": "Demo", "name": "reaction_Wheel"}"#;
    assert_eq!(
        resolved(text),
        Some("crate::services::demo::reaction_Wheel".to_string())
    );
}

#[test]
fn a_class_without_its_two_strings_is_refused() {
    assert_eq!(resolved(r#"{"code": "CLASS", "service": "Demo"}"#), None);
    assert_eq!(resolved(r#"{"code": "CLASS", "name": "Vessel"}"#), None);
    assert_eq!(resolved(r#"{"code": "CLASS", "service": 1, "name": "Vessel"}"#), None);
    assert_eq!(resolved(r#"{"code": "CLASS", "service": "Demo", "name": {}}"#), None);
}

#[test]
fn a_list_of_a_class_is_a_vector_of_its_path() {
    let text = r#"{"code": "LIST", "types": [
        {"code": "CLASS", "service": "Demo", "name": "Vessel"}
    ]}"#;
    let out = resolved(text).unwrap();
    assert_eq!(out, "Vec<crate::services::demo::Vessel>");
    assert!(out.contains("demo::Vessel"));
}

#[test]
fn the_part_decoders_do_not_read_the_code() {
    let text = r#"{"types": [{"code": "BOOL"}, {"code": "SINT32"}]}"#;
    assert_eq!(decode_tuple(&object(text)), Some("(bool, i32)".to_string()));
    assert_eq!(decode_list(&object(text)), Some("Vec<bool>".to_string()));
    let text = r#"{"service": "my service", "name": "Part"}"#;
    assert_eq!(
        decode_class(&object(text)),
        Some("crate::services::my_service::Part".to_string())
    );
}
