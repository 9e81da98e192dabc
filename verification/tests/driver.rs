use krpc_build::emit::{build_json, Bindings, BuildError};
use krpc_build::{add_document, build};

const DEMO: &str = r#"{
    "Demo": {
        "classes": {"Vessel": {}},
        "enumerations": {"Mode": {"values": [{"name": "A"}, {"name": "B"}]}},
        "procedures": {
            "GetName": {"parameters": [], "return_type": {"code": "STRING"}}
        }
    }
}"#;

fn generate(document: &str) -> Result<String, BuildError> {
    build(&vec![document.to_string()])
}

fn bind(name: &str, properties: &str, root: &mut Bindings) -> Result<(), BuildError> {
    let value: serde_json::Value = serde_json::from_str(properties).unwrap();
    build_json(&name.to_string(), &value, root)
}

#[test]
fn test_build() {
    let out = build(&vec![DEMO.to_string()]);
    println!("{}", out.unwrap());
}

#[test]
fn no_documents_give_an_empty_text() {
    assert_eq!(build(&vec![]), Ok(String::new()));
}

#[test]
fn a_document_without_services_gives_an_empty_text() {
    assert_eq!(generate("{}"), Ok(String::new()));
    assert_eq!(build(&vec!["{}".to_string(), " { } ".to_string()]), Ok(String::new()));
}

#[test]
fn the_demo_service() {
    let out = generate(DEMO).unwrap();
    assert!(out.contains("pub mod demo {"));
    assert!(out.contains("pub struct Demo {"));
    assert!(out.contains("pub client: ::std::sync::Arc<crate::client::Client>,"));
    assert!(out.contains("crate::schema::rpc_object!(Vessel);"));
    assert!(out.contains("crate::schema::rpc_enum!(Mode, [A, B]);"));
    assert!(out.contains("impl Demo {"));
    assert!(out.contains("pub fn new(client: ::std::sync::Arc<crate::client::Client>) -> Self {"));
    assert!(out.contains("pub fn get_name(&self) -> String {"));
    assert!(out.contains("use crate::schema::ToArgument;"));
}

#[test]
fn the_demo_service_in_full() {
    let expected = "\
pub mod demo {
    use crate::schema::ToArgument;

    pub struct Demo {
        pub client: ::std::sync::Arc<crate::client::Client>,
    }

    crate::schema::rpc_object!(Vessel);

    crate::schema::rpc_enum!(Mode, [A, B]);

    impl Demo {
        pub fn new(client: ::std::sync::Arc<crate::client::Client>) -> Self {
            Self { client }
        }

        pub fn get_name(&self) -> String {

            let request = crate::schema::Request::from(crate::client::Client::proc_call(
                \"Demo\",
                \"GetName\",
                vec![],
            ));

            let response = self.client.call(request);
            dbg!(&response);

            response.into()

        }
    }
}";
    assert_eq!(generate(DEMO).unwrap(), expected);
}

#[test]
fn the_request_carries_the_schema_names_as_they_stand() {
    let document = r#"{"space_center": {"classes": {}, "enumerations": {}, "procedures": {
        "WarpTo": {"parameters": []}
    }}}"#;
    let out = generate(document).unwrap();
    assert!(out.contains("pub mod space_center {"));
    assert!(out.contains("pub struct SpaceCenter {"));
    assert!(out.contains("impl SpaceCenter {"));
    assert!(out.contains("pub fn warp_to(&self) {"));
    assert!(out.contains("\"space_center\",\n"));
    assert!(out.contains("\"WarpTo\",\n"));
}

#[test]
fn a_procedure_without_a_return_type_still_converts_the_response() {
    let document = r#"{"Demo": {"classes": {}, "enumerations": {}, "procedures": {
        "Quit": {"parameters": []}
    }}}"#;
    let out = generate(document).unwrap();
    assert!(out.contains("pub fn quit(&self) {"));
    assert!(!out.contains("pub fn quit(&self) ->"));
    assert!(out.contains("let response = self.client.call(request);"));
    assert!(out.contains("response.into()"));
}

#[test]
fn parameters_keep_their_order_and_carry_their_position() {
    let document = r#"{"Demo": {"classes": {}, "enumerations": {}, "procedures": {
        "Launch": {"parameters": [
            {"name": "vesselName", "type": {"code": "STRING"}},
            {"name": "Crew", "type": {"code": "LIST", "types": [{"code": "STRING"}]}},
            {"name": "recover", "type": {"code": "BOOL"}}
        ], "return_type": {"code": "SINT32"}}
    }}}"#;
    let out = generate(document).unwrap();
    assert!(out.contains(
        "pub fn launch(&self, vessel_name: String, crew: Vec<String>, recover: bool) -> i32 {"
    ));
    assert!(out.contains(
        "vec![vessel_name.to_argument(0),crew.to_argument(1),recover.to_argument(2)],"
    ));
}

#[test]
fn eleven_parameters_are_numbered_in_decimal() {
    let mut parameters = Vec::new();
    for i in 0..11 {
        parameters.push(format!(
            "{{\"name\": \"p{}\", \"type\": {{\"code\": \"BOOL\"}}}}",
            (b'a' + i) as char
        ));
    }
    let document = format!(
        "{{\"Demo\": {{\"classes\": {{}}, \"enumerations\": {{}}, \"procedures\": {{\"Run\": {{\"parameters\": [{}]}}}}}}}}",
        parameters.join(",")
    );
    let out = generate(&document).unwrap();
    assert!(out.contains("pa.to_argument(0),pb.to_argument(1)"));
    assert!(out.contains("pj.to_argument(9),pk.to_argument(10)],"));
}

#[test]
fn a_parameter_of_a_list_of_a_class() {
    let document = r#"{"Demo": {"classes": {"Vessel": {}}, "enumerations": {}, "procedures": {
        "Dock": {"parameters": [
            {"name": "vessels", "type": {"code": "LIST", "types": [
                {"code": "CLASS", "service": "Demo", "name": "Vessel"}
            ]}}
        ]}
    }}}"#;
    let out = generate(document).unwrap();
    assert!(out.contains("pub fn dock(&self, vessels: Vec<crate::services::demo::Vessel>) {"));
}

#[test]
fn a_procedure_in_another_style_is_left_out() {
    let with = r#"{"Demo": {"classes": {}, "enumerations": {}, "procedures": {
        "GetName": {"parameters": [], "return_type": {"code": "STRING"}},
        "get_name": {"parameters": [], "return_type": {"code": "STRING"}},
        "Vessel_get_Name": {"parameters": [], "return_type": {"code": "STRING"}},
        "SetName": {"parameters": [{"name": "name", "type": {"code": "STRING"}}]}
    }}}"#;
    let without = r#"{"Demo": {"classes": {}, "enumerations": {}, "procedures": {
        "GetName": {"parameters": [], "return_type": {"code": "STRING"}},
        "SetName": {"parameters": [{"name": "name", "type": {"code": "STRING"}}]}
    }}}"#;
    let out = generate(with).unwrap();
    assert!(out.contains("pub fn get_name(&self) -> String {"));
    assert!(out.contains("pub fn set_name(&self, name: String) {"));
    assert!(!out.contains("vessel_get_name"));
    assert_eq!(out.matches("pub fn get_name").count(), 1);
    assert_eq!(out, generate(without).unwrap());
}

#[test]
fn a_procedure_that_is_left_out_is_not_read() {
    let document = r#"{"Demo": {"classes": {}, "enumerations": {}, "procedures": {
        "get_name": 17,
        "GetName": {"parameters": []}
    }}}"#;
    let out = generate(document).unwrap();
    assert!(out.contains("pub fn get_name(&self) {"));
}

#[test]
fn enumeration_values_keep_their_declaration_order() {
    let document = r#"{"Demo": {"classes": {}, "enumerations": {
        "Mode": {"values": [{"name": "Zeta"}, {"name": "Alpha"}, {"name": "Mid", "value": 2}]},
        "Empty": {"values": []}
    }, "procedures": {}}}"#;
    let out = generate(document).unwrap();
    assert!(out.contains("crate::schema::rpc_enum!(Mode, [Zeta, Alpha, Mid]);"));
    assert!(out.contains("crate::schema::rpc_enum!(Empty, []);"));
}

#[test]
fn classes_are_declared_by_their_keys_alone() {
    let document = r#"{"Demo": {"classes": {"Vessel": {"documentation": "x"}, "Part": 3},
        "enumerations": {}, "procedures": {}}}"#;
    let out = generate(document).unwrap();
    assert!(out.contains("crate::schema::rpc_object!(Vessel);"));
    assert!(out.contains("crate::schema::rpc_object!(Part);"));
}

#[test]
fn repeated_runs_give_the_same_text() {
    let documents = vec![
        DEMO.to_string(),
        r#"{"Other": {"classes": {"B": {}, "A": {}}, "enumerations": {}, "procedures": {
            "Zed": {"parameters": []}, "Abc": {"parameters": []}
        }}}"#
            .to_string(),
    ];
    let first = build(&documents).unwrap();
    let second = build(&documents).unwrap();
    assert_eq!(first, second);
    assert!(first.find("pub mod demo {").unwrap() < first.find("pub mod other {").unwrap());
}

#[test]
fn services_of_several_documents_share_one_text() {
    let documents = vec![
        r#"{"One": {"classes": {}, "enumerations": {}, "procedures": {}}}"#.to_string(),
        r#"{"Two": {"classes": {}, "enumerations": {}, "procedures": {}},
            "Three": {"classes": {}, "enumerations": {}, "procedures": {}}}"#
            .to_string(),
    ];
    let out = build(&documents).unwrap();
    assert!(out.contains("pub mod one {"));
    assert!(out.contains("pub mod two {"));
    assert!(out.contains("pub mod three {"));
}

#[test]
fn a_text_that_is_no_json_is_a_syntax_error() {
    assert_eq!(generate(""), Err(BuildError::Syntax));
    assert_eq!(generate("{"), Err(BuildError::Syntax));
    assert_eq!(generate("{\"Demo\": }"), Err(BuildError::Syntax));
    assert_eq!(
        build(&vec![DEMO.to_string(), "not json".to_string()]),
        Err(BuildError::Syntax)
    );
}

#[test]
fn a_document_that_is_no_object_is_a_schema_error() {
    assert_eq!(generate("[]"), Err(BuildError::Schema));
    assert_eq!(generate("null"), Err(BuildError::Schema));
    assert_eq!(generate("\"Demo\""), Err(BuildError::Schema));
    assert_eq!(generate("12"), Err(BuildError::Schema));
}

#[test]
fn a_service_of_the_wrong_shape_is_a_schema_error() {
    assert_eq!(generate(r#"{"Demo": 1}"#), Err(BuildError::Schema));
    assert_eq!(generate(r#"{"Demo": {}}"#), Err(BuildError::Schema));
    assert_eq!(
        generate(r#"{"Demo": {"classes": {}, "enumerations": {}}}"#),
        Err(BuildError::Schema)
    );
    assert_eq!(
        generate(r#"{"Demo": {"classes": [], "enumerations": {}, "procedures": {}}}"#),
        Err(BuildError::Schema)
    );
    assert_eq!(
        generate(r#"{"Demo": {"classes": {}, "enumerations": {"Mode": {}}, "procedures": {}}}"#),
        Err(BuildError::Schema)
    );
    assert_eq!(
        generate(
            r#"{"Demo": {"classes": {}, "enumerations": {"Mode": {"values": [{"name": 1}]}},
                "procedures": {}}}"#
        ),
        Err(BuildError::Schema)
    );
    assert_eq!(
        generate(
            r#"{"Demo": {"classes": {}, "enumerations": {"Mode": {"values": ["A"]}},
                "procedures": {}}}"#
        ),
        Err(BuildError::Schema)
    );
}

#[test]
fn a_bound_procedure_of_the_wrong_shape_is_a_schema_error() {
    let service = |procedure: &str| {
        format!(
            "{{\"Demo\": {{\"classes\": {{}}, \"enumerations\": {{}}, \"procedures\": {{\"Run\": {}}}}}}}",
            procedure
        )
    };
    assert_eq!(generate(&service("{}")), Err(BuildError::Schema));
    assert_eq!(generate(&service("[]")), Err(BuildError::Schema));
    assert_eq!(generate(&service(r#"{"parameters": {}}"#)), Err(BuildError::Schema));
    assert_eq!(generate(&service(r#"{"parameters": [1]}"#)), Err(BuildError::Schema));
    assert_eq!(
        generate(&service(r#"{"parameters": [{"name": "a"}]}"#)),
        Err(BuildError::Schema)
    );
    assert_eq!(
        generate(&service(r#"{"parameters": [{"type": {"code": "BOOL"}}]}"#)),
        Err(BuildError::Schema)
    );
    assert_eq!(
        generate(&service(r#"{"parameters": [{"name": "a", "type": {"code": "LIST"}}]}"#)),
        Err(BuildError::Schema)
    );
    assert_eq!(
        generate(&service(r#"{"parameters": [], "return_type": null}"#)),
        Err(BuildError::Schema)
    );
    assert_eq!(
        generate(&service(r#"{"parameters": [], "return_type": "STRING"}"#)),
        Err(BuildError::Schema)
    );
    assert_eq!(
        generate(&service(r#"{"parameters": [], "return_type": {}}"#)),
        Err(BuildError::Schema)
    );
    assert!(generate(&service(r#"{"parameters": [], "return_type": {"code": "BOOL"}}"#)).is_ok());
}

#[test]
fn two_services_of_one_namespace_collide() {
    let documents = vec![
        r#"{"SpaceCenter": {"classes": {}, "enumerations": {}, "procedures": {}}}"#.to_string(),
        r#"{"space_center": {"classes": {}, "enumerations": {}, "procedures": {}}}"#.to_string(),
    ];
    assert_eq!(build(&documents), Err(BuildError::Collision));
    assert_eq!(
        build(&vec![DEMO.to_string(), DEMO.to_string()]),
        Err(BuildError::Collision)
    );
}

#[test]
fn a_collision_comes_before_the_shape() {
    let documents = vec![DEMO.to_string(), r#"{"demo": 1}"#.to_string()];
    assert_eq!(build(&documents), Err(BuildError::Collision));
}

#[test]
fn binding_a_service_appends_its_namespace() {
    let mut root = Bindings::new();
    assert_eq!(root.render(), "");
    let empty = r#"{"classes": {}, "enumerations": {}, "procedures": {}}"#;
    assert_eq!(bind("First", empty, &mut root), Ok(()));
    let one = root.render();
    assert!(one.starts_with("pub mod first {"));
    assert_eq!(bind("SecondOne", empty, &mut root), Ok(()));
    let two = root.render();
    assert!(two.starts_with(&one));
    assert!(two.contains("pub mod second_one {"));
    assert!(two.contains("pub struct SecondOne {"));
}

#[test]
fn a_failed_binding_leaves_the_namespaces_as_they_were() {
    let mut root = Bindings::new();
    let empty = r#"{"classes": {}, "enumerations": {}, "procedures": {}}"#;
    assert_eq!(bind("Demo", empty, &mut root), Ok(()));
    let before = root.render();
    assert_eq!(bind("Demo", empty, &mut root), Err(BuildError::Collision));
    assert_eq!(root.render(), before);
    assert_eq!(
        bind("Other", r#"{"classes": {"A": {}}, "enumerations": 3}"#, &mut root),
        Err(BuildError::Schema)
    );
    assert_eq!(root.render(), before);
    assert_eq!(bind("Other", empty, &mut root), Ok(()));
}

#[test]
fn an_empty_service_has_a_handle_and_a_constructor() {
    let mut root = Bindings::new();
    let empty = r#"{"classes": {}, "enumerations": {}, "procedures": {}}"#;
    assert_eq!(bind("Ui", empty, &mut root), Ok(()));
    let expected = "\
pub mod ui {
    use crate::schema::ToArgument;

    pub struct Ui {
        pub client: ::std::sync::Arc<crate::client::Client>,
    }

    impl Ui {
        pub fn new(client: ::std::sync::Arc<crate::client::Client>) -> Self {
            Self { client }
        }
    }
}";
    assert_eq!(root.render(), expected);
}

#[test]
fn adding_documents_one_by_one_is_building_them_together() {
    let other = r#"{"Other": {"classes": {"Part": {}}, "enumerations": {}, "procedures": {}}}"#;
    let root = Bindings::new();
    let root = add_document(root, DEMO).unwrap();
    let root = add_document(root, other).unwrap();
    assert_eq!(
        root.render(),
        build(&vec![DEMO.to_string(), other.to_string()]).unwrap()
    );
}

#[test]
fn adding_a_document_reports_its_first_failure() {
    assert_eq!(add_document(Bindings::new(), "{").err(), Some(BuildError::Syntax));
    assert_eq!(add_document(Bindings::new(), "3").err(), Some(BuildError::Schema));
    let root = add_document(Bindings::new(), DEMO).unwrap();
    assert_eq!(add_document(root, DEMO).err(), Some(BuildError::Collision));
    let two = r#"{"A": {"classes": {}, "enumerations": {}, "procedures": {}}, "a": 1, "b": 2}"#;
    assert_eq!(add_document(Bindings::new(), two).err(), Some(BuildError::Collision));
    let two = r#"{"A": 1, "a": {"classes": {}, "enumerations": {}, "procedures": {}}}"#;
    assert_eq!(add_document(Bindings::new(), two).err(), Some(BuildError::Schema));
}

#[test]
fn services_of_one_document_come_in_the_order_of_their_names() {
    let document = r#"{
        "Zulu": {"classes": {}, "enumerations": {}, "procedures": {}},
        "Alpha": {"classes": {}, "enumerations": {}, "procedures": {}}
    }"#;
    let out = generate(document).unwrap();
    assert!(out.find("pub mod alpha {").unwrap() < out.find("pub mod zulu {").unwrap());
}
