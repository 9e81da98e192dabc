use krpc_build::emit::{declare_class, declare_enum, tag_argument, write_call};
use krpc_build::types::class_path;

#[test]
fn a_class_directive_names_the_class() {
    assert_eq!(declare_class("Vessel"), "crate::schema::rpc_object!(Vessel);");
    assert_eq!(declare_class(""), "crate::schema::rpc_object!();");
}

#[test]
fn an_enum_directive_lists_the_values_in_order() {
    let values = vec!["A".to_string(), "B".to_string()];
    assert_eq!(declare_enum("Mode", &values), "crate::schema::rpc_enum!(Mode, [A, B]);");
    let values = vec!["B".to_string(), "A".to_string(), "C".to_string()];
    assert_eq!(declare_enum("Mode", &values), "crate::schema::rpc_enum!(Mode, [B, A, C]);");
    assert_eq!(declare_enum("Void", &vec![]), "crate::schema::rpc_enum!(Void, []);");
}

#[test]
fn an_argument_is_tagged_with_its_position() {
    assert_eq!(tag_argument("vessel", 0), "vessel.to_argument(0)");
    assert_eq!(tag_argument("crew", 1), "crew.to_argument(1)");
    assert_eq!(tag_argument("x", 12), "x.to_argument(12)");
    assert_eq!(tag_argument("", 305), ".to_argument(305)");
}

#[test]
fn a_call_without_arguments() {
    let expected = "
let request = crate::schema::Request::from(crate::client::Client::proc_call(
    \"Demo\",
    \"GetName\",
    vec![],
));

let response = self.client.call(request);
dbg!(&response);

response.into()
";
    assert_eq!(write_call("Demo", "GetName", &vec![]), expected);
}

#[test]
fn a_call_with_arguments_joins_them_with_commas() {
    let arguments = vec!["a.to_argument(0)".to_string(), "b.to_argument(1)".to_string()];
    let out = write_call("SpaceCenter", "WarpTo", &arguments);
    assert!(out.starts_with("\nlet request = crate::schema::Request::from("));
    assert!(out.contains("    \"SpaceCenter\",\n    \"WarpTo\",\n"));
    assert!(out.contains("    vec![a.to_argument(0),b.to_argument(1)],\n));\n"));
    assert!(out.ends_with("\n\nresponse.into()\n"));
}

#[test]
fn a_class_path_joins_namespace_and_name() {
    assert_eq!(class_path("demo", "Vessel"), "crate::services::demo::Vessel");
    assert_eq!(class_path("space_center", "Part"), "crate::services::space_center::Part");
    assert_eq!(class_path("", ""), "crate::services::::");
}
