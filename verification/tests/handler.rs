use teo_runtime::handler::handler::Method;

#[test]
fn capitalized_name_of_each_method() {
    assert_eq!(Method::Get.capitalized_name(), "GET");
    assert_eq!(Method::Post.capitalized_name(), "POST");
    assert_eq!(Method::Patch.capitalized_name(), "PATCH");
    assert_eq!(Method::Put.capitalized_name(), "PUT");
    assert_eq!(Method::Delete.capitalized_name(), "DELETE");
    assert_eq!(Method::Options.capitalized_name(), "OPTIONS");
}
