use chat_cli::auth::arn::{field_at, region_of_arn};

#[test]
fn region_is_the_fourth_field() {
    assert_eq!(
        region_of_arn("arn:aws:codewhisperer:us-east-1:123456789012:profile/ABC"),
        Some("us-east-1".to_string())
    );
}

#[test]
fn empty_region_field_is_an_empty_region() {
    assert_eq!(region_of_arn("arn:aws:sso:::instance/abc"), Some(String::new()));
}

#[test]
fn fewer_than_four_fields_is_no_region() {
    assert_eq!(region_of_arn("arn:aws:sso"), None);
    assert_eq!(region_of_arn("arn"), None);
    assert_eq!(region_of_arn(""), None);
}

#[test]
fn exactly_four_fields_ends_at_the_text() {
    assert_eq!(region_of_arn("a:b:c:eu-west-1"), Some("eu-west-1".to_string()));
    assert_eq!(region_of_arn("a:b:c:"), Some(String::new()));
}

#[test]
fn fields_are_counted_from_zero() {
    assert_eq!(field_at("x,y,z", ',', 0), Some("x".to_string()));
    assert_eq!(field_at("x,y,z", ',', 2), Some("z".to_string()));
    assert_eq!(field_at("x,y,z", ',', 3), None);
    assert_eq!(field_at("", ',', 0), Some(String::new()));
    assert_eq!(field_at("é,ü", ',', 1), Some("ü".to_string()));
}
