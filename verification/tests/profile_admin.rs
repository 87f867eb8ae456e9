use aionui::errors::ApiError;
use aionui::profile_admin::{new_profile_fields, profile_not_found, schema_error, updated_label, NewProfileFields};
use aionui::profile_schema::ProfileSchemaError;

#[test]
fn new_profile_fields_are_trimmed() {
    assert_eq!(
        new_profile_fields("  ingenieria ", " Ingeniería "),
        Ok(NewProfileFields { name: "ingenieria".into(), label: "Ingeniería".into() })
    );
}

#[test]
fn new_profile_needs_name_then_label() {
    assert_eq!(new_profile_fields("  ", ""), Err(ApiError::BadRequest("name is required".into())));
    assert_eq!(new_profile_fields("x", "   "), Err(ApiError::BadRequest("label is required".into())));
}

#[test]
fn edit_label_rules() {
    assert_eq!(updated_label(None), Ok(None));
    assert_eq!(updated_label(Some("  New label ".into())), Ok(Some("New label".into())));
    assert_eq!(updated_label(Some("   ".into())), Err(ApiError::BadRequest("label must not be empty".into())));
}

#[test]
fn profile_errors() {
    assert_eq!(profile_not_found("ap_1"), ApiError::NotFound("Agent profile ap_1 not found".into()));
    assert_eq!(
        schema_error(ProfileSchemaError("definition.name must be a string".into())),
        ApiError::BadRequest("definition.name must be a string".into())
    );
}
