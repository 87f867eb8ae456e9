//! The admin panel's requests on agent profiles: the checks of a new
//! profile and of an edit, made before the definition is validated against
//! the schema and stored. A profile's `name` never changes; its `label` is
//! stored trimmed and may not be blank.

use vstd::prelude::*;

use crate::errors::ApiError;
use crate::profile_schema::ProfileSchemaError;
use crate::text::{trim, trim_spec};

verus! {

/// The trimmed name and label of a new profile.
#[derive(Debug, Clone, PartialEq, Eq)]
pub struct NewProfileFields {
    pub name: String,
    pub label: String,
}

/// The name and label of a new profile, trimmed: 400 when the name is
/// blank, then 400 when the label is.
pub fn new_profile_fields(name: &str, label: &str) -> (r: Result<NewProfileFields, ApiError>)
    ensures
        trim_spec(name@).len() == 0 ==> (r matches Err(ApiError::BadRequest(m)) && m@ == "name is required"@),
        trim_spec(name@).len() > 0 && trim_spec(label@).len() == 0 ==> (r matches Err(ApiError::BadRequest(m))
            && m@ == "label is required"@),
        trim_spec(name@).len() > 0 && trim_spec(label@).len() > 0 ==> (r matches Ok(f) && f.name@ == trim_spec(
            name@,
        ) && f.label@ == trim_spec(label@)),
{
    let name = trim(name);
    let label = trim(label);
    if name.as_str().is_empty() {
        return Err(ApiError::BadRequest(String::from_str("name is required")));
    }
    if label.as_str().is_empty() {
        return Err(ApiError::BadRequest(String::from_str("label is required")));
    }
    Ok(NewProfileFields { name, label })
}

/// The label of an edit, trimmed: unchanged when none is given, 400 when
/// the one given is blank.
pub fn updated_label(label: Option<String>) -> (r: Result<Option<String>, ApiError>)
    ensures
        label is None ==> (r matches Ok(None)),
        label matches Some(l) ==> (trim_spec(l@).len() == 0 ==> (r matches Err(ApiError::BadRequest(m)) && m@
            == "label must not be empty"@)),
        label matches Some(l) ==> (trim_spec(l@).len() > 0 ==> (r matches Ok(Some(t)) && t@ == trim_spec(l@))),
{
    match label {
        None => Ok(None),
        Some(l) => {
            let t = trim(l.as_str());
            if t.as_str().is_empty() {
                Err(ApiError::BadRequest(String::from_str("label must not be empty")))
            } else {
                Ok(Some(t))
            }
        },
    }
}

/// 404 for a profile id that names no profile.
pub fn profile_not_found(id: &str) -> (r: ApiError)
    ensures
        r matches ApiError::NotFound(m) && m@ == "Agent profile "@ + id@ + " not found"@,
{
    let mut m = String::from_str("Agent profile ");
    m.append(id);
    m.append(" not found");
    ApiError::NotFound(m)
}

/// A definition the schema refuses is a 400 with the schema's message.
pub fn schema_error(e: ProfileSchemaError) -> (r: ApiError)
    ensures
        r matches ApiError::BadRequest(m) && m@ == e.0@,
{
    ApiError::BadRequest(e.0)
}

} // verus!
