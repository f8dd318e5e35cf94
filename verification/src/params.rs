//! Simple operation parameters: header and cookie parameters carrying a
//! name, a description, a required flag and the plain-string schema.

use vstd::prelude::*;
use crate::response::BodySchema;

verus! {

/// The serialization style of a header parameter; only the simple style is
/// ever produced.
pub enum HeaderStyle {
    Simple,
}

/// The serialization style of a cookie parameter; only the form style is
/// ever produced.
pub enum CookieStyle {
    Form,
}

/// The shared data of a simple parameter: name, description, required
/// flag, no deprecation mark, and the plain-string schema.
pub struct ParameterData {
    pub name: String,
    pub description: Option<String>,
    pub required: bool,
    pub deprecated: Option<bool>,
    pub schema: BodySchema,
}

/// A documented operation parameter: where it is carried, its data and its
/// serialization style.
pub enum Parameter {
    Header { parameter_data: ParameterData, style: HeaderStyle },
    Cookie { parameter_data: ParameterData, style: CookieStyle },
}

/// Parameter data for a simple string-valued parameter: the given name,
/// description and required flag, no deprecation mark, and the
/// plain-string schema.
pub fn simple_parameter_data(name: String, description: String, required: bool) -> (r:
    ParameterData)
    ensures
        r.name == name,
        r.description == Some(description),
        r.required == required,
        r.deprecated is None,
        r.schema == BodySchema::PlainString,
{
    ParameterData {
        name,
        description: Some(description),
        required,
        deprecated: None,
        schema: BodySchema::PlainString,
    }
}

/// A header parameter with simple style around [`simple_parameter_data`].
pub fn simple_header(name: String, description: String, required: bool) -> (r: Parameter)
    ensures
        (r matches Parameter::Header { parameter_data, style } && parameter_data.name == name
            && parameter_data.description == Some(description) && parameter_data.required
            == required && parameter_data.deprecated is None && parameter_data.schema
            == BodySchema::PlainString && style == HeaderStyle::Simple),
{
    Parameter::Header {
        parameter_data: simple_parameter_data(name, description, required),
        style: HeaderStyle::Simple,
    }
}

/// A cookie parameter with form style around [`simple_parameter_data`].
pub fn simple_cookie(name: String, description: String, required: bool) -> (r: Parameter)
    ensures
        (r matches Parameter::Cookie { parameter_data, style } && parameter_data.name == name
            && parameter_data.description == Some(description) && parameter_data.required
            == required && parameter_data.deprecated is None && parameter_data.schema
            == BodySchema::PlainString && style == CookieStyle::Form),
{
    Parameter::Cookie {
        parameter_data: simple_parameter_data(name, description, required),
        style: CookieStyle::Form,
    }
}

} // verus!
