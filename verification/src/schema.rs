//! Tool schema factory: the one callable function the model may invoke, with
//! its JSON parameter schema. The shape is a constant: an object schema with
//! exactly one required, string-typed property named `command`.

use vstd::prelude::*;
use vstd::string::StringExecFns;

verus! {

/// The type a JSON schema gives a value.
pub enum SchemaType {
    Object,
    Str,
}

/// One named property of an object schema.
pub struct PropertySchema {
    pub name: String,
    pub schema_type: SchemaType,
    pub description: String,
}

/// The parameter schema of a callable function: an object with named
/// properties, some of them required.
pub struct ToolParameters {
    pub schema_type: SchemaType,
    pub required: Vec<String>,
    pub properties: Vec<PropertySchema>,
}

/// The one function the model may invoke.
pub struct ToolDefinition {
    pub name: String,
    pub description: String,
    pub parameters: ToolParameters,
}

/// The constant shape of the command tool: its name is `call_command` and its
/// parameters are an object schema whose required-field set is exactly
/// `command`, with `command` its one property, string-typed.
pub open spec fn spec_command_tool(t: ToolDefinition) -> bool {
    &&& t.name@ == "call_command"@
    &&& t.description@ == "calls the given command for user"@
    &&& t.parameters.schema_type is Object
    &&& t.parameters.required@.len() == 1
    &&& t.parameters.required@[0]@ == "command"@
    &&& t.parameters.properties@.len() == 1
    &&& t.parameters.properties@[0].name@ == "command"@
    &&& t.parameters.properties@[0].schema_type is Str
    &&& t.parameters.properties@[0].description@ == "The command to be executed"@
}

/// Declares the command tool. Deterministic and side-effect free: every call
/// yields the same schema, the one `spec_command_tool` pins down, so the
/// required-field set is exactly `command` and the `command` property is
/// string-typed.
pub fn make_tool_definition() -> (t: ToolDefinition)
    ensures
        spec_command_tool(t),
{
    let mut required: Vec<String> = Vec::new();
    required.push(String::from_str("command"));
    let mut properties: Vec<PropertySchema> = Vec::new();
    properties.push(
        PropertySchema {
            name: String::from_str("command"),
            schema_type: SchemaType::Str,
            description: String::from_str("The command to be executed"),
        },
    );
    ToolDefinition {
        name: String::from_str("call_command"),
        description: String::from_str("calls the given command for user"),
        parameters: ToolParameters { schema_type: SchemaType::Object, required, properties },
    }
}

} // verus!
