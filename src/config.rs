use vstd::prelude::*;
use vstd::string::*;
use crate::error::{ErrorKind, ExtensionError};

verus! {

/// The installation instructions shown to the user (Markdown).
pub const INSTALLATION_INSTRUCTIONS: &'static str = "# MUI MCP Server\n\nThis extension runs the `@mui/mcp` context server with Node. The package is installed next to the extension the first time the server starts; nothing has to be installed by hand.\n\nBoth settings are optional:\n\n- `preferred_theme`: the name of the theme the server should prefer.\n- `component_filter`: the components the server should restrict itself to.\n";

/// The default settings offered to the user (JSON with comments).
pub const DEFAULT_SETTINGS: &'static str = "{\n  // The name of the theme the server should prefer.\n  // \"preferred_theme\": \"dark\",\n  // The components the server should restrict itself to.\n  // \"component_filter\": [\"Button\", \"Dialog\"]\n}\n";

/// What the host shows when the user configures the helper.
pub struct ConfigDescriptor {
    pub install_instructions: String,
    pub default_settings: String,
    pub settings_schema: String,
}

impl View for ConfigDescriptor {
    type V = (Seq<char>, Seq<char>, Seq<char>);

    open spec fn view(&self) -> (Seq<char>, Seq<char>, Seq<char>) {
        (self.install_instructions@, self.default_settings@, self.settings_schema@)
    }
}

/// The configuration descriptor for a given settings schema text: the two
/// embedded assets verbatim, and the schema.
pub open spec fn config_spec(schema: Seq<char>) -> (Seq<char>, Seq<char>, Seq<char>) {
    (INSTALLATION_INSTRUCTIONS@, DEFAULT_SETTINGS@, schema)
}

/// Assembles the configuration descriptor. `schema` is the serialized JSON
/// Schema of the settings, or the serializer's diagnostic. Nothing else goes
/// in: the result depends on the embedded assets and the schema alone.
pub fn describe(schema: Result<String, String>) -> (r: Result<ConfigDescriptor, ExtensionError>)
    ensures
        match schema {
            Ok(s) => r matches Ok(d) && d@ == config_spec(s@),
            Err(m) => r matches Err(e) && e@ == (ErrorKind::SchemaSerialization, m@),
        },
{
    match schema {
        Ok(s) => Ok(
            ConfigDescriptor {
                install_instructions: String::from_str(INSTALLATION_INSTRUCTIONS),
                default_settings: String::from_str(DEFAULT_SETTINGS),
                settings_schema: s,
            },
        ),
        Err(m) => Err(ExtensionError::new(ErrorKind::SchemaSerialization, m)),
    }
}

} // verus!
