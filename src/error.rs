use vstd::prelude::*;
use vstd::string::*;

verus! {

/// What went wrong; every kind reaches the host as one message.
#[derive(Clone, Copy, Debug, PartialEq, Eq, Structural)]
pub enum ErrorKind {
    /// The project settings are present but not of the settings' shape.
    SettingsParse,
    /// The manifest could not be written at the install site.
    ManifestWrite,
    /// The package installer reported a failure.
    Install,
    /// The installer reported success, yet the helper binary is not there.
    PostInstallMissingBinary,
    /// The host could not report where the Node runtime is.
    HostRuntimePath,
    /// The settings schema could not be serialized.
    SchemaSerialization,
}

/// An error of the extension: its kind and the text that comes with it (the
/// diagnostic handed on, or for a missing binary the path that was expected).
pub struct ExtensionError {
    pub kind: ErrorKind,
    pub detail: String,
}

/// The opening of the message for a helper binary missing after install.
pub const MISSING_BINARY_PREFIX: &'static str =
    "Failed to install @mui/mcp package or binary not found at ";

impl View for ExtensionError {
    type V = (ErrorKind, Seq<char>);

    open spec fn view(&self) -> (ErrorKind, Seq<char>) {
        (self.kind, self.detail@)
    }
}

/// The message the host gets for an error of kind `kind` with text `detail`:
/// the text itself, but for a missing binary, where it follows a sentence.
pub open spec fn message_spec(kind: ErrorKind, detail: Seq<char>) -> Seq<char> {
    if kind == ErrorKind::PostInstallMissingBinary {
        MISSING_BINARY_PREFIX@ + detail
    } else {
        detail
    }
}

impl ExtensionError {
    /// An error of the given kind carrying the given text.
    pub fn new(kind: ErrorKind, detail: String) -> (r: ExtensionError)
        ensures
            r@ == (kind, detail@),
    {
        ExtensionError { kind, detail }
    }

    /// The human-readable message handed to the host.
    pub fn message(&self) -> (r: String)
        ensures
            r@ == message_spec(self.kind, self.detail@),
    {
        match self.kind {
            ErrorKind::PostInstallMissingBinary => {
                let mut m = String::from_str(MISSING_BINARY_PREFIX);
                m.append(self.detail.as_str());
                m
            },
            _ => self.detail.clone(),
        }
    }
}

} // verus!
