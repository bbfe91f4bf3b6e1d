//! The error taxonomy of the pipeline. Every failure a command can end with
//! is one of these variants; the carried strings name the path, configuration
//! or subcommand involved.

use vstd::prelude::*;
use vstd::string::StringExecFns;

verus! {

/// One failure of a top-level command.
#[derive(Debug)]
pub enum SageError {
    /// A filesystem read, write or delete failed; `source` names the path
    /// involved and `detail` carries the underlying error text.
    Io { source: String, detail: String },
    /// The requested configuration name is not in the resolved set.
    InvalidConfig { message: String },
    /// The template engine could not produce output; `filename` names the
    /// output file being produced.
    TemplateRender { filename: String, detail: String },
    /// The external binary could not be spawned or waited for; `command`
    /// names the subcommand.
    TerraformError { command: String, detail: String },
}

/// The one-line description of an error, as the terminal shows it.
pub open spec fn spec_describe(e: SageError) -> Seq<char> {
    match e {
        SageError::Io { source, detail } => "I/O error with "@ + source@ + ": "@ + detail@,
        SageError::InvalidConfig { message } => "Invalid configuration: "@ + message@,
        SageError::TemplateRender { filename, detail } => "Template rendering error for "@
            + filename@ + " file: "@ + detail@,
        SageError::TerraformError { command, detail } => "Terraform error for `"@ + command@
            + "` command: "@ + detail@,
    }
}

impl SageError {
    /// Builds the one-line description of this error.
    pub fn describe(&self) -> (r: String)
        ensures
            r@ == spec_describe(*self),
    {
        match self {
            SageError::Io { source, detail } => String::from_str("I/O error with ").concat(
                source.as_str(),
            ).concat(": ").concat(detail.as_str()),
            SageError::InvalidConfig { message } => String::from_str(
                "Invalid configuration: ",
            ).concat(message.as_str()),
            SageError::TemplateRender { filename, detail } => String::from_str(
                "Template rendering error for ",
            ).concat(filename.as_str()).concat(" file: ").concat(detail.as_str()),
            SageError::TerraformError { command, detail } => String::from_str(
                "Terraform error for `",
            ).concat(command.as_str()).concat("` command: ").concat(detail.as_str()),
        }
    }
}

} // verus!
