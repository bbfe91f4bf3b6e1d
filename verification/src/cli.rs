//! The command surface: one variant per subcommand, each holding only the
//! fields it uses, together with the spec-level accessors the pipeline's
//! contracts are stated over.

use vstd::prelude::*;
use vstd::string::StringExecFns;

verus! {

/// One top-level command, as the terminal surface hands it over.
#[allow(inconsistent_fields)]
pub enum Command {
    /// Initialize a working configuration.
    Init {
        config: String,
        directory: String,
        target: Option<String>,
        template: String,
        out: Option<String>,
        cleanup: bool,
        extra: Vec<String>,
    },
    /// Generate an execution plan.
    Plan {
        config: String,
        directory: String,
        target: Option<String>,
        template: String,
        out: Option<String>,
        cleanup: bool,
        extra: Vec<String>,
    },
    /// Create or update infrastructure.
    Apply {
        config: String,
        directory: String,
        target: Option<String>,
        template: String,
        out: Option<String>,
        cleanup: bool,
        extra: Vec<String>,
    },
    /// Destroy managed infrastructure.
    Destroy {
        config: String,
        directory: String,
        target: Option<String>,
        template: String,
        out: Option<String>,
        cleanup: bool,
        extra: Vec<String>,
    },
    /// Read output variables from the state file.
    Output {
        config: String,
        directory: String,
        target: Option<String>,
        template: String,
        out: Option<String>,
        cleanup: bool,
        extra: Vec<String>,
    },
    /// Show the available configurations.
    List { directory: String },
    /// Generate the main module from the template file.
    Generate { config: String, directory: String, template: String, out: String },
}

/// The command invokes the external tool.
pub open spec fn spec_is_tool(cmd: Command) -> bool {
    match cmd {
        Command::Init { .. } => true,
        Command::Plan { .. } => true,
        Command::Apply { .. } => true,
        Command::Destroy { .. } => true,
        Command::Output { .. } => true,
        Command::List { .. } => false,
        Command::Generate { .. } => false,
    }
}

/// The working directory of the command.
pub open spec fn spec_directory(cmd: Command) -> Seq<char> {
    match cmd {
        Command::Init { directory, .. } => directory@,
        Command::Plan { directory, .. } => directory@,
        Command::Apply { directory, .. } => directory@,
        Command::Destroy { directory, .. } => directory@,
        Command::Output { directory, .. } => directory@,
        Command::List { directory } => directory@,
        Command::Generate { directory, .. } => directory@,
    }
}

/// The requested configuration name; the listing command has none.
pub open spec fn spec_config_name(cmd: Command) -> Seq<char> {
    match cmd {
        Command::Init { config, .. } => config@,
        Command::Plan { config, .. } => config@,
        Command::Apply { config, .. } => config@,
        Command::Destroy { config, .. } => config@,
        Command::Output { config, .. } => config@,
        Command::List { .. } => Seq::empty(),
        Command::Generate { config, .. } => config@,
    }
}

/// The explicitly supplied target module path, if any.
pub open spec fn spec_target(cmd: Command) -> Option<Seq<char>> {
    match cmd {
        Command::Init { target, .. } => match target {
            Some(t) => Some(t@),
            None => None,
        },
        Command::Plan { target, .. } => match target {
            Some(t) => Some(t@),
            None => None,
        },
        Command::Apply { target, .. } => match target {
            Some(t) => Some(t@),
            None => None,
        },
        Command::Destroy { target, .. } => match target {
            Some(t) => Some(t@),
            None => None,
        },
        Command::Output { target, .. } => match target {
            Some(t) => Some(t@),
            None => None,
        },
        Command::List { .. } => None,
        Command::Generate { .. } => None,
    }
}

/// The file name of the template module.
pub open spec fn spec_template(cmd: Command) -> Seq<char> {
    match cmd {
        Command::Init { template, .. } => template@,
        Command::Plan { template, .. } => template@,
        Command::Apply { template, .. } => template@,
        Command::Destroy { template, .. } => template@,
        Command::Output { template, .. } => template@,
        Command::List { .. } => Seq::empty(),
        Command::Generate { template, .. } => template@,
    }
}

/// The file name of the generated module: the supplied one, or `main.tf`.
pub open spec fn spec_out_name(cmd: Command) -> Seq<char> {
    match cmd {
        Command::Init { out, .. } => match out {
            Some(o) => o@,
            None => "main.tf"@,
        },
        Command::Plan { out, .. } => match out {
            Some(o) => o@,
            None => "main.tf"@,
        },
        Command::Apply { out, .. } => match out {
            Some(o) => o@,
            None => "main.tf"@,
        },
        Command::Destroy { out, .. } => match out {
            Some(o) => o@,
            None => "main.tf"@,
        },
        Command::Output { out, .. } => match out {
            Some(o) => o@,
            None => "main.tf"@,
        },
        Command::List { .. } => "main.tf"@,
        Command::Generate { out, .. } => out@,
    }
}

/// Whether the generated module is deleted after the external tool exits.
pub open spec fn spec_cleanup(cmd: Command) -> bool {
    match cmd {
        Command::Init { cleanup, .. } => cleanup,
        Command::Plan { cleanup, .. } => cleanup,
        Command::Apply { cleanup, .. } => cleanup,
        Command::Destroy { cleanup, .. } => cleanup,
        Command::Output { cleanup, .. } => cleanup,
        Command::List { .. } => false,
        Command::Generate { .. } => false,
    }
}

/// The raw trailing arguments for the external tool.
pub open spec fn spec_extra(cmd: Command) -> Seq<Seq<char>> {
    match cmd {
        Command::Init { extra, .. } => extra.deep_view(),
        Command::Plan { extra, .. } => extra.deep_view(),
        Command::Apply { extra, .. } => extra.deep_view(),
        Command::Destroy { extra, .. } => extra.deep_view(),
        Command::Output { extra, .. } => extra.deep_view(),
        Command::List { .. } => Seq::empty(),
        Command::Generate { .. } => Seq::empty(),
    }
}

/// The external tool's subcommand name.
pub open spec fn spec_subcommand(cmd: Command) -> Seq<char> {
    match cmd {
        Command::Init { .. } => "init"@,
        Command::Plan { .. } => "plan"@,
        Command::Apply { .. } => "apply"@,
        Command::Destroy { .. } => "destroy"@,
        Command::Output { .. } => "output"@,
        Command::List { .. } => Seq::empty(),
        Command::Generate { .. } => Seq::empty(),
    }
}

/// The external process's input stream is connected to the terminal: only
/// for the state-mutating apply and destroy subcommands.
pub open spec fn spec_interactive(cmd: Command) -> bool {
    match cmd {
        Command::Apply { .. } => true,
        Command::Destroy { .. } => true,
        _ => false,
    }
}

/// The configuration directory is scanned for variable files: for the
/// plan, apply and destroy subcommands.
pub open spec fn spec_needs_var_scan(cmd: Command) -> bool {
    match cmd {
        Command::Plan { .. } => true,
        Command::Apply { .. } => true,
        Command::Destroy { .. } => true,
        _ => false,
    }
}

impl Command {
    /// The working directory of the command.
    pub fn directory(&self) -> (r: &String)
        ensures
            r@ == spec_directory(*self),
    {
        match self {
            Command::Init { directory, .. } => directory,
            Command::Plan { directory, .. } => directory,
            Command::Apply { directory, .. } => directory,
            Command::Destroy { directory, .. } => directory,
            Command::Output { directory, .. } => directory,
            Command::List { directory } => directory,
            Command::Generate { directory, .. } => directory,
        }
    }

    /// The requested configuration name.
    pub fn config_name(&self) -> (r: &String)
        requires
            !(*self is List),
        ensures
            r@ == spec_config_name(*self),
    {
        match self {
            Command::Init { config, .. } => config,
            Command::Plan { config, .. } => config,
            Command::Apply { config, .. } => config,
            Command::Destroy { config, .. } => config,
            Command::Output { config, .. } => config,
            Command::List { .. } => unreached(),
            Command::Generate { config, .. } => config,
        }
    }

    /// The file name of the template module.
    pub fn template_name(&self) -> (r: &String)
        requires
            !(*self is List),
        ensures
            r@ == spec_template(*self),
    {
        match self {
            Command::Init { template, .. } => template,
            Command::Plan { template, .. } => template,
            Command::Apply { template, .. } => template,
            Command::Destroy { template, .. } => template,
            Command::Output { template, .. } => template,
            Command::List { .. } => unreached(),
            Command::Generate { template, .. } => template,
        }
    }

    /// The file name the generated module is written under.
    pub fn out_file_name(&self) -> (r: String)
        requires
            !(*self is List),
        ensures
            r@ == spec_out_name(*self),
    {
        match self {
            Command::Init { out, .. } => match out {
                Some(o) => o.clone(),
                None => String::from_str("main.tf"),
            },
            Command::Plan { out, .. } => match out {
                Some(o) => o.clone(),
                None => String::from_str("main.tf"),
            },
            Command::Apply { out, .. } => match out {
                Some(o) => o.clone(),
                None => String::from_str("main.tf"),
            },
            Command::Destroy { out, .. } => match out {
                Some(o) => o.clone(),
                None => String::from_str("main.tf"),
            },
            Command::Output { out, .. } => match out {
                Some(o) => o.clone(),
                None => String::from_str("main.tf"),
            },
            Command::List { .. } => unreached(),
            Command::Generate { out, .. } => out.clone(),
        }
    }

    /// The external tool's subcommand name.
    pub fn subcommand_name(&self) -> (r: String)
        requires
            spec_is_tool(*self),
        ensures
            r@ == spec_subcommand(*self),
    {
        match self {
            Command::Init { .. } => String::from_str("init"),
            Command::Plan { .. } => String::from_str("plan"),
            Command::Apply { .. } => String::from_str("apply"),
            Command::Destroy { .. } => String::from_str("destroy"),
            Command::Output { .. } => String::from_str("output"),
            Command::List { .. } => unreached(),
            Command::Generate { .. } => unreached(),
        }
    }

    /// Whether the generated module is deleted after the tool exits.
    pub fn cleanup_flag(&self) -> (r: bool)
        requires
            spec_is_tool(*self),
        ensures
            r == spec_cleanup(*self),
    {
        match self {
            Command::Init { cleanup, .. } => *cleanup,
            Command::Plan { cleanup, .. } => *cleanup,
            Command::Apply { cleanup, .. } => *cleanup,
            Command::Destroy { cleanup, .. } => *cleanup,
            Command::Output { cleanup, .. } => *cleanup,
            Command::List { .. } => unreached(),
            Command::Generate { .. } => unreached(),
        }
    }
}

} // verus!
