//! The pipeline driver. One top-level command runs as a session: the caller
//! performs each returned action (a scan, a read, a write, a spawn of the
//! external tool, a delete) and hands the outcome back as an event; every
//! decision between two actions is made, and verified, here.

use vstd::prelude::*;
use vstd::string::StringExecFns;
use crate::cli::{
    spec_cleanup, spec_config_name, spec_directory, spec_extra, spec_interactive, spec_is_tool,
    spec_needs_var_scan, spec_out_name, spec_subcommand, spec_target, spec_template, Command,
};
use crate::error::SageError;
use crate::strmap::StrMap;
use crate::template::{generate_from_template, rendered_template, spec_merged_context};
use crate::terraform::{
    spec_command_args, spec_init_args, spec_scan_entries, TerraformClient,
};
use crate::text::{clone_strings, join_path, join_space, spec_join};
use crate::utils::{
    collect_configs, configs_dir_path, is_correct_config, spec_collect, spec_configs_dir,
    spec_invalid_config_message, EntryInfo,
};

verus! {

/// A notification for the terminal; a sink the pipeline writes to, with no
/// part in its contracts.
pub enum Notice {
    Info { message: String },
    Warning { message: String },
}

/// What the caller must do next for the session.
pub enum Action {
    /// List the entries of a directory.
    ScanDir { path: String },
    /// Read a file to a string.
    ReadFile { path: String },
    /// Write the contents to a file, creating or truncating it.
    WriteFile { path: String, contents: String },
    /// Spawn the external tool with the subcommand and arguments, streaming
    /// its output live, with its input connected too when interactive, and
    /// wait for it to exit.
    RunTool { command: String, args: Vec<String>, interactive: bool },
    /// Delete a file.
    DeleteFile { path: String },
    /// The command is over, with this outcome.
    Finished { result: Result<(), SageError> },
}

/// The outcome of the last action, handed back to the session.
#[allow(inconsistent_fields)]
pub enum Event {
    /// The entries a scan found, or the error text of an unreadable
    /// directory.
    Scanned { outcome: Result<Vec<EntryInfo>, String> },
    /// A file's text, or the error text of a failed read.
    FileRead { outcome: Result<String, String> },
    /// Whether the write went through.
    Written { outcome: Result<(), String> },
    /// Whether the external process was spawned and waited for; its own
    /// exit status is not inspected.
    ToolFinished { outcome: Result<(), String> },
    /// Whether the delete went through.
    Deleted { outcome: Result<(), String> },
}

/// One turn of a session: notices to print, then an action to perform.
pub struct Step {
    pub notices: Vec<Notice>,
    pub action: Action,
}

/// Where a session stands: which answer it waits for, and what it carries.
pub enum Phase {
    /// Waiting for the listing of the working directory.
    ScanRoot { cmd: Command },
    /// Waiting for the listing of the `configs/` directory.
    ScanConfigs { cmd: Command },
    /// Waiting for the text of the template module.
    ReadTemplate { cmd: Command, configs: StrMap },
    /// Waiting for the text of the context document.
    ReadContext { cmd: Command, configs: StrMap, template_text: String },
    /// Waiting for the generated module to be written.
    WriteModule { cmd: Command, configs: StrMap, module_file: String },
    /// Waiting for the listing of the configuration's directory.
    ScanVarDir { cmd: Command, module_file: String },
    /// Waiting for the external tool to exit.
    Running { cmd: Command, module_file: String },
    /// Waiting for the generated module to be deleted.
    Deleting { module_file: String },
    /// The command is over.
    Done,
}

/// A running command.
pub struct Session {
    pub terraform: TerraformClient,
    pub phase: Phase,
}

/// What the phases that render a template carry: a well-formed resolved
/// set, a command that renders at all, and for a tool command a name the
/// set holds.
pub open spec fn wf_render(cmd: Command, configs: StrMap) -> bool {
    &&& configs.wf()
    &&& (spec_is_tool(cmd) || cmd is Generate)
    &&& (spec_is_tool(cmd) ==> configs.map_view().contains_key(spec_config_name(cmd)))
}

impl Session {
    /// The session's data is consistent with its phase.
    pub open spec fn wf(self) -> bool {
        match self.phase {
            Phase::ScanRoot { .. } => true,
            Phase::ScanConfigs { .. } => true,
            Phase::ReadTemplate { cmd, configs } => wf_render(cmd, configs),
            Phase::ReadContext { cmd, configs, .. } => wf_render(cmd, configs),
            Phase::WriteModule { cmd, configs, .. } => wf_render(cmd, configs),
            Phase::ScanVarDir { cmd, .. } => spec_needs_var_scan(cmd),
            Phase::Running { cmd, .. } => spec_is_tool(cmd),
            Phase::Deleting { .. } => true,
            Phase::Done => true,
        }
    }

    /// The event answers the action the session is waiting on.
    pub open spec fn wants(self, event: Event) -> bool {
        match self.phase {
            Phase::ScanRoot { .. } => event matches Event::Scanned { .. },
            Phase::ScanConfigs { .. } => event matches Event::Scanned { .. },
            Phase::ReadTemplate { .. } => event matches Event::FileRead { .. },
            Phase::ReadContext { .. } => event matches Event::FileRead { .. },
            Phase::WriteModule { .. } => event matches Event::Written { .. },
            Phase::ScanVarDir { .. } => event matches Event::Scanned { .. },
            Phase::Running { .. } => event matches Event::ToolFinished { .. },
            Phase::Deleting { .. } => event matches Event::Deleted { .. },
            Phase::Done => false,
        }
    }
}

/// The step ends the command with this outcome.
pub open spec fn spec_finished(step: Step, outcome: Result<(), SageError>) -> bool {
    match step.action {
        Action::Finished { result } => result == outcome,
        _ => false,
    }
}

/// The step ends the command successfully.
pub open spec fn spec_finished_ok(step: Step) -> bool {
    match step.action {
        Action::Finished { result } => result is Ok,
        _ => false,
    }
}

/// The step ends the command with the I/O error naming `source`.
pub open spec fn spec_finished_io(step: Step, source: Seq<char>, detail: Seq<char>) -> bool {
    match step.action {
        Action::Finished { result } => match result {
            Err(e) => match e {
                SageError::Io { source: s, detail: d } => s@ == source && d@ == detail,
                _ => false,
            },
            Ok(_) => false,
        },
        _ => false,
    }
}

/// The session moved to the running phase, carrying the command and the
/// module in use.
pub open spec fn spec_running_phase(cmd: Command, module: Seq<char>, post: Session) -> bool {
    match post.phase {
        Phase::Running { cmd: c2, module_file } => c2 == cmd && module_file@ == module,
        _ => false,
    }
}

/// What the step after a validated command that renders its module does:
/// ask for the template's text and wait for it, carrying the resolved set.
pub open spec fn spec_to_render(
    cmd: Command,
    m: Map<Seq<char>, Seq<char>>,
    post: Session,
    step: Step,
) -> bool {
    &&& match step.action {
        Action::ReadFile { path } => path@ == spec_join(spec_directory(cmd), spec_template(cmd)),
        _ => false,
    }
    &&& match post.phase {
        Phase::ReadTemplate { cmd: c2, configs } => c2 == cmd && configs.wf() && configs.map_view()
            == m,
        _ => false,
    }
}

/// What the step that hands a tool command to the external tool does: for
/// plan, apply and destroy, first ask for the configuration directory's
/// listing; for init and output, spawn at once with the argument list the
/// subcommand takes.
pub open spec fn spec_pre_invoke(
    cmd: Command,
    m: Map<Seq<char>, Seq<char>>,
    module: Seq<char>,
    post: Session,
    step: Step,
) -> bool {
    if spec_needs_var_scan(cmd) {
        &&& match step.action {
            Action::ScanDir { path } => path@ == m[spec_config_name(cmd)],
            _ => false,
        }
        &&& match post.phase {
            Phase::ScanVarDir { cmd: c2, module_file } => c2 == cmd && module_file@ == module,
            _ => false,
        }
    } else if cmd is Init {
        &&& match step.action {
            Action::RunTool { command, args, interactive } => command@ == "init"@
                && args.deep_view() == spec_init_args(spec_directory(cmd), spec_extra(cmd))
                && !interactive,
            _ => false,
        }
        &&& spec_running_phase(cmd, module, post)
    } else {
        &&& match step.action {
            Action::RunTool { command, args, interactive } => command@ == "output"@
                && args.deep_view() == spec_extra(cmd) && !interactive,
            _ => false,
        }
        &&& spec_running_phase(cmd, module, post)
    }
}

/// What the step after the configuration set is resolved does: the listing
/// command reports and finishes; any other command validates its name,
/// failing with the error that names it, and then either uses the
/// explicitly supplied target module or turns to rendering one.
pub open spec fn spec_after_resolve(
    cmd: Command,
    m: Map<Seq<char>, Seq<char>>,
    post: Session,
    step: Step,
) -> bool {
    if cmd is List {
        spec_finished_ok(step) && post.phase is Done
    } else if !m.contains_key(spec_config_name(cmd)) {
        &&& post.phase is Done
        &&& match step.action {
            Action::Finished { result } => match result {
                Err(e) => match e {
                    SageError::InvalidConfig { message } => message@
                        == spec_invalid_config_message(spec_config_name(cmd)),
                    _ => false,
                },
                Ok(_) => false,
            },
            _ => false,
        }
    } else if cmd is Generate {
        spec_to_render(cmd, m, post, step)
    } else {
        match spec_target(cmd) {
            Some(t) => spec_pre_invoke(cmd, m, t, post, step),
            None => spec_to_render(cmd, m, post, step),
        }
    }
}

/// The transition relation of a session: what each event makes of each
/// phase, and which action comes back.
pub open spec fn spec_step(pre: Session, event: Event, post: Session, step: Step) -> bool {
    match pre.phase {
        Phase::ScanRoot { cmd } => match event {
            Event::Scanned { outcome } => match outcome {
                Err(d) => post.phase is Done && spec_finished_io(step, spec_directory(cmd), d@),
                Ok(es) => match spec_configs_dir(es@) {
                    Some(p) => {
                        &&& match step.action {
                            Action::ScanDir { path } => path@ == p,
                            _ => false,
                        }
                        &&& match post.phase {
                            Phase::ScanConfigs { cmd: c2 } => c2 == cmd,
                            _ => false,
                        }
                    },
                    None => spec_after_resolve(
                        cmd,
                        Map::<Seq<char>, Seq<char>>::empty(),
                        post,
                        step,
                    ),
                },
            },
            _ => true,
        },
        Phase::ScanConfigs { cmd } => match event {
            Event::Scanned { outcome } => spec_after_resolve(
                cmd,
                match outcome {
                    Ok(ce) => spec_collect(ce@),
                    Err(_) => Map::<Seq<char>, Seq<char>>::empty(),
                },
                post,
                step,
            ),
            _ => true,
        },
        Phase::ReadTemplate { cmd, configs } => match event {
            Event::FileRead { outcome } => match outcome {
                Err(d) => post.phase is Done && spec_finished_io(
                    step,
                    spec_join(spec_directory(cmd), spec_template(cmd)),
                    d@,
                ),
                Ok(text) => {
                    &&& match step.action {
                        Action::ReadFile { path } => path@ == spec_join(
                            spec_directory(cmd),
                            "configs/context.toml"@,
                        ),
                        _ => false,
                    }
                    &&& match post.phase {
                        Phase::ReadContext { cmd: c2, configs: cf, template_text } => c2 == cmd
                            && cf == configs && template_text@ == text@,
                        _ => false,
                    }
                },
            },
            _ => true,
        },
        Phase::ReadContext { cmd, configs, template_text } => match event {
            Event::FileRead { outcome } => {
                let raw = match outcome {
                    Ok(s) => s@,
                    Err(_) => Seq::<char>::empty(),
                };
                let out_path = spec_join(spec_directory(cmd), spec_out_name(cmd));
                match rendered_template(
                    template_text@,
                    spec_merged_context(raw, spec_config_name(cmd)),
                ) {
                    Some(s) => {
                        &&& match step.action {
                            Action::WriteFile { path, contents } => path@ == out_path && contents@
                                == s,
                            _ => false,
                        }
                        &&& match post.phase {
                            Phase::WriteModule { cmd: c2, configs: cf, module_file } => c2 == cmd
                                && cf == configs && module_file@ == out_path,
                            _ => false,
                        }
                    },
                    None => post.phase is Done && match step.action {
                        Action::Finished { result } => match result {
                            Err(e) => match e {
                                SageError::TemplateRender { filename, .. } => filename@
                                    == out_path,
                                _ => false,
                            },
                            Ok(_) => false,
                        },
                        _ => false,
                    },
                }
            },
            _ => true,
        },
        Phase::WriteModule { cmd, configs, module_file } => match event {
            Event::Written { outcome } => match outcome {
                Err(d) => post.phase is Done && spec_finished_io(step, module_file@, d@),
                Ok(_) => if cmd is Generate {
                    spec_finished_ok(step) && post.phase is Done
                } else {
                    spec_pre_invoke(cmd, configs.map_view(), module_file@, post, step)
                },
            },
            _ => true,
        },
        Phase::ScanVarDir { cmd, module_file } => match event {
            Event::Scanned { outcome } => {
                &&& match step.action {
                    Action::RunTool { command, args, interactive } => command@ == spec_subcommand(
                        cmd,
                    ) && args.deep_view() == spec_command_args(
                        spec_scan_entries(outcome),
                        spec_directory(cmd),
                        spec_extra(cmd),
                    ) && interactive == spec_interactive(cmd),
                    _ => false,
                }
                &&& spec_running_phase(cmd, module_file@, post)
            },
            _ => true,
        },
        Phase::Running { cmd, module_file } => match event {
            Event::ToolFinished { outcome } => match outcome {
                Err(d) => post.phase is Done && match step.action {
                    Action::Finished { result } => match result {
                        Err(e) => match e {
                            SageError::TerraformError { command, detail } => command@
                                == spec_subcommand(cmd) && detail@ == d@,
                            _ => false,
                        },
                        Ok(_) => false,
                    },
                    _ => false,
                },
                Ok(_) => if spec_cleanup(cmd) {
                    &&& match step.action {
                        Action::DeleteFile { path } => path@ == module_file@,
                        _ => false,
                    }
                    &&& match post.phase {
                        Phase::Deleting { module_file: mp } => mp@ == module_file@,
                        _ => false,
                    }
                } else {
                    spec_finished_ok(step) && post.phase is Done
                },
            },
            _ => true,
        },
        Phase::Deleting { module_file } => match event {
            Event::Deleted { outcome } => match outcome {
                Err(d) => post.phase is Done && spec_finished_io(step, module_file@, d@),
                Ok(_) => spec_finished_ok(step) && post.phase is Done,
            },
            _ => true,
        },
        Phase::Done => true,
    }
}

/// Ends the session with the given outcome, after the given notices.
fn finish(
    terraform: TerraformClient,
    notices: Vec<Notice>,
    result: Result<(), SageError>,
) -> (r: (Session, Step))
    ensures
        r.0.phase is Done,
        r.0.wf(),
        spec_finished(r.1, result),
{
    (Session { terraform, phase: Phase::Done }, Step { notices, action: Action::Finished { result } })
}

/// The two notices announcing one spawn of the external tool.
fn executing_notices(command: &str, args: &Vec<String>) -> (r: Vec<Notice>)
{
    let mut notices: Vec<Notice> = Vec::new();
    let message = String::from_str("Executing command: `terraform ").concat(command).concat(
        " ",
    ).concat(join_space(args).as_str()).concat("`");
    notices.push(Notice::Info { message });
    notices.push(Notice::Info { message: String::from_str("Terraform output: \n") });
    notices
}

/// Turns a validated command to rendering its module: the template's text
/// is asked for first.
fn to_render(terraform: TerraformClient, cmd: Command, configs: StrMap, notices: Vec<Notice>) -> (r:
    (Session, Step))
    requires
        wf_render(cmd, configs),
    ensures
        r.0.wf(),
        spec_to_render(cmd, configs.map_view(), r.0, r.1),
{
    let path = join_path(cmd.directory().as_str(), cmd.template_name().as_str());
    (
        Session { terraform, phase: Phase::ReadTemplate { cmd, configs } },
        Step { notices, action: Action::ReadFile { path } },
    )
}

/// Hands a validated tool command its module and turns to the external
/// tool.
fn pre_invoke(
    terraform: TerraformClient,
    cmd: Command,
    configs: StrMap,
    module: String,
    notices: Vec<Notice>,
) -> (r: (Session, Step))
    requires
        spec_is_tool(cmd),
        configs.wf(),
        spec_needs_var_scan(cmd) ==> configs.map_view().contains_key(spec_config_name(cmd)),
    ensures
        r.0.wf(),
        spec_pre_invoke(cmd, configs.map_view(), module@, r.0, r.1),
{
    match &cmd {
        Command::Plan { config, .. } | Command::Apply { config, .. } | Command::Destroy {
            config,
            ..
        } => {
            proof {
                assert(configs.map_view().dom().contains(spec_config_name(cmd)));
                assert(configs.spec_contains(spec_config_name(cmd)));
            }
            let path = match configs.get(config.as_str()) {
                Some(p) => p.clone(),
                None => unreached(),
            };
            (
                Session { terraform, phase: Phase::ScanVarDir { cmd, module_file: module } },
                Step { notices, action: Action::ScanDir { path } },
            )
        },
        Command::Init { directory, extra, .. } => {
            let args = terraform.get_init_args(directory, extra);
            let mut notices = notices;
            let mut more = executing_notices("init", &args);
            notices.append(&mut more);
            (
                Session { terraform, phase: Phase::Running { cmd, module_file: module } },
                Step {
                    notices,
                    action: Action::RunTool {
                        command: String::from_str("init"),
                        args,
                        interactive: false,
                    },
                },
            )
        },
        Command::Output { extra, .. } => {
            let args = clone_strings(extra);
            let mut notices = notices;
            let mut more = executing_notices("output", &args);
            notices.append(&mut more);
            (
                Session { terraform, phase: Phase::Running { cmd, module_file: module } },
                Step {
                    notices,
                    action: Action::RunTool {
                        command: String::from_str("output"),
                        args,
                        interactive: false,
                    },
                },
            )
        },
        Command::List { .. } => unreached(),
        Command::Generate { .. } => unreached(),
    }
}

/// Dispatches a command once the configuration set is resolved: listing
/// reports the names; everything else validates its configuration first.
fn after_resolve(terraform: TerraformClient, cmd: Command, configs: StrMap) -> (r: (Session, Step))
    requires
        configs.wf(),
    ensures
        r.0.wf(),
        spec_after_resolve(cmd, configs.map_view(), r.0, r.1),
{
    match &cmd {
        Command::List { .. } => {
            let mut notices: Vec<Notice> = Vec::new();
            if configs.len() > 0 {
                notices.push(
                    Notice::Info { message: String::from_str("Available configurations:") },
                );
                let names = configs.keys();
                let mut i: usize = 0;
                while i < names.len()
                    decreases names@.len() - i,
                {
                    notices.push(
                        Notice::Info {
                            message: String::from_str("- ").concat(names[i].as_str()),
                        },
                    );
                    i = i + 1;
                }
            } else {
                notices.push(
                    Notice::Warning {
                        message: String::from_str("Configurations were not found."),
                    },
                );
            }
            finish(terraform, notices, Ok(()))
        },
        Command::Generate { config, .. } => {
            proof {
                assert(configs.map_view().contains_key(config@) == configs.spec_contains(config@));
            }
            match is_correct_config(config, configs.duplicate()) {
                Err(e) => finish(terraform, Vec::new(), Err(e)),
                Ok(_) => to_render(terraform, cmd, configs, Vec::new()),
            }
        },
        Command::Init { config, target, .. } | Command::Plan { config, target, .. }
            | Command::Apply { config, target, .. } | Command::Destroy { config, target, .. }
            | Command::Output { config, target, .. } => {
            proof {
                assert(configs.map_view().contains_key(config@) == configs.spec_contains(config@));
            }
            match is_correct_config(config, configs.duplicate()) {
                Err(e) => finish(terraform, Vec::new(), Err(e)),
                Ok(_) => match target {
                    Some(t) => {
                        let module = t.clone();
                        pre_invoke(terraform, cmd, configs, module, Vec::new())
                    },
                    None => {
                        let mut notices: Vec<Notice> = Vec::new();
                        notices.push(
                            Notice::Warning {
                                message: String::from_str(
                                    "The `target` option was not specified.",
                                ),
                            },
                        );
                        to_render(terraform, cmd, configs, notices)
                    },
                },
            }
        },
    }
}

/// The pipeline's client: starts a session for a command.
pub struct SageClient {
    terraform: TerraformClient,
}

impl SageClient {
    /// A new client.
    pub fn new() -> SageClient {
        SageClient { terraform: TerraformClient::new() }
    }

    /// Starts running a command: every session opens by asking for the
    /// working directory's listing, from which the configuration set is
    /// resolved.
    pub fn run(&self, command: Command) -> (r: (Session, Step))
        ensures
            r.0.wf(),
            match r.1.action {
                Action::ScanDir { path } => path@ == spec_directory(command),
                _ => false,
            },
            match r.0.phase {
                Phase::ScanRoot { cmd } => cmd == command,
                _ => false,
            },
    {
        let path = command.directory().clone();
        (
            Session { terraform: TerraformClient::new(), phase: Phase::ScanRoot { cmd: command } },
            Step { notices: Vec::new(), action: Action::ScanDir { path } },
        )
    }
}

impl Session {
    /// Advances the session by one event: performs every decision between
    /// the answered action and the next one, as `spec_step` lays down.
    pub fn step(self, event: Event) -> (r: (Session, Step))
        requires
            self.wf(),
            self.wants(event),
        ensures
            r.0.wf(),
            spec_step(self, event, r.0, r.1),
    {
        let Session { terraform, phase } = self;
        match (phase, event) {
            (Phase::ScanRoot { cmd }, Event::Scanned { outcome }) => match outcome {
                Err(d) => {
                    let source = cmd.directory().clone();
                    finish(terraform, Vec::new(), Err(SageError::Io { source, detail: d }))
                },
                Ok(es) => match configs_dir_path(&es) {
                    Some(p) => (
                        Session { terraform, phase: Phase::ScanConfigs { cmd } },
                        Step { notices: Vec::new(), action: Action::ScanDir { path: p } },
                    ),
                    None => after_resolve(terraform, cmd, StrMap::new()),
                },
            },
            (Phase::ScanConfigs { cmd }, Event::Scanned { outcome }) => {
                let configs = match outcome {
                    Ok(ce) => collect_configs(&ce),
                    Err(_) => StrMap::new(),
                };
                after_resolve(terraform, cmd, configs)
            },
            (Phase::ReadTemplate { cmd, configs }, Event::FileRead { outcome }) => match outcome {
                Err(d) => {
                    let source = join_path(cmd.directory().as_str(), cmd.template_name().as_str());
                    finish(terraform, Vec::new(), Err(SageError::Io { source, detail: d }))
                },
                Ok(text) => {
                    let path = join_path(cmd.directory().as_str(), "configs/context.toml");
                    (
                        Session {
                            terraform,
                            phase: Phase::ReadContext { cmd, configs, template_text: text },
                        },
                        Step { notices: Vec::new(), action: Action::ReadFile { path } },
                    )
                },
            },
            (Phase::ReadContext { cmd, configs, template_text }, Event::FileRead { outcome }) => {
                let raw = match outcome {
                    Ok(s) => s,
                    Err(_) => String::new(),
                };
                let out_name = cmd.out_file_name();
                let out_path = join_path(cmd.directory().as_str(), out_name.as_str());
                let mut notices: Vec<Notice> = Vec::new();
                notices.push(
                    Notice::Info { message: String::from_str("Generating Terraform file...") },
                );
                match generate_from_template(
                    template_text.as_str(),
                    raw.as_str(),
                    cmd.config_name(),
                    &out_path,
                ) {
                    Ok(contents) => (
                        Session {
                            terraform,
                            phase: Phase::WriteModule {
                                cmd,
                                configs,
                                module_file: out_path.clone(),
                            },
                        },
                        Step { notices, action: Action::WriteFile { path: out_path, contents } },
                    ),
                    Err(e) => finish(terraform, notices, Err(e)),
                }
            },
            (Phase::WriteModule { cmd, configs, module_file }, Event::Written { outcome }) => match outcome {
                Err(d) => finish(
                    terraform,
                    Vec::new(),
                    Err(SageError::Io { source: module_file, detail: d }),
                ),
                Ok(_) => {
                    let mut notices: Vec<Notice> = Vec::new();
                    notices.push(
                        Notice::Info {
                            message: String::from_str(
                                "New Terraform file was created by path: ",
                            ).concat(module_file.as_str()),
                        },
                    );
                    match &cmd {
                        Command::Generate { .. } => finish(terraform, notices, Ok(())),
                        _ => pre_invoke(terraform, cmd, configs, module_file, notices),
                    }
                },
            },
            (Phase::ScanVarDir { cmd, module_file }, Event::Scanned { outcome }) => {
                match &cmd {
                    Command::Plan { directory, extra, .. } => {
                        let args = terraform.get_command_args(&outcome, directory, extra);
                        let notices = executing_notices("plan", &args);
                        (
                            Session {
                                terraform,
                                phase: Phase::Running { cmd, module_file },
                            },
                            Step {
                                notices,
                                action: Action::RunTool {
                                    command: String::from_str("plan"),
                                    args,
                                    interactive: false,
                                },
                            },
                        )
                    },
                    Command::Apply { directory, extra, .. } => {
                        let args = terraform.get_command_args(&outcome, directory, extra);
                        let notices = executing_notices("apply", &args);
                        (
                            Session {
                                terraform,
                                phase: Phase::Running { cmd, module_file },
                            },
                            Step {
                                notices,
                                action: Action::RunTool {
                                    command: String::from_str("apply"),
                                    args,
                                    interactive: true,
                                },
                            },
                        )
                    },
                    Command::Destroy { directory, extra, .. } => {
                        let args = terraform.get_command_args(&outcome, directory, extra);
                        let notices = executing_notices("destroy", &args);
                        (
                            Session {
                                terraform,
                                phase: Phase::Running { cmd, module_file },
                            },
                            Step {
                                notices,
                                action: Action::RunTool {
                                    command: String::from_str("destroy"),
                                    args,
                                    interactive: true,
                                },
                            },
                        )
                    },
                    _ => unreached(),
                }
            },
            (Phase::Running { cmd, module_file }, Event::ToolFinished { outcome }) => match outcome {
                Err(d) => {
                    let command = cmd.subcommand_name();
                    finish(
                        terraform,
                        Vec::new(),
                        Err(SageError::TerraformError { command, detail: d }),
                    )
                },
                Ok(_) => {
                    if cmd.cleanup_flag() {
                        let mut notices: Vec<Notice> = Vec::new();
                        notices.push(
                            Notice::Warning {
                                message: String::from_str("Deleting ").concat(
                                    module_file.as_str(),
                                ).concat(" file after execution..."),
                            },
                        );
                        (
                            Session {
                                terraform,
                                phase: Phase::Deleting { module_file: module_file.clone() },
                            },
                            Step { notices, action: Action::DeleteFile { path: module_file } },
                        )
                    } else {
                        finish(terraform, Vec::new(), Ok(()))
                    }
                },
            },
            (Phase::Deleting { module_file }, Event::Deleted { outcome }) => match outcome {
                Err(d) => finish(
                    terraform,
                    Vec::new(),
                    Err(SageError::Io { source: module_file, detail: d }),
                ),
                Ok(_) => finish(terraform, Vec::new(), Ok(())),
            },
            _ => unreached(),
        }
    }
}

} // verus!
