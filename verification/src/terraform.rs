//! The process orchestrator's argument builders: what is handed to the
//! external binary for each subcommand. Spawning itself is outside work and
//! stays with the caller of the library; everything decided here is verified.

use vstd::prelude::*;
use vstd::string::StringExecFns;
use crate::text::{contains_str, spec_starts_with, str_starts_with};
use crate::utils::{get_extension_from_filename, spec_extension, EntryInfo};

verus! {

/// The passthrough arguments taken from a raw trailing-argument list: all
/// but its first token, which is the external tool's own subcommand name as
/// the user typed it and is stripped, or nothing when the list holds at
/// most that token.
pub open spec fn spec_extract(extra: Seq<Seq<char>>) -> Seq<Seq<char>> {
    if extra.len() > 1 {
        extra.subrange(1, extra.len() as int)
    } else {
        Seq::empty()
    }
}

/// The `-var-file=` argument naming the given path.
pub open spec fn spec_var_file_arg(path: Seq<char>) -> Seq<char> {
    "-var-file="@ + path
}

/// The entry is a variable module: a regular file whose name does not start
/// with `out` and whose extension is one of the two recognized ones.
pub open spec fn spec_is_var_module(e: EntryInfo) -> bool {
    e.is_file && !spec_starts_with(e.name@, "out"@) && (spec_extension(e.path@) == "tf"@
        || spec_extension(e.path@) == "tfvars"@)
}

/// The `-var-file=` arguments for the variable modules of a listing, in
/// listing order, leaving out any argument already among `args`.
pub open spec fn spec_var_modules(entries: Seq<EntryInfo>, args: Seq<Seq<char>>) -> Seq<Seq<char>>
    decreases entries.len(),
{
    if entries.len() == 0 {
        Seq::empty()
    } else {
        let head: Seq<Seq<char>> = if spec_is_var_module(entries[0]) && !args.contains(
            spec_var_file_arg(entries[0].path@),
        ) {
            seq![spec_var_file_arg(entries[0].path@)]
        } else {
            Seq::empty()
        };
        head + spec_var_modules(entries.drop_first(), args)
    }
}

/// No emitted variable-file argument duplicates one already among the
/// passthrough arguments.
pub proof fn lemma_no_duplicate_var_files(entries: Seq<EntryInfo>, args: Seq<Seq<char>>)
    ensures
        forall|k: int|
            0 <= k < spec_var_modules(entries, args).len() ==> !args.contains(
                #[trigger] spec_var_modules(entries, args)[k],
            ),
    decreases entries.len(),
{
    if entries.len() > 0 {
        lemma_no_duplicate_var_files(entries.drop_first(), args);
        let head: Seq<Seq<char>> = if spec_is_var_module(entries[0]) && !args.contains(
            spec_var_file_arg(entries[0].path@),
        ) {
            seq![spec_var_file_arg(entries[0].path@)]
        } else {
            Seq::empty()
        };
        let rest = spec_var_modules(entries.drop_first(), args);
        assert forall|k: int|
            0 <= k < spec_var_modules(entries, args).len() implies !args.contains(
            #[trigger] spec_var_modules(entries, args)[k],
        ) by {
            if k < head.len() {
                assert(spec_var_modules(entries, args)[k] == head[0]);
            } else {
                assert(spec_var_modules(entries, args)[k] == rest[k - head.len()]);
            }
        }
    }
}

/// The entries of a scan, with a failed scan standing for none.
pub open spec fn spec_scan_entries(scan: Result<Vec<EntryInfo>, String>) -> Seq<EntryInfo> {
    match scan {
        Ok(es) => es@,
        Err(_) => Seq::empty(),
    }
}

/// The argument list of the plan, apply and destroy subcommands: the
/// passthrough arguments, the variable-file arguments they do not already
/// hold, and the working directory last.
pub open spec fn spec_command_args(
    entries: Seq<EntryInfo>,
    directory: Seq<char>,
    extra: Seq<Seq<char>>,
) -> Seq<Seq<char>> {
    spec_extract(extra) + spec_var_modules(entries, spec_extract(extra)) + seq![directory]
}

/// The argument list of the init subcommand: the passthrough arguments with
/// the working directory last.
pub open spec fn spec_init_args(directory: Seq<char>, extra: Seq<Seq<char>>) -> Seq<Seq<char>> {
    spec_extract(extra) + seq![directory]
}

/// The builder of the external tool's argument lists.
pub struct TerraformClient;

impl TerraformClient {
    /// A new argument builder.
    pub fn new() -> TerraformClient {
        TerraformClient {  }
    }

    /// Strips the user's own subcommand token off a raw trailing-argument
    /// list.
    fn extract_arguments(&self, extra: &Vec<String>) -> (r: Vec<String>)
        ensures
            r.deep_view() == spec_extract(extra.deep_view()),
    {
        let mut r: Vec<String> = Vec::new();
        if extra.len() > 1 {
            let mut i: usize = 1;
            while i < extra.len()
                invariant
                    1 <= i <= extra@.len(),
                    extra@.len() > 1,
                    r.deep_view() =~= extra.deep_view().subrange(1, i as int),
                decreases extra@.len() - i,
            {
                let ghost prev = r.deep_view();
                r.push(extra[i].clone());
                proof {
                    assert(r.deep_view() =~= prev.push(extra@[i as int]@));
                    assert(r.deep_view() =~= extra.deep_view().subrange(1, i + 1));
                }
                i = i + 1;
            }
        }
        proof {
            if extra.deep_view().len() > 1 {
                assert(r.deep_view() =~= extra.deep_view().subrange(
                    1,
                    extra.deep_view().len() as int,
                ));
            } else {
                assert(r.deep_view() =~= Seq::<Seq<char>>::empty());
            }
        }
        r
    }

    /// The variable modules a listing of a configuration directory offers,
    /// as `-var-file=` arguments not already among `args`. A failed scan
    /// offers none.
    fn get_variable_modules(
        &self,
        scan: &Result<Vec<EntryInfo>, String>,
        args: &Vec<String>,
    ) -> (r: Vec<String>)
        ensures
            r.deep_view() == spec_var_modules(spec_scan_entries(*scan), args.deep_view()),
    {
        let mut r: Vec<String> = Vec::new();
        match scan {
            Err(_) => r,
            Ok(entries) => {
                let ghost adv = args.deep_view();
                let mut i: usize = 0;
                proof {
                    assert(entries@.skip(0) =~= entries@);
                }
                while i < entries.len()
                    invariant
                        i <= entries@.len(),
                        adv == args.deep_view(),
                        r.deep_view() + spec_var_modules(entries@.skip(i as int), adv)
                            =~= spec_var_modules(entries@, adv),
                    decreases entries@.len() - i,
                {
                    proof {
                        assert(entries@.skip(i as int)[0] == entries@[i as int]);
                        assert(entries@.skip(i as int).drop_first() =~= entries@.skip(i + 1));
                    }
                    let e = &entries[i];
                    if e.is_file && !str_starts_with(e.name.as_str(), "out") {
                        let ext = get_extension_from_filename(e.path.as_str());
                        if str_eq_ext(ext) {
                            let arg = String::from_str("-var-file=").concat(e.path.as_str());
                            if !contains_str(args, arg.as_str()) {
                                let ghost prev = r.deep_view();
                                r.push(arg);
                                proof {
                                    assert(r.deep_view() =~= prev.push(
                                        spec_var_file_arg(entries@[i as int].path@),
                                    ));
                                }
                            }
                        }
                    }
                    i = i + 1;
                }
                proof {
                    assert(spec_var_modules(entries@.skip(entries@.len() as int), adv)
                        =~= Seq::<Seq<char>>::empty());
                    assert(r.deep_view() =~= r.deep_view() + Seq::<Seq<char>>::empty());
                }
                r
            },
        }
    }

    /// Prepares the argument list for the plan, apply and destroy
    /// subcommands from a scan of the configuration's directory.
    pub fn get_command_args(
        &self,
        scan: &Result<Vec<EntryInfo>, String>,
        directory: &String,
        extra: &Vec<String>,
    ) -> (r: Vec<String>)
        ensures
            r.deep_view() == spec_command_args(
                spec_scan_entries(*scan),
                directory@,
                extra.deep_view(),
            ),
    {
        let mut args = self.extract_arguments(extra);
        let ghost extracted = args.deep_view();
        let mut modules = self.get_variable_modules(scan, &args);
        let ghost mods = modules.deep_view();
        args.append(&mut modules);
        proof {
            assert(args.deep_view() =~= extracted + mods);
        }
        let ghost before = args.deep_view();
        args.push(directory.clone());
        proof {
            assert(args.deep_view() =~= before.push(directory@));
            assert(args.deep_view() =~= spec_command_args(
                spec_scan_entries(*scan),
                directory@,
                extra.deep_view(),
            ));
        }
        args
    }

    /// Prepares the argument list for the init subcommand.
    pub fn get_init_args(&self, directory: &String, extra: &Vec<String>) -> (r: Vec<String>)
        ensures
            r.deep_view() == spec_init_args(directory@, extra.deep_view()),
    {
        let mut args = self.extract_arguments(extra);
        let ghost before = args.deep_view();
        args.push(directory.clone());
        proof {
            assert(args.deep_view() =~= before.push(directory@));
            assert(args.deep_view() =~= spec_init_args(directory@, extra.deep_view()));
        }
        args
    }
}

/// Whether an extension string is one of the two recognized variable-file
/// extensions.
fn str_eq_ext(ext: &str) -> (r: bool)
    ensures
        r == (ext@ == "tf"@ || ext@ == "tfvars"@),
{
    crate::text::str_eq(ext, "tf") || crate::text::str_eq(ext, "tfvars")
}

} // verus!
