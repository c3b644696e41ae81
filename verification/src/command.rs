use vstd::prelude::*;

use crate::platform::Os;

verus! {

/// Everything the host needs to launch the server: executable path, ordered
/// argument list, and environment pairs.
#[derive(Debug, PartialEq, Eq, Clone)]
pub struct CommandSpec {
    pub command: String,
    pub args: Vec<String>,
    pub env: Vec<(String, String)>,
}

/// Whether the argument list already holds `flag` as one of its elements.
/// Detection is presence-only: whole-argument string equality, no parsing
/// of flag values.
pub open spec fn has_arg(args: Seq<Seq<char>>, flag: Seq<char>) -> bool {
    args.contains(flag)
}

pub fn contains_arg(args: &Vec<String>, flag: &str) -> (r: bool)
    ensures
        r == has_arg(args.deep_view(), flag@),
{
    let f = String::from_str(flag);
    let mut i: usize = 0;
    while i < args.len()
        invariant
            f@ == flag@,
            0 <= i <= args@.len(),
            forall|j: int| 0 <= j < i ==> args.deep_view()[j] != flag@,
        decreases args@.len() - i,
    {
        if args[i].eq(&f) {
            proof {
                assert(args.deep_view()[i as int] == flag@);
            }
            return true;
        }
        i += 1;
    }
    proof {
        assert(forall|j: int| 0 <= j < args.deep_view().len() ==> args.deep_view()[j] != flag@);
    }
    false
}

/// Which of the three defaulted flags the user's arguments do not yet carry,
/// so still call for discovery: the companion CLI config file, `clangd`,
/// and `arduino-cli`.
#[derive(Debug, PartialEq, Eq, Clone, Copy)]
pub struct FlagNeeds {
    pub cli_config: bool,
    pub clangd: bool,
    pub cli: bool,
}

pub fn flags_to_probe(args: &Vec<String>) -> (r: FlagNeeds)
    ensures
        r.cli_config == !has_arg(args.deep_view(), "-cli-config"@),
        r.clangd == !has_arg(args.deep_view(), "-clangd"@),
        r.cli == !has_arg(args.deep_view(), "-cli"@),
{
    FlagNeeds {
        cli_config: !contains_arg(args, "-cli-config"),
        clangd: !contains_arg(args, "-clangd"),
        cli: !contains_arg(args, "-cli"),
    }
}

/// The OS-specific default path of the companion CLI tool's configuration
/// file. `home` is the user's home directory where one applies; on Windows
/// the recipe instead starts from the local application-data directory.
/// When the needed starting directory is unknown there is no default: the
/// result is `None` and the flag is simply omitted.
pub open spec fn spec_default_cli_config_path(
    os: Os,
    home: Option<Seq<char>>,
    local_app_data: Option<Seq<char>>,
) -> Option<Seq<char>> {
    match os {
        Os::Mac => match home {
            Some(h) => Some(h + "/Library/Arduino15/arduino-cli.yaml"@),
            None => None,
        },
        Os::Linux => match home {
            Some(h) => Some(h + "/.arduino15/arduino-cli.yaml"@),
            None => None,
        },
        Os::Windows => match local_app_data {
            Some(d) => Some(d + "\\Arduino15\\arduino-cli.yaml"@),
            None => None,
        },
    }
}

pub fn default_cli_config_path(os: Os, home: Option<&String>, local_app_data: Option<&String>) -> (r:
    Option<String>)
    ensures
        match r {
            Some(p) => {
                &&& spec_default_cli_config_path(
                    os,
                    match home {
                        Some(h) => Some(h@),
                        None => None,
                    },
                    match local_app_data {
                        Some(d) => Some(d@),
                        None => None,
                    },
                ) == Some(p@)
            },
            None => spec_default_cli_config_path(
                os,
                match home {
                    Some(h) => Some(h@),
                    None => None,
                },
                match local_app_data {
                    Some(d) => Some(d@),
                    None => None,
                },
            ) is None,
        },
{
    match os {
        Os::Mac => match home {
            Some(h) => {
                let mut p = h.clone();
                p.append("/Library/Arduino15/arduino-cli.yaml");
                Some(p)
            },
            None => None,
        },
        Os::Linux => match home {
            Some(h) => {
                let mut p = h.clone();
                p.append("/.arduino15/arduino-cli.yaml");
                Some(p)
            },
            None => None,
        },
        Os::Windows => match local_app_data {
            Some(d) => {
                let mut p = d.clone();
                p.append("\\Arduino15\\arduino-cli.yaml");
                Some(p)
            },
            None => None,
        },
    }
}

/// The two arguments appended for one defaulted flag: nothing when the user
/// already passed the flag or discovery found nothing, else the flag
/// followed by the discovered path.
pub open spec fn spec_flag_segment(
    args: Seq<Seq<char>>,
    flag: Seq<char>,
    found: Option<Seq<char>>,
) -> Seq<Seq<char>> {
    match found {
        Some(p) => if has_arg(args, flag) {
            Seq::<Seq<char>>::empty()
        } else {
            seq![flag, p]
        },
        None => Seq::<Seq<char>>::empty(),
    }
}

/// What argument synthesis produces: the user's arguments, then the
/// `-cli-config`, `-clangd` and `-cli` segments in that order, each present
/// only where the user did not pass the flag and discovery found a path.
pub open spec fn spec_built_args(
    args: Seq<Seq<char>>,
    cli_config: Option<Seq<char>>,
    clangd: Option<Seq<char>>,
    cli: Option<Seq<char>>,
) -> Seq<Seq<char>> {
    args + spec_flag_segment(args, "-cli-config"@, cli_config) + spec_flag_segment(
        args,
        "-clangd"@,
        clangd,
    ) + spec_flag_segment(args, "-cli"@, cli)
}

/// A flag the user already supplied is never appended again: its segment is
/// empty, whatever discovery found, so synthesis keeps the user's value and
/// adds no second occurrence of the flag.
pub proof fn lemma_flag_not_duplicated(
    args: Seq<Seq<char>>,
    flag: Seq<char>,
    found: Option<Seq<char>>,
)
    requires
        has_arg(args, flag),
    ensures
        spec_flag_segment(args, flag, found) == Seq::<Seq<char>>::empty(),
{
}

/// When the user supplied all three defaulted flags, synthesis returns the
/// argument list unchanged.
pub proof fn lemma_all_flags_supplied(
    args: Seq<Seq<char>>,
    cli_config: Option<Seq<char>>,
    clangd: Option<Seq<char>>,
    cli: Option<Seq<char>>,
)
    requires
        has_arg(args, "-cli-config"@),
        has_arg(args, "-clangd"@),
        has_arg(args, "-cli"@),
    ensures
        spec_built_args(args, cli_config, clangd, cli) =~= args,
{
}

/// Append the defaulted flags to the user's arguments. Each of `cli_config`,
/// `clangd` and `cli` is the path discovery produced for that flag, or
/// `None` when there was none. Whether the user already passed a flag is
/// decided on the arguments as supplied, before anything is appended, so a
/// flag the user passed is left entirely alone.
pub fn build_args(
    args: Vec<String>,
    cli_config: Option<String>,
    clangd: Option<String>,
    cli: Option<String>,
) -> (r: Vec<String>)
    ensures
        r.deep_view() == spec_built_args(
            args.deep_view(),
            match cli_config {
                Some(p) => Some(p@),
                None => None,
            },
            match clangd {
                Some(p) => Some(p@),
                None => None,
            },
            match cli {
                Some(p) => Some(p@),
                None => None,
            },
        ),
{
    let ghost orig = args.deep_view();
    let ghost g_cli_config: Option<Seq<char>> = match &cli_config {
        Some(p) => Some(p@),
        None => None,
    };
    let ghost g_clangd: Option<Seq<char>> = match &clangd {
        Some(p) => Some(p@),
        None => None,
    };
    let ghost g_cli: Option<Seq<char>> = match &cli {
        Some(p) => Some(p@),
        None => None,
    };
    let needs = flags_to_probe(&args);
    let mut r = args;
    let ghost after_cli_config = orig + spec_flag_segment(orig, "-cli-config"@, g_cli_config);
    if needs.cli_config {
        if let Some(p) = cli_config {
            r.push(String::from_str("-cli-config"));
            r.push(p);
        }
    }
    proof {
        assert(r.deep_view() =~= after_cli_config);
    }
    let ghost after_clangd = after_cli_config + spec_flag_segment(orig, "-clangd"@, g_clangd);
    if needs.clangd {
        if let Some(p) = clangd {
            r.push(String::from_str("-clangd"));
            r.push(p);
        }
    }
    proof {
        assert(r.deep_view() =~= after_clangd);
    }
    if needs.cli {
        if let Some(p) = cli {
            r.push(String::from_str("-cli"));
            r.push(p);
        }
    }
    proof {
        assert(r.deep_view() =~= after_clangd + spec_flag_segment(orig, "-cli"@, g_cli));
    }
    r
}

/// The environment the launched server sees: the user's mapping when the
/// settings supplied one; otherwise the shell-derived environment on Mac
/// and Linux, and nothing on Windows.
pub fn build_env(settings_env: Vec<(String, String)>, os: Os, shell_env: Vec<(String, String)>) -> (r:
    Vec<(String, String)>)
    ensures
        settings_env@.len() > 0 ==> r == settings_env,
        settings_env@.len() == 0 && os != Os::Windows ==> r == shell_env,
        settings_env@.len() == 0 && os == Os::Windows ==> r@ =~= Seq::<(String, String)>::empty(),
{
    if settings_env.len() > 0 {
        settings_env
    } else {
        match os {
            Os::Mac | Os::Linux => shell_env,
            Os::Windows => Vec::new(),
        }
    }
}

/// A value the settings may or may not have supplied, or the default when
/// they did not. Absent settings are not an error.
pub fn value_or<T>(v: Option<T>, default: T) -> (r: T)
    ensures
        r == match v {
            Some(x) => x,
            None => default,
        },
{
    match v {
        Some(x) => x,
        None => default,
    }
}

/// Build the full command description for the resolved binary: the user's
/// arguments with the defaulted flags appended, and the user's environment
/// or its platform default.
pub fn synthesize_command(
    command: String,
    args: Vec<String>,
    cli_config: Option<String>,
    clangd: Option<String>,
    cli: Option<String>,
    settings_env: Vec<(String, String)>,
    os: Os,
    shell_env: Vec<(String, String)>,
) -> (r: CommandSpec)
    ensures
        r.command == command,
        r.args.deep_view() == spec_built_args(
            args.deep_view(),
            match cli_config {
                Some(p) => Some(p@),
                None => None,
            },
            match clangd {
                Some(p) => Some(p@),
                None => None,
            },
            match cli {
                Some(p) => Some(p@),
                None => None,
            },
        ),
        settings_env@.len() > 0 ==> r.env == settings_env,
        settings_env@.len() == 0 && os != Os::Windows ==> r.env == shell_env,
        settings_env@.len() == 0 && os == Os::Windows ==> r.env@ =~= Seq::<(String, String)>::empty(),
{
    let built_args = build_args(args, cli_config, clangd, cli);
    let env = build_env(settings_env, os, shell_env);
    CommandSpec { command, args: built_args, env }
}

} // verus!
