//! Setup selection and the paths derived from it. The four setup modes
//! (system, user, local, custom) decide where the configuration file and the
//! repository root live; all inputs that only the environment can provide —
//! the working directory, the platform's base directories, the platform
//! itself, environment variables — come in as plain values, so every decision
//! here is pure and verified. An unsupported platform is an error value,
//! never an abort.

use vstd::prelude::*;

use crate::cli::Cli;

verus! {

/// Which level of configuration an invocation runs under.
#[derive(Clone, Debug)]
pub enum RerSetup {
    System,
    User,
    Local,
    Custom { config_file: String },
}

/// Mathematical image of a `RerSetup`.
#[verifier::ext_equal]
pub enum RerSetupV {
    System,
    User,
    Local,
    Custom { config_file: Seq<char> },
}

impl DeepView for RerSetup {
    type V = RerSetupV;

    open spec fn deep_view(&self) -> RerSetupV {
        match self {
            RerSetup::System => RerSetupV::System,
            RerSetup::User => RerSetupV::User,
            RerSetup::Local => RerSetupV::Local,
            RerSetup::Custom { config_file } => RerSetupV::Custom { config_file: config_file@ },
        }
    }
}

/// The loaded configuration values.
#[derive(Clone, Debug)]
pub struct Config {
    pub repo_dir: Option<String>,
    pub open_with: Option<String>,
    pub config_editor: Option<String>,
}

impl Default for Config {
    /// An empty configuration: nothing overridden.
    fn default() -> (r: Config)
        ensures
            r.repo_dir is None,
            r.open_with is None,
            r.config_editor is None,
    {
        Config { repo_dir: None, open_with: None, config_editor: None }
    }
}

/// The underlying version-control tool, by executable name.
#[derive(Clone, Debug)]
pub struct Git {
    pub exe: String,
}

impl Default for Git {
    /// The tool as found on the search path.
    fn default() -> (r: Git)
        ensures
            r.exe@ == "git"@,
    {
        Git { exe: String::from_str("git") }
    }
}

/// Why a setup-derived path could not be produced.
#[derive(Clone, Copy, Debug, PartialEq, Eq, Structural)]
pub enum SetupError {
    /// The platform's base directories could not be determined.
    BaseDirsUnavailable,
    /// The requested setup is not supported on this platform.
    UnsupportedPlatform,
    /// A custom setup names no repository root in its configuration.
    NoRepoDirSpecified,
}

/// The setup an invocation selects: explicit flags take precedence in the
/// order system, user, local, then an explicit configuration file, then the
/// level environment variable, and the user setup is the default.
pub open spec fn spec_select_setup(cli: Cli, env_level: Option<Seq<char>>) -> RerSetupV {
    if cli.system == Some(true) {
        RerSetupV::System
    } else if cli.user == Some(true) {
        RerSetupV::User
    } else if cli.local == Some(true) {
        RerSetupV::Local
    } else if cli.config is Some {
        RerSetupV::Custom { config_file: cli.config->0@ }
    } else {
        match env_level {
            Some(level) => if level == "system"@ {
                RerSetupV::System
            } else if level == "user"@ {
                RerSetupV::User
            } else if level == "local"@ {
                RerSetupV::Local
            } else {
                RerSetupV::User
            },
            None => RerSetupV::User,
        }
    }
}

/// Select the setup from the invocation's flags and the level environment
/// variable's value, if that variable is set.
pub fn select_setup(cli: &Cli, env_level: Option<String>) -> (r: RerSetup)
    ensures
        r.deep_view() == spec_select_setup(*cli, env_level.deep_view()),
{
    if let Some(true) = cli.system {
        return RerSetup::System;
    }
    if let Some(true) = cli.user {
        return RerSetup::User;
    }
    if let Some(true) = cli.local {
        return RerSetup::Local;
    }
    if let Some(config) = &cli.config {
        return RerSetup::Custom { config_file: config.clone() };
    }
    match env_level {
        Some(level) => {
            if level == String::from_str("system") {
                RerSetup::System
            } else if level == String::from_str("user") {
                RerSetup::User
            } else if level == String::from_str("local") {
                RerSetup::Local
            } else {
                RerSetup::User
            }
        },
        None => RerSetup::User,
    }
}

/// The repository root a setup stores repositories under. A root named in the
/// configuration wins; otherwise the local setup uses the working directory,
/// the user setup the platform's local data directory, and the system setup a
/// fixed path that exists only on the supported platform. A custom setup must
/// name the root in its configuration.
pub open spec fn spec_repo_dir_path(
    setup: RerSetupV,
    config_repo_dir: Option<Seq<char>>,
    cwd: Seq<char>,
    data_local_dir: Option<Seq<char>>,
    os_linux: bool,
) -> Result<Seq<char>, SetupError> {
    match config_repo_dir {
        Some(dir) => Ok(dir),
        None => match setup {
            RerSetupV::Local => Ok(cwd + "/.rerman/repositories"@),
            RerSetupV::User => match data_local_dir {
                Some(base) => Ok(base + "/rerman/repositories"@),
                None => Err(SetupError::BaseDirsUnavailable),
            },
            RerSetupV::System => if os_linux {
                Ok("/usr/share/rerman/repositories"@)
            } else {
                Err(SetupError::UnsupportedPlatform)
            },
            RerSetupV::Custom { .. } => Err(SetupError::NoRepoDirSpecified),
        },
    }
}

/// Resolve the repository root for a setup from the configured override, the
/// working directory, the platform's local data directory, and the platform.
pub fn repo_dir_path(
    setup: &RerSetup,
    config_repo_dir: &Option<String>,
    cwd: &str,
    data_local_dir: &Option<String>,
    os_linux: bool,
) -> (r: Result<String, SetupError>)
    ensures
        match r {
            Ok(path) => spec_repo_dir_path(
                setup.deep_view(),
                config_repo_dir.deep_view(),
                cwd@,
                data_local_dir.deep_view(),
                os_linux,
            ) == Ok::<Seq<char>, SetupError>(path@),
            Err(e) => spec_repo_dir_path(
                setup.deep_view(),
                config_repo_dir.deep_view(),
                cwd@,
                data_local_dir.deep_view(),
                os_linux,
            ) == Err::<Seq<char>, SetupError>(e),
        },
{
    if let Some(dir) = config_repo_dir {
        return Ok(dir.clone());
    }
    match setup {
        RerSetup::Local => {
            let mut out = cwd.to_owned();
            out.append("/.rerman/repositories");
            Ok(out)
        },
        RerSetup::User => match data_local_dir {
            Some(base) => {
                let mut out = base.clone();
                out.append("/rerman/repositories");
                Ok(out)
            },
            None => Err(SetupError::BaseDirsUnavailable),
        },
        RerSetup::System => {
            if os_linux {
                Ok(String::from_str("/usr/share/rerman/repositories"))
            } else {
                Err(SetupError::UnsupportedPlatform)
            }
        },
        RerSetup::Custom { .. } => Err(SetupError::NoRepoDirSpecified),
    }
}

/// The configuration file a setup reads: a fixed path for the system setup
/// (supported platform only), the platform's configuration directory for the
/// user setup, the working directory for the local setup, and the named file
/// for a custom setup.
pub open spec fn spec_config_file_path(
    setup: RerSetupV,
    cwd: Seq<char>,
    config_dir: Option<Seq<char>>,
    os_linux: bool,
) -> Result<Seq<char>, SetupError> {
    match setup {
        RerSetupV::System => if os_linux {
            Ok("/etc/rerman/config.toml"@)
        } else {
            Err(SetupError::UnsupportedPlatform)
        },
        RerSetupV::User => match config_dir {
            Some(base) => Ok(base + "/rerman/config.toml"@),
            None => Err(SetupError::BaseDirsUnavailable),
        },
        RerSetupV::Local => Ok(cwd + "/.rerman/config.toml"@),
        RerSetupV::Custom { config_file } => Ok(config_file),
    }
}

/// Resolve the configuration-file path for a setup from the working
/// directory, the platform's configuration directory, and the platform.
pub fn config_file_path(
    setup: &RerSetup,
    cwd: &str,
    config_dir: &Option<String>,
    os_linux: bool,
) -> (r: Result<String, SetupError>)
    ensures
        match r {
            Ok(path) => spec_config_file_path(
                setup.deep_view(),
                cwd@,
                config_dir.deep_view(),
                os_linux,
            ) == Ok::<Seq<char>, SetupError>(path@),
            Err(e) => spec_config_file_path(
                setup.deep_view(),
                cwd@,
                config_dir.deep_view(),
                os_linux,
            ) == Err::<Seq<char>, SetupError>(e),
        },
{
    match setup {
        RerSetup::System => {
            if os_linux {
                Ok(String::from_str("/etc/rerman/config.toml"))
            } else {
                Err(SetupError::UnsupportedPlatform)
            }
        },
        RerSetup::User => match config_dir {
            Some(base) => {
                let mut out = base.clone();
                out.append("/rerman/config.toml");
                Ok(out)
            },
            None => Err(SetupError::BaseDirsUnavailable),
        },
        RerSetup::Local => {
            let mut out = cwd.to_owned();
            out.append("/.rerman/config.toml");
            Ok(out)
        },
        RerSetup::Custom { config_file } => Ok(config_file.clone()),
    }
}

} // verus!
