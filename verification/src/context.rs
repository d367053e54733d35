//! The settings a command runs with: command-line options merged with the config file.
use vstd::prelude::*;

use crate::cli::main::args::MainArgs;
use crate::enums::{PackageManager, ScriptRunner};
use crate::errors::{ConfigError, ConfigErrorFrom, Error};
use crate::strings::owned;
use crate::text::{trim, trim_spec};

verus! {

/// The npm registry searched when the config file names none.
pub const NPM_REGISTRY_URL: &'static str = "https://registry.npmjs.org";

/// The environment variable that may name a config file.
pub const ENV_CONFIG_FILE: &'static str = "UNPM_CONFIG_FILE";

/// The `pm` section of the config file.
#[derive(Debug, Default)]
pub struct PackageManagerConfig {
    pub local: Option<PackageManager>,
    pub global: Option<PackageManager>,
}

/// The config file.
#[derive(Debug, Default)]
pub struct Config {
    pub pm: Option<PackageManagerConfig>,
    pub runner: Option<ScriptRunner>,
    pub registry: Option<String>,
}

/// What was found at a config file path.
#[derive(Debug)]
pub enum ConfigFile {
    /// No file is there.
    Missing,
    /// The file was read; it held nothing but white space or `null` when `None`.
    Loaded(Option<Config>),
    /// The file could not be read or parsed, for the given reason.
    Failed(String),
}

/// A config file path and what was found there.
#[derive(Debug)]
pub struct ConfigCandidate {
    pub path: String,
    pub file: ConfigFile,
}

/// Everything a subcommand needs to know besides its own arguments.
#[derive(Debug)]
pub struct Context {
    pub cli_pm: Option<PackageManager>,
    pub cli_runner: Option<ScriptRunner>,
    pub config_local_pm: Option<PackageManager>,
    pub config_global_pm: Option<PackageManager>,
    pub config_runner: Option<ScriptRunner>,
    pub interactive: bool,
    pub global: bool,
    pub dry_run: bool,
    pub registry: String,
}

/// The outcome of choosing the config file, without the contents of strings.
pub enum ConfigChoice {
    /// This config (or none) is used.
    Use(Option<Config>),
    /// The file at this path, from this source, is missing.
    NotExists(ConfigErrorFrom),
    /// The file at this path, from this source, could not be loaded for this reason.
    Load(ConfigErrorFrom, String),
}

/// Which config is used, given the candidates from `--config`, from the environment
/// variable (after trimming; absent when blank) and from the default path (absent when
/// the platform has none): the first candidate given decides, except that an
/// environment file that held no config falls through to the default path.
pub open spec fn choose_config(
    arg: Option<ConfigCandidate>,
    env: Option<ConfigCandidate>,
    default: Option<ConfigCandidate>,
) -> ConfigChoice {
    match arg {
        Some(c) => match c.file {
            ConfigFile::Missing => ConfigChoice::NotExists(ConfigErrorFrom::Arg(c.path)),
            ConfigFile::Failed(reason) => ConfigChoice::Load(ConfigErrorFrom::Arg(c.path), reason),
            ConfigFile::Loaded(cfg) => ConfigChoice::Use(cfg),
        },
        None => match env {
            Some(c) if !(c.file matches ConfigFile::Loaded(None)) => match c.file {
                ConfigFile::Missing => ConfigChoice::NotExists(ConfigErrorFrom::Env(c.path)),
                ConfigFile::Failed(reason) => ConfigChoice::Load(ConfigErrorFrom::Env(c.path), reason),
                ConfigFile::Loaded(cfg) => ConfigChoice::Use(cfg),
            },
            _ => match default {
                Some(c) => match c.file {
                    ConfigFile::Missing => ConfigChoice::Use(None),
                    ConfigFile::Failed(reason) => ConfigChoice::Load(
                        ConfigErrorFrom::Default(c.path),
                        reason,
                    ),
                    ConfigFile::Loaded(cfg) => ConfigChoice::Use(cfg),
                },
                None => ConfigChoice::Use(None),
            },
        },
    }
}

/// The result that corresponds to a choice.
pub open spec fn choice_result(c: ConfigChoice) -> Result<Option<Config>, Error> {
    match c {
        ConfigChoice::Use(cfg) => Ok(cfg),
        ConfigChoice::NotExists(from) => Err(Error::Config(ConfigError::NotExists { from })),
        ConfigChoice::Load(from, source) => Err(Error::Config(ConfigError::Load { from, source })),
    }
}

/// The context built from the main arguments and the config in use.
pub open spec fn context_spec(args: MainArgs, config: Option<Config>) -> ContextSpec {
    ContextSpec {
        cli_pm: args.pm,
        cli_runner: args.runner,
        config_local_pm: match config {
            Some(c) => match c.pm {
                Some(p) => p.local,
                None => None,
            },
            None => None,
        },
        config_global_pm: match config {
            Some(c) => match c.pm {
                Some(p) => p.global,
                None => None,
            },
            None => None,
        },
        config_runner: match config {
            Some(c) => c.runner,
            None => None,
        },
        interactive: true,
        global: false,
        dry_run: args.dry_run,
        registry: match config {
            Some(c) => match c.registry {
                Some(r) => r@,
                None => NPM_REGISTRY_URL@,
            },
            None => NPM_REGISTRY_URL@,
        },
    }
}

/// The abstract value of a [`Context`].
pub struct ContextSpec {
    pub cli_pm: Option<PackageManager>,
    pub cli_runner: Option<ScriptRunner>,
    pub config_local_pm: Option<PackageManager>,
    pub config_global_pm: Option<PackageManager>,
    pub config_runner: Option<ScriptRunner>,
    pub interactive: bool,
    pub global: bool,
    pub dry_run: bool,
    pub registry: Seq<char>,
}

impl View for Context {
    type V = ContextSpec;

    open spec fn view(&self) -> ContextSpec {
        ContextSpec {
            cli_pm: self.cli_pm,
            cli_runner: self.cli_runner,
            config_local_pm: self.config_local_pm,
            config_global_pm: self.config_global_pm,
            config_runner: self.config_runner,
            interactive: self.interactive,
            global: self.global,
            dry_run: self.dry_run,
            registry: self.registry@,
        }
    }
}

impl Config {
    /// The config in use: the `--config` file when one was given, else the file named
    /// by the environment variable, else the default file.
    pub fn new(
        arg: Option<ConfigCandidate>,
        env: Option<ConfigCandidate>,
        default: Option<ConfigCandidate>,
    ) -> (r: Result<Option<Config>, Error>)
        ensures
            r == choice_result(choose_config(arg, env, default)),
    {
        if let Some(c) = arg {
            return Self::from_arg_path(c);
        }
        match env {
            Some(c) => match c.file {
                ConfigFile::Missing => {
                    return Err(Error::Config(ConfigError::NotExists { from: ConfigErrorFrom::Env(c.path) }));
                },
                ConfigFile::Failed(reason) => {
                    return Err(
                        Error::Config(
                            ConfigError::Load { from: ConfigErrorFrom::Env(c.path), source: reason },
                        ),
                    );
                },
                ConfigFile::Loaded(Some(cfg)) => {
                    return Ok(Some(cfg));
                },
                ConfigFile::Loaded(None) => {},
            },
            None => {},
        }
        match default {
            Some(c) => match c.file {
                ConfigFile::Missing => Ok(None),
                ConfigFile::Failed(reason) => Err(
                    Error::Config(
                        ConfigError::Load { from: ConfigErrorFrom::Default(c.path), source: reason },
                    ),
                ),
                ConfigFile::Loaded(cfg) => Ok(cfg),
            },
            None => Ok(None),
        }
    }

    /// The config from the `--config` path: it must exist and load.
    pub fn from_arg_path(c: ConfigCandidate) -> (r: Result<Option<Config>, Error>)
        ensures
            r == choice_result(choose_config(Some(c), None, None)),
    {
        match c.file {
            ConfigFile::Missing => Err(Error::Config(ConfigError::NotExists { from: ConfigErrorFrom::Arg(c.path) })),
            ConfigFile::Failed(reason) => Err(
                Error::Config(ConfigError::Load { from: ConfigErrorFrom::Arg(c.path), source: reason }),
            ),
            ConfigFile::Loaded(cfg) => Ok(cfg),
        }
    }

    /// The path named by the environment variable's value: the value trimmed, or none
    /// when that is empty.
    pub fn env_path(value: &str) -> (r: Option<String>)
        ensures
            match r {
                Some(p) => p@ == trim_spec(value@) && p@.len() > 0,
                None => trim_spec(value@).len() == 0,
            },
    {
        let t = trim(value);
        if t.as_str().unicode_len() == 0 {
            None
        } else {
            Some(t)
        }
    }
}

impl Context {
    /// The context for the main arguments and the config in use. It starts
    /// interactive and not global; the registry is the config's or npm's.
    pub fn new(args: &MainArgs, config: &Option<Config>) -> (r: Context)
        ensures
            r@ == context_spec(*args, *config),
    {
        let mut ctx = Context {
            cli_pm: args.pm,
            cli_runner: args.runner,
            config_local_pm: None,
            config_global_pm: None,
            config_runner: None,
            interactive: true,
            global: false,
            dry_run: args.dry_run,
            registry: owned(NPM_REGISTRY_URL),
        };
        if let Some(config) = config {
            if let Some(pm) = &config.pm {
                ctx.config_local_pm = pm.local;
                ctx.config_global_pm = pm.global;
            }
            ctx.config_runner = config.runner;
            if let Some(registry) = &config.registry {
                ctx.registry = owned(registry.as_str());
            }
        }
        ctx
    }

    /// A copy of the context, global or not as `global` says.
    pub fn with_global(&self, global: bool) -> (r: Context)
        ensures
            r@ == (ContextSpec { global, ..self@ }),
    {
        Context {
            cli_pm: self.cli_pm,
            cli_runner: self.cli_runner,
            config_local_pm: self.config_local_pm,
            config_global_pm: self.config_global_pm,
            config_runner: self.config_runner,
            interactive: self.interactive,
            global,
            dry_run: self.dry_run,
            registry: owned(self.registry.as_str()),
        }
    }

    /// Whether resolving the package manager looks at the project on disk: only for
    /// local commands when `--pm` was not given.
    pub fn needs_detection(&self) -> (r: bool)
        ensures
            r == (!self.global && self.cli_pm is None),
    {
        !self.global && self.cli_pm.is_none()
    }
}

} // verus!
