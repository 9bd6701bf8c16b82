//! The settings of the client and the sources they are resolved from.
//!
//! Three sources feed the settings: the command line, an optional
//! configuration file and one environment variable. None of them is read
//! here: the caller hands in what it found, and [`AppConfiguration::init`]
//! decides what follows.

use crate::config::{
    loaded, Config, ConfigError, ConfigFault, ConfigFile, ConfigFileView, ConfigLocation,
    ConfigLocationView, ConfigView, FileReadView, Origin,
};
use vstd::prelude::*;
use vstd::string::*;

verus! {

/// Endpoint used when neither the command line nor the file names one.
pub const DEFAULT_API_URL: &'static str = "https://models.inference.ai.azure.com/";

/// Model used when neither the command line nor the file names one.
pub const DEFAULT_MODEL: &'static str = "gpt-4o";

/// Name of the environment variable that may hold the API key.
pub const API_KEY_VARIABLE: &'static str = "OPENAI_API_KEY";

/// What the command line supplied. Every option may be left out.
#[derive(Debug, Clone, PartialEq, Eq)]
pub struct Args {
    /// API url.
    pub url: Option<String>,
    /// Model.
    pub model: Option<String>,
    /// System message to initialize the model.
    pub system: Option<String>,
    /// Config file location.
    pub config: Option<String>,
}

/// Mathematical model of [`Args`].
pub struct ArgsView {
    pub url: Option<Seq<char>>,
    pub model: Option<Seq<char>>,
    pub system: Option<Seq<char>>,
    pub config: Option<Seq<char>>,
}

impl View for Args {
    type V = ArgsView;

    open spec fn view(&self) -> ArgsView {
        ArgsView {
            url: self.url.deep_view(),
            model: self.model.deep_view(),
            system: self.system.deep_view(),
            config: self.config.deep_view(),
        }
    }
}

/// The resolved settings. Built once, by [`AppConfiguration::resolve`] or
/// [`AppConfiguration::init`].
#[derive(Debug, Clone, PartialEq, Eq)]
pub struct AppConfiguration {
    /// Bearer token for the endpoint.
    pub api_key: String,
    pub api_url: String,
    pub model: String,
    pub system_message: Option<String>,
}

/// Mathematical model of [`AppConfiguration`].
pub struct Settings {
    pub api_key: Seq<char>,
    pub api_url: Seq<char>,
    pub model: Seq<char>,
    pub system_message: Option<Seq<char>>,
}

impl View for AppConfiguration {
    type V = Settings;

    open spec fn view(&self) -> Settings {
        Settings {
            api_key: self.api_key@,
            api_url: self.api_url@,
            model: self.model@,
            system_message: self.system_message.deep_view(),
        }
    }
}

/// The file to look for: the one the command line names, else the per-user
/// one, if its path is known.
pub open spec fn location_of(
    explicit: Option<Seq<char>>,
    default_path: Option<Seq<char>>,
) -> Option<ConfigLocationView> {
    match explicit {
        Some(path) => Some(ConfigLocationView { path, origin: Origin::Explicit }),
        None => match default_path {
            Some(path) => Some(ConfigLocationView { path, origin: Origin::Default }),
            None => None,
        },
    }
}

/// The first of two optional values that is present.
pub open spec fn first_present(
    preferred: Option<Seq<char>>,
    fallback: Option<Seq<char>>,
) -> Option<Seq<char>> {
    if preferred is Some {
        preferred
    } else {
        fallback
    }
}

/// What the configuration file says: where there is no file, nothing.
pub open spec fn said_by(config: Option<ConfigView>) -> ConfigView {
    match config {
        Some(config) => config,
        None => ConfigView { api_key: None, url: None, model: None, system_message: None },
    }
}

/// The settings that follow from the three sources.
///
/// The API key is the environment's, else the file's; without either there
/// are no settings. Endpoint and model are the command line's, else the file's,
/// else the defaults. The system message is the command line's, else the
/// file's, else absent.
pub open spec fn resolved(
    args: ArgsView,
    config: Option<ConfigView>,
    env_api_key: Option<Seq<char>>,
) -> Result<Settings, ConfigFault> {
    let file = said_by(config);
    match first_present(env_api_key, file.api_key) {
        None => Err(ConfigFault::MissingApiKey),
        Some(api_key) => Ok(
            Settings {
                api_key,
                api_url: match first_present(args.url, file.url) {
                    Some(url) => url,
                    None => DEFAULT_API_URL@,
                },
                model: match first_present(args.model, file.model) {
                    Some(model) => model,
                    None => DEFAULT_MODEL@,
                },
                system_message: first_present(args.system, file.system_message),
            },
        ),
    }
}

/// The settings that follow from the command line, the configuration file
/// that was looked for (`None` where none was) and the environment: a fatal
/// error of the file, or what the three sources resolve to.
pub open spec fn initialized(
    args: ArgsView,
    file: Option<ConfigFileView>,
    env_api_key: Option<Seq<char>>,
) -> Result<Settings, ConfigFault> {
    match file {
        None => resolved(args, None, env_api_key),
        Some(file) => match loaded(file) {
            Ok(config) => resolved(args, config, env_api_key),
            Err(fault) => Err(fault),
        },
    }
}

/// The model of an outcome of resolution.
pub open spec fn outcome_view(outcome: Result<AppConfiguration, ConfigError>) -> Result<
    Settings,
    ConfigFault,
> {
    match outcome {
        Ok(settings) => Ok(settings@),
        Err(error) => Err(error@),
    }
}

/// Returns `preferred` if it is present and `fallback` otherwise.
fn prefer(preferred: Option<String>, fallback: Option<String>) -> (chosen: Option<String>)
    ensures
        chosen.deep_view() == first_present(preferred.deep_view(), fallback.deep_view()),
{
    match preferred {
        Some(value) => Some(value),
        None => fallback,
    }
}

impl Args {
    /// Decides which configuration file to look for.
    ///
    /// `default_path` is the per-user location
    /// ([`crate::config::DEFAULT_CONFIG_FILE`] under the home directory),
    /// `None` where no home directory is known.
    pub fn config_location(&self, default_path: Option<String>) -> (location: Option<
        ConfigLocation,
    >)
        ensures
            location.deep_view() == location_of(self@.config, default_path.deep_view()),
    {
        match &self.config {
            Some(path) => Some(ConfigLocation { path: path.clone(), origin: Origin::Explicit }),
            None => match default_path {
                Some(path) => Some(ConfigLocation { path, origin: Origin::Default }),
                None => None,
            },
        }
    }
}

impl AppConfiguration {
    /// Produces the settings from everything the surroundings supplied.
    ///
    /// `file` is the configuration file at the location that
    /// [`Args::config_location`] names, with what became of the attempt to
    /// read it, and `None` where no location is known. `env_api_key` is the
    /// value of the variable named by [`API_KEY_VARIABLE`], `None` where it is
    /// not set.
    pub fn init(args: Args, file: Option<ConfigFile>, env_api_key: Option<String>) -> (outcome:
        Result<AppConfiguration, ConfigError>)
        ensures
            outcome_view(outcome) == initialized(
                args@,
                file.deep_view(),
                env_api_key.deep_view(),
            ),
    {
        let config = match file {
            None => None,
            Some(file) => match Config::load(file) {
                Ok(config) => config,
                Err(error) => { return Err(error); },
            },
        };
        AppConfiguration::resolve(args, config, env_api_key)
    }

    /// Merges the three sources into settings.
    ///
    /// `config` is what the configuration file holds, `None` where there is
    /// no file.
    pub fn resolve(args: Args, config: Option<Config>, env_api_key: Option<String>) -> (outcome:
        Result<AppConfiguration, ConfigError>)
        ensures
            outcome_view(outcome) == resolved(args@, config.deep_view(), env_api_key.deep_view()),
    {
        let Args { url, model, system, config: _ } = args;
        let file = match config {
            Some(config) => config,
            None => Config { api_key: None, url: None, model: None, system_message: None },
        };
        let api_key = match prefer(env_api_key, file.api_key) {
            Some(key) => key,
            None => { return Err(ConfigError::MissingApiKey); },
        };
        let api_url = match prefer(url, file.url) {
            Some(url) => url,
            None => String::from_str(DEFAULT_API_URL),
        };
        let model = match prefer(model, file.model) {
            Some(model) => model,
            None => String::from_str(DEFAULT_MODEL),
        };
        let system_message = prefer(system, file.system_message);
        Ok(AppConfiguration { api_key, api_url, model, system_message })
    }
}

/// The command line wins over the configuration file, and the file over the
/// default: for the endpoint, the model and the system message, each on its
/// own. The system message has no default. For the API key the environment
/// wins over the file.
pub proof fn lemma_precedence(
    args: ArgsView,
    config: Option<ConfigView>,
    env_api_key: Option<Seq<char>>,
)
    ensures
        (resolved(args, config, env_api_key) matches Ok(settings) ==> {
            let file = said_by(config);
            &&& args.url is Some ==> settings.api_url == args.url->0
            &&& args.url is None && file.url is Some ==> settings.api_url == file.url->0
            &&& args.url is None && file.url is None ==> settings.api_url == DEFAULT_API_URL@
            &&& args.model is Some ==> settings.model == args.model->0
            &&& args.model is None && file.model is Some ==> settings.model == file.model->0
            &&& args.model is None && file.model is None ==> settings.model == DEFAULT_MODEL@
            &&& args.system is Some ==> settings.system_message == args.system
            &&& args.system is None ==> settings.system_message == file.system_message
            &&& env_api_key is Some ==> settings.api_key == env_api_key->0
            &&& env_api_key is None ==> Some(settings.api_key) == file.api_key
        }),
{
}

/// Where the file and the environment do not name different API keys, the
/// file's key, if there is one, is the key of the settings, and the
/// environment's is used only where the file has none.
pub proof fn lemma_file_key_unless_contradicted(
    args: ArgsView,
    config: Option<ConfigView>,
    env_api_key: Option<Seq<char>>,
)
    requires
        !(env_api_key is Some && said_by(config).api_key is Some && env_api_key != said_by(
            config,
        ).api_key),
    ensures
        said_by(config).api_key is Some ==> (resolved(args, config, env_api_key) matches Ok(
            settings,
        ) && Some(settings.api_key) == said_by(config).api_key),
        said_by(config).api_key is None && env_api_key is Some ==> (resolved(
            args,
            config,
            env_api_key,
        ) matches Ok(settings) && Some(settings.api_key) == env_api_key),
{
}

/// There are settings exactly if the environment or the file holds an API
/// key. Without a key the outcome is [`ConfigFault::MissingApiKey`], whatever
/// the other sources say.
pub proof fn lemma_api_key_required(
    args: ArgsView,
    config: Option<ConfigView>,
    env_api_key: Option<Seq<char>>,
)
    ensures
        resolved(args, config, env_api_key) is Err <==> env_api_key is None && said_by(
            config,
        ).api_key is None,
        resolved(args, config, env_api_key) is Err ==> resolved(args, config, env_api_key) == Err::<
            Settings,
            ConfigFault,
        >(ConfigFault::MissingApiKey),
{
}

/// A configuration file that is not there ends the program where the command
/// line named it. Where it is the per-user file, the settings are those of
/// the command line, the environment and the defaults, as if no file had been
/// looked for.
pub proof fn lemma_missing_file_and_settings(
    args: ArgsView,
    path: Seq<char>,
    cause: Seq<char>,
    env_api_key: Option<Seq<char>>,
)
    ensures
        initialized(
            args,
            Some(
                ConfigFileView {
                    location: ConfigLocationView { path, origin: Origin::Explicit },
                    read: FileReadView::NotFound { cause },
                },
            ),
            env_api_key,
        ) == Err::<Settings, ConfigFault>(ConfigFault::ReadFailed { path, cause }),
        initialized(
            args,
            Some(
                ConfigFileView {
                    location: ConfigLocationView { path, origin: Origin::Default },
                    read: FileReadView::NotFound { cause },
                },
            ),
            env_api_key,
        ) == resolved(args, None, env_api_key),
        initialized(args, None, env_api_key) == resolved(args, None, env_api_key),
{
}

} // verus!
