//! The configuration file: what it may hold, where it is looked for, and what
//! a file that was looked for contributes to the settings.
//!
//! No file is read here. The caller reads the file at the location that
//! [`crate::settings::Args::config_location`] names and hands in what became
//! of the attempt, as a [`ConfigFile`].

use crate::document::{
    describe, entry_at, lookup, parse_document, toml_document, Entries, Field, FieldView,
};
use crate::text::joined;
use vstd::prelude::*;
use vstd::string::*;

verus! {

/// Location of the per-user configuration file, relative to the home directory.
pub const DEFAULT_CONFIG_FILE: &'static str = ".config/unspoken.toml";

/// Key of the API key in a configuration file.
pub const KEY_API_KEY: &'static str = "api_key";

/// Key of the endpoint in a configuration file.
pub const KEY_URL: &'static str = "url";

/// Key of the model in a configuration file.
pub const KEY_MODEL: &'static str = "model";

/// Key of the system message in a configuration file.
pub const KEY_SYSTEM_MESSAGE: &'static str = "system_message";

/// What a configuration file holds. Every key may be left out.
#[derive(Debug, Clone, PartialEq, Eq)]
pub struct Config {
    pub api_key: Option<String>,
    pub url: Option<String>,
    pub model: Option<String>,
    pub system_message: Option<String>,
}

/// Mathematical model of [`Config`].
pub struct ConfigView {
    pub api_key: Option<Seq<char>>,
    pub url: Option<Seq<char>>,
    pub model: Option<Seq<char>>,
    pub system_message: Option<Seq<char>>,
}

impl View for Config {
    type V = ConfigView;

    open spec fn view(&self) -> ConfigView {
        ConfigView {
            api_key: self.api_key.deep_view(),
            url: self.url.deep_view(),
            model: self.model.deep_view(),
            system_message: self.system_message.deep_view(),
        }
    }
}

impl DeepView for Config {
    type V = ConfigView;

    open spec fn deep_view(&self) -> ConfigView {
        self@
    }
}

/// How the path of a configuration file became known.
#[derive(Debug, Clone, Copy, PartialEq, Eq, Structural)]
pub enum Origin {
    /// The command line named it.
    Explicit,
    /// It is the per-user location, tried because the command line named none.
    Default,
}

/// The configuration file to look for.
#[derive(Debug, Clone, PartialEq, Eq)]
pub struct ConfigLocation {
    pub path: String,
    pub origin: Origin,
}

/// Mathematical model of [`ConfigLocation`].
pub struct ConfigLocationView {
    pub path: Seq<char>,
    pub origin: Origin,
}

impl View for ConfigLocation {
    type V = ConfigLocationView;

    open spec fn view(&self) -> ConfigLocationView {
        ConfigLocationView { path: self.path@, origin: self.origin }
    }
}

impl DeepView for ConfigLocation {
    type V = ConfigLocationView;

    open spec fn deep_view(&self) -> ConfigLocationView {
        self@
    }
}

/// What became of the attempt to read a file.
#[derive(Debug, Clone, PartialEq, Eq)]
pub enum FileRead {
    /// The file was read; this is its text.
    Contents(String),
    /// There is no file at the path. `cause` is the system's description.
    NotFound { cause: String },
    /// The file could not be read for another reason.
    Failed { cause: String },
}

/// Mathematical model of [`FileRead`].
pub enum FileReadView {
    Contents(Seq<char>),
    NotFound { cause: Seq<char> },
    Failed { cause: Seq<char> },
}

impl View for FileRead {
    type V = FileReadView;

    open spec fn view(&self) -> FileReadView {
        match self {
            FileRead::Contents(text) => FileReadView::Contents(text@),
            FileRead::NotFound { cause } => FileReadView::NotFound { cause: cause@ },
            FileRead::Failed { cause } => FileReadView::Failed { cause: cause@ },
        }
    }
}

/// A configuration file that was looked for, with what was found.
#[derive(Debug, Clone, PartialEq, Eq)]
pub struct ConfigFile {
    pub location: ConfigLocation,
    pub read: FileRead,
}

/// Mathematical model of [`ConfigFile`].
pub struct ConfigFileView {
    pub location: ConfigLocationView,
    pub read: FileReadView,
}

impl View for ConfigFile {
    type V = ConfigFileView;

    open spec fn view(&self) -> ConfigFileView {
        ConfigFileView { location: self.location@, read: self.read@ }
    }
}

impl DeepView for ConfigFile {
    type V = ConfigFileView;

    open spec fn deep_view(&self) -> ConfigFileView {
        self@
    }
}

/// Why no settings could be produced. Each of these ends the program before
/// any conversation begins.
#[derive(Debug, Clone, PartialEq, Eq)]
pub enum ConfigError {
    /// The configuration file at `path` could not be read.
    ReadFailed { path: String, cause: String },
    /// The configuration file at `path` was read but is not a valid configuration.
    ParseFailed { path: String, cause: String },
    /// Neither the environment nor the configuration file holds an API key.
    MissingApiKey,
}

/// Mathematical model of [`ConfigError`].
pub enum ConfigFault {
    ReadFailed { path: Seq<char>, cause: Seq<char> },
    ParseFailed { path: Seq<char>, cause: Seq<char> },
    MissingApiKey,
}

impl View for ConfigError {
    type V = ConfigFault;

    open spec fn view(&self) -> ConfigFault {
        match self {
            ConfigError::ReadFailed { path, cause } => ConfigFault::ReadFailed {
                path: path@,
                cause: cause@,
            },
            ConfigError::ParseFailed { path, cause } => ConfigFault::ParseFailed {
                path: path@,
                cause: cause@,
            },
            ConfigError::MissingApiKey => ConfigFault::MissingApiKey,
        }
    }
}

impl ConfigFault {
    /// The description of the fault. A failure to read or parse names the
    /// file; its cause stands beside the description, in the fault itself.
    pub open spec fn message(self) -> Seq<char> {
        match self {
            ConfigFault::ReadFailed { path, cause } => "Failed to read config file "@ + path,
            ConfigFault::ParseFailed { path, cause } => "Failed to parse config file "@ + path,
            ConfigFault::MissingApiKey => "Set `api_key` in config or `OPENAI_API_KEY` env."@,
        }
    }
}

impl ConfigError {
    /// Describes the error for the user.
    pub fn message(&self) -> (text: String)
        ensures
            text@ == self@.message(),
    {
        match self {
            ConfigError::ReadFailed { path, cause } => joined(
                "Failed to read config file ",
                path.as_str(),
            ),
            ConfigError::ParseFailed { path, cause } => joined(
                "Failed to parse config file ",
                path.as_str(),
            ),
            ConfigError::MissingApiKey => String::from_str(
                "Set `api_key` in config or `OPENAI_API_KEY` env.",
            ),
        }
    }
}

/// The complaint about a recognised key that is bound to something other than
/// a string.
pub open spec fn wrong_kind(key: Seq<char>) -> Seq<char> {
    "invalid type for key `"@ + key + "`: expected a string"@
}

/// The string of a field, if it has one.
pub open spec fn field_text(field: FieldView) -> Option<Seq<char>> {
    match field {
        FieldView::Text(text) => Some(text),
        _ => None,
    }
}

/// The configuration that four looked-up fields amount to, or the complaint
/// about the first of them (in the order of the parameters) that is bound to
/// something other than a string.
pub open spec fn config_of_fields(
    api_key: FieldView,
    url: FieldView,
    model: FieldView,
    system_message: FieldView,
) -> Result<ConfigView, Seq<char>> {
    if api_key is Other {
        Err(wrong_kind(KEY_API_KEY@))
    } else if url is Other {
        Err(wrong_kind(KEY_URL@))
    } else if model is Other {
        Err(wrong_kind(KEY_MODEL@))
    } else if system_message is Other {
        Err(wrong_kind(KEY_SYSTEM_MESSAGE@))
    } else {
        Ok(
            ConfigView {
                api_key: field_text(api_key),
                url: field_text(url),
                model: field_text(model),
                system_message: field_text(system_message),
            },
        )
    }
}

/// The configuration in the entries of a table. Keys other than the four
/// recognised ones do not matter.
pub open spec fn config_of_entries(entries: Entries) -> Result<ConfigView, Seq<char>> {
    config_of_fields(
        entry_at(entries, KEY_API_KEY@),
        entry_at(entries, KEY_URL@),
        entry_at(entries, KEY_MODEL@),
        entry_at(entries, KEY_SYSTEM_MESSAGE@),
    )
}

/// The configuration in a parsed document, or the reason why there is none:
/// the parser's message, or the complaint about a key.
pub open spec fn config_of_document(document: Result<Entries, Seq<char>>) -> Result<
    ConfigView,
    Seq<char>,
> {
    match document {
        Ok(entries) => config_of_entries(entries),
        Err(message) => Err(message),
    }
}

/// The model of an outcome of parsing.
pub open spec fn parsed_view(parsed: Result<Config, String>) -> Result<ConfigView, Seq<char>> {
    match parsed {
        Ok(config) => Ok(config@),
        Err(cause) => Err(cause@),
    }
}

/// What a configuration file that was read contributes, given what parsing
/// makes of its text: its configuration, or a fatal error that names the file.
pub open spec fn accepted(
    location: ConfigLocationView,
    parsed: Result<ConfigView, Seq<char>>,
) -> Result<Option<ConfigView>, ConfigFault> {
    match parsed {
        Ok(config) => Ok(Some(config)),
        Err(cause) => Err(ConfigFault::ParseFailed { path: location.path, cause }),
    }
}

/// What a configuration file that was looked for contributes.
///
/// A file that was read must hold a valid configuration. A file that is not
/// there is an error only if the command line named it; otherwise it counts
/// as no file. Any other failure to read is an error.
pub open spec fn loaded(file: ConfigFileView) -> Result<Option<ConfigView>, ConfigFault> {
    match file.read {
        FileReadView::Contents(text) => accepted(
            file.location,
            config_of_document(toml_document(text)),
        ),
        FileReadView::NotFound { cause } => if file.location.origin == Origin::Explicit {
            Err(ConfigFault::ReadFailed { path: file.location.path, cause })
        } else {
            Ok(None)
        },
        FileReadView::Failed { cause } => Err(
            ConfigFault::ReadFailed { path: file.location.path, cause },
        ),
    }
}

/// The model of an outcome of loading.
pub open spec fn loaded_view(outcome: Result<Option<Config>, ConfigError>) -> Result<
    Option<ConfigView>,
    ConfigFault,
> {
    match outcome {
        Ok(config) => Ok(config.deep_view()),
        Err(error) => Err(error@),
    }
}

/// Builds the complaint about `key`.
fn complain(key: &str) -> (cause: String)
    ensures
        cause@ == wrong_kind(key@),
{
    let mut cause = String::from_str("invalid type for key `");
    cause.append(key);
    cause.append("`: expected a string");
    cause
}

/// The string of a field, if it has one.
fn into_text(field: Field) -> (text: Option<String>)
    ensures
        text.deep_view() == field_text(field@),
{
    match field {
        Field::Text(text) => Some(text),
        _ => None,
    }
}

impl Config {
    /// Builds a configuration from what a table holds under the four
    /// recognised keys. A key that is bound to something other than a string
    /// is refused; the first such key, in the order of the parameters, is
    /// named in the complaint.
    pub fn from_fields(api_key: Field, url: Field, model: Field, system_message: Field) -> (config:
        Result<Config, String>)
        ensures
            parsed_view(config) == config_of_fields(api_key@, url@, model@, system_message@),
    {
        if let Field::Other = api_key {
            return Err(complain(KEY_API_KEY));
        }
        if let Field::Other = url {
            return Err(complain(KEY_URL));
        }
        if let Field::Other = model {
            return Err(complain(KEY_MODEL));
        }
        if let Field::Other = system_message {
            return Err(complain(KEY_SYSTEM_MESSAGE));
        }
        Ok(
            Config {
                api_key: into_text(api_key),
                url: into_text(url),
                model: into_text(model),
                system_message: into_text(system_message),
            },
        )
    }

    /// Reads a configuration from the text of a TOML document.
    ///
    /// The text must be a TOML document in which each of the keys `api_key`,
    /// `url`, `model` and `system_message` is either missing or bound to a
    /// string. Otherwise the result is the parser's message or the complaint
    /// about the key.
    pub fn parse(text: &str) -> (parsed: Result<Config, String>)
        ensures
            parsed_view(parsed) == config_of_document(toml_document(text@)),
    {
        match parse_document(text) {
            Ok(table) => Config::from_fields(
                lookup(&table, KEY_API_KEY),
                lookup(&table, KEY_URL),
                lookup(&table, KEY_MODEL),
                lookup(&table, KEY_SYSTEM_MESSAGE),
            ),
            Err(error) => Err(describe(&error)),
        }
    }

    /// Decides what a configuration file that was read contributes, given
    /// the outcome of parsing its text.
    pub fn accept(location: ConfigLocation, parsed: Result<Config, String>) -> (outcome: Result<
        Option<Config>,
        ConfigError,
    >)
        ensures
            loaded_view(outcome) == accepted(location@, parsed_view(parsed)),
    {
        match parsed {
            Ok(config) => Ok(Some(config)),
            Err(cause) => Err(ConfigError::ParseFailed { path: location.path, cause }),
        }
    }

    /// Decides what a configuration file that was looked for contributes:
    /// its configuration, no configuration, or a fatal error.
    pub fn load(file: ConfigFile) -> (outcome: Result<Option<Config>, ConfigError>)
        ensures
            loaded_view(outcome) == loaded(file@),
    {
        let ConfigFile { location, read } = file;
        match read {
            FileRead::Contents(text) => {
                let parsed = Config::parse(text.as_str());
                Config::accept(location, parsed)
            },
            FileRead::NotFound { cause } => match location.origin {
                Origin::Explicit => Err(ConfigError::ReadFailed { path: location.path, cause }),
                Origin::Default => Ok(None),
            },
            FileRead::Failed { cause } => Err(
                ConfigError::ReadFailed { path: location.path, cause },
            ),
        }
    }
}

/// A file that is not there is fatal where the command line named it, and
/// counts as no file where it is the per-user one.
pub proof fn lemma_missing_file(path: Seq<char>, cause: Seq<char>)
    ensures
        loaded(
            ConfigFileView {
                location: ConfigLocationView { path, origin: Origin::Explicit },
                read: FileReadView::NotFound { cause },
            },
        ) == Err::<Option<ConfigView>, ConfigFault>(ConfigFault::ReadFailed { path, cause }),
        loaded(
            ConfigFileView {
                location: ConfigLocationView { path, origin: Origin::Default },
                read: FileReadView::NotFound { cause },
            },
        ) == Ok::<Option<ConfigView>, ConfigFault>(None),
{
}

/// A file that was read must hold a valid configuration, and a file that
/// could not be read for another reason than its absence is fatal: both
/// wherever the path came from.
pub proof fn lemma_present_file_must_be_valid(file: ConfigFileView)
    ensures
        file.read matches FileReadView::Contents(text) ==> (match config_of_document(
            toml_document(text),
        ) {
            Ok(config) => loaded(file) == Ok::<Option<ConfigView>, ConfigFault>(Some(config)),
            Err(cause) => loaded(file) == Err::<Option<ConfigView>, ConfigFault>(
                ConfigFault::ParseFailed { path: file.location.path, cause },
            ),
        }),
        file.read matches FileReadView::Failed { cause } ==> loaded(file) == Err::<
            Option<ConfigView>,
            ConfigFault,
        >(ConfigFault::ReadFailed { path: file.location.path, cause }),
{
}

} // verus!
