//! The user configuration: where it lives, how its document is read, and the
//! theme stylesheets that go with it.

use vstd::prelude::*;
use crate::document::{Entry, EntryView, toml_entries, parse_table, lookup, error_text};

verus! {

/// The application's name, under which its configuration directory lives.
pub const APP: &'static str = "ask";

/// The name of the configuration document in the configuration directory.
pub const CONFIG_FILE: &'static str = "ask.toml";

/// The subdirectory of the configuration directory that holds the themes.
pub const THEMES_DIR: &'static str = "themes";

/// The theme used when the configuration names none.
pub const DEFAULT_THEME: &'static str = "default";

/// The extension of a theme's stylesheet file.
pub const THEME_EXTENSION: &'static str = ".css";

/// The message when the per-user directories cannot be determined.
pub const BASE_DIRS_MISSING: &'static str = "Could not find XDG directories";

/// The message when the themes directory cannot be placed.
pub const THEMES_DIR_MISSING: &'static str = "Could not find XDG data directory";

/// The start of the message when a theme's stylesheet cannot be read.
pub const READ_FAILURE: &'static str = "Failed to read theme file: ";

/// The key of the theme name in the configuration document.
pub const THEME_KEY: &'static str = "theme";

/// The key of the close-on-submit flag in the configuration document.
pub const CLOSE_ON_SUBMIT_KEY: &'static str = "close_on_submit";

/// The key of the close-on-blur flag in the configuration document.
pub const CLOSE_ON_BLUR_KEY: &'static str = "close_on_blur";

/// The stylesheet that the default theme starts from.
pub const DEFAULT_THEME_CSS: &'static str = "html,
body {
    margin: 0;
    padding: 0;
    background: transparent;
    overflow: hidden;
}

.container {
    display: flex;
    align-items: center;
    height: 100vh;
    padding: 0 12px;
    box-sizing: border-box;
    background: rgba(30, 30, 30, 0.92);
    border-radius: 10px;
}

#prompt-input {
    flex: 1;
    border: none;
    outline: none;
    background: transparent;
    color: #f0f0f0;
    font-family: -apple-system, BlinkMacSystemFont, \"Segoe UI\", sans-serif;
    font-size: 20px;
}

#prompt-input::placeholder {
    color: #808080;
}
";

/// The configuration of the application, read once at start.
pub struct Config {
    theme: Option<String>,
    close_on_submit: Option<bool>,
    close_on_blur: Option<bool>,
}

/// The mathematical value of a [`Config`].
pub struct ConfigView {
    pub theme: Option<Seq<char>>,
    pub close_on_submit: Option<bool>,
    pub close_on_blur: Option<bool>,
}

impl View for Config {
    type V = ConfigView;

    closed spec fn view(&self) -> ConfigView {
        ConfigView {
            theme: match self.theme {
                Some(t) => Some(t@),
                None => None,
            },
            close_on_submit: self.close_on_submit,
            close_on_blur: self.close_on_blur,
        }
    }
}

/// Why the configuration could not be set up.
#[derive(Debug)]
pub enum ConfigError {
    /// Reading or writing a file or a directory failed.
    IoError(String),
    /// The configuration document is present but is not a valid configuration.
    TomlError(String),
    /// A required per-user directory could not be determined.
    XdgError(String),
}

/// The configuration with every field unset.
pub open spec fn unset_config() -> ConfigView {
    ConfigView { theme: None, close_on_submit: None, close_on_blur: None }
}

/// The string stored under `key`: `Some(None)` where the key is absent,
/// `None` where it holds something other than a string.
pub open spec fn text_field(entries: Map<Seq<char>, EntryView>, key: Seq<char>) -> Option<
    Option<Seq<char>>,
> {
    if !entries.contains_key(key) {
        Some(None)
    } else {
        match entries[key] {
            EntryView::Text(s) => Some(Some(s)),
            _ => None,
        }
    }
}

/// The boolean stored under `key`: `Some(None)` where the key is absent,
/// `None` where it holds something other than a boolean.
pub open spec fn flag_field(entries: Map<Seq<char>, EntryView>, key: Seq<char>) -> Option<
    Option<bool>,
> {
    if !entries.contains_key(key) {
        Some(None)
    } else {
        match entries[key] {
            EntryView::Flag(b) => Some(Some(b)),
            _ => None,
        }
    }
}

/// The configuration that the top-level entries of a document describe, or
/// `None` where one of its fields holds a value of the wrong type. Other
/// entries are ignored.
pub open spec fn config_of_entries(entries: Map<Seq<char>, EntryView>) -> Option<ConfigView> {
    match (
        text_field(entries, THEME_KEY@),
        flag_field(entries, CLOSE_ON_SUBMIT_KEY@),
        flag_field(entries, CLOSE_ON_BLUR_KEY@),
    ) {
        (Some(theme), Some(close_on_submit), Some(close_on_blur)) => Some(
            ConfigView { theme, close_on_submit, close_on_blur },
        ),
        _ => None,
    }
}

/// The configuration that a document describes, or `None` where the
/// document is malformed. Where there is no document, every field is unset.
pub open spec fn config_of_document(document: Option<Seq<char>>) -> Option<ConfigView> {
    match document {
        None => Some(unset_config()),
        Some(text) => match toml_entries(text) {
            None => None,
            Some(entries) => config_of_entries(entries),
        },
    }
}

/// The name of the theme in use.
pub open spec fn active_theme(c: ConfigView) -> Seq<char> {
    match c.theme {
        Some(t) => t,
        None => DEFAULT_THEME@,
    }
}

/// The file of the theme named `name` in the themes directory.
pub open spec fn theme_file(name: Seq<char>) -> Seq<char> {
    name + THEME_EXTENSION@
}

/// Whether the application closes on submit; unset means it does.
pub open spec fn submit_closes(c: ConfigView) -> bool {
    match c.close_on_submit {
        Some(b) => b,
        None => true,
    }
}

/// Whether the application closes on losing focus; unset means it does.
pub open spec fn blur_closes(c: ConfigView) -> bool {
    match c.close_on_blur {
        Some(b) => b,
        None => true,
    }
}

/// The file that seeding writes, with its contents, given whether the
/// default theme's file is already present: nothing where it is.
pub open spec fn seed_write(default_present: bool) -> Option<(Seq<char>, Seq<char>)> {
    if default_present {
        None
    } else {
        Some((theme_file(DEFAULT_THEME@), DEFAULT_THEME_CSS@))
    }
}

/// A themes directory, as file names and contents, after a write.
pub open spec fn written(
    dir: Map<Seq<char>, Seq<char>>,
    w: Option<(Seq<char>, Seq<char>)>,
) -> Map<Seq<char>, Seq<char>> {
    match w {
        Some((name, contents)) => dir.insert(name, contents),
        None => dir,
    }
}

/// A themes directory after the default theme has been seeded.
pub open spec fn seeded(dir: Map<Seq<char>, Seq<char>>) -> Map<Seq<char>, Seq<char>> {
    written(dir, seed_write(dir.contains_key(theme_file(DEFAULT_THEME@))))
}

/// The text of an error.
pub open spec fn error_message(e: ConfigError) -> Seq<char> {
    match e {
        ConfigError::IoError(m) => "IO Error: "@ + m@,
        ConfigError::TomlError(m) => "TOML Error: "@ + m@,
        ConfigError::XdgError(m) => m@,
    }
}

/// Every field of the document that is present holds a value of its type.
pub open spec fn fields_well_typed(entries: Map<Seq<char>, EntryView>) -> bool {
    &&& text_field(entries, THEME_KEY@) is Some
    &&& flag_field(entries, CLOSE_ON_SUBMIT_KEY@) is Some
    &&& flag_field(entries, CLOSE_ON_BLUR_KEY@) is Some
}

/// A document whose fields are each absent or of their type is read without
/// error, and each absent field takes its default: the default theme, and
/// closing on submit and on losing focus.
pub proof fn lemma_missing_fields_default(text: Seq<char>)
    requires
        toml_entries(text) is Some,
        fields_well_typed(toml_entries(text).unwrap()),
    ensures
        config_of_document(Some(text)) is Some,
        ({
            let entries = toml_entries(text).unwrap();
            let c = config_of_document(Some(text)).unwrap();
            &&& !entries.contains_key(THEME_KEY@) ==> c.theme is None && active_theme(c)
                == DEFAULT_THEME@
            &&& !entries.contains_key(CLOSE_ON_SUBMIT_KEY@) ==> c.close_on_submit is None
                && submit_closes(c)
            &&& !entries.contains_key(CLOSE_ON_BLUR_KEY@) ==> c.close_on_blur is None
                && blur_closes(c)
        }),
{
}

/// A document that is not TOML, or one of whose fields holds a value of
/// another type, describes no configuration: it is refused, never replaced
/// by the defaults.
pub proof fn lemma_malformed_refused(text: Seq<char>)
    requires
        toml_entries(text) is None || !fields_well_typed(toml_entries(text).unwrap()),
    ensures
        config_of_document(Some(text)) is None,
{
}

/// Seeding the default theme a second time changes nothing, and where the
/// default theme's file is already present seeding leaves every file as it
/// was. Afterwards the default theme's file is always present.
pub proof fn lemma_seed_idempotent(dir: Map<Seq<char>, Seq<char>>)
    ensures
        seeded(seeded(dir)) == seeded(dir),
        dir.contains_key(theme_file(DEFAULT_THEME@)) ==> seeded(dir) == dir,
        seeded(dir).contains_key(theme_file(DEFAULT_THEME@)),
{
}

fn text_value(table: &toml::Table, key: &str) -> (r: Result<Option<String>, ConfigError>)
    ensures
        match r {
            Ok(v) => text_field(crate::document::table_entries(*table), key@) == Some(
                match v {
                    Some(s) => Some(s@),
                    None => None,
                },
            ),
            Err(e) => text_field(crate::document::table_entries(*table), key@) is None
                && e is TomlError,
        },
{
    match lookup(table, key) {
        None => Ok(None),
        Some(Entry::Text(s)) => Ok(Some(s)),
        Some(_) => Err(ConfigError::TomlError(type_message(key, "a string"))),
    }
}

fn flag_value(table: &toml::Table, key: &str) -> (r: Result<Option<bool>, ConfigError>)
    ensures
        match r {
            Ok(v) => flag_field(crate::document::table_entries(*table), key@) == Some(v),
            Err(e) => flag_field(crate::document::table_entries(*table), key@) is None
                && e is TomlError,
        },
{
    match lookup(table, key) {
        None => Ok(None),
        Some(Entry::Flag(b)) => Ok(Some(b)),
        Some(_) => Err(ConfigError::TomlError(type_message(key, "a boolean"))),
    }
}

/// The description of a field that holds a value of the wrong type.
fn type_message(key: &str, expected: &str) -> (r: String)
    ensures
        r@ == "invalid type for `"@ + key@ + "`, expected "@ + expected@,
{
    let m = String::from_str("invalid type for `");
    let m = m.concat(key);
    let m = m.concat("`, expected ");
    m.concat(expected)
}

impl Default for Config {
    /// The configuration with every field unset.
    fn default() -> (r: Config)
        ensures
            r@ == unset_config(),
    {
        Config { theme: None, close_on_submit: None, close_on_blur: None }
    }
}

/// What seeding writes into the themes directory, given whether the default
/// theme's file is already there: the file name and the default stylesheet
/// where it is missing, nothing where it is present, so that a stylesheet
/// the user has edited is never overwritten.
pub fn default_theme_seed(default_present: bool) -> (r: Option<(String, String)>)
    ensures
        r.deep_view() == seed_write(default_present),
{
    if default_present {
        None
    } else {
        Some((default_theme_file(), String::from_str(DEFAULT_THEME_CSS)))
    }
}

/// The file of the default theme in the themes directory.
pub fn default_theme_file() -> (r: String)
    ensures
        r@ == theme_file(DEFAULT_THEME@),
{
    String::from_str(DEFAULT_THEME).concat(THEME_EXTENSION)
}

impl ConfigError {
    /// The text that describes the error.
    pub fn message(&self) -> (r: String)
        ensures
            r@ == error_message(*self),
    {
        match self {
            ConfigError::IoError(m) => String::from_str("IO Error: ").concat(m.as_str()),
            ConfigError::TomlError(m) => String::from_str("TOML Error: ").concat(m.as_str()),
            ConfigError::XdgError(m) => m.clone(),
        }
    }
}

impl Config {
    /// The theme named in the configuration, if any.
    pub fn theme(&self) -> (r: Option<String>)
        ensures
            r.deep_view() == self@.theme,
    {
        match &self.theme {
            Some(t) => Some(t.clone()),
            None => None,
        }
    }

    /// The close-on-submit flag as the configuration sets it.
    pub fn close_on_submit(&self) -> (r: Option<bool>)
        ensures
            r == self@.close_on_submit,
    {
        self.close_on_submit
    }

    /// The close-on-blur flag as the configuration sets it.
    pub fn close_on_blur(&self) -> (r: Option<bool>)
        ensures
            r == self@.close_on_blur,
    {
        self.close_on_blur
    }

    /// Whether the application closes on submit, with the default applied.
    pub fn closes_on_submit(&self) -> (r: bool)
        ensures
            r == submit_closes(self@),
    {
        match self.close_on_submit {
            Some(b) => b,
            None => true,
        }
    }

    /// Whether the application closes on losing focus, with the default applied.
    pub fn closes_on_blur(&self) -> (r: bool)
        ensures
            r == blur_closes(self@),
    {
        match self.close_on_blur {
            Some(b) => b,
            None => true,
        }
    }

    /// The name of the theme in use: the configured one, else the default.
    pub fn theme_name(&self) -> (r: String)
        ensures
            r@ == active_theme(self@),
    {
        match &self.theme {
            Some(t) => t.clone(),
            None => String::from_str(DEFAULT_THEME),
        }
    }

    /// The file of the theme in use, in the themes directory.
    pub fn theme_file_name(&self) -> (r: String)
        ensures
            r@ == theme_file(active_theme(self@)),
    {
        self.theme_name().concat(THEME_EXTENSION)
    }

    /// The stylesheet of the theme in use, from the outcome of reading
    /// [`Config::theme_file_name`] in the themes directory. A missing or
    /// unreadable file is an error here: it is not seeded again.
    pub fn load_css(&self, read: Result<String, String>) -> (r: Result<String, String>)
        ensures
            match read {
                Ok(found) => r matches Ok(css) && css@ == found@,
                Err(e) => r matches Err(m) && m@ == READ_FAILURE@ + e@,
            },
    {
        match read {
            Ok(css) => Ok(css),
            Err(e) => Err(String::from_str(READ_FAILURE).concat(e.as_str())),
        }
    }

    /// Reads the configuration from the text of the configuration document,
    /// or from its absence. A document that is not TOML, or whose `theme`
    /// is not a string, or whose `close_on_submit` or `close_on_blur` is
    /// not a boolean, is refused with [`ConfigError::TomlError`]; it never
    /// falls back to the defaults.
    pub fn new(document: Option<&str>) -> (r: Result<Config, ConfigError>)
        ensures
            match r {
                Ok(c) => config_of_document(
                    match document {
                        Some(t) => Some(t@),
                        None => None,
                    },
                ) == Some(c@),
                Err(e) => config_of_document(
                    match document {
                        Some(t) => Some(t@),
                        None => None,
                    },
                ) is None && e is TomlError,
            },
    {
        match document {
            None => Ok(Config::default()),
            Some(text) => match parse_table(text) {
                Err(e) => Err(ConfigError::TomlError(error_text(&e))),
                Ok(table) => {
                    let theme = match text_value(&table, THEME_KEY) {
                        Ok(v) => v,
                        Err(e) => return Err(e),
                    };
                    let close_on_submit = match flag_value(&table, CLOSE_ON_SUBMIT_KEY) {
                        Ok(v) => v,
                        Err(e) => return Err(e),
                    };
                    let close_on_blur = match flag_value(&table, CLOSE_ON_BLUR_KEY) {
                        Ok(v) => v,
                        Err(e) => return Err(e),
                    };
                    Ok(Config { theme, close_on_submit, close_on_blur })
                },
            },
        }
    }
}

} // verus!
