//! The settings: which editor opens a task, and which directory holds the
//! tasks. They are read from a TOML document; what the document leaves out
//! comes from the environment, which the caller hands in.

use vstd::prelude::*;
use vstd::string::*;
use crate::keys::{are_safe_keys, safe_keys};
use crate::path::{join_path, joined};
use crate::protocol::{text_of, texts, Action, ActionView, Event, EventView};

verus! {

/// What the settings take from the process's surroundings.
pub struct Environment {
    /// The user's home directory, where it is known.
    pub home: Option<String>,
    /// The value of the variable `EDITOR`, where it is set.
    pub editor: Option<String>,
    /// Whether the variable `WINDIR` is set.
    pub windir: bool,
    /// Whether the variable `SystemRoot` is set.
    pub system_root: bool,
}

pub struct EnvironmentView {
    pub home: Option<Seq<char>>,
    pub editor: Option<Seq<char>>,
    pub windir: bool,
    pub system_root: bool,
}

/// The settings.
#[derive(Debug, PartialEq, Eq)]
pub struct CliConfig {
    /// The program that edits a task.
    pub editor: String,
    /// The directory that holds the tasks.
    pub storage: String,
}

pub struct CliConfigView {
    pub editor: Seq<char>,
    pub storage: Seq<char>,
}

/// Why the settings could not be had or edited.
#[derive(Clone, Copy, Debug, PartialEq, Eq, Structural)]
pub enum SettingsError {
    /// The home directory is not known.
    NoHome,
    /// The settings document is not one.
    Malformed,
    /// The editor could not be started.
    OpenEditor,
    /// The editor ended with a status other than zero.
    EditorFailed,
    /// The event does not answer the launch of the editor.
    Unexpected,
}

/// The text of an optional string slice.
pub open spec fn slice_text(s: Option<&str>) -> Option<Seq<char>> {
    match s {
        Some(text) => Some(text@),
        None => None,
    }
}

impl View for Environment {
    type V = EnvironmentView;

    open spec fn view(&self) -> EnvironmentView {
        EnvironmentView {
            home: text_of(self.home),
            editor: text_of(self.editor),
            windir: self.windir,
            system_root: self.system_root,
        }
    }
}

impl View for CliConfig {
    type V = CliConfigView;

    open spec fn view(&self) -> CliConfigView {
        CliConfigView { editor: self.editor@, storage: self.storage@ }
    }
}

/// The editor where the settings name none: the value of `EDITOR` unless it
/// is unset or empty; else `notepad` where the environment is that of
/// Windows; else `vim`.
pub open spec fn default_editor_of(env: EnvironmentView) -> Seq<char> {
    if env.editor is Some && env.editor->0.len() > 0 {
        env.editor->0
    } else if env.windir || env.system_root {
        "notepad"@
    } else {
        "vim"@
    }
}

/// The directory `.zerp` in the home directory: it holds the settings and,
/// unless the settings say otherwise, the tasks.
pub open spec fn home_storage_of(home: Seq<char>) -> Seq<char> {
    joined(home, ".zerp"@)
}

/// The path of the settings document.
pub open spec fn config_file_of(home: Seq<char>) -> Seq<char> {
    joined(home_storage_of(home), "config.toml"@)
}

/// The settings where the document names none.
pub open spec fn defaults_of(env: EnvironmentView) -> CliConfigView {
    CliConfigView {
        editor: default_editor_of(env),
        storage: match env.home {
            Some(home) => home_storage_of(home),
            None => "./"@,
        },
    }
}

/// Whether `input` begins with a tilde that stands alone or before a `/`.
pub open spec fn tilde_leads(input: Seq<char>) -> bool {
    input.len() > 0 && input[0] == '~' && (input.len() == 1 || input[1] == '/')
}

/// Whether `input` begins with a tilde before a backslash.
pub open spec fn tilde_leads_backslash(input: Seq<char>) -> bool {
    input.len() > 1 && input[0] == '~' && input[1] == '\\'
}

/// `input` with `home` in place of its first character.
pub open spec fn at_home(input: Seq<char>, home: Seq<char>) -> Seq<char>
    recommends
        input.len() > 0,
{
    home + input.subrange(1, input.len() as int)
}

/// Whether `out` is `input` with its leading tilde expanded to `home`. A
/// tilde that stands alone or before a `/` is replaced by the home
/// directory where that is known. One before a backslash is replaced on
/// some platforms and left on others. Any other input is left as it is.
pub open spec fn expands_to(input: Seq<char>, home: Option<Seq<char>>, out: Seq<char>) -> bool {
    match home {
        None => out == input,
        Some(home) => if tilde_leads(input) {
            out == at_home(input, home)
        } else if tilde_leads_backslash(input) {
            out == input || out == at_home(input, home)
        } else {
            out == input
        },
    }
}

/// Whether `merged` is `defaults` overridden by what a document holds under
/// its keys `editor` and `storage`, the storage with its tilde expanded.
pub open spec fn merges(
    defaults: CliConfigView,
    editor: Option<Seq<char>>,
    storage: Option<Seq<char>>,
    home: Option<Seq<char>>,
    merged: CliConfigView,
) -> bool {
    &&& merged.editor == match editor {
        Some(editor) => editor,
        None => defaults.editor,
    }
    &&& match storage {
        Some(storage) => expands_to(storage, home, merged.storage),
        None => merged.storage == defaults.storage,
    }
}

/// The keys at the top level of the TOML document `text`, as
/// `toml::de::DeTable::parse` gives them, in the order in which that table
/// hands them out; `None` where `text` is no TOML document.
pub uninterp spec fn top_level_keys(text: Seq<char>) -> Option<Seq<Seq<char>>>;

/// Whether `text` is a document that the settings can be read from: a TOML
/// document none of whose keys at the top level is a path with a subscript
/// that strains. The crate `config` takes each such key for a path and
/// grows an array to every subscript in it.
pub open spec fn readable(text: Seq<char>) -> bool {
    top_level_keys(text) is Some && safe_keys(top_level_keys(text)->0)
}

/// Whether the crate `config` reads the TOML document `text`: whether
/// `build` succeeds on the one source `config::File::from_str` of it.
pub uninterp spec fn document_reads(text: Seq<char>) -> bool;

/// The type `config::Config` of the crate `config`: a settings document that
/// has been read. It is carried through as it is; nothing is known of what
/// is in it.
#[verifier::external_type_specification]
#[verifier::external_body]
pub struct ExConfig(config::Config);

/// The type `config::ConfigError` of the crate `config`. It is carried
/// through as it is; nothing is known of what is in it.
#[verifier::external_type_specification]
#[verifier::external_body]
pub struct ExConfigError(config::ConfigError);

/// Calls `shellexpand::tilde_with_context` with a context that answers
/// `home`. Trusted: what comes back is related to `input` and `home` as
/// `expands_to` says.
#[verifier::external_body]
fn expand_tilde(input: &str, home: Option<&str>) -> (r: String)
    ensures
        expands_to(input@, slice_text(home), r@),
{
    shellexpand::tilde_with_context(input, move || home).into_owned()
}

/// Calls `toml::de::DeTable::parse` and hands out the keys at the top level
/// of the table, each as a string of its own. Trusted: they are the keys
/// that `top_level_keys` stands for, and there are none exactly where the
/// text is no TOML document.
#[verifier::external_body]
fn document_keys(text: &str) -> (r: Option<Vec<String>>)
    ensures
        r is Some <==> top_level_keys(text@) is Some,
        r is Some ==> texts(r->0@) == top_level_keys(text@)->0,
{
    match toml::de::DeTable::parse(text) {
        Ok(table) => Some(
            table.into_inner().into_iter().map(|(key, _)| key.into_inner().into_owned()).collect(),
        ),
        Err(_) => None,
    }
}

/// Has the crate `config` read `text` as a TOML document: calls `build` on
/// a `config::Config::builder()` whose one source is
/// `config::File::from_str(text, config::FileFormat::Toml)`.
///
/// Trusted, running out of memory aside: the call returns on every text
/// that is `readable`. The crate parses the text with
/// `toml::de::DeTable::parse` and takes each key at the top level for a
/// path; to every subscript of such a path it grows an array, of values of
/// fewer than 1024 bytes each, and only an array beyond what a vector can
/// hold makes it panic. Trusted too: whether the call succeeds depends on
/// the text alone, and is what `document_reads` stands for. Nothing is
/// claimed of the document that comes back: the crate gathers the keys by
/// walking a hash map, so that two readings of one text can differ.
#[verifier::external_body]
fn parse_document(text: &str) -> (r: Result<config::Config, config::ConfigError>)
    requires
        readable(text@),
    ensures
        r is Ok <==> document_reads(text@),
{
    config::Config::builder().add_source(
        config::File::from_str(text, config::FileFormat::Toml),
    ).build()
}

/// The strings of a document that has been read, by key: under each key for
/// which `config::Config::get_string` succeeds on the document, the string
/// that it yields.
pub uninterp spec fn document_strings(document: config::Config) -> Map<Seq<char>, Seq<char>>;

/// What `document` holds under `key`, if it holds a string there.
pub open spec fn held(document: config::Config, key: Seq<char>) -> Option<Seq<char>> {
    if document_strings(document).contains_key(key) {
        Some(document_strings(document)[key])
    } else {
        None
    }
}

/// Calls `config::Config::get_string` with `key`. Trusted: on a document
/// that has been read the call only looks the key up, so that it succeeds
/// exactly for the keys of `document_strings`, with the string that stands
/// there.
#[verifier::external_body]
fn document_string(document: &config::Config, key: &str) -> (r: Result<
    String,
    config::ConfigError,
>)
    ensures
        r is Ok <==> document_strings(*document).contains_key(key@),
        r is Ok ==> r->Ok_0@ == document_strings(*document)[key@],
{
    document.get_string(key)
}

/// The editor where the settings name none.
pub fn get_default_editor(env: &Environment) -> (r: String)
    ensures
        r@ == default_editor_of(env@),
{
    match &env.editor {
        Some(editor) => {
            if !editor.as_str().is_empty() {
                return editor.clone();
            }
        },
        None => {},
    }
    if env.windir || env.system_root {
        String::from_str("notepad")
    } else {
        String::from_str("vim")
    }
}

/// The directory that holds the tasks where the settings name none; fails
/// with `NoHome` where the home directory is not known.
pub fn get_default_storage_dir(env: &Environment) -> (r: Result<String, SettingsError>)
    ensures
        env.home is None ==> r == Err::<String, SettingsError>(SettingsError::NoHome),
        env.home is Some ==> r is Ok && r->Ok_0@ == home_storage_of(env.home->0@),
{
    match &env.home {
        Some(home) => Ok(join_path(home.as_str(), ".zerp")),
        None => Err(SettingsError::NoHome),
    }
}

/// The directory that holds the settings document; fails with `NoHome`
/// where the home directory is not known.
pub fn get_config_dir(env: &Environment) -> (r: Result<String, SettingsError>)
    ensures
        env.home is None ==> r == Err::<String, SettingsError>(SettingsError::NoHome),
        env.home is Some ==> r is Ok && r->Ok_0@ == home_storage_of(env.home->0@),
{
    get_default_storage_dir(env)
}

/// The path of the settings document; fails with `NoHome` where the home
/// directory is not known.
pub fn get_config_file_path(env: &Environment) -> (r: Result<String, SettingsError>)
    ensures
        env.home is None ==> r == Err::<String, SettingsError>(SettingsError::NoHome),
        env.home is Some ==> r is Ok && r->Ok_0@ == config_file_of(env.home->0@),
{
    match get_config_dir(env) {
        Ok(dir) => Ok(join_path(dir.as_str(), "config.toml")),
        Err(e) => Err(e),
    }
}

/// What the document `found` holds under `key`, if it holds a string there.
fn lookup(found: &config::Config, key: &str) -> (r: Option<String>)
    ensures
        text_of(r) == held(*found, key@),
{
    match document_string(found, key) {
        Ok(value) => Some(value),
        Err(_) => None,
    }
}

/// `defaults` overridden by `editor` and `storage` where they are given,
/// the storage with its tilde expanded to `home`.
pub fn merge_settings(
    defaults: CliConfig,
    editor: Option<String>,
    storage: Option<String>,
    home: Option<&str>,
) -> (r: CliConfig)
    ensures
        merges(defaults@, text_of(editor), text_of(storage), slice_text(home), r@),
{
    let CliConfig { editor: default_editor, storage: default_storage } = defaults;
    CliConfig {
        editor: match editor {
            Some(editor) => editor,
            None => default_editor,
        },
        storage: match storage {
            Some(storage) => expand_tilde(storage.as_str(), home),
            None => default_storage,
        },
    }
}

impl CliConfig {
    /// The settings where the document names none: the default editor, and
    /// the default storage directory or, where the home directory is not
    /// known, the directory `./`.
    pub fn defaults(env: &Environment) -> (r: CliConfig)
        ensures
            r@ == defaults_of(env@),
    {
        CliConfig {
            editor: get_default_editor(env),
            storage: match get_default_storage_dir(env) {
                Ok(dir) => dir,
                Err(_) => String::from_str("./"),
            },
        }
    }

    /// The launch of the editor on the settings document; fails with
    /// `NoHome` where the home directory is not known.
    pub fn edit(&self, env: &Environment) -> (r: Result<Action, SettingsError>)
        ensures
            env.home is None ==> r == Err::<Action, SettingsError>(SettingsError::NoHome),
            env.home is Some ==> r is Ok && r->Ok_0@ == (ActionView::Launch {
                program: self.editor@,
                args: seq![config_file_of(env.home->0@)],
                quiet: false,
            }),
    {
        match get_config_file_path(env) {
            Ok(path) => {
                let args: Vec<String> = vec![path];
                assert(texts(args@) =~= seq![config_file_of(env.home->0@)]);
                Ok(Action::Launch { program: self.editor.clone(), args, quiet: false })
            },
            Err(e) => Err(e),
        }
    }
}

/// How the editing of the settings ended, given the answer to the launch
/// of the editor.
pub open spec fn edited_of(event: EventView) -> Result<(), SettingsError> {
    match event {
        EventView::Exited(code) => if code == Some(0i32) {
            Ok(())
        } else {
            Err(SettingsError::EditorFailed)
        },
        EventView::Failed => Err(SettingsError::OpenEditor),
        _ => Err(SettingsError::Unexpected),
    }
}

/// How the editing of the settings ended, given the answer to the launch
/// of the editor.
pub fn edited(event: &Event) -> (r: Result<(), SettingsError>)
    ensures
        r == edited_of(event@),
{
    match event {
        Event::Exited(Some(0)) => Ok(()),
        Event::Exited(_) => Err(SettingsError::EditorFailed),
        Event::Failed => Err(SettingsError::OpenEditor),
        _ => Err(SettingsError::Unexpected),
    }
}

/// Whether `text` is a document that the settings can be read from.
pub fn is_readable(text: &str) -> (r: bool)
    ensures
        r == readable(text@),
{
    match document_keys(text) {
        Some(keys) => are_safe_keys(&keys),
        None => false,
    }
}

/// Whether `config` is what comes of the document `found` in the
/// environment `env`: the defaults of `env`, overridden by what `found`
/// holds under the keys `editor` and `storage`, the storage with its tilde
/// expanded to the home directory.
pub open spec fn comes_of(env: EnvironmentView, found: config::Config, config: CliConfigView)
    -> bool {
    merges(defaults_of(env), held(found, "editor"@), held(found, "storage"@), env.home, config)
}

/// Whether `config` comes of some document that has been read, in the
/// environment `env`. It says no more than that: which document a text is
/// read as is for the crate `config` to say.
pub open spec fn comes_of_a_document(env: EnvironmentView, config: CliConfigView) -> bool {
    exists|found: config::Config| #[trigger] comes_of(env, found, config)
}

/// The settings that come of the document `found` in the environment
/// `env`.
pub fn settings_from(env: &Environment, found: &config::Config) -> (r: CliConfig)
    ensures
        comes_of(env@, *found, r@),
{
    let defaults = CliConfig::defaults(env);
    let editor = lookup(found, "editor");
    let storage = lookup(found, "storage");
    let home: Option<&str> = match &env.home {
        Some(home) => Some(home.as_str()),
        None => None,
    };
    merge_settings(defaults, editor, storage, home)
}

/// The settings, given the environment and the text of the settings
/// document where there is one.
///
/// Fails with `NoHome` where the home directory is not known. Without a
/// document the settings are the defaults. With one, the loading succeeds
/// exactly where the text is `readable` and the crate `config` reads it;
/// the settings are then those that come of the document it has read, as
/// `settings_from` gives them. Where it does not succeed it fails with
/// `Malformed`.
pub fn load_config(env: &Environment, document: Option<&str>) -> (r: Result<
    CliConfig,
    SettingsError,
>)
    ensures
        env.home is None ==> r == Err::<CliConfig, SettingsError>(SettingsError::NoHome),
        env.home is Some && document is None ==> r is Ok && r->Ok_0@ == defaults_of(env@),
        env.home is Some && document is Some ==> (r is Ok <==> readable(document->0@)
            && document_reads(document->0@)),
        env.home is Some && document is Some && r is Ok ==> comes_of_a_document(env@, r->Ok_0@),
        env.home is Some && document is Some && r is Err ==> r->Err_0 == SettingsError::Malformed,
{
    if env.home.is_none() {
        return Err(SettingsError::NoHome);
    }
    match document {
        None => Ok(CliConfig::defaults(env)),
        Some(text) => {
            if !is_readable(text) {
                return Err(SettingsError::Malformed);
            }
            match parse_document(text) {
                Ok(found) => {
                    let config = settings_from(env, &found);
                    assert(comes_of(env@, found, config@));
                    assert(comes_of_a_document(env@, config@));
                    Ok(config)
                },
                Err(_) => Err(SettingsError::Malformed),
            }
        },
    }
}

/// `config` with `editor` for its editor.
pub fn set_editor(config: CliConfig, editor: &str) -> (r: CliConfig)
    ensures
        r@ == (CliConfigView { editor: editor@, storage: config@.storage }),
{
    let CliConfig { editor: _, storage } = config;
    CliConfig { editor: String::from_str(editor), storage }
}

/// `config` with `storage`, its tilde expanded to `home`, for its storage
/// directory.
pub fn set_storage(config: CliConfig, storage: &str, home: Option<&str>) -> (r: CliConfig)
    ensures
        r@.editor == config@.editor,
        expands_to(storage@, slice_text(home), r@.storage),
{
    let CliConfig { editor, storage: _ } = config;
    CliConfig { editor, storage: expand_tilde(storage, home) }
}

impl SettingsError {
    /// The error in words.
    pub open spec fn text(self) -> Seq<char> {
        match self {
            SettingsError::NoHome => "Failed to determine home directory"@,
            SettingsError::Malformed => "Failed to build configuration"@,
            SettingsError::OpenEditor => "Failed to open editor"@,
            SettingsError::EditorFailed => "Editor exited with error"@,
            SettingsError::Unexpected => "The event does not answer the launch of the editor"@,
        }
    }

    /// The error in words.
    pub fn message(&self) -> (r: String)
        ensures
            r@ == self.text(),
    {
        match self {
            SettingsError::NoHome => String::from_str("Failed to determine home directory"),
            SettingsError::Malformed => String::from_str("Failed to build configuration"),
            SettingsError::OpenEditor => String::from_str("Failed to open editor"),
            SettingsError::EditorFailed => String::from_str("Editor exited with error"),
            SettingsError::Unexpected => String::from_str(
                "The event does not answer the launch of the editor",
            ),
        }
    }
}

} // verus!
