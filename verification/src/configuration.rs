//! Options read from a configuration document.
//!
//! The document is a JSON object in a file. Reading and parsing the file is
//! left to the caller, who hands over the outcome as a [`ConfigSource`]; what
//! an option is worth, given that outcome, is decided here.

use vstd::prelude::*;

verus! {

/// Why a configuration value could not be had.
#[derive(Clone, Copy, Debug, PartialEq, Eq, Structural)]
pub enum ConfigError {
    /// The file, or the member asked for, is not there.
    ConfigNotExisting,
    /// The file does not hold a JSON document.
    ConfigMalformed,
}

/// A member of the configuration document, as far as options look at it.
#[derive(Clone, Debug, PartialEq, Eq)]
pub enum ConfigValue {
    /// The JSON value `null`.
    Null,
    /// A JSON string.
    Text(String),
    /// Any other JSON value.
    Other,
}

/// Mathematical value of a [`ConfigValue`].
pub enum ConfigValueView {
    Null,
    Text(Seq<char>),
    Other,
}

impl View for ConfigValue {
    type V = ConfigValueView;

    open spec fn view(&self) -> ConfigValueView {
        match self {
            ConfigValue::Null => ConfigValueView::Null,
            ConfigValue::Text(text) => ConfigValueView::Text(text@),
            ConfigValue::Other => ConfigValueView::Other,
        }
    }
}

impl ConfigValue {
    /// A copy of the value.
    pub fn duplicate(&self) -> (copy: Self)
        ensures
            copy@ == self@,
    {
        match self {
            ConfigValue::Null => ConfigValue::Null,
            ConfigValue::Text(text) => ConfigValue::Text(text.clone()),
            ConfigValue::Other => ConfigValue::Other,
        }
    }
}

/// One member of a document: its key and its value.
pub type MemberView = (Seq<char>, ConfigValueView);

/// The value that a sequence of members gives to `key`: that of the last
/// member with this key, as a later member of a JSON object overrides an
/// earlier one of the same name.
pub open spec fn member(members: Seq<MemberView>, key: Seq<char>) -> Option<ConfigValueView>
    decreases members.len(),
{
    if members.len() == 0 {
        None
    } else if members.last().0 == key {
        Some(members.last().1)
    } else {
        member(members.drop_last(), key)
    }
}

/// The members of the top-level object of a configuration document. A
/// document that is not an object has no members.
#[derive(Clone, Debug, PartialEq, Eq)]
pub struct ConfigDocument {
    members: Vec<(String, ConfigValue)>,
}

impl View for ConfigDocument {
    type V = Seq<MemberView>;

    closed spec fn view(&self) -> Seq<MemberView> {
        self.members@.map_values(|m: (String, ConfigValue)| (m.0@, m.1@))
    }
}

impl ConfigDocument {
    /// A document without members.
    pub fn new() -> (document: Self)
        ensures
            document@ == Seq::<MemberView>::empty(),
    {
        let document = ConfigDocument { members: Vec::new() };
        assert(document@ =~= Seq::<MemberView>::empty());
        document
    }

    /// Adds a member after those that are there.
    pub fn insert(&mut self, key: String, value: ConfigValue)
        ensures
            final(self)@ == old(self)@.push((key@, value@)),
    {
        self.members.push((key, value));
        assert(self@ =~= old(self)@.push((key@, value@)));
    }

    /// The value of the member `key`, if there is one.
    pub fn get(&self, key: &str) -> (value: Option<ConfigValue>)
        ensures
            match value {
                Some(value) => member(self@, key@) == Some(value@),
                None => member(self@, key@) is None,
            },
    {
        let wanted = key.to_owned();
        let mut i: usize = self.members.len();
        assert(self@.take(i as int) =~= self@);
        while i > 0
            invariant
                i <= self.members.len(),
                wanted@ == key@,
                member(self@, key@) == member(self@.take(i as int), key@),
            decreases i,
        {
            i -= 1;
            proof {
                let read = self@.take(i + 1);
                assert(read.last() == self@[i as int]);
                assert(read.drop_last() =~= self@.take(i as int));
            }
            if self.members[i].0 == wanted {
                return Some(self.members[i].1.duplicate());
            }
        }
        None
    }
}

/// What reading the configuration file gave.
#[derive(Clone, Debug, PartialEq, Eq)]
pub enum ConfigSource {
    /// The file could not be opened.
    Missing,
    /// The file does not hold a JSON document.
    Malformed,
    /// The document of the file.
    Document(ConfigDocument),
}

/// Holds the path of the configuration file and, once it has been read, its
/// document.
pub struct ConfigLoader {
    path: String,
    value: Option<ConfigDocument>,
}

/// Mathematical value of a [`ConfigLoader`].
pub struct ConfigLoaderView {
    pub path: Seq<char>,
    pub document: Option<Seq<MemberView>>,
}

impl View for ConfigLoader {
    type V = ConfigLoaderView;

    closed spec fn view(&self) -> ConfigLoaderView {
        ConfigLoaderView {
            path: self.path@,
            document: match self.value {
                Some(document) => Some(document@),
                None => None,
            },
        }
    }
}

/// The outcome of looking up `key` in a document: a member that is there and
/// not `null`.
pub open spec fn lookup(document: Seq<MemberView>, key: Seq<char>) -> Result<
    ConfigValueView,
    ConfigError,
> {
    match member(document, key) {
        Some(value) => if value is Null {
            Err(ConfigError::ConfigNotExisting)
        } else {
            Ok(value)
        },
        None => Err(ConfigError::ConfigNotExisting),
    }
}

impl ConfigLoaderView {
    /// The loader after it was offered `source`: a loader without a document
    /// takes the one of the source, if it has one. A loader with a document
    /// keeps it.
    pub open spec fn offered(self, source: ConfigSource) -> Self {
        match (self.document, source) {
            (None, ConfigSource::Document(document)) => ConfigLoaderView {
                document: Some(document@),
                ..self
            },
            _ => self,
        }
    }

    /// The outcome of asking for `key` while offering `source`.
    pub open spec fn value_of(self, key: Seq<char>, source: ConfigSource) -> Result<
        ConfigValueView,
        ConfigError,
    > {
        match self.offered(source).document {
            Some(document) => lookup(document, key),
            None => if source is Malformed {
                Err(ConfigError::ConfigMalformed)
            } else {
                Err(ConfigError::ConfigNotExisting)
            },
        }
    }
}

/// The value of a result, with the texts of its strings.
pub open spec fn value_view(outcome: Result<ConfigValue, ConfigError>) -> Result<
    ConfigValueView,
    ConfigError,
> {
    match outcome {
        Ok(value) => Ok(value@),
        Err(error) => Err(error),
    }
}

impl ConfigLoader {
    /// A loader for the file `config.json`.
    pub fn default() -> (loader: Self)
        ensures
            loader@.path == "config.json"@,
            loader@.document is None,
    {
        ConfigLoader::new("config.json")
    }

    /// A loader for the file at `path`. Nothing is read yet.
    pub fn new(path: &str) -> (loader: Self)
        ensures
            loader@.path == path@,
            loader@.document is None,
    {
        ConfigLoader { path: path.to_owned(), value: None }
    }

    /// The path of the configuration file.
    pub fn path(&self) -> (path: &String)
        ensures
            path@ == self@.path,
    {
        &self.path
    }

    /// Whether a document has been loaded.
    pub fn is_loaded(&self) -> (loaded: bool)
        ensures
            loaded == self@.document is Some,
    {
        self.value.is_some()
    }

    /// Takes in what reading the file gave. A document replaces whatever was
    /// loaded before; a missing or malformed file is an error and changes
    /// nothing.
    pub fn load_config(&mut self, source: ConfigSource) -> (loaded: Result<(), ConfigError>)
        ensures
            match source {
                ConfigSource::Document(document) => loaded is Ok && final(self)@ == (
                ConfigLoaderView { document: Some(document@), ..old(self)@ }),
                ConfigSource::Malformed => loaded == Err::<(), ConfigError>(
                    ConfigError::ConfigMalformed,
                ) && final(self)@ == old(self)@,
                ConfigSource::Missing => loaded == Err::<(), ConfigError>(
                    ConfigError::ConfigNotExisting,
                ) && final(self)@ == old(self)@,
            },
    {
        match source {
            ConfigSource::Document(document) => {
                self.value = Some(document);
                Ok(())
            },
            ConfigSource::Malformed => Err(ConfigError::ConfigMalformed),
            ConfigSource::Missing => Err(ConfigError::ConfigNotExisting),
        }
    }

    /// The value of the member `key`.
    ///
    /// `source` is what reading the file gives; it is looked at only while no
    /// document is loaded, and a document in it is kept for later calls. A
    /// member that is missing or `null` counts as not existing.
    pub fn get_value(&mut self, key: &str, source: ConfigSource) -> (value: Result<
        ConfigValue,
        ConfigError,
    >)
        ensures
            final(self)@ == old(self)@.offered(source),
            value_view(value) == old(self)@.value_of(key@, source),
    {
        if self.value.is_none() {
            match self.load_config(source) {
                Ok(_) => {},
                Err(error) => {
                    return Err(error);
                },
            }
        }
        match &self.value {
            Some(document) => match document.get(key) {
                Some(value) => match value {
                    ConfigValue::Null => Err(ConfigError::ConfigNotExisting),
                    _ => Ok(value),
                },
                None => Err(ConfigError::ConfigNotExisting),
            },
            None => Err(ConfigError::ConfigNotExisting),
        }
    }
}

/// An option of the configuration that holds a string: the key of its member
/// in the document, and the value it has where the document gives none.
#[derive(Clone, Copy, Debug, PartialEq, Eq)]
pub enum StringOption<'a> {
    Key(&'a str, &'a str),
}

impl<'a> StringOption<'a> {
    /// The key of the option.
    pub open spec fn key(self) -> Seq<char> {
        match self {
            StringOption::Key(key, _) => key@,
        }
    }

    /// The value of the option where the document gives none.
    pub open spec fn fallback(self) -> Seq<char> {
        match self {
            StringOption::Key(_, fallback) => fallback@,
        }
    }

    /// The value of the option, given the outcome of asking the loader for
    /// its key: a string that the document holds, and the fallback otherwise.
    pub open spec fn value_for(self, outcome: Result<ConfigValueView, ConfigError>) -> Seq<char> {
        match outcome {
            Ok(ConfigValueView::Text(text)) => text,
            _ => self.fallback(),
        }
    }

    /// The value of the option.
    ///
    /// `source` is what reading the configuration file gives; it is looked at
    /// only while the loader holds no document. A malformed file is fatal to
    /// the program and must not be offered here: see
    /// [`Self::try_get_value`].
    pub fn get_value(&self, config_loader: &mut ConfigLoader, source: ConfigSource) -> (value:
        String)
        requires
            old(config_loader)@.document is Some || !(source is Malformed),
        ensures
            final(config_loader)@ == old(config_loader)@.offered(source),
            value@ == self.value_for(old(config_loader)@.value_of(self.key(), source)),
    {
        match *self {
            StringOption::Key(key, default) => match config_loader.get_value(key, source) {
                Ok(value) => match value {
                    ConfigValue::Text(text) => text,
                    _ => default.to_owned(),
                },
                Err(_) => default.to_owned(),
            },
        }
    }

    /// The value of the option, or [`ConfigError::ConfigMalformed`] where the
    /// loader holds no document and the file offered is malformed.
    pub fn try_get_value(&self, config_loader: &mut ConfigLoader, source: ConfigSource) -> (value:
        Result<String, ConfigError>)
        ensures
            final(config_loader)@ == old(config_loader)@.offered(source),
            match value {
                Ok(value) => {
                    &&& old(config_loader)@.document is Some || !(source is Malformed)
                    &&& value@ == self.value_for(
                        old(config_loader)@.value_of(self.key(), source),
                    )
                },
                Err(error) => {
                    &&& error == ConfigError::ConfigMalformed
                    &&& old(config_loader)@.document is None
                    &&& source is Malformed
                },
            },
    {
        let malformed = match &source {
            ConfigSource::Malformed => true,
            _ => false,
        };
        if malformed && !config_loader.is_loaded() {
            Err(ConfigError::ConfigMalformed)
        } else {
            Ok(self.get_value(config_loader, source))
        }
    }
}

/// The option that holds the token of the bot; empty where none is given.
pub fn conf_token() -> (option: StringOption<'static>)
    ensures
        option == StringOption::Key("token", ""),
{
    StringOption::Key("token", "")
}

/// The option that holds the path of the autoplaylist file; empty where none
/// is given.
pub fn conf_autoplaylist_path() -> (option: StringOption<'static>)
    ensures
        option == StringOption::Key("autoplaylist_path", ""),
{
    StringOption::Key("autoplaylist_path", "")
}

/// The option that holds the prefix of commands; `~` where none is given.
pub fn conf_prefix() -> (option: StringOption<'static>)
    ensures
        option == StringOption::Key("prefix", "~"),
{
    StringOption::Key("prefix", "~")
}

} // verus!
