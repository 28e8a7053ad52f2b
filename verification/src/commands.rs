//! What the commands of the tool decide, apart from what they do on disk.

use vstd::prelude::*;
use crate::error::{
    CreateDependentResourceError, CreateResourceError, DeleteResourceError, GeneralResourceError,
    IoError, ReadConfigError,
};
use crate::keyed::{index_of_name, lemma_position, name_keys, position};
use crate::resource::{is_marked, Name};
use crate::resource::repository::TomlConfigLatest;
use crate::resource::tomlconfig::{Dependencies0_2_2, well_keyed};
use crate::text::split;

verus! {

/// Whether a text matches a pattern, by the `regex` crate. There is no
/// answer where the pattern is not one.
pub uninterp spec fn regex_matches(pattern: Seq<char>, text: Seq<char>) -> Option<bool>;

/// Compiles `pattern` with `regex::Regex::new` and asks `is_match` of
/// `text`. The answer is named; there is none where the pattern does not
/// compile.
#[verifier::external_body]
fn pattern_matches(pattern: &str, text: &str) -> (matched: Option<bool>)
    ensures
        matched == regex_matches(pattern@, text@),
{
    regex::Regex::new(pattern).ok().map(|compiled| compiled.is_match(text))
}

/// The pattern of a resource name: two or more segments of small letters,
/// digits, `-` and `_`, each starting with a letter, with `/` between.
pub fn name_pattern() -> (pattern: &'static str)
    ensures
        pattern@ == "^[a-z][a-z0-9\\-_]*(/[a-z][a-z0-9\\-_]*)+$"@,
{
    "^[a-z][a-z0-9\\-_]*(/[a-z][a-z0-9\\-_]*)+$"
}

/// The pattern of a link name: letters, digits, `_` and `-`, starting
/// with a letter.
pub fn link_pattern() -> (pattern: &'static str)
    ensures
        pattern@ == "^[a-zA-Z][a-zA-Z0-9_\\-]*$"@,
{
    "^[a-zA-Z][a-zA-Z0-9_\\-]*$"
}

/// Whether `name` is written as a resource name is.
pub fn is_valid_name(name: &str) -> (valid: bool)
    ensures
        valid == (regex_matches(name_pattern_text(), name@) == Some(true)),
{
    match pattern_matches(name_pattern(), name) {
        Some(matched) => matched,
        None => false,
    }
}

/// Whether `name` is written as a link name is.
pub fn is_valid_link_name(name: &str) -> (valid: bool)
    ensures
        valid == (regex_matches(link_pattern_text(), name@) == Some(true)),
{
    match pattern_matches(link_pattern(), name) {
        Some(matched) => matched,
        None => false,
    }
}

/// The pattern of a resource name.
pub open spec fn name_pattern_text() -> Seq<char> {
    "^[a-z][a-z0-9\\-_]*(/[a-z][a-z0-9\\-_]*)+$"@
}

/// The pattern of a link name.
pub open spec fn link_pattern_text() -> Seq<char> {
    "^[a-zA-Z][a-zA-Z0-9_\\-]*$"@
}

/// Why a command failed.
#[derive(Debug, Clone, PartialEq, Eq)]
pub enum UtilityError {
    IoError(IoError),
    ResourceDoesNotExist(String),
    ResourceAlreadyExists(String),
    InvalidConfig,
    LinkNotFound,
    InvalidName(String),
    AlreadySetup,
    ScriptNotFound(String),
    ScriptError(String),
    ResourceNotCollected(String),
    NetworkError(String),
    Unknown,
}

impl UtilityError {
    /// What a command reports of a configuration that could not be read.
    pub fn from_read(error: ReadConfigError) -> (reported: UtilityError)
        ensures
            match error {
                ReadConfigError::IoError(io) => reported == UtilityError::IoError(io),
                ReadConfigError::TomlError(_) => reported == UtilityError::InvalidConfig,
            },
    {
        match error {
            ReadConfigError::IoError(io) => UtilityError::IoError(io),
            ReadConfigError::TomlError(_) => UtilityError::InvalidConfig,
        }
    }

    /// What a command reports of a resource that could not be used.
    pub fn from_general(error: GeneralResourceError) -> (reported: UtilityError)
        ensures
            match error {
                GeneralResourceError::DoesNotExist => reported matches UtilityError::ResourceDoesNotExist(
                    what,
                ) && what@ == "<>"@,
                GeneralResourceError::Invalid => reported == UtilityError::InvalidConfig,
                GeneralResourceError::IoError(io) => reported == UtilityError::IoError(io),
            },
    {
        match error {
            GeneralResourceError::DoesNotExist => UtilityError::ResourceDoesNotExist(
                "<>".to_owned(),
            ),
            GeneralResourceError::Invalid => UtilityError::InvalidConfig,
            GeneralResourceError::IoError(io) => UtilityError::IoError(io),
        }
    }

    /// What a command reports of a resource that could not be created.
    pub fn from_create(error: CreateResourceError) -> (reported: UtilityError)
        ensures
            match error {
                CreateResourceError::AlreadyExists => reported matches UtilityError::ResourceAlreadyExists(
                    what,
                ) && what@ == "<>"@,
                CreateResourceError::IoError(io) => reported == UtilityError::IoError(io),
                CreateResourceError::NotSetup => reported matches UtilityError::ResourceDoesNotExist(
                    what,
                ) && what@ == "Battalion root"@,
            },
    {
        match error {
            CreateResourceError::AlreadyExists => UtilityError::ResourceAlreadyExists(
                "<>".to_owned(),
            ),
            CreateResourceError::IoError(io) => UtilityError::IoError(io),
            CreateResourceError::NotSetup => UtilityError::ResourceDoesNotExist(
                "Battalion root".to_owned(),
            ),
        }
    }

    /// What a command reports of a resource that could not be deleted.
    pub fn from_delete(error: DeleteResourceError) -> (reported: UtilityError)
        ensures
            match error {
                DeleteResourceError::DoesNotExist => reported matches UtilityError::ResourceDoesNotExist(
                    what,
                ) && what@ == "<>"@,
                DeleteResourceError::IoError(io) => reported == UtilityError::IoError(io),
            },
    {
        match error {
            DeleteResourceError::DoesNotExist => UtilityError::ResourceDoesNotExist(
                "<>".to_owned(),
            ),
            DeleteResourceError::IoError(io) => UtilityError::IoError(io),
        }
    }

    /// What a command reports of a dependent resource that could not be
    /// created: what it would report of the cause.
    pub fn from_dependent(error: CreateDependentResourceError) -> (reported: UtilityError)
        ensures
            match error {
                CreateDependentResourceError::IoError(io) => reported == UtilityError::IoError(io),
                CreateDependentResourceError::Creation(
                    CreateResourceError::AlreadyExists,
                ) => reported matches UtilityError::ResourceAlreadyExists(what) && what@ == "<>"@,
                CreateDependentResourceError::Creation(
                    CreateResourceError::IoError(io),
                ) => reported == UtilityError::IoError(io),
                CreateDependentResourceError::Creation(
                    CreateResourceError::NotSetup,
                ) => reported matches UtilityError::ResourceDoesNotExist(what) && what@
                    == "Battalion root"@,
                CreateDependentResourceError::Dependent(
                    GeneralResourceError::DoesNotExist,
                ) => reported matches UtilityError::ResourceDoesNotExist(what) && what@ == "<>"@,
                CreateDependentResourceError::Dependent(
                    GeneralResourceError::Invalid,
                ) => reported == UtilityError::InvalidConfig,
                CreateDependentResourceError::Dependent(
                    GeneralResourceError::IoError(io),
                ) => reported == UtilityError::IoError(io),
            },
    {
        match error {
            CreateDependentResourceError::IoError(io) => UtilityError::IoError(io),
            CreateDependentResourceError::Creation(cause) => UtilityError::from_create(cause),
            CreateDependentResourceError::Dependent(cause) => UtilityError::from_general(cause),
        }
    }
}

impl UtilityError {
    /// What the user is told.
    pub open spec fn message(self) -> Seq<char> {
        match self {
            UtilityError::IoError(error) => "IO Error: "@ + error.message@,
            UtilityError::ResourceDoesNotExist(what) => "Resource does not exist: "@ + what@,
            UtilityError::ResourceAlreadyExists(what) => "Resource already exists: "@ + what@,
            UtilityError::InvalidConfig => "Invalid config"@,
            UtilityError::LinkNotFound => "Link not found"@,
            UtilityError::InvalidName(name) => "Invalid name: "@ + name@,
            UtilityError::AlreadySetup => "Already setup"@,
            UtilityError::ScriptNotFound(name) => "Script not found: "@ + name@,
            UtilityError::ScriptError(what) => "Script error: "@ + what@,
            UtilityError::ResourceNotCollected(what) => "Resource cannot be collected: "@ + what@,
            UtilityError::NetworkError(what) => "Network Error: "@ + what@,
            UtilityError::Unknown => "Unknown"@,
        }
    }

    /// What the user is told.
    pub fn to_string(&self) -> (text: String)
        ensures
            text@ == self.message(),
    {
        match self {
            UtilityError::IoError(error) => "IO Error: ".to_owned().concat(
                error.message.as_str(),
            ),
            UtilityError::ResourceDoesNotExist(what) => "Resource does not exist: ".to_owned().concat(
                what.as_str(),
            ),
            UtilityError::ResourceAlreadyExists(
                what,
            ) => "Resource already exists: ".to_owned().concat(what.as_str()),
            UtilityError::InvalidConfig => "Invalid config".to_owned(),
            UtilityError::LinkNotFound => "Link not found".to_owned(),
            UtilityError::InvalidName(name) => "Invalid name: ".to_owned().concat(name.as_str()),
            UtilityError::AlreadySetup => "Already setup".to_owned(),
            UtilityError::ScriptNotFound(name) => "Script not found: ".to_owned().concat(
                name.as_str(),
            ),
            UtilityError::ScriptError(what) => "Script error: ".to_owned().concat(what.as_str()),
            UtilityError::ResourceNotCollected(
                what,
            ) => "Resource cannot be collected: ".to_owned().concat(what.as_str()),
            UtilityError::NetworkError(what) => "Network Error: ".to_owned().concat(what.as_str()),
            UtilityError::Unknown => "Unknown".to_owned(),
        }
    }
}

/// What is asked of a dependency that is added without saying more.
pub open spec fn any_version() -> Seq<char> {
    "latest"@
}

/// Dependencies after `name` is added: it asks for the latest, in the
/// place where it stood, or at the end where it is new.
pub open spec fn with_dependency(
    dependencies: Seq<(Seq<Seq<char>>, Seq<char>)>,
    name: Seq<Seq<char>>,
) -> Seq<(Seq<Seq<char>>, Seq<char>)> {
    match position(Seq::new(dependencies.len(), |i: int| dependencies[i].0), name) {
        Some(i) => dependencies.update(i, (name, any_version())),
        None => dependencies.push((name, any_version())),
    }
}

/// Adds the resource called `name` to the dependencies of a repository,
/// asking for its latest version. A dependency that is there already
/// asks for the latest from now on.
pub fn cmd_add(config: &mut TomlConfigLatest, name: &str)
    ensures
        final(config).dependencies.deep_view() == Some(
            with_dependency(
                match old(config).dependencies.deep_view() {
                    Some(dependencies) => dependencies,
                    None => Seq::empty(),
                },
                split(name@, '/'),
            ),
        ),
        final(config).environment == old(config).environment,
        final(config).repository == old(config).repository,
        final(config).scripts == old(config).scripts,
        final(config).restrict == old(config).restrict,
        well_keyed(old(config).deep_view()) ==> well_keyed(final(config).deep_view()),
{
    let name = Name::parse(name);
    let ghost key = name@;
    let mut dependencies: Dependencies0_2_2 = match config.dependencies.take() {
        Some(dependencies) => dependencies,
        None => Vec::new(),
    };
    let ghost before = dependencies.deep_view();
    assert(old(config).dependencies is None ==> before =~= Seq::empty());
    assert(name_keys(dependencies@) =~= Seq::new(before.len(), |i: int| before[i].0));
    match index_of_name(&dependencies, &name) {
        Some(i) => {
            proof {
                lemma_position(name_keys(dependencies@), name@);
            }
            assert(before[i as int].0 == key);
            dependencies.set(i, (name, "latest".to_owned()));
            assert(dependencies.deep_view() =~= before.update(i as int, (key, any_version())));
            assert forall|j: int| 0 <= j < before.len() implies #[trigger] dependencies.deep_view()[j].0
                == before[j].0 by {}
        },
        None => {
            proof {
                lemma_position(name_keys(dependencies@), key);
                assert forall|j: int| 0 <= j < before.len() implies before[j].0 != key by {
                    assert(name_keys(dependencies@)[j] == before[j].0);
                }
            }
            dependencies.push((name, "latest".to_owned()));
            assert(dependencies.deep_view() =~= before.push((key, any_version())));
        },
    }
    config.dependencies = Some(dependencies);
}

/// Where `name` stands among dependencies, if it does.
pub open spec fn dependency_position(
    dependencies: Option<Seq<(Seq<Seq<char>>, Seq<char>)>>,
    name: Seq<Seq<char>>,
) -> Option<int> {
    match dependencies {
        Some(dependencies) => position(
            Seq::new(dependencies.len(), |i: int| dependencies[i].0),
            name,
        ),
        None => None,
    }
}

/// Removes the resource called `name` from the dependencies of a
/// repository. Where it is none of them, nothing changes.
pub fn cmd_remove(config: &mut TomlConfigLatest, name: &str) -> (removed: Result<(), UtilityError>)
    ensures
        match dependency_position(old(config).dependencies.deep_view(), split(name@, '/')) {
            Some(i) => {
                &&& removed is Ok
                &&& final(config).dependencies.deep_view() == Some(
                    old(config).dependencies.deep_view().unwrap().remove(i),
                )
                &&& final(config).environment == old(config).environment
                &&& final(config).repository == old(config).repository
                &&& final(config).scripts == old(config).scripts
                &&& final(config).restrict == old(config).restrict
                &&& well_keyed(old(config).deep_view()) ==> well_keyed(final(config).deep_view())
            },
            None => {
                &&& removed matches Err(UtilityError::ResourceDoesNotExist(what)) && what@
                    == "Dependency"@
                &&& *final(config) == *old(config)
            },
        },
{
    let name = Name::parse(name);
    let found = match &config.dependencies {
        Some(dependencies) => {
            assert(name_keys(dependencies@) =~= Seq::new(
                dependencies.deep_view().len(),
                |i: int| dependencies.deep_view()[i].0,
            ));
            proof {
                lemma_position(name_keys(dependencies@), name@);
            }
            index_of_name(dependencies, &name)
        },
        None => None,
    };
    match found {
        Some(i) => {
            let mut dependencies = config.dependencies.take().unwrap();
            let ghost before = dependencies.deep_view();
            dependencies.remove(i);
            assert(dependencies.deep_view() =~= before.remove(i as int));
            config.dependencies = Some(dependencies);
            Ok(())
        },
        None => Err(UtilityError::ResourceDoesNotExist("Dependency".to_owned())),
    }
}

/// What an entry of a directory of resources is.
#[derive(Debug)]
pub enum Listing {
    /// A namespace: the entries below it are listed under this prefix.
    Namespace(String),
    /// A resource of this name.
    Resource(String),
}

/// What a directory called `file_name` is, found while listing under
/// `prefix`: a marked directory is a namespace, and its entries are listed
/// under the prefix, its name and a `/`; any other is a resource, called
/// by the prefix and its name.
pub fn classify(prefix: &str, file_name: &str) -> (listing: Listing)
    ensures
        match listing {
            Listing::Namespace(deeper) => is_marked(file_name@) && deeper@ == prefix@
                + file_name@.subrange(1, file_name@.len() as int) + seq!['/'],
            Listing::Resource(name) => !is_marked(file_name@) && name@ == prefix@ + file_name@,
        },
{
    let len = file_name.unicode_len();
    if len > 0 && file_name.get_char(0) == '@' {
        proof {
            reveal_strlit("/");
        }
        assert("/"@ =~= seq!['/']);
        let deeper = prefix.to_owned().concat(file_name.substring_char(1, len)).concat("/");
        Listing::Namespace(deeper)
    } else {
        Listing::Resource(prefix.to_owned().concat(file_name))
    }
}

/// Whether `name` starts with `filter`.
pub fn starts_with(name: &str, filter: &str) -> (starts: bool)
    ensures
        starts == filter@.is_prefix_of(name@),
{
    let n = filter.unicode_len();
    if n > name.unicode_len() {
        return false;
    }
    let mut i: usize = 0;
    while i < n
        invariant
            i <= n,
            n == filter@.len(),
            n <= name@.len(),
            forall|j: int| 0 <= j < i ==> name@[j] == filter@[j],
        decreases n - i,
    {
        if name.get_char(i) != filter.get_char(i) {
            assert(name@.subrange(0, n as int)[i as int] != filter@[i as int]);
            return false;
        }
        i = i + 1;
    }
    assert(filter@ =~= name@.subrange(0, n as int));
    true
}

/// Whether a resource is listed: there is no filter, or its name starts
/// with the filter.
pub fn is_listed(name: &str, filter: Option<&str>) -> (listed: bool)
    ensures
        listed == match filter {
            Some(filter) => filter@.is_prefix_of(name@),
            None => true,
        },
{
    match filter {
        Some(filter) => starts_with(name, filter),
        None => true,
    }
}

} // verus!
