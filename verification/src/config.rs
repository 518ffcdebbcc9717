use vstd::prelude::*;
use vstd::string::{StrSliceExecFns, StringExecFns};
use vstd::utf8::encode_utf8;

verus! {

/// What the toggle remembers between runs: the emoji shown in the tray and
/// the path of the bash script that a toggle runs. The path is kept as the
/// operating system's bytes, so that any path the user picks is run as it
/// is.
#[derive(Clone, Debug, PartialEq, Eq)]
pub struct PersistentConfig {
    pub emoji: String,
    pub script_path: Vec<u8>,
}

/// The configuration as plain values: `(emoji, script path bytes)`.
pub type ConfigView = (Seq<char>, Seq<u8>);

impl View for PersistentConfig {
    type V = ConfigView;

    open spec fn view(&self) -> ConfigView {
        (self.emoji@, self.script_path@)
    }
}

/// The configuration used when none could be read: a rocket and `script.sh`
/// in the working directory.
pub open spec fn default_config_view() -> ConfigView {
    ("🚀"@, encode_utf8("script.sh"@))
}

/// The configuration in force after a load attempt: the parsed file where
/// there was one, the defaults otherwise.
pub open spec fn loaded_config_view(parsed: Option<ConfigView>) -> ConfigView {
    match parsed {
        Some(c) => c,
        None => default_config_view(),
    }
}

/// Name of the directory, under the user's configuration directory, that
/// holds one configuration file per toggle instance.
pub open spec fn config_dir_name() -> Seq<char> {
    "bash-toggle"@
}

/// The name of the configuration file of instance `id`.
pub open spec fn config_file_name_view(id: Seq<char>) -> Seq<char> {
    id + ".json"@
}

/// The path `path` starts at its root: it is absolute.
pub open spec fn starts_at_root(path: Seq<char>) -> bool {
    path.len() > 0 && path[0] == '/'
}

/// A component `..` followed by a separator starts at position `i` of
/// `path`: the path climbs out of the directory it is joined to.
pub open spec fn climbs_at(path: Seq<char>, i: int) -> bool {
    &&& 0 <= i
    &&& i + 2 < path.len()
    &&& path[i] == '.'
    &&& path[i + 1] == '.'
    &&& path[i + 2] == '/'
    &&& (i == 0 || path[i - 1] == '/')
}

/// A relative path that never climbs above the directory it is joined to.
pub open spec fn stays_inside(path: Seq<char>) -> bool {
    !starts_at_root(path) && forall|i: int| !#[trigger] climbs_at(path, i)
}

/// An instance id whose file `<id>.json` lies inside the toggle's own
/// directory: it is relative and has no `..` component before its last.
/// Ids such as `a/b` name a file in a subdirectory; ids such as `/tmp/x` or
/// `../x` would name a file elsewhere and are refused.
pub open spec fn is_instance_id(id: Seq<char>) -> bool {
    stays_inside(id)
}

/// Where the configuration file of an instance lives: the base directory
/// (as the operating system's bytes), the toggle's own directory, and the
/// file's name.
#[derive(Clone, Debug, PartialEq, Eq)]
pub struct ConfigLocation {
    pub base: Vec<u8>,
    pub dir_name: String,
    pub file_name: String,
}

/// A location as plain values: `(base bytes, directory name, file name)`.
pub type LocationView = (Seq<u8>, Seq<char>, Seq<char>);

impl View for ConfigLocation {
    type V = LocationView;

    open spec fn view(&self) -> LocationView {
        (self.base@, self.dir_name@, self.file_name@)
    }
}

/// The location of the configuration file of instance `id`: under the
/// user's configuration directory (the working directory where the user has
/// none), in `bash-toggle`, named `<id>.json`.
pub open spec fn config_location_view(base: Option<Seq<u8>>, id: Seq<char>) -> LocationView {
    let root = match base {
        Some(b) => b,
        None => encode_utf8("."@),
    };
    (root, config_dir_name(), config_file_name_view(id))
}

/// Instances with different ids keep their configuration in the same
/// directory under different file names, and each file name is a relative
/// path that never climbs out of that directory.
pub proof fn lemma_instances_have_separate_files(
    base: Option<Seq<u8>>,
    first: Seq<char>,
    second: Seq<char>,
)
    requires
        is_instance_id(first),
        is_instance_id(second),
        first != second,
    ensures
        config_location_view(base, first).0 == config_location_view(base, second).0,
        config_location_view(base, first).1 == config_location_view(base, second).1,
        config_location_view(base, first).2 != config_location_view(base, second).2,
        stays_inside(config_location_view(base, first).2),
        stays_inside(config_location_view(base, second).2),
{
    reveal_strlit(".json");
    let suffix = ".json"@;
    assert(suffix.len() == 5);
    lemma_file_name_stays_inside(first);
    lemma_file_name_stays_inside(second);
    let a = first + suffix;
    let b = second + suffix;
    if a == b {
        assert(first.len() == second.len());
        assert(first =~= second) by {
            assert forall|i: int| 0 <= i < first.len() implies first[i] == second[i] by {
                assert(a[i] == first[i]);
                assert(b[i] == second[i]);
            }
        }
    }
}

/// The file name of a valid instance id stays inside the directory.
proof fn lemma_file_name_stays_inside(id: Seq<char>)
    requires
        is_instance_id(id),
    ensures
        stays_inside(config_file_name_view(id)),
{
    reveal_strlit(".json");
    let suffix = ".json"@;
    assert(suffix.len() == 5);
    let name = config_file_name_view(id);
    assert forall|k: int| 0 <= k < suffix.len() implies suffix[k] != '/' by {}
    if id.len() == 0 {
        assert(name[0] == '.');
    } else {
        assert(name[0] == id[0]);
    }
    assert forall|i: int| !#[trigger] climbs_at(name, i) by {
        if climbs_at(name, i) {
            if i + 2 < id.len() {
                assert(name[i] == id[i] && name[i + 1] == id[i + 1] && name[i + 2] == id[i + 2]);
                if i > 0 {
                    assert(name[i - 1] == id[i - 1]);
                }
                assert(climbs_at(id, i));
            } else {
                assert(name[i + 2] == suffix[i + 2 - id.len()]);
            }
        }
    }
}

impl PersistentConfig {
    /// The configuration used when no file could be read.
    pub fn default_config() -> (config: Self)
        ensures
            config@ == default_config_view(),
    {
        PersistentConfig { emoji: String::from_str("🚀"), script_path: "script.sh".as_bytes_vec() }
    }

    /// Chooses the configuration to start with, given what parsing the
    /// instance's file gave (`None` where the file was missing or did not
    /// parse).
    pub fn from_loaded(parsed: Option<PersistentConfig>) -> (config: Self)
        ensures
            config@ == loaded_config_view(
                match parsed {
                    Some(p) => Some(p@),
                    None => None,
                },
            ),
    {
        match parsed {
            Some(p) => p,
            None => Self::default_config(),
        }
    }
}

/// Whether `id` can name an instance: it is relative and has no `..`
/// component before its last.
pub fn is_valid_instance_id(id: &str) -> (valid: bool)
    ensures
        valid == is_instance_id(id@),
{
    let n = id.unicode_len();
    if n > 0 && id.get_char(0) == '/' {
        return false;
    }
    let mut i: usize = 0;
    while i < n
        invariant
            n == id@.len(),
            i <= n,
            !starts_at_root(id@),
            forall|k: int| 0 <= k < i ==> !#[trigger] climbs_at(id@, k),
        decreases n - i,
    {
        if n - i > 2 && id.get_char(i) == '.' && id.get_char(i + 1) == '.' && id.get_char(i + 2)
            == '/' && (i == 0 || id.get_char(i - 1) == '/') {
            assert(climbs_at(id@, i as int));
            return false;
        }
        i = i + 1;
    }
    assert forall|k: int| !#[trigger] climbs_at(id@, k) by {
        if k >= n {
            assert(!(k + 2 < id@.len()));
        }
    }
    true
}

/// The file name that holds the configuration of instance `id`.
pub fn config_file_name(id: &str) -> (name: String)
    ensures
        name@ == config_file_name_view(id@),
{
    let mut name = String::from_str(id);
    name.append(".json");
    name
}

/// The location of the configuration file of instance `id`, given the
/// user's configuration directory if there is one; `None` where `<id>.json`
/// would lie outside the toggle's directory.
pub fn config_location(base: Option<Vec<u8>>, id: &str) -> (location: Option<ConfigLocation>)
    ensures
        location is Some <==> is_instance_id(id@),
        location matches Some(l) ==> l@ == config_location_view(
            match base {
                Some(b) => Some(b@),
                None => None,
            },
            id@,
        ),
{
    if !is_valid_instance_id(id) {
        return None;
    }
    let root = match base {
        Some(b) => b,
        None => ".".as_bytes_vec(),
    };
    Some(
        ConfigLocation {
            base: root,
            dir_name: String::from_str("bash-toggle"),
            file_name: config_file_name(id),
        },
    )
}


/// Which ids name an instance, in terms of their characters: exactly those
/// that do not start with `/` and in which no `..` that begins a component
/// (at the start or right after a `/`) is followed by `/`. Every other id,
/// such as `work-vpn`, `a/b`, `..` or `a/..`, is accepted.
pub proof fn lemma_instance_id_rule(id: Seq<char>)
    ensures
        is_instance_id(id) <==> {
            &&& !(id.len() > 0 && id[0] == '/')
            &&& forall|i: int|
                0 <= i && i + 2 < id.len() && #[trigger] id[i] == '.' && id[i + 1] == '.' && id[i
                    + 2] == '/' ==> i > 0 && id[i - 1] != '/'
        },
{
    if is_instance_id(id) {
        assert forall|i: int|
            0 <= i && i + 2 < id.len() && #[trigger] id[i] == '.' && id[i + 1] == '.' && id[i
                + 2] == '/' implies i > 0 && id[i - 1] != '/' by {
            assert(!climbs_at(id, i));
        }
    }
}

/// Where an accepted instance keeps its configuration: in the user's
/// configuration directory (the working directory `.` where there is none),
/// in `bash-toggle`, in a file named by the id followed by `.json`.
pub proof fn lemma_location_parts(base: Option<Seq<u8>>, id: Seq<char>)
    ensures
        ({
            let l = config_location_view(base, id);
            &&& base matches Some(b) ==> l.0 == b
            &&& base is None ==> l.0 == encode_utf8("."@)
            &&& l.1 == "bash-toggle"@
            &&& l.2.len() == id.len() + 5
            &&& l.2.subrange(0, id.len() as int) == id
            &&& l.2.subrange(id.len() as int, id.len() + 5int) == ".json"@
        }),
{
    reveal_strlit(".json");
    let l = config_location_view(base, id);
    assert(l.2.subrange(0, id.len() as int) =~= id);
    assert(l.2.subrange(id.len() as int, id.len() + 5int) =~= ".json"@);
}

/// The configuration in force after a load: the parsed file where there was
/// one, a rocket with `script.sh` otherwise.
pub proof fn lemma_loaded_config(parsed: Option<ConfigView>)
    ensures
        parsed matches Some(c) ==> loaded_config_view(parsed) == c,
        parsed is None ==> loaded_config_view(parsed) == ("🚀"@, encode_utf8("script.sh"@)),
{
}
} // verus!
