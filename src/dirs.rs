use vstd::prelude::*;

use crate::path::is_absolute;
use crate::path::join_path;
use crate::path::path_is_absolute;
use crate::path::path_join;
use crate::text::string_views;

verus! {

/// Ordered directories searched for the shell's files, without duplicates.
pub struct SearchPaths {
    dirs: Vec<String>,
}

/// No directory occurs twice in `s`.
pub open spec fn no_duplicates(s: Seq<Seq<char>>) -> bool {
    forall|i: int, j: int| 0 <= i < j < s.len() ==> s[i] != s[j]
}

impl View for SearchPaths {
    type V = Seq<Seq<char>>;

    closed spec fn view(&self) -> Seq<Seq<char>> {
        string_views(self.dirs@)
    }
}

impl SearchPaths {
    /// An empty list.
    pub fn new() -> (r: SearchPaths)
        ensures
            r@ == Seq::<Seq<char>>::empty(),
    {
        let r = SearchPaths { dirs: Vec::new() };
        assert(r@ =~= Seq::<Seq<char>>::empty());
        r
    }

    /// Whether `path` is listed.
    pub fn contains(&self, path: &str) -> (r: bool)
        ensures
            r == self@.contains(path@),
    {
        let target = path.to_owned();
        let mut i: usize = 0;
        while i < self.dirs.len()
            invariant
                i <= self.dirs@.len(),
                target@ == path@,
                forall|j: int| 0 <= j < i ==> self@[j] != path@,
            decreases self.dirs@.len() - i,
        {
            if self.dirs[i] == target {
                assert(self@[i as int] == path@);
                return true;
            }
            i += 1;
        }
        false
    }

    /// Adds `path` unless it is listed already: at the front when `prepend` holds, at the
    /// end otherwise.
    pub fn add_dir(&mut self, path: &str, prepend: bool)
        ensures
            old(self)@.contains(path@) ==> final(self)@ == old(self)@,
            !old(self)@.contains(path@) && prepend ==> final(self)@ == seq![path@] + old(self)@,
            !old(self)@.contains(path@) && !prepend ==> final(self)@ == old(self)@.push(path@),
            no_duplicates(old(self)@) ==> no_duplicates(final(self)@),
    {
        if self.contains(path) {
            return;
        }
        let ghost before = self@;
        if prepend {
            self.dirs.insert(0, path.to_owned());
            assert(self@ =~= seq![path@] + before);
        } else {
            self.dirs.push(path.to_owned());
            assert(self@ =~= before.push(path@));
        }
        proof {
            if no_duplicates(before) {
                assert forall|i: int, j: int| 0 <= i < j < self@.len() implies self@[i] != self@[j] by {
                    if prepend {
                        if i == 0 {
                            assert(self@[j] == before[j - 1]);
                        } else {
                            assert(self@[i] == before[i - 1] && self@[j] == before[j - 1]);
                        }
                    } else if j == before.len() {
                        assert(self@[i] == before[i]);
                    } else {
                        assert(self@[i] == before[i] && self@[j] == before[j]);
                    }
                }
            }
        }
    }

    /// The listed directories, in order.
    pub fn to_vec(&self) -> (r: Vec<String>)
        ensures
            string_views(r@) == self@,
    {
        let mut out: Vec<String> = Vec::new();
        let mut i: usize = 0;
        while i < self.dirs.len()
            invariant
                i <= self.dirs@.len(),
                string_views(out@) == self@.take(i as int),
            decreases self.dirs@.len() - i,
        {
            let ghost prev = string_views(out@);
            let d = self.dirs[i].clone();
            assert(d@ == self@[i as int]);
            out.push(d);
            assert(string_views(out@) =~= prev.push(self@[i as int]));
            assert(prev.push(self@[i as int]) =~= self@.take(i + 1));
            i += 1;
        }
        assert(self@.take(i as int) =~= self@);
        out
    }
}

/// The data and configuration directories of the shell.
pub struct ShellDirs {
    pub data_dirs: SearchPaths,
    pub config_dirs: SearchPaths,
}

/// The system directories: data in `/usr/local/share/rush` then `/usr/share/rush`,
/// configuration in `/etc/rush`. User directories are prepended later.
pub fn init_module() -> (r: ShellDirs)
    ensures
        r.data_dirs@ == seq!["/usr/local/share/rush"@, "/usr/share/rush"@],
        r.config_dirs@ == seq!["/etc/rush"@],
        no_duplicates(r.data_dirs@),
        no_duplicates(r.config_dirs@),
{
    proof {
        reveal_strlit("/usr/local/share/rush");
        reveal_strlit("/usr/share/rush");
    }
    let mut data_dirs = SearchPaths::new();
    data_dirs.add_dir("/usr/local/share/rush", false);
    assert(!data_dirs@.contains("/usr/share/rush"@)) by {
        assert("/usr/share/rush"@.len() != "/usr/local/share/rush"@.len());
    }
    data_dirs.add_dir("/usr/share/rush", false);
    let mut config_dirs = SearchPaths::new();
    config_dirs.add_dir("/etc/rush", false);
    ShellDirs { data_dirs, config_dirs }
}

/// Why a user directory could not be resolved.
#[derive(Clone, Copy, Debug, PartialEq, Eq, Structural)]
pub enum EnvError {
    /// `HOME` is not set.
    HomeNotSet,
}

/// The base directory named by an XDG variable with value `xdg` (if set), falling back to
/// `fallback` below the home directory `home`; a value that is not absolute is ignored.
pub open spec fn xdg_dir_spec(
    xdg: Option<Seq<char>>,
    home: Option<Seq<char>>,
    fallback: Seq<char>,
) -> Option<Seq<char>> {
    if xdg is Some && is_absolute(xdg->0) {
        xdg
    } else if home is Some {
        Some(path_join(home->0, fallback))
    } else {
        None
    }
}

/// The shell's directory below the base directory that `xdg_dir_spec` gives.
pub open spec fn user_dir_spec(
    xdg: Option<Seq<char>>,
    home: Option<Seq<char>>,
    fallback: Seq<char>,
) -> Option<Seq<char>> {
    match xdg_dir_spec(xdg, home, fallback) {
        Some(base) => Some(path_join(base, "rush"@)),
        None => None,
    }
}

/// The view of an optional string.
pub open spec fn opt_view(o: Option<&str>) -> Option<Seq<char>> {
    match o {
        Some(s) => Some(s@),
        None => None,
    }
}

/// Resolves an XDG base directory from the variable's value `xdg` and the home directory
/// `home`, as read from the environment.
pub fn get_xdg_dir(xdg: Option<&str>, home: Option<&str>, fallback_relative: &str) -> (r: Result<
    String,
    EnvError,
>)
    ensures
        match xdg_dir_spec(opt_view(xdg), opt_view(home), fallback_relative@) {
            Some(d) => r matches Ok(s) && s@ == d,
            None => r == Err::<String, EnvError>(EnvError::HomeNotSet),
        },
{
    if let Some(dir) = xdg {
        if path_is_absolute(dir) {
            return Ok(dir.to_owned());
        }
    }
    match home {
        Some(h) => Ok(join_path(h, fallback_relative)),
        None => Err(EnvError::HomeNotSet),
    }
}

/// The shell's directory below the XDG base directory resolved by `get_xdg_dir`.
fn get_user_dir(xdg: Option<&str>, home: Option<&str>, fallback_relative: &str) -> (r: Result<
    String,
    EnvError,
>)
    ensures
        match user_dir_spec(opt_view(xdg), opt_view(home), fallback_relative@) {
            Some(d) => r matches Ok(s) && s@ == d,
            None => r == Err::<String, EnvError>(EnvError::HomeNotSet),
        },
{
    match get_xdg_dir(xdg, home, fallback_relative) {
        Ok(base) => Ok(join_path(base.as_str(), "rush")),
        Err(e) => Err(e),
    }
}

/// The user configuration directory: `$XDG_CONFIG_HOME/rush`, or `$HOME/.config/rush`.
pub fn get_user_config_dir(xdg_config_home: Option<&str>, home: Option<&str>) -> (r: Result<
    String,
    EnvError,
>)
    ensures
        match user_dir_spec(opt_view(xdg_config_home), opt_view(home), ".config"@) {
            Some(d) => r matches Ok(s) && s@ == d,
            None => r == Err::<String, EnvError>(EnvError::HomeNotSet),
        },
{
    get_user_dir(xdg_config_home, home, ".config")
}

/// The user data directory: `$XDG_DATA_HOME/rush`, or `$HOME/.local/share/rush`.
pub fn get_user_data_dir(xdg_data_home: Option<&str>, home: Option<&str>) -> (r: Result<
    String,
    EnvError,
>)
    ensures
        match user_dir_spec(opt_view(xdg_data_home), opt_view(home), ".local/share"@) {
            Some(d) => r matches Ok(s) && s@ == d,
            None => r == Err::<String, EnvError>(EnvError::HomeNotSet),
        },
{
    get_user_dir(xdg_data_home, home, ".local/share")
}

/// The user cache directory: `$XDG_CACHE_HOME/rush`, or `$HOME/.cache/rush`.
pub fn get_user_cache_dir(xdg_cache_home: Option<&str>, home: Option<&str>) -> (r: Result<
    String,
    EnvError,
>)
    ensures
        match user_dir_spec(opt_view(xdg_cache_home), opt_view(home), ".cache"@) {
            Some(d) => r matches Ok(s) && s@ == d,
            None => r == Err::<String, EnvError>(EnvError::HomeNotSet),
        },
{
    get_user_dir(xdg_cache_home, home, ".cache")
}

/// XDG absoluteness: a value that is not an absolute path is ignored, and resolution falls
/// back to the default below the home directory.
pub proof fn lemma_xdg_absoluteness(value: Seq<char>, home: Option<Seq<char>>, fallback: Seq<char>)
    requires
        !is_absolute(value),
    ensures
        xdg_dir_spec(Some(value), home, fallback) == xdg_dir_spec(None, home, fallback),
        home matches Some(h) ==> xdg_dir_spec(Some(value), home, fallback) == Some(
            path_join(h, fallback),
        ),
{
}

} // verus!
