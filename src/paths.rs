//! Path arithmetic over the XDG base-directory variables: which directories
//! are searched, in which order, and where overrides are written.
use vstd::prelude::*;
use vstd::string::*;
use crate::text::chars_of;

verus! {

/// Data directories searched when the variable is unset.
pub const DEFAULT_DATA_DIRS: &'static str = "/usr/local/share:/usr/share";

/// Configuration directories searched when the variable is unset, and the
/// directory searched last in any case.
pub const DEFAULT_CONFIG_DIRS: &'static str = "/etc/xdg";

/// Appended to the home directory when the config-home variable is unset.
pub const CONFIG_HOME_SUFFIX: &'static str = "/.config";

/// Appended to the home directory when the data-home variable is unset.
pub const DATA_HOME_SUFFIX: &'static str = "/.local/share";

/// The subdirectory of a data directory that holds desktop entries.
pub const APPLICATIONS: &'static str = "applications";

/// The extension of a desktop entry, with its dot.
pub const DESKTOP_SUFFIX: &'static str = ".desktop";

/// The environment fell short of what a path needs.
#[derive(Clone, Copy, Debug, PartialEq, Eq, Structural)]
pub enum EnvError {
    /// The home directory is needed as a fallback and is not set.
    HomeMissing,
}

/// The five values that the XDG variables hold (`None` where one is unset).
pub struct XdgEnv {
    pub config_home: Option<String>,
    pub config_dirs: Option<String>,
    pub data_home: Option<String>,
    pub data_dirs: Option<String>,
    pub home: Option<String>,
}

/// The value of a variable, or the default when it is unset.
pub open spec fn value_or(v: Option<String>, default: Seq<char>) -> Seq<char> {
    match v {
        Some(s) => s@,
        None => default,
    }
}

/// A colon-separated list cut into its items, empty items included; an
/// empty text is one empty item.
pub open spec fn split_on_colon(s: Seq<char>) -> Seq<Seq<char>>
    decreases s.len(),
{
    if s.len() == 0 {
        seq![Seq::empty()]
    } else {
        let prev = split_on_colon(s.drop_last());
        if s.last() == ':' {
            prev.push(Seq::empty())
        } else {
            prev.update(prev.len() - 1, prev.last().push(s.last()))
        }
    }
}

/// `name` appended to `base` as a path component: an absolute `name`
/// replaces `base`, and a separator is added unless `base` is empty or
/// already ends with one.
pub open spec fn join_spec(base: Seq<char>, name: Seq<char>) -> Seq<char> {
    if name.len() > 0 && name[0] == '/' {
        name
    } else if base.len() == 0 {
        name
    } else if base.last() == '/' {
        base + name
    } else {
        base.push('/') + name
    }
}

/// The views of a list of strings.
pub open spec fn views(v: Seq<String>) -> Seq<Seq<char>> {
    v.map_values(|p: String| p@)
}

/// The file name has the extension `desktop`: it ends with `.desktop` and
/// something precedes that dot.
pub open spec fn is_desktop_name(name: Seq<char>) -> bool {
    name.len() > DESKTOP_SUFFIX@.len() && name.skip(name.len() - DESKTOP_SUFFIX@.len()) == DESKTOP_SUFFIX@
}

/// Cuts a colon-separated list into its items, in order.
pub fn split_paths(s: &str) -> (r: Vec<String>)
    ensures
        views(r@) == split_on_colon(s@),
{
    let cs = chars_of(s);
    let mut parts: Vec<String> = Vec::new();
    let mut start: usize = 0;
    proof {
        assert(s@.take(0) =~= Seq::<char>::empty());
        assert(views(parts@).push(s@.subrange(0, 0)) =~= seq![Seq::<char>::empty()]);
    }
    for i in 0..cs.len()
        invariant
            start <= i,
            cs@ == s@,
            views(parts@).push(s@.subrange(start as int, i as int)) == split_on_colon(s@.take(i as int)),
    {
        proof {
            assert(s@.take(i + 1).drop_last() =~= s@.take(i as int));
            assert(s@.take(i + 1).last() == cs@[i as int]);
        }
        if cs[i] == ':' {
            let part = String::from_str(s.substring_char(start, i));
            let ghost before = parts@;
            parts.push(part);
            start = i + 1;
            proof {
                assert(views(parts@) =~= views(before).push(part@)) by {
                    assert(parts@ =~= before.push(part));
                }
                assert(s@.subrange(start as int, i + 1) =~= Seq::<char>::empty());
            }
        } else {
            proof {
                assert(s@.subrange(start as int, i + 1) =~= s@.subrange(start as int, i as int).push(cs@[i as int]));
                let prev = views(parts@).push(s@.subrange(start as int, i as int));
                assert(prev.update(prev.len() - 1, prev.last().push(cs@[i as int])) =~= views(parts@).push(s@.subrange(start as int, i + 1)));
            }
        }
    }
    let ghost before = parts@;
    let last = String::from_str(s.substring_char(start, cs.len()));
    parts.push(last);
    proof {
        assert(s@.take(cs@.len() as int) =~= s@);
        assert(parts@ =~= before.push(last));
        assert(views(parts@) =~= views(before).push(last@));
    }
    parts
}

/// Appends `name` to `base` as a path component.
pub fn join_path(base: &str, name: &str) -> (r: String)
    ensures
        r@ == join_spec(base@, name@),
{
    let nl = name.unicode_len();
    let bl = base.unicode_len();
    if nl > 0 && name.get_char(0) == '/' {
        return String::from_str(name);
    }
    if bl == 0 {
        return String::from_str(name);
    }
    let mut r = String::from_str(base);
    if base.get_char(bl - 1) != '/' {
        r.append("/");
        proof {
            reveal_strlit("/");
            assert(r@ =~= base@.push('/'));
        }
    }
    r.append(name);
    r
}

/// Whether a file name has the extension `desktop`.
pub fn is_desktop_file_name(name: &str) -> (r: bool)
    ensures
        r == is_desktop_name(name@),
{
    let cs = chars_of(name);
    let sc = chars_of(DESKTOP_SUFFIX);
    if cs.len() <= sc.len() {
        return false;
    }
    let cl = cs.len();
    let off = cl - sc.len();
    for j in 0..sc.len()
        invariant
            cl == cs@.len(),
            off + sc@.len() == cs@.len(),
            cs@ == name@,
            sc@ == DESKTOP_SUFFIX@,
            forall|k: int| 0 <= k < j ==> cs@[off + k] == sc@[k],
    {
        if cs[off + j] != sc[j] {
            assert(name@.skip(off as int)[j as int] != DESKTOP_SUFFIX@[j as int]);
            return false;
        }
    }
    assert(name@.skip(off as int) =~= DESKTOP_SUFFIX@);
    true
}

/// A home-relative directory: the variable's value when it is set, else
/// the home directory followed by `suffix`, else nothing.
pub open spec fn home_or(var: Option<String>, home: Option<String>, suffix: Seq<char>) -> Option<Seq<char>> {
    match var {
        Some(v) => Some(v@),
        None => match home {
            Some(h) => Some(h@ + suffix),
            None => None,
        },
    }
}

/// `name` joined to each directory, in order.
pub open spec fn join_all(dirs: Seq<Seq<char>>, name: Seq<char>) -> Seq<Seq<char>> {
    dirs.map_values(|d: Seq<char>| join_spec(d, name))
}

fn home_relative(var: &Option<String>, home: &Option<String>, suffix: &str) -> (r: Result<String, EnvError>)
    ensures
        r matches Ok(s) ==> home_or(*var, *home, suffix@) == Some(s@),
        r is Err <==> home_or(*var, *home, suffix@) is None,
{
    match var {
        Some(v) => Ok(v.clone()),
        None => match home {
            Some(h) => {
                let mut r = h.clone();
                r.append(suffix);
                Ok(r)
            },
            None => Err(EnvError::HomeMissing),
        },
    }
}

/// `name` joined to each directory, in order.
pub fn join_each(dirs: &Vec<String>, name: &str) -> (r: Vec<String>)
    ensures
        views(r@) == join_all(views(dirs@), name@),
{
    let mut r: Vec<String> = Vec::new();
    for i in 0..dirs.len()
        invariant
            views(r@) == join_all(views(dirs@.take(i as int)), name@),
    {
        let ghost before = r@;
        let p = join_path(dirs[i].as_str(), name);
        r.push(p);
        proof {
            assert(r@ =~= before.push(p));
            let a = views(dirs@.take(i as int));
            let d = dirs@[i as int]@;
            assert(views(dirs@.take(i + 1)) =~= a.push(d));
            assert(join_all(a.push(d), name@) =~= join_all(a, name@).push(join_spec(d, name@)));
            assert(views(r@) =~= views(before).push(p@));
            assert(views(r@) =~= join_all(views(dirs@.take(i + 1)), name@));
        }
    }
    assert(dirs@.take(dirs@.len() as int) =~= dirs@);
    r
}

impl XdgEnv {
    /// The user configuration directory, if it can be told.
    pub open spec fn config_home_spec(&self) -> Option<Seq<char>> {
        home_or(self.config_home, self.home, CONFIG_HOME_SUFFIX@)
    }

    /// The user data directory, where overrides are written, if it can be told.
    pub open spec fn data_home_spec(&self) -> Option<Seq<char>> {
        home_or(self.data_home, self.home, DATA_HOME_SUFFIX@)
    }

    /// The system configuration directories, in order.
    pub open spec fn config_dirs_spec(&self) -> Seq<Seq<char>> {
        split_on_colon(value_or(self.config_dirs, DEFAULT_CONFIG_DIRS@))
    }

    /// The data directories searched for entries, in order.
    pub open spec fn data_dirs_spec(&self) -> Seq<Seq<char>> {
        split_on_colon(value_or(self.data_dirs, DEFAULT_DATA_DIRS@))
    }

    /// Where a configuration file is looked for, most specific first: the
    /// user directory, each system directory, then the fixed fallback.
    pub open spec fn config_search_spec(&self, relative: Seq<char>) -> Option<Seq<Seq<char>>> {
        match self.config_home_spec() {
            Some(h) => Some(
                seq![join_spec(h, relative)] + join_all(self.config_dirs_spec(), relative)
                    + seq![join_spec(DEFAULT_CONFIG_DIRS@, relative)],
            ),
            None => None,
        }
    }

    /// The user configuration directory: the config-home variable, or
    /// `<home>/.config`.
    pub fn config_home_dir(&self) -> (r: Result<String, EnvError>)
        ensures
            r matches Ok(s) ==> self.config_home_spec() == Some(s@),
            r is Err <==> self.config_home_spec() is None,
    {
        home_relative(&self.config_home, &self.home, CONFIG_HOME_SUFFIX)
    }

    /// The user data directory: the data-home variable, or
    /// `<home>/.local/share`.
    pub fn data_home_dir(&self) -> (r: Result<String, EnvError>)
        ensures
            r matches Ok(s) ==> self.data_home_spec() == Some(s@),
            r is Err <==> self.data_home_spec() is None,
    {
        home_relative(&self.data_home, &self.home, DATA_HOME_SUFFIX)
    }

    /// The system configuration directories, in order.
    pub fn config_dirs_list(&self) -> (r: Vec<String>)
        ensures
            views(r@) == self.config_dirs_spec(),
    {
        match &self.config_dirs {
            Some(v) => split_paths(v.as_str()),
            None => split_paths(DEFAULT_CONFIG_DIRS),
        }
    }

    /// The data directories, in order.
    pub fn data_dirs_list(&self) -> (r: Vec<String>)
        ensures
            views(r@) == self.data_dirs_spec(),
    {
        match &self.data_dirs {
            Some(v) => split_paths(v.as_str()),
            None => split_paths(DEFAULT_DATA_DIRS),
        }
    }

    /// The candidate paths of a configuration file, in search order.
    pub fn config_search_paths(&self, relative: &str) -> (r: Result<Vec<String>, EnvError>)
        ensures
            r matches Ok(v) ==> self.config_search_spec(relative@) == Some(views(v@)),
            r is Err <==> self.config_search_spec(relative@) is None,
    {
        let home = self.config_home_dir()?;
        let mut r: Vec<String> = Vec::new();
        r.push(join_path(home.as_str(), relative));
        let mut dirs = join_each(&self.config_dirs_list(), relative);
        r.append(&mut dirs);
        r.push(join_path(DEFAULT_CONFIG_DIRS, relative));
        assert(views(r@) =~= self.config_search_spec(relative@)->0);
        Ok(r)
    }

    /// The `applications` directory of each data directory, in order: where
    /// entries are discovered.
    pub fn application_dirs(&self) -> (r: Vec<String>)
        ensures
            views(r@) == join_all(self.data_dirs_spec(), APPLICATIONS@),
    {
        join_each(&self.data_dirs_list(), APPLICATIONS)
    }

    /// The override directory: `applications` under the user data directory.
    pub fn override_dir(&self) -> (r: Result<String, EnvError>)
        ensures
            r matches Ok(s) ==> self.data_home_spec() matches Some(h) && s@ == join_spec(h, APPLICATIONS@),
            r is Err <==> self.data_home_spec() is None,
    {
        let home = self.data_home_dir()?;
        Ok(join_path(home.as_str(), APPLICATIONS))
    }
}

} // verus!
