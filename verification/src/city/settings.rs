//! The configuration of a city: a tree of typed settings and the value object
//! read from it.

pub mod config;
pub mod error;
pub mod script;
pub mod setting;
pub mod tree;

pub use error::Error;

use vstd::prelude::*;
use vstd::string::StringExecFns;
use crate::city::settings::setting::Setting;
use crate::city::settings::tree::{path_of, stored, TreeMap};

verus! {

/// Settings by path.
pub struct Settings {
    tree: TreeMap<Setting>,
}

/// The keys of a path as owned strings.
pub open spec fn names(path: Seq<String>) -> Seq<Seq<char>> {
    path.map_values(|s: String| s@)
}

/// Why a setting cannot be read: none exists at the path, or the one there
/// holds a value of another type.
pub enum Flaw {
    Missing(Seq<Seq<char>>),
    Mistyped(Seq<Seq<char>>),
}

/// The fixed-point number that `tree` holds at `path`, or what is wrong
/// there.
pub open spec fn float_at(tree: TreeMap<Setting>, path: Seq<Seq<char>>) -> Result<i64, Flaw> {
    match tree.lookup(path) {
        None => Err(Flaw::Missing(path)),
        Some(Setting::Float(value)) => Ok(value),
        Some(_) => Err(Flaw::Mistyped(path)),
    }
}

/// The whole number that `tree` holds at `path`, or what is wrong there.
pub open spec fn uint_at(tree: TreeMap<Setting>, path: Seq<Seq<char>>) -> Result<u32, Flaw> {
    match tree.lookup(path) {
        None => Err(Flaw::Missing(path)),
        Some(Setting::Uint(value)) => Ok(value),
        Some(_) => Err(Flaw::Mistyped(path)),
    }
}

/// The text that `tree` holds at `path`, or what is wrong there.
pub open spec fn string_at(tree: TreeMap<Setting>, path: Seq<Seq<char>>) -> Result<String, Flaw> {
    match tree.lookup(path) {
        None => Err(Flaw::Missing(path)),
        Some(Setting::String(value)) => Ok(value),
        Some(_) => Err(Flaw::Mistyped(path)),
    }
}

/// The truth value that `tree` holds at `path`, or what is wrong there.
pub open spec fn bool_at(tree: TreeMap<Setting>, path: Seq<Seq<char>>) -> Result<bool, Flaw> {
    match tree.lookup(path) {
        None => Err(Flaw::Missing(path)),
        Some(Setting::Bool(value)) => Ok(value),
        Some(_) => Err(Flaw::Mistyped(path)),
    }
}

/// Whether `res` reports what `expected` says: the same value, or the error
/// that names the flaw and its path.
pub open spec fn agrees<T>(res: Result<T, Error>, expected: Result<T, Flaw>) -> bool {
    match expected {
        Ok(value) => res matches Ok(read) && read == value,
        Err(Flaw::Missing(path)) => res matches Err(Error::NonexistantSetting(at)) && names(at@)
            == path,
        Err(Flaw::Mistyped(path)) => res matches Err(Error::WrongType(at)) && names(at@) == path,
    }
}

fn owned(path: &Vec<&str>) -> (r: Vec<String>)
    ensures
        names(r@) == path_of(path@),
{
    let mut r: Vec<String> = Vec::new();
    let mut i: usize = 0;
    while i < path.len()
        invariant
            i <= path.len(),
            r.len() == i,
            forall|j: int| 0 <= j < i ==> r@[j]@ == path@[j]@,
        decreases path.len() - i,
    {
        r.push(String::from_str(path[i]));
        i = i + 1;
    }
    assert(names(r@) =~= path_of(path@));
    r
}

impl Default for Settings {
    /// Settings without any setting.
    fn default() -> (r: Self)
        ensures
            forall|path: Seq<Seq<char>>| #[trigger] r.tree().lookup(path) is None,
    {
        Settings::new()
    }
}

impl Settings {
    /// What the settings hold at each path.
    pub closed spec fn tree(self) -> TreeMap<Setting> {
        self.tree
    }

    /// Settings without any setting: the tree is a lone root without key,
    /// value or children. No path leads to a setting, and only the empty path
    /// leads to a node, so that nothing can be set before something was added.
    pub fn new() -> (r: Self)
        ensures
            r.tree().spec_children().len() == 0,
            r.tree().spec_key().len() == 0,
            r.tree().spec_value() is None,
            r.tree().unique_keys(),
            forall|path: Seq<Seq<char>>| #[trigger] r.tree().lookup(path) is None,
            forall|path: Seq<Seq<char>>| #[trigger] r.tree().has_node(path) <==> path.len() == 0,
    {
        let tree = TreeMap::new();
        assert forall|path: Seq<Seq<char>>|
            #![trigger tree.lookup(path)]
            #![trigger tree.has_node(path)]
            tree.lookup(path) is None && (tree.has_node(path) <==> path.len() == 0) by {
            if path.len() > 0 {
                crate::city::settings::tree::lemma_first_named(tree.spec_children(), path[0], 0);
            }
        }
        Self { tree }
    }

    /// Adds the setting `value` at `path`, or replaces the setting there.
    pub fn add(&mut self, path: Vec<&str>, value: Setting)
        ensures
            stored(old(self).tree(), final(self).tree(), path_of(path@), value),
    {
        self.tree.add(path, value);
    }

    /// Replaces the setting at `path` by `value`. Where no setting or group of
    /// settings exists at the path, nothing changes and the error names the path.
    pub fn set(&mut self, path: Vec<&str>, value: Setting) -> (res: Result<(), Error>)
        ensures
            old(self).tree().has_node(path_of(path@)) ==> res is Ok && stored(
                old(self).tree(),
                final(self).tree(),
                path_of(path@),
                value,
            ),
            !old(self).tree().has_node(path_of(path@)) ==> final(self).tree() == old(self).tree(),
            !old(self).tree().has_node(path_of(path@)) ==> (res matches Err(
                Error::NonexistantSetting(at),
            ) && names(at@) == path_of(path@)),
    {
        let at = owned(&path);
        match self.tree.set(path, value) {
            Ok(()) => Ok(()),
            Err(_) => Err(Error::NonexistantSetting(at)),
        }
    }

    /// The fixed-point number at `path`.
    pub fn get_float(&self, path: Vec<&str>) -> (res: Result<i64, Error>)
        ensures
            agrees(res, float_at(self.tree(), path_of(path@))),
    {
        let at = owned(&path);
        match self.tree.get(path) {
            None => Err(Error::NonexistantSetting(at)),
            Some(setting) => match i64::try_from(setting) {
                Ok(value) => Ok(value),
                Err(_) => Err(Error::WrongType(at)),
            },
        }
    }

    /// The whole number at `path`.
    pub fn get_uint(&self, path: Vec<&str>) -> (res: Result<u32, Error>)
        ensures
            agrees(res, uint_at(self.tree(), path_of(path@))),
    {
        let at = owned(&path);
        match self.tree.get(path) {
            None => Err(Error::NonexistantSetting(at)),
            Some(setting) => match u32::try_from(setting) {
                Ok(value) => Ok(value),
                Err(_) => Err(Error::WrongType(at)),
            },
        }
    }

    /// The text at `path`.
    pub fn get_string(&self, path: Vec<&str>) -> (res: Result<String, Error>)
        ensures
            agrees(res, string_at(self.tree(), path_of(path@))),
    {
        let at = owned(&path);
        match self.tree.get(path) {
            None => Err(Error::NonexistantSetting(at)),
            Some(setting) => match String::try_from(setting) {
                Ok(value) => Ok(value),
                Err(_) => Err(Error::WrongType(at)),
            },
        }
    }

    /// The truth value at `path`.
    pub fn get_bool(&self, path: Vec<&str>) -> (res: Result<bool, Error>)
        ensures
            agrees(res, bool_at(self.tree(), path_of(path@))),
    {
        let at = owned(&path);
        match self.tree.get(path) {
            None => Err(Error::NonexistantSetting(at)),
            Some(setting) => match bool::try_from(setting) {
                Ok(value) => Ok(value),
                Err(_) => Err(Error::WrongType(at)),
            },
        }
    }

    /// The fixed-point number called `name` below `base_path`.
    pub fn get_endpoint_float(&self, base_path: Vec<&str>, name: &str) -> (res: Result<i64, Error>)
        ensures
            agrees(res, float_at(self.tree(), path_of(base_path@).push(name@))),
    {
        let mut path = base_path;
        path.push(name);
        assert(path_of(path@) =~= path_of(base_path@).push(name@));
        self.get_float(path)
    }

    /// The text called `name` below `base_path`.
    pub fn get_endpoint_string(&self, base_path: Vec<&str>, name: &str) -> (res: Result<
        String,
        Error,
    >)
        ensures
            agrees(res, string_at(self.tree(), path_of(base_path@).push(name@))),
    {
        let mut path = base_path;
        path.push(name);
        assert(path_of(path@) =~= path_of(base_path@).push(name@));
        self.get_string(path)
    }
}

} // verus!
