//! Where credential sets live on disk: a root directory under the user's
//! home, one directory per application inside it, one file in each.

use std::path::PathBuf;
use vstd::prelude::*;
use vstd::string::*;

verus! {

/// `std::path::PathBuf`, carried through as an opaque value.
#[verifier::external_type_specification]
#[verifier::external_body]
pub struct ExPathBuf(PathBuf);

/// The bytes that the path `p` holds.
pub uninterp spec fn path_bytes(p: PathBuf) -> Seq<u8>;

/// The path that results when `segment` is adjoined to the path `base`, on
/// the platform the crate is built for.
pub uninterp spec fn adjoined(base: Seq<u8>, segment: Seq<char>) -> Seq<u8>;

/// How the path `path` reads when it is shown to a user.
pub uninterp spec fn path_text(path: Seq<u8>) -> Seq<char>;

/// The name of the root directory when the caller gives none.
pub open spec fn default_root() -> Seq<char> {
    ".auth0m2m"@
}

/// The name of the file that holds an application's credential set.
pub open spec fn config_name() -> Seq<char> {
    "config.json"@
}

/// The name of the root directory: the caller's choice, else the default.
pub open spec fn root_name(choice: Option<&str>) -> Seq<char> {
    match choice {
        Some(name) => name@,
        None => default_root(),
    }
}

/// Calls `home::home_dir`. What it returns depends on the environment of the
/// process and on the user database, so nothing is claimed of it.
#[verifier::external_body]
fn home_dir() -> Option<PathBuf> {
    home::home_dir()
}

/// Calls `std::path::Path::join`. The claim: the new path is determined by
/// the bytes of `base` and by `segment`, and `adjoined` is its name.
#[verifier::external_body]
fn join(base: &PathBuf, segment: &str) -> (r: PathBuf)
    ensures
        path_bytes(r) == adjoined(path_bytes(*base), segment@),
{
    base.join(segment)
}

/// `Clone` for `std::path::PathBuf`: the copy holds the bytes of the path
/// that it was made from.
pub assume_specification[ <PathBuf as Clone>::clone ](p: &PathBuf) -> (r: PathBuf)
    ensures
        path_bytes(r) == path_bytes(*p),
;

/// Calls `std::path::Path::exists`. The answer depends on what is on disk at
/// the moment of the call, so nothing is claimed of it.
#[verifier::external_body]
fn is_present(p: &PathBuf) -> bool {
    p.exists()
}

/// Calls `std::path::Path::display` and formats the result. The claim: the
/// text is determined by the bytes of `p`, and `path_text` is its name.
#[verifier::external_body]
pub(crate) fn display(p: &PathBuf) -> (r: String)
    ensures
        r@ == path_text(path_bytes(*p)),
{
    format!("{}", p.display())
}

/// The platform could not tell where the user's home directory is.
#[derive(Debug, Clone, Copy, PartialEq, Eq)]
pub struct HomePathError {}

impl HomePathError {
    /// What to tell the user.
    pub fn message(&self) -> (r: String)
        ensures
            r@ == "Could not find home dir."@,
    {
        String::from_str("Could not find home dir.")
    }
}

/// The root directory under which every application has its own directory.
#[derive(Debug)]
pub struct HomePath {
    p: PathBuf,
}

impl View for HomePath {
    type V = Seq<u8>;

    closed spec fn view(&self) -> Seq<u8> {
        path_bytes(self.p)
    }
}

impl HomePath {
    /// Resolves the root directory under the current user's home directory.
    /// `s` names the root; without it the root is `.auth0m2m`. Fails when the
    /// platform knows no home directory.
    pub fn new(s: Option<&str>) -> (r: Result<HomePath, HomePathError>)
        ensures
            r matches Ok(root) ==> exists|home: Seq<u8>| root@ == adjoined(home, root_name(s)),
    {
        let home = home_dir();
        let ghost given = home;
        let r = HomePath::under(home, s);
        proof {
            if let Some(h) = given {
                assert(r->Ok_0@ == adjoined(path_bytes(h), root_name(s)));
            }
        }
        r
    }

    /// The root directory named `s` (`.auth0m2m` without it) under `home`,
    /// where `home` is what the platform gave as the user's home directory.
    /// The choice of `s` changes the root's name and never its parent.
    pub fn under(home: Option<PathBuf>, s: Option<&str>) -> (r: Result<HomePath, HomePathError>)
        ensures
            match home {
                Some(h) => r matches Ok(root) && root@ == adjoined(path_bytes(h), root_name(s)),
                None => r is Err,
            },
    {
        let val = match s {
            Some(name) => name,
            None => ".auth0m2m",
        };
        match home {
            Some(h) => Ok(HomePath { p: join(&h, val) }),
            None => Err(HomePathError {  }),
        }
    }

    /// The directory of the application `dir_name`: the root with `dir_name`
    /// adjoined, whatever `dir_name` holds.
    pub fn app_dir(&self, dir_name: &str) -> (r: PathBuf)
        ensures
            path_bytes(r) == adjoined(self@, dir_name@),
    {
        join(&self.p, dir_name)
    }

    /// The root directory itself.
    pub fn as_path(&self) -> (r: &PathBuf)
        ensures
            path_bytes(*r) == self@,
    {
        &self.p
    }
}

/// The path of the file that holds the credential set of the application
/// whose directory is `app_dir`.
pub fn config_file(app_dir: &PathBuf) -> (r: PathBuf)
    ensures
        path_bytes(r) == adjoined(path_bytes(*app_dir), config_name()),
{
    join(app_dir, "config.json")
}

/// Whether something exists at `p` right now. A path that cannot be examined
/// counts as absent.
pub fn check_path_exists(p: &PathBuf) -> bool {
    is_present(p)
}

} // verus!
