//! XDG-aware path resolution for the library directory and the files in it.
//!
//! Paths are text here. The environment is read by the caller and handed in
//! as `XDG_DATA_HOME` and `HOME` values.

use vstd::prelude::*;

use crate::errors::Error;

verus! {

/// What `PathBuf::join` gives for a relative `rel`: a `/` goes between the
/// two parts unless `base` is empty or already ends with one.
pub open spec fn joined(base: Seq<char>, rel: Seq<char>) -> Seq<char> {
    if base.len() > 0 && base.last() != '/' {
        base + "/"@ + rel
    } else {
        base + rel
    }
}

/// Joins the relative path `rel` onto `base`.
pub fn join(base: &str, rel: &str) -> (r: String)
    ensures
        r@ == joined(base@, rel@),
{
    let n = base.unicode_len();
    let mut out = base.to_owned();
    if n > 0 && base.get_char(n - 1) != '/' {
        out.append("/");
    }
    out.append(rel);
    out
}

/// The library directory for the given `XDG_DATA_HOME` and `HOME` values:
/// `$XDG_DATA_HOME/belfry` when that is set, else `$HOME/.local/share/belfry`.
pub open spec fn resolved_root(xdg: Option<Seq<char>>, home: Option<Seq<char>>) -> Option<
    Seq<char>,
> {
    match xdg {
        Some(p) => Some(joined(p, "belfry"@)),
        None => match home {
            Some(h) => Some(joined(joined(h, ".local/share"@), "belfry"@)),
            None => None,
        },
    }
}

/// The view of an optional text.
pub open spec fn opt_view(s: Option<&str>) -> Option<Seq<char>> {
    match s {
        Some(t) => Some(t@),
        None => None,
    }
}

/// Resolves the library root from explicit environment values.
pub fn library_root_resolved(xdg: Option<&str>, home: Option<&str>) -> (r: Result<
    String,
    Error,
>)
    ensures
        match r {
            Ok(p) => resolved_root(opt_view(xdg), opt_view(home)) == Some(p@),
            Err(e) => resolved_root(opt_view(xdg), opt_view(home)) is None && e
                is NoLibraryPath,
        },
{
    if let Some(p) = xdg {
        return Ok(join(p, "belfry"));
    }
    if let Some(h) = home {
        let share = join(h, ".local/share");
        return Ok(join(share.as_str(), "belfry"));
    }
    Err(Error::NoLibraryPath)
}

/// A file or directory directly inside the library root.
pub open spec fn in_library(xdg: Option<Seq<char>>, home: Option<Seq<char>>, name: Seq<char>) -> Option<
    Seq<char>,
> {
    match resolved_root(xdg, home) {
        Some(root) => Some(joined(root, name)),
        None => None,
    }
}

fn library_entry(xdg: Option<&str>, home: Option<&str>, name: &str) -> (r: Result<String, Error>)
    ensures
        match r {
            Ok(p) => in_library(opt_view(xdg), opt_view(home), name@) == Some(p@),
            Err(e) => resolved_root(opt_view(xdg), opt_view(home)) is None && e
                is NoLibraryPath,
        },
{
    let root = library_root_resolved(xdg, home)?;
    Ok(join(root.as_str(), name))
}

/// `<library_root>/belfry.db`.
pub fn database_file(xdg: Option<&str>, home: Option<&str>) -> (r: Result<String, Error>)
    ensures
        match r {
            Ok(p) => in_library(opt_view(xdg), opt_view(home), "belfry.db"@) == Some(p@),
            Err(e) => resolved_root(opt_view(xdg), opt_view(home)) is None && e
                is NoLibraryPath,
        },
{
    library_entry(xdg, home, "belfry.db")
}

/// `<library_root>/shows`.
pub fn shows_dir(xdg: Option<&str>, home: Option<&str>) -> (r: Result<String, Error>)
    ensures
        match r {
            Ok(p) => in_library(opt_view(xdg), opt_view(home), "shows"@) == Some(p@),
            Err(e) => resolved_root(opt_view(xdg), opt_view(home)) is None && e
                is NoLibraryPath,
        },
{
    library_entry(xdg, home, "shows")
}

/// `<library_root>/metadata`.
pub fn metadata_dir(xdg: Option<&str>, home: Option<&str>) -> (r: Result<String, Error>)
    ensures
        match r {
            Ok(p) => in_library(opt_view(xdg), opt_view(home), "metadata"@) == Some(p@),
            Err(e) => resolved_root(opt_view(xdg), opt_view(home)) is None && e
                is NoLibraryPath,
        },
{
    library_entry(xdg, home, "metadata")
}

/// `XDG_DATA_HOME`, when set, decides the library root whatever `HOME` is.
pub proof fn lemma_xdg_preferred_over_home(xdg: Seq<char>, home1: Option<Seq<char>>, home2: Option<Seq<char>>)
    ensures
        resolved_root(Some(xdg), home1) == resolved_root(Some(xdg), home2),
        resolved_root(Some(xdg), home1) == Some(joined(xdg, "belfry"@)),
{
}

/// A root is found exactly when at least one of the two variables is set, and
/// every library path ends in the entry's name.
pub proof fn lemma_root_exists_iff_env_set(xdg: Option<Seq<char>>, home: Option<Seq<char>>, name: Seq<char>)
    ensures
        resolved_root(xdg, home) is Some <==> (xdg is Some || home is Some),
        in_library(xdg, home, name) matches Some(p) ==> p.len() >= name.len() && p.subrange(
            p.len() - name.len(),
            p.len() as int,
        ) == name,
{
    if let Some(root) = resolved_root(xdg, home) {
        let p = joined(root, name);
        assert(p.subrange(p.len() - name.len(), p.len() as int) =~= name);
    }
}

} // verus!
