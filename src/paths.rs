use vstd::prelude::*;
use crate::errors::DotcopterError;

verus! {

/// The home-directory shorthand that may start a declared path.
pub open spec fn is_home_shorthand(path: Seq<char>) -> bool {
    path.len() > 0 && path[0] == '~'
}

/// `path` with a leading `~` replaced by `home`; any other path as it is.
pub open spec fn expanded(path: Seq<char>, home: Seq<char>) -> Seq<char> {
    if is_home_shorthand(path) {
        home + path.drop_first()
    } else {
        path
    }
}

/// `path` with the prefix `home` replaced by `~`, when `path` starts with it.
pub open spec fn tilde_for_home(path: Seq<char>, home: Seq<char>) -> Seq<char> {
    if home.is_prefix_of(path) {
        seq!['~'] + path.skip(home.len() as int)
    } else {
        path
    }
}

/// The part of the canonical path `path` below the canonical directory `dir`,
/// compared component by component; `None` where `path` is not inside `dir`.
pub open spec fn relative_to(path: Seq<char>, dir: Seq<char>) -> Option<Seq<char>> {
    if path == dir {
        Some(Seq::empty())
    } else if dir.len() > 0 && dir.last() == '/' && dir.is_prefix_of(path) {
        Some(path.skip(dir.len() as int))
    } else if (dir + seq!['/']).is_prefix_of(path) {
        Some(path.skip(dir.len() + 1int))
    } else {
        None
    }
}

/// Relies on dirs::home_dir: the current user's home directory, when one can be
/// found and is valid Unicode. It is read from the environment, so nothing is
/// stated of it.
#[verifier::external_body]
pub(crate) fn home_dir() -> (r: Option<String>) {
    match dirs::home_dir() {
        Some(p) => p.into_os_string().into_string().ok(),
        None => None,
    }
}

/// Whether the pattern that matches `home` literally at the start of a text
/// compiles, within the size limits of the regex crate.
pub uninterp spec fn home_pattern_compiles(home: Seq<char>) -> bool;

/// Relies on regex::escape, regex::Regex::new and regex::Regex::replace_all: a
/// pattern anchored at the start of the text that matches `home` literally
/// replaces that prefix of `path`, and only it, with `~`. Whether the pattern
/// compiles depends on `home` alone.
#[verifier::external_body]
fn replace_home_prefix(path: &str, home: &str) -> (r: Result<String, regex::Error>)
    ensures
        r is Ok <==> home_pattern_compiles(home@),
        r matches Ok(s) ==> s@ == tilde_for_home(path@, home@),
{
    let pattern = format!("^{}", regex::escape(home));
    let re = regex::Regex::new(&pattern)?;
    Ok(re.replace_all(path, "~").into_owned())
}

/// Whether `s` starts with `prefix`.
pub fn has_prefix(s: &str, prefix: &str) -> (r: bool)
    ensures
        r == prefix@.is_prefix_of(s@),
{
    let n = prefix.unicode_len();
    let m = s.unicode_len();
    if n > m {
        return false;
    }
    let mut i: usize = 0;
    while i < n
        invariant
            n == prefix@.len(),
            m == s@.len(),
            n <= m,
            i <= n,
            forall|j: int| 0 <= j < i ==> prefix@[j] == s@[j],
        decreases n - i,
    {
        if prefix.get_char(i) != s.get_char(i) {
            return false;
        }
        i = i + 1;
    }
    assert(prefix@ =~= s@.subrange(0, n as int));
    true
}

/// Expands a leading `~` of `path` to `home`.
pub fn expand_home(path: &str, home: &str) -> (r: String)
    ensures
        r@ == expanded(path@, home@),
{
    let n = path.unicode_len();
    if n > 0 && path.get_char(0) == '~' {
        let rest = path.substring_char(1, n);
        String::from_str(home).concat(rest)
    } else {
        String::from_str(path)
    }
}

/// Replaces the prefix `home` of `path` with `~`.
pub fn replace_path_with_tilde(path: &str, home: &str) -> (r: Result<String, DotcopterError>)
    ensures
        r is Ok <==> home_pattern_compiles(home@),
        r matches Ok(s) ==> s@ == tilde_for_home(path@, home@),
        r matches Err(e) ==> e is Regex,
{
    match replace_home_prefix(path, home) {
        Ok(s) => Ok(s),
        Err(e) => Err(DotcopterError::Regex(e)),
    }
}

/// Whether the canonical path `link` lies inside the canonical directory `dir`.
pub fn link_points_into_dir(link: &str, dir: &str) -> (r: bool)
    ensures
        r == relative_to(link@, dir@) is Some,
{
    let n = dir.unicode_len();
    if has_prefix(link, dir) {
        if link.unicode_len() == n {
            assert(link@ =~= dir@);
            return true;
        }
        if n > 0 && dir.get_char(n - 1) == '/' {
            return true;
        }
        let m = link.unicode_len();
        proof {
            assert(dir@ =~= link@.subrange(0, n as int));
        }
        if link.get_char(n) == '/' {
            assert(dir@ + seq!['/'] =~= link@.subrange(0, n + 1));
            return true;
        }
        assert(!(dir@ + seq!['/']).is_prefix_of(link@)) by {
            if (dir@ + seq!['/']).is_prefix_of(link@) {
                assert((dir@ + seq!['/'])[n as int] == link@[n as int]);
            }
        }
        false
    } else {
        assert(link@ != dir@);
        assert(!(dir@ + seq!['/']).is_prefix_of(link@)) by {
            if (dir@ + seq!['/']).is_prefix_of(link@) {
                assert(dir@ =~= link@.subrange(0, n as int));
            }
        }
        false
    }
}

/// The canonical path `link` relative to the canonical directory `dir`.
pub fn link_target_to_relative_path(link: &str, dir: &str) -> (r: Result<String, DotcopterError>)
    ensures
        match relative_to(link@, dir@) {
            Some(rel) => (r matches Ok(s) && s@ == rel),
            None => (r matches Err(e) && e is StripPrefix),
        },
{
    if !link_points_into_dir(link, dir) {
        return Err(
            DotcopterError::StripPrefix { path: String::from_str(link), base: String::from_str(dir) },
        );
    }
    let n = dir.unicode_len();
    let m = link.unicode_len();
    if m == n {
        assert(link@ != dir@ ==> link@.len() > dir@.len()) by {
            if link@ != dir@ {
                if dir@.len() > 0 && dir@.last() == '/' && dir@.is_prefix_of(link@) {
                    assert(link@ =~= dir@);
                }
            }
        }
        return Ok(String::new());
    }
    if n > 0 && dir.get_char(n - 1) == '/' {
        return Ok(String::from_str(link.substring_char(n, m)));
    }
    Ok(String::from_str(link.substring_char(n + 1, m)))
}

} // verus!
