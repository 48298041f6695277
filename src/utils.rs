//! Where things live, and how a source address names a local file.

use vstd::prelude::*;

verus! {

/// The text after the first match of `pattern` in `text`, as the `regex`
/// crate finds it; none when the pattern is invalid or does not match.
pub uninterp spec fn regex_rest(pattern: Seq<char>, text: Seq<char>) -> Option<Seq<char>>;

/// Relies on `regex::Regex::new` and `regex::Regex::find`: what follows the
/// first match depends on the pattern and the text alone.
#[verifier::external_body]
fn text_after_match(pattern: &str, text: &str) -> (r: Option<String>)
    ensures
        r is Some <==> regex_rest(pattern@, text@) is Some,
        r matches Some(s) ==> regex_rest(pattern@, text@) == Some(s@),
{
    let re = regex::Regex::new(pattern).ok()?;
    re.find(text).map(|m| text[m.end()..].to_string())
}

/// The file a `file://` address names.
pub open spec fn file_path_of(url: Seq<char>) -> Option<Seq<char>> {
    regex_rest("^file://"@, url)
}

/// The file a `file://` address names; none for any other address.
pub fn get_file_path(url: &String) -> (r: Option<String>)
    ensures
        r is Some <==> file_path_of(url@) is Some,
        r matches Some(p) ==> file_path_of(url@) == Some(p@),
{
    text_after_match("^file://", url.as_str())
}

/// The index of the last `c` in `s`, or -1.
pub open spec fn last_index(s: Seq<char>, c: char) -> int
    decreases s.len(),
{
    if s.len() == 0 {
        -1
    } else if s.last() == c {
        s.len() - 1
    } else {
        last_index(s.drop_last(), c)
    }
}

proof fn lemma_last_index(s: Seq<char>, c: char, k: int)
    requires
        -1 <= k < s.len(),
        k >= 0 ==> s[k] == c,
        forall|j: int| k < j < s.len() ==> s[j] != c,
    ensures
        last_index(s, c) == k,
    decreases s.len(),
{
    if s.len() > 0 && s.last() != c {
        lemma_last_index(s.drop_last(), c, k);
    }
}

/// Finds the last `c` in `s`.
fn find_last(s: &str, c: char) -> (r: Option<usize>)
    ensures
        r is None ==> last_index(s@, c) == -1,
        r matches Some(k) ==> last_index(s@, c) == k && k < s@.len(),
{
    let n = s.unicode_len();
    let mut k: usize = n;
    while k > 0
        invariant
            n == s@.len(),
            k <= n,
            forall|j: int| k <= j < n ==> s@[j] != c,
        decreases k,
    {
        if s.get_char(k - 1) == c {
            proof {
                lemma_last_index(s@, c, k - 1);
            }
            return Some(k - 1);
        }
        k = k - 1;
    }
    proof {
        lemma_last_index(s@, c, -1);
    }
    None
}

/// The directory of an absolute path: what stands before its last `/`, or
/// `/` for an entry of the root; none for the root and for a path with no `/`.
pub open spec fn parent_of(p: Seq<char>) -> Option<Seq<char>> {
    let k = last_index(p, '/');
    if k < 0 {
        None
    } else if k == 0 {
        if p.len() == 1 {
            None
        } else {
            Some("/"@)
        }
    } else {
        Some(p.subrange(0, k))
    }
}

/// The directory of an absolute path.
pub fn parent_dir(p: &str) -> (r: Option<String>)
    ensures
        r is Some <==> parent_of(p@) is Some,
        r matches Some(d) ==> parent_of(p@) == Some(d@),
{
    match find_last(p, '/') {
        None => None,
        Some(k) => {
            if k == 0 {
                if p.unicode_len() == 1 {
                    None
                } else {
                    Some("/".to_owned())
                }
            } else {
                Some(p.substring_char(0, k).to_owned())
            }
        },
    }
}

/// `name` inside directory `dir`.
pub open spec fn joined(dir: Seq<char>, name: Seq<char>) -> Seq<char> {
    if dir.len() > 0 && dir.last() == '/' {
        dir + name
    } else {
        dir + "/"@ + name
    }
}

/// `name` inside directory `dir`.
pub fn join_path(dir: &str, name: &str) -> (r: String)
    ensures
        r@ == joined(dir@, name@),
{
    let n = dir.unicode_len();
    let mut r = dir.to_owned();
    if n > 0 && dir.get_char(n - 1) == '/' {
        r.append(name);
    } else {
        r.append("/");
        r.append(name);
    }
    r
}

/// The plugin's data directory for a working directory.
pub open spec fn data_dir_of(cwd: Seq<char>) -> Option<Seq<char>> {
    match parent_of(cwd) {
        Some(up) => match parent_of(up) {
            Some(top) => Some(joined(top, "data/tomoon"@)),
            None => None,
        },
        None => None,
    }
}

/// The plugin's data directory: `data/tomoon` two levels above the working
/// directory.
pub fn get_decky_data_dir(cwd: &String) -> (r: Option<String>)
    ensures
        r is Some <==> data_dir_of(cwd@) is Some,
        r matches Some(d) ==> data_dir_of(cwd@) == Some(d@),
{
    let up = parent_dir(cwd.as_str())?;
    let top = parent_dir(up.as_str())?;
    Some(join_path(top.as_str(), "data/tomoon"))
}

/// The settings document's path.
pub fn get_settings_path(cwd: &String) -> (r: Option<String>)
    ensures
        r is Some <==> data_dir_of(cwd@) is Some,
        r matches Some(p) ==> data_dir_of(cwd@) matches Some(d) && p@ == joined(d, "tomoon.json"@),
{
    let dir = get_decky_data_dir(cwd)?;
    Some(join_path(dir.as_str(), "tomoon.json"))
}

/// The directory of saved subscription profiles.
pub fn get_sub_dir(cwd: &String) -> (r: Option<String>)
    ensures
        r is Some <==> data_dir_of(cwd@) is Some,
        r matches Some(p) ==> data_dir_of(cwd@) matches Some(d) && p@ == joined(d, "subs"@),
{
    let dir = get_decky_data_dir(cwd)?;
    Some(join_path(dir.as_str(), "subs"))
}

} // verus!
