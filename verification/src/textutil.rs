//! Verified text utilities of the orchestrator: prefix/suffix/containment
//! tests on strings, the request paths sent to the package index, the
//! working-directory path derived from a package identifier, and the
//! selection of the built artifact among directory entries.

use vstd::prelude::*;
use vstd::string::StrSliceExecFns;
use vstd::string::StringExecFns;

verus! {

/// `pre` stands at the front of `s`.
pub open spec fn starts_with_spec(s: Seq<char>, pre: Seq<char>) -> bool {
    pre.is_prefix_of(s)
}

/// `suf` stands at the end of `s`.
pub open spec fn ends_with_spec(s: Seq<char>, suf: Seq<char>) -> bool {
    suf.is_suffix_of(s)
}

/// `sub` occurs somewhere in `s`.
pub open spec fn contains_spec(s: Seq<char>, sub: Seq<char>) -> bool {
    exists|i: int|
        0 <= i && i + sub.len() <= s.len() && (#[trigger] s.subrange(i, i + sub.len())) == sub
}

/// Whether `pre` stands at the front of `s`.
pub fn str_starts_with(s: &str, pre: &str) -> (r: bool)
    ensures
        r == starts_with_spec(s@, pre@),
{
    let n = s.unicode_len();
    let p = pre.unicode_len();
    if p > n {
        return false;
    }
    let mut i: usize = 0;
    while i < p
        invariant
            p <= n,
            n == s@.len(),
            p == pre@.len(),
            i <= p,
            forall|k: int| 0 <= k < i ==> s@[k] == pre@[k],
        decreases p - i,
    {
        if s.get_char(i) != pre.get_char(i) {
            return false;
        }
        i = i + 1;
    }
    proof {
        assert(s@.subrange(0, pre@.len() as int) =~= pre@);
    }
    true
}

/// Whether `suf` stands at the end of `s`.
pub fn str_ends_with(s: &str, suf: &str) -> (r: bool)
    ensures
        r == ends_with_spec(s@, suf@),
{
    let n = s.unicode_len();
    let p = suf.unicode_len();
    if p > n {
        return false;
    }
    let off = n - p;
    let mut i: usize = 0;
    while i < p
        invariant
            p <= n,
            n == s@.len(),
            p == suf@.len(),
            off == n - p,
            i <= p,
            forall|k: int| 0 <= k < i ==> s@[off + k] == suf@[k],
        decreases p - i,
    {
        if s.get_char(off + i) != suf.get_char(i) {
            return false;
        }
        i = i + 1;
    }
    proof {
        assert(s@.subrange(s@.len() - suf@.len(), s@.len() as int) =~= suf@);
    }
    true
}

/// Whether `sub` stands in `s` at position `at`.
fn matches_at(s: &str, sub: &str, at: usize) -> (r: bool)
    requires
        at + sub@.len() <= s@.len(),
    ensures
        r == (s@.subrange(at as int, at + sub@.len()) == sub@),
{
    let p = sub.unicode_len();
    let n = s.unicode_len();
    let mut i: usize = 0;
    while i < p
        invariant
            at + p <= n,
            n == s@.len(),
            p == sub@.len(),
            i <= p,
            forall|k: int| 0 <= k < i ==> s@[at + k] == sub@[k],
        decreases p - i,
    {
        if s.get_char(at + i) != sub.get_char(i) {
            proof {
                let w = s@.subrange(at as int, at + sub@.len());
                assert(w[i as int] == s@[at + i]);
            }
            return false;
        }
        i = i + 1;
    }
    proof {
        assert(s@.subrange(at as int, at + sub@.len()) =~= sub@);
    }
    true
}

/// Whether `sub` occurs somewhere in `s`.
pub fn str_contains(s: &str, sub: &str) -> (r: bool)
    ensures
        r == contains_spec(s@, sub@),
{
    let n = s.unicode_len();
    let p = sub.unicode_len();
    if p > n {
        return false;
    }
    if p == 0 {
        proof {
            assert(s@.subrange(0, 0 + sub@.len() as int) =~= sub@);
        }
        return true;
    }
    let mut i: usize = 0;
    while i <= n - p
        invariant
            1 <= p <= n,
            n == s@.len(),
            p == sub@.len(),
            i <= n - p + 1,
            forall|j: int| 0 <= j < i ==> (#[trigger] s@.subrange(j, j + sub@.len())) != sub@,
        decreases n - i,
    {
        if matches_at(s, sub, i) {
            return true;
        }
        i = i + 1;
    }
    false
}

/// The index query path for a free-text search.
pub open spec fn search_url_spec(term: Seq<char>) -> Seq<char> {
    "https://aur.archlinux.org/rpc/?v=5&type=search&arg="@ + term
}

/// The index query path for one package's metadata.
pub open spec fn info_url_spec(name: Seq<char>) -> Seq<char> {
    "https://aur.archlinux.org/rpc/?v=5&type=info&arg="@ + name
}

/// The archive address built from the locator the index returned.
pub open spec fn archive_url_spec(urlpath: Seq<char>) -> Seq<char> {
    "https://aur.archlinux.org"@ + urlpath
}

/// The working directory derived from a package identifier. The one-at-a-time
/// invariant rules out collisions between concurrent operations; a leftover
/// directory from an earlier failed run at the same path is tolerated by the
/// unpack step, not by choosing a fresh name.
pub open spec fn dest_path_spec(name: Seq<char>) -> Seq<char> {
    "/tmp/"@ + name
}

/// A file name under a directory.
pub open spec fn path_join_spec(dir: Seq<char>, file: Seq<char>) -> Seq<char> {
    dir + "/"@ + file
}

/// The search query sent to the package index for `term`.
pub fn search_url(term: &str) -> (r: String)
    ensures
        r@ == search_url_spec(term@),
{
    let mut s = "https://aur.archlinux.org/rpc/?v=5&type=search&arg=".to_owned();
    s.append(term);
    s
}

/// The metadata query sent to the package index for `name`.
pub fn info_url(name: &str) -> (r: String)
    ensures
        r@ == info_url_spec(name@),
{
    let mut s = "https://aur.archlinux.org/rpc/?v=5&type=info&arg=".to_owned();
    s.append(name);
    s
}

/// The archive address for the locator the index returned.
pub fn archive_url(urlpath: &str) -> (r: String)
    ensures
        r@ == archive_url_spec(urlpath@),
{
    let mut s = "https://aur.archlinux.org".to_owned();
    s.append(urlpath);
    s
}

/// The working directory for one package's sources.
pub fn dest_path_for(name: &str) -> (r: String)
    ensures
        r@ == dest_path_spec(name@),
{
    let mut s = "/tmp/".to_owned();
    s.append(name);
    s
}

/// The full path of a file inside a directory.
pub fn path_join(dir: &str, file: &str) -> (r: String)
    ensures
        r@ == path_join_spec(dir@, file@),
{
    let mut s = dir.to_owned();
    s.append("/");
    s.append(file);
    s
}

/// A directory entry that is the built artifact for `pkg`: its name carries
/// the package identifier in front and the packaging extension at the end.
pub open spec fn is_artifact_name(e: Seq<char>, pkg: Seq<char>) -> bool {
    starts_with_spec(e, pkg) && ends_with_spec(e, ".pkg.tar.zst"@)
}

/// The first artifact name among the directory entries, in their order.
pub open spec fn first_artifact(entries: Seq<Seq<char>>, pkg: Seq<char>) -> Option<Seq<char>>
    decreases entries.len(),
{
    if entries.len() == 0 {
        None
    } else if is_artifact_name(entries[0], pkg) {
        Some(entries[0])
    } else {
        first_artifact(entries.drop_first(), pkg)
    }
}

proof fn lemma_first_artifact_skip(entries: Seq<Seq<char>>, pkg: Seq<char>, i: int)
    requires
        0 <= i <= entries.len(),
        forall|j: int| 0 <= j < i ==> !is_artifact_name(#[trigger] entries[j], pkg),
    ensures
        first_artifact(entries, pkg) == first_artifact(entries.skip(i), pkg),
    decreases i,
{
    if i > 0 {
        assert(entries.drop_first() =~= entries.skip(1));
        assert(forall|j: int|
            0 <= j < i - 1 ==> !is_artifact_name(#[trigger] entries.skip(1)[j], pkg));
        lemma_first_artifact_skip(entries.skip(1), pkg, i - 1);
        assert(entries.skip(1).skip(i - 1) =~= entries.skip(i));
    } else {
        assert(entries.skip(0) =~= entries);
    }
}

/// The built artifact among the directory entries: the first file name that
/// starts with the package identifier and ends with the packaging extension;
/// `None` when no entry qualifies, which the orchestrator reports as
/// `ArtifactNotFound`.
pub fn find_package_file(entries: &Vec<String>, package_name: &str) -> (r: Option<String>)
    ensures
        r.deep_view() == first_artifact(entries.deep_view(), package_name@),
{
    let mut i: usize = 0;
    while i < entries.len()
        invariant
            i <= entries@.len(),
            forall|j: int|
                0 <= j < i ==> !is_artifact_name(#[trigger] entries.deep_view()[j], package_name@),
        decreases entries@.len() - i,
    {
        let e = &entries[i];
        proof {
            assert(entries.deep_view()[i as int] == entries@[i as int]@);
        }
        if str_starts_with(e.as_str(), package_name) && str_ends_with(e.as_str(), ".pkg.tar.zst") {
            proof {
                lemma_first_artifact_skip(entries.deep_view(), package_name@, i as int);
                assert(entries.deep_view().skip(i as int)[0] == entries.deep_view()[i as int]);
            }
            return Some(e.clone());
        }
        i = i + 1;
    }
    proof {
        lemma_first_artifact_skip(entries.deep_view(), package_name@, entries@.len() as int);
        assert(entries.deep_view().skip(entries@.len() as int).len() == 0);
    }
    None
}

} // verus!
