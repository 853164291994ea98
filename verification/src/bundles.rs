//! Application-bundle paths and names: walking from a bundle's resources
//! directory to the bundle itself, deriving a display name from it, and
//! reading the metadata tool's localized-name output.

use vstd::prelude::*;
use vstd::pervasive::VecAdditionalExecFns;
use crate::text::{is_prefix_of, str_eq, str_starts_with};

verus! {

/// Finds the last occurrence of `c` in `s`.
fn last_index_of_char(s: &str, c: char) -> (r: Option<usize>)
    ensures
        match r {
            Some(i) => s@.index_of_last(c) == Some(i as int),
            None => s@.index_of_last(c) is None,
        },
{
    let n = s.unicode_len();
    let mut i: usize = n;
    while i > 0
        invariant
            i <= n,
            n == s@.len(),
            forall|j: int| i <= j < n ==> s@[j] != c,
        decreases i,
    {
        i -= 1;
        if s.get_char(i) == c {
            proof {
                s@.index_of_last_ensures(c);
                assert(s@.contains(c)) by {
                    assert(s@[i as int] == c);
                }
                let li = s@.index_of_last(c).unwrap();
                if li < i as int {
                    assert(s@[i as int] != c);
                } else if li > i as int {
                    assert(s@[li] != c);
                }
            }
            return Some(i);
        }
    }
    proof {
        s@.index_of_last_ensures(c);
        if s@.contains(c) {
            let w = choose|j: int| 0 <= j < s@.len() && s@[j] == c;
            assert(s@[w] != c);
        }
    }
    None
}

/// Everything after the last slash, or the whole path without one.
pub open spec fn spec_last_component(s: Seq<char>) -> Seq<char> {
    match s.index_of_last('/') {
        Some(i) => s.subrange(i + 1, s.len() as int),
        None => s,
    }
}

/// Everything before the last slash, or nothing for a slash-free path.
pub open spec fn spec_parent_dir(s: Seq<char>) -> Option<Seq<char>> {
    match s.index_of_last('/') {
        Some(i) => Some(s.subrange(0, i)),
        None => None,
    }
}

/// The directory a path lies in.
pub fn parent_dir(s: &str) -> (r: Option<&str>)
    ensures
        r matches Some(p) ==> spec_parent_dir(s@) == Some(p@),
        r is None <==> spec_parent_dir(s@) is None,
{
    proof {
        s@.index_of_last_ensures('/');
    }
    match last_index_of_char(s, '/') {
        Some(i) => Some(s.substring_char(0, i)),
        None => None,
    }
}

/// The bundle directory two levels above its resources directory.
pub open spec fn spec_app_path(resources: Seq<char>) -> Option<Seq<char>> {
    match spec_parent_dir(resources) {
        Some(contents) => spec_parent_dir(contents),
        None => None,
    }
}

/// Walks from a bundle's resources directory up to the bundle itself.
pub fn app_path_from_resources(resources: &str) -> (r: Option<&str>)
    ensures
        r matches Some(p) ==> spec_app_path(resources@) == Some(p@),
        r is None <==> spec_app_path(resources@) is None,
{
    match parent_dir(resources) {
        Some(contents) => parent_dir(contents),
        None => None,
    }
}

/// The extension after the last dot, which may not begin the name.
pub open spec fn spec_file_extension(name: Seq<char>) -> Option<Seq<char>> {
    match name.index_of_last('.') {
        Some(i) => if i > 0 {
            Some(name.subrange(i + 1, name.len() as int))
        } else {
            None
        },
        None => None,
    }
}

/// Whether a file name carries the `icns` extension.
pub fn has_icns_extension(name: &str) -> (r: bool)
    ensures
        r <==> spec_file_extension(name@) == Some("icns"@),
{
    proof {
        name@.index_of_last_ensures('.');
    }
    let n = name.unicode_len();
    match last_index_of_char(name, '.') {
        Some(i) => {
            if i > 0 {
                str_eq(name.substring_char(i + 1, n), "icns")
            } else {
                false
            }
        },
        None => false,
    }
}

/// `s` with every occurrence of `pat` struck out, scanning left to right.
pub open spec fn spec_remove_all(s: Seq<char>, pat: Seq<char>) -> Seq<char>
    decreases s.len(),
{
    if pat.len() == 0 || s.len() < pat.len() {
        s
    } else if is_prefix_of(pat, s) {
        spec_remove_all(s.subrange(pat.len() as int, s.len() as int), pat)
    } else {
        seq![s[0]] + spec_remove_all(s.drop_first(), pat)
    }
}

/// Strikes every occurrence of `pat` out of `s`.
pub fn remove_all(s: &str, pat: &str) -> (r: String)
    requires
        pat@.len() > 0,
    ensures
        r@ == spec_remove_all(s@, pat@),
    decreases s@.len(),
{
    let n = s.unicode_len();
    let m = pat.unicode_len();
    if n < m {
        String::from_str(s)
    } else if str_starts_with(s, pat) {
        let rest = s.substring_char(m, n);
        proof {
            assert(rest@ =~= s@.subrange(pat@.len() as int, s@.len() as int));
        }
        remove_all(rest, pat)
    } else {
        let head = s.substring_char(0, 1);
        let rest = s.substring_char(1, n);
        proof {
            assert(head@ =~= seq![s@[0]]);
            assert(rest@ =~= s@.drop_first());
        }
        let r = String::from_str(head).concat(remove_all(rest, pat).as_str());
        proof {
            assert(r@ =~= spec_remove_all(s@, pat@));
        }
        r
    }
}

/// The display name derived from a bundle path: its last component with
/// every `.app` struck out, or `unknown` where the path ends in a slash.
pub open spec fn spec_app_name(path: Seq<char>) -> Seq<char> {
    let component = spec_last_component(path);
    if component.len() == 0 {
        "unknown"@
    } else {
        spec_remove_all(component, ".app"@)
    }
}

/// Derives the display name of the bundle at `path`.
pub fn app_name_from_path(path: &str) -> (r: String)
    ensures
        r@ == spec_app_name(path@),
{
    proof {
        path@.index_of_last_ensures('/');
    }
    let n = path.unicode_len();
    let component = match last_index_of_char(path, '/') {
        Some(i) => {
            let component = path.substring_char(i + 1, n);
            proof {
                assert(component@ =~= spec_last_component(path@));
            }
            component
        },
        None => path,
    };
    if component.unicode_len() == 0 {
        String::from_str("unknown")
    } else {
        proof {
            reveal_strlit(".app");
        }
        remove_all(component, ".app")
    }
}

/// The error text around an ICNS file that could not be read.
pub fn icns_read_error_message(detail: &str, path: &str) -> (r: String)
    ensures
        r@ == "Failed to read ICNS file: "@ + detail@ + " for path "@ + path@,
{
    String::from_str("Failed to read ICNS file: ").concat(detail).concat(" for path ").concat(path)
}

/// The marker the metadata tool prints before each localized name.
pub fn mdls_name_prefix() -> (r: &'static str)
    ensures
        r@ == "kMDItemDisplayName = \""@,
{
    "kMDItemDisplayName = \""
}

/// The localized name carried by one line of the metadata tool's output:
/// what stands between the marker and the closing quote.  A line without
/// the marker carries none; nor does a bare marker line, which the tool
/// never prints.
pub open spec fn mdls_line_name(line: Seq<char>) -> Option<Seq<char>> {
    let prefix = "kMDItemDisplayName = \""@;
    if is_prefix_of(prefix, line) && line.len() > prefix.len() {
        Some(line.subrange(prefix.len() as int, line.len() - 1))
    } else {
        None
    }
}

/// Every localized name in the tool's output lines, in order.
pub open spec fn mdls_names(lines: Seq<String>) -> Seq<Seq<char>>
    decreases lines.len(),
{
    if lines.len() == 0 {
        Seq::empty()
    } else {
        let rest = mdls_names(lines.drop_first());
        match mdls_line_name(lines[0]@) {
            Some(n) => seq![n] + rest,
            None => rest,
        }
    }
}

proof fn lemma_mdls_names_snoc(lines: Seq<String>, l: String)
    ensures
        mdls_names(lines.push(l)) == mdls_names(lines) + (match mdls_line_name(l@) {
            Some(n) => seq![n],
            None => Seq::<Seq<char>>::empty(),
        }),
    decreases lines.len(),
{
    let tail = match mdls_line_name(l@) {
        Some(n) => seq![n],
        None => Seq::<Seq<char>>::empty(),
    };
    let t = lines.push(l);
    assert(t.len() == lines.len() + 1);
    if lines.len() == 0 {
        assert(t[0] == l);
        assert(t.drop_first() =~= Seq::<String>::empty());
        match mdls_line_name(l@) {
            Some(n) => {
                assert(mdls_names(t) == seq![n] + mdls_names(t.drop_first()));
                assert(mdls_names(t) =~~= mdls_names(lines) + tail);
            },
            None => {
                assert(mdls_names(t) == mdls_names(t.drop_first()));
                assert(mdls_names(t) =~~= mdls_names(lines) + tail);
            },
        }
    } else {
        assert(t[0] == lines[0]);
        assert(t.drop_first() =~= lines.drop_first().push(l));
        lemma_mdls_names_snoc(lines.drop_first(), l);
        assert(mdls_names(t.drop_first()) == mdls_names(lines.drop_first()) + tail);
        match mdls_line_name(lines[0]@) {
            Some(n) => {
                assert(mdls_names(t) == seq![n] + mdls_names(t.drop_first()));
                assert(mdls_names(lines) == seq![n] + mdls_names(lines.drop_first()));
                assert(seq![n] + (mdls_names(lines.drop_first()) + tail) =~~= (seq![n]
                    + mdls_names(lines.drop_first())) + tail);
            },
            None => {
                assert(mdls_names(t) == mdls_names(t.drop_first()));
                assert(mdls_names(lines) == mdls_names(lines.drop_first()));
            },
        }
    }
}

/// Pairs the tool's output names with the first `count` queried bundles:
/// the name on the `k`-th marker line answers the `k`-th bundle, and
/// bundles beyond the names — or names beyond the bundles — are dropped.
pub fn parse_mdls_names(lines: &Vec<String>, count: usize) -> (r: Vec<Option<String>>)
    ensures
        r@.len() == count,
        forall|i: int|
            0 <= i < count ==> (((#[trigger] r@[i]) matches Some(n) ==> i < mdls_names(
                lines@,
            ).len() && n@ == mdls_names(lines@)[i]) && (r@[i] is None ==> i >= mdls_names(
                lines@,
            ).len())),
{
    let mut out: Vec<Option<String>> = Vec::new();
    let mut fill: usize = 0;
    while fill < count
        invariant
            out@.len() == fill,
            fill <= count,
            forall|i: int| 0 <= i < fill ==> out@[i] is None,
        decreases count - fill,
    {
        out.push(None);
        fill += 1;
    }
    let prefix = mdls_name_prefix();
    let plen = prefix.unicode_len();
    let mut k: usize = 0;
    let mut li: usize = 0;
    while li < lines.len()
        invariant
            li <= lines@.len(),
            out@.len() == count,
            plen == "kMDItemDisplayName = \""@.len(),
            prefix@ == "kMDItemDisplayName = \""@,
            k <= li,
            k == mdls_names(lines@.subrange(0, li as int)).len(),
            forall|i: int|
                0 <= i < count ==> (((#[trigger] out@[i]) matches Some(n) ==> i < k && n@
                    == mdls_names(lines@.subrange(0, li as int))[i]) && (out@[i] is None ==> i
                    >= k)),
        decreases lines@.len() - li,
    {
        let ghost pre = lines@.subrange(0, li as int);
        let line = &lines[li];
        let n = line.as_str().unicode_len();
        if str_starts_with(line.as_str(), prefix) && n > plen {
            let name = String::from_str(line.as_str().substring_char(plen, n - 1));
            proof {
                assert(mdls_line_name(line@) == Some(name@));
            }
            if k < count {
                out.set(k, Some(name));
            }
            proof {
                lemma_mdls_names_snoc(pre, lines@[li as int]);
                assert(lines@.subrange(0, li + 1) =~= pre.push(lines@[li as int]));
            }
            k += 1;
        } else {
            proof {
                lemma_mdls_names_snoc(pre, lines@[li as int]);
                assert(lines@.subrange(0, li + 1) =~= pre.push(lines@[li as int]));
            }
        }
        li += 1;
    }
    proof {
        assert(lines@.subrange(0, lines@.len() as int) =~= lines@);
    }
    out
}

} // verus!
