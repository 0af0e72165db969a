//! The handler-discovery helpers: pure functions over file paths and file
//! contents.  Scanning the directory tree and reading files is left to the
//! caller; everything that decides or rewrites is here.
//!
//! A route path is derived from a filesystem path by dropping the fixed
//! source-root prefix, rewriting each segment that begins with an
//! underscore into a brace-delimited path parameter, stripping the source
//! extension, and trimming trailing separators.

use vstd::prelude::*;
use crate::strutil::push_char;
use vstd::string::StringSliceAdditionalSpecFns;

verus! {

/// Whether the needle occurs as a contiguous run inside the haystack.
pub open spec fn sp_contains(h: Seq<u8>, n: Seq<u8>) -> bool {
    exists|i: int| 0 <= i <= h.len() - n.len() && #[trigger] h.subrange(i, i + n.len()) == n
}

fn bytes_match_at(h: &[u8], n: &[u8], i: usize) -> (r: bool)
    requires
        i + n@.len() <= h@.len(),
    ensures
        r == (h@.subrange(i as int, i + n@.len()) == n@),
{
    let hn = h.len();
    let mut k: usize = 0;
    while k < n.len()
        invariant
            hn == h@.len(),
            i + n@.len() <= h@.len(),
            k <= n@.len(),
            forall|x: int| 0 <= x < k ==> h@[i + x] == n@[x],
        decreases n@.len() - k,
    {
        if h[i + k] != n[k] {
            proof {
                assert(h@.subrange(i as int, i + n@.len())[k as int] != n@[k as int]);
            }
            return false;
        }
        k += 1;
    }
    proof {
        assert(h@.subrange(i as int, i + n@.len()) =~= n@);
    }
    true
}

/// Decides whether the needle occurs inside the haystack.
pub fn contains_bytes(h: &[u8], n: &[u8]) -> (r: bool)
    ensures
        r == sp_contains(h@, n@),
{
    if n.len() > h.len() {
        proof {
            assert(!sp_contains(h@, n@));
        }
        return false;
    }
    if n.len() == 0 {
        proof {
            assert(h@.subrange(0, 0 + n@.len() as int) =~= n@);
        }
        return true;
    }
    let mut i: usize = 0;
    while i <= h.len() - n.len()
        invariant
            1 <= n@.len() <= h@.len(),
            i <= h@.len() - n@.len() + 1,
            forall|x: int| 0 <= x < i ==> #[trigger] h@.subrange(x, x + n@.len()) != n@,
        decreases h@.len() - i,
    {
        if bytes_match_at(h, n, i) {
            return true;
        }
        i += 1;
    }
    false
}

/// The handler methods a source file declares, decided by the four fixed
/// handler-signature markers, in the fixed order.
pub open spec fn sp_handler_methods(c: Seq<u8>) -> Seq<Seq<char>> {
    let a: Seq<Seq<char>> = if sp_contains(c, "async fn get".spec_bytes()) {
        seq!["get"@]
    } else {
        Seq::empty()
    };
    let b: Seq<Seq<char>> = if sp_contains(c, "async fn post".spec_bytes()) {
        a.push("post"@)
    } else {
        a
    };
    let d: Seq<Seq<char>> = if sp_contains(c, "async fn delete".spec_bytes()) {
        b.push("delete"@)
    } else {
        b
    };
    if sp_contains(c, "async fn put".spec_bytes()) {
        d.push("put"@)
    } else {
        d
    }
}

/// Scans a file's text for the four handler-signature markers.
pub fn handler_methods(contents: &str) -> (r: Vec<String>)
    ensures
        r.deep_view() == sp_handler_methods(contents.spec_bytes()),
{
    let c = contents.as_bytes();
    let mut r: Vec<String> = Vec::new();
    proof {
        assert(r.deep_view() =~= Seq::<Seq<char>>::empty());
    }
    if contains_bytes(c, "async fn get".as_bytes()) {
        let ghost old_r = r.deep_view();
        r.push(String::from_str("get"));
        proof {
            assert(r.deep_view() =~= old_r.push("get"@));
        }
    }
    if contains_bytes(c, "async fn post".as_bytes()) {
        let ghost old_r = r.deep_view();
        r.push(String::from_str("post"));
        proof {
            assert(r.deep_view() =~= old_r.push("post"@));
        }
    }
    if contains_bytes(c, "async fn delete".as_bytes()) {
        let ghost old_r = r.deep_view();
        r.push(String::from_str("delete"));
        proof {
            assert(r.deep_view() =~= old_r.push("delete"@));
        }
    }
    if contains_bytes(c, "async fn put".as_bytes()) {
        let ghost old_r = r.deep_view();
        r.push(String::from_str("put"));
        proof {
            assert(r.deep_view() =~= old_r.push("put"@));
        }
    }
    r
}

/// Whether a file name is a module root, which the scan skips.
pub open spec fn sp_is_module_root(name: Seq<char>) -> bool {
    name.len() >= 6 && name.subrange(name.len() - 6, name.len() as int) == "mod.rs"@
}

/// Decides whether a file name ends in the module-root name.
pub fn is_module_root(name: &Vec<char>) -> (r: bool)
    ensures
        r == sp_is_module_root(name@),
{
    proof {
        reveal_strlit("mod.rs");
    }
    let n = name.len();
    if n < 6 {
        return false;
    }
    let expect = ['m', 'o', 'd', '.', 'r', 's'];
    let mut k: usize = 0;
    while k < 6
        invariant
            n == name@.len(),
            n >= 6,
            k <= 6,
            expect@ =~= "mod.rs"@,
            forall|x: int| 0 <= x < k ==> name@[n - 6 + x] == "mod.rs"@[x],
        decreases 6 - k,
    {
        if name[n - 6 + k] != expect[k] {
            proof {
                assert(name@.subrange(n - 6, n as int)[k as int] != "mod.rs"@[k as int]);
            }
            return false;
        }
        k += 1;
    }
    proof {
        assert(name@.subrange(n - 6, n as int) =~= "mod.rs"@);
    }
    true
}

/// The characters of a string.
pub fn str_chars(s: &str) -> (v: Vec<char>)
    ensures
        v@ == s@,
{
    let n = s.unicode_len();
    let mut v: Vec<char> = Vec::new();
    let mut i: usize = 0;
    while i < n
        invariant
            n == s@.len(),
            i <= n,
            v@ =~= s@.subrange(0, i as int),
        decreases n - i,
    {
        v.push(s.get_char(i));
        proof {
            assert(v@ =~= s@.subrange(0, i + 1));
        }
        i += 1;
    }
    proof {
        assert(v@ =~= s@);
    }
    v
}

/// The string of a character sequence.
pub fn chars_string(v: &Vec<char>) -> (s: String)
    ensures
        s@ == v@,
{
    let mut s = String::new();
    let mut i: usize = 0;
    while i < v.len()
        invariant
            i <= v@.len(),
            s@ =~= v@.subrange(0, i as int),
        decreases v@.len() - i,
    {
        push_char(&mut s, v[i]);
        proof {
            assert(s@ =~= v@.subrange(0, i + 1));
        }
        i += 1;
    }
    proof {
        assert(s@ =~= v@);
    }
    s
}

/// The text from an index with every occurrence of a nonempty pattern
/// replaced, scanning left to right without overlap.
pub open spec fn sp_replace_from(s: Seq<char>, pat: Seq<char>, rep: Seq<char>, i: int) -> Seq<
    char,
>
    decreases s.len() - i,
{
    if !(0 <= i < s.len()) {
        Seq::empty()
    } else if pat.len() > 0 && i + pat.len() <= s.len() && s.subrange(i, i + pat.len()) == pat {
        rep + sp_replace_from(s, pat, rep, i + pat.len())
    } else {
        seq![s[i]] + sp_replace_from(s, pat, rep, i + 1)
    }
}

/// The text with every occurrence of a nonempty pattern replaced.
pub open spec fn sp_replace_all(s: Seq<char>, pat: Seq<char>, rep: Seq<char>) -> Seq<char> {
    sp_replace_from(s, pat, rep, 0)
}

fn chars_match_at(s: &Vec<char>, pat: &Vec<char>, i: usize) -> (r: bool)
    requires
        i + pat@.len() <= s@.len(),
    ensures
        r == (s@.subrange(i as int, i + pat@.len()) == pat@),
{
    let sn = s.len();
    let mut k: usize = 0;
    while k < pat.len()
        invariant
            sn == s@.len(),
            i + pat@.len() <= s@.len(),
            k <= pat@.len(),
            forall|x: int| 0 <= x < k ==> s@[i + x] == pat@[x],
        decreases pat@.len() - k,
    {
        if s[i + k] != pat[k] {
            proof {
                assert(s@.subrange(i as int, i + pat@.len())[k as int] != pat@[k as int]);
            }
            return false;
        }
        k += 1;
    }
    proof {
        assert(s@.subrange(i as int, i + pat@.len()) =~= pat@);
    }
    true
}

fn replace_from(s: &Vec<char>, pat: &Vec<char>, rep: &Vec<char>, i: usize) -> (r: Vec<char>)
    requires
        i <= s@.len(),
    ensures
        r@ == sp_replace_from(s@, pat@, rep@, i as int),
    decreases s@.len() - i,
{
    if i >= s.len() {
        let r: Vec<char> = Vec::new();
        proof {
            assert(r@ =~= sp_replace_from(s@, pat@, rep@, i as int));
        }
        return r;
    }
    if pat.len() > 0 && pat.len() <= s.len() - i && chars_match_at(s, pat, i) {
        let mut r: Vec<char> = Vec::new();
        let mut k: usize = 0;
        while k < rep.len()
            invariant
                k <= rep@.len(),
                r@ =~= rep@.subrange(0, k as int),
            decreases rep@.len() - k,
        {
            r.push(rep[k]);
            proof {
                assert(r@ =~= rep@.subrange(0, k + 1));
            }
            k += 1;
        }
        let mut rest = replace_from(s, pat, rep, i + pat.len());
        r.append(&mut rest);
        proof {
            assert(r@ =~= sp_replace_from(s@, pat@, rep@, i as int));
        }
        r
    } else {
        let mut r: Vec<char> = Vec::new();
        r.push(s[i]);
        let mut rest = replace_from(s, pat, rep, i + 1);
        r.append(&mut rest);
        proof {
            assert(r@ =~= sp_replace_from(s@, pat@, rep@, i as int));
        }
        r
    }
}

/// Replaces every occurrence of a nonempty pattern, scanning left to right
/// without overlap.
pub fn replace_all(s: &Vec<char>, pat: &Vec<char>, rep: &Vec<char>) -> (r: Vec<char>)
    ensures
        r@ == sp_replace_all(s@, pat@, rep@),
{
    replace_from(s, pat, rep, 0)
}

} // verus!

verus! {

/// The earliest segment terminator at or after an index: a separator, or
/// the start of the source extension.
pub open spec fn sp_find_term(s: Seq<char>, j: int) -> Option<int>
    decreases s.len() - j,
{
    if !(0 <= j < s.len()) {
        None
    } else if s[j] == '/' {
        Some(j)
    } else if s[j] == '.' && j + 2 < s.len() && s[j + 1] == 'r' && s[j + 2] == 's' {
        Some(j)
    } else {
        sp_find_term(s, j + 1)
    }
}

fn find_term(s: &Vec<char>, j: usize) -> (r: Option<usize>)
    requires
        j <= s@.len(),
    ensures
        match r {
            Some(k) => sp_find_term(s@, j as int) == Some(k as int) && j <= k < s@.len() && (
            s@[k as int] == '/' || (s@[k as int] == '.' && k + 2 < s@.len())),
            None => sp_find_term(s@, j as int) is None,
        },
    decreases s@.len() - j,
{
    if j >= s.len() {
        return None;
    }
    if s[j] == '/' {
        return Some(j);
    }
    if s[j] == '.' && s.len() - j > 2 {
        if s[j + 1] == 'r' && s[j + 2] == 's' {
            return Some(j);
        }
    }
    find_term(s, j + 1)
}

/// A copy of a slice of the characters.
fn copy_range(s: &Vec<char>, a: usize, b: usize) -> (r: Vec<char>)
    requires
        a <= b <= s@.len(),
    ensures
        r@ == s@.subrange(a as int, b as int),
{
    let mut r: Vec<char> = Vec::new();
    let mut k: usize = a;
    while k < b
        invariant
            a <= k <= b <= s@.len(),
            r@ =~= s@.subrange(a as int, k as int),
        decreases b - k,
    {
        r.push(s[k]);
        proof {
            assert(r@ =~= s@.subrange(a as int, k + 1));
        }
        k += 1;
    }
    proof {
        assert(r@ =~= s@.subrange(a as int, b as int));
    }
    r
}

/// The text from an index with each segment that begins with an underscore
/// rewritten into a brace-delimited path parameter followed by a
/// separator.  The segment runs to the earliest separator or source
/// extension; an underscore with no terminator is kept as it stands.
pub open spec fn sp_rewrite_params(s: Seq<char>, i: int) -> Seq<char>
    decreases s.len() - i,
{
    if !(0 <= i < s.len()) {
        Seq::empty()
    } else if s[i] == '_' {
        match sp_find_term(s, i + 1) {
            Some(j) => if i < j && j < s.len() {
                let after: int = if s[j] == '/' {
                    j + 1
                } else {
                    j + 3
                };
                if after <= s.len() {
                    seq!['{'] + s.subrange(i + 1, j) + seq!['}', '/'] + sp_rewrite_params(
                        s,
                        after,
                    )
                } else {
                    seq![s[i]] + sp_rewrite_params(s, i + 1)
                }
            } else {
                seq![s[i]] + sp_rewrite_params(s, i + 1)
            },
            None => seq![s[i]] + sp_rewrite_params(s, i + 1),
        }
    } else {
        seq![s[i]] + sp_rewrite_params(s, i + 1)
    }
}

fn rewrite_params(s: &Vec<char>, i: usize) -> (r: Vec<char>)
    requires
        i <= s@.len(),
    ensures
        r@ == sp_rewrite_params(s@, i as int),
    decreases s@.len() - i,
{
    if i >= s.len() {
        let r: Vec<char> = Vec::new();
        proof {
            assert(r@ =~= sp_rewrite_params(s@, i as int));
        }
        return r;
    }
    if s[i] == '_' {
        if let Some(j) = find_term(s, i + 1) {
            let after: usize = if s[j] == '/' {
                j + 1
            } else {
                j + 3
            };
            let mut r: Vec<char> = Vec::new();
            r.push('{');
            let mut seg = copy_range(s, i + 1, j);
            r.append(&mut seg);
            r.push('}');
            r.push('/');
            let mut rest = rewrite_params(s, after);
            r.append(&mut rest);
            proof {
                assert(r@ =~= sp_rewrite_params(s@, i as int));
            }
            return r;
        }
    }
    let mut r: Vec<char> = Vec::new();
    r.push(s[i]);
    let mut rest = rewrite_params(s, i + 1);
    r.append(&mut rest);
    proof {
        assert(r@ =~= sp_rewrite_params(s@, i as int));
    }
    r
}

/// The text with its trailing separators removed.
pub open spec fn sp_trim_slashes(s: Seq<char>) -> Seq<char>
    decreases s.len(),
{
    if s.len() > 0 && s.last() == '/' {
        sp_trim_slashes(s.drop_last())
    } else {
        s
    }
}

fn trim_slashes(v: Vec<char>) -> (r: Vec<char>)
    ensures
        r@ == sp_trim_slashes(v@),
{
    let ghost orig = v@;
    let mut v = v;
    while v.len() > 0 && v[v.len() - 1] == '/'
        invariant
            sp_trim_slashes(v@) == sp_trim_slashes(orig),
        decreases v@.len(),
    {
        let ghost before = v@;
        v.pop();
        proof {
            assert(v@ =~= before.drop_last());
        }
    }
    proof {
        assert(sp_trim_slashes(v@) == v@);
    }
    v
}

/// The route path derived from a filesystem path: the fixed source-root
/// prefix dropped, each underscore segment rewritten into a path
/// parameter, the source extension stripped, and trailing separators
/// trimmed.
pub open spec fn sp_actix_path(s: Seq<char>) -> Seq<char> {
    sp_trim_slashes(
        sp_replace_all(
            sp_rewrite_params(sp_replace_all(s, "src/routes"@, Seq::empty()), 0),
            ".rs"@,
            Seq::empty(),
        ),
    )
}

/// Derives the route path of a handler source file.
pub fn actix_path(source_path: &str) -> (r: String)
    ensures
        r@ == sp_actix_path(source_path@),
{
    let sv = str_chars(source_path);
    let pat_root = str_chars("src/routes");
    let pat_ext = str_chars(".rs");
    let empty: Vec<char> = Vec::new();
    let s1 = replace_all(&sv, &pat_root, &empty);
    let s2 = rewrite_params(&s1, 0);
    let s3 = replace_all(&s2, &pat_ext, &empty);
    let s4 = trim_slashes(s3);
    chars_string(&s4)
}

/// The module path of a handler source file relative to the route root:
/// separators become path separators and the source extension is dropped.
pub open spec fn sp_module_route(rel: Seq<char>) -> Seq<char> {
    sp_replace_all(sp_replace_all(rel, "/"@, "::"@), ".rs"@, Seq::empty())
}

/// Rewrites a relative source path into its module path.
pub fn module_route(relative_path: &str) -> (r: String)
    ensures
        r@ == sp_module_route(relative_path@),
{
    let sv = str_chars(relative_path);
    let pat_sep = str_chars("/");
    let rep_sep = str_chars("::");
    let pat_ext = str_chars(".rs");
    let empty: Vec<char> = Vec::new();
    let s1 = replace_all(&sv, &pat_sep, &rep_sep);
    let s2 = replace_all(&s1, &pat_ext, &empty);
    chars_string(&s2)
}

/// The handler entries of one source file: for each handler method the
/// file declares, the module path of the handler function.
pub open spec fn sp_route_entries(rel: Seq<char>, c: Seq<u8>) -> Seq<Seq<char>> {
    let ms = sp_handler_methods(c);
    Seq::new(ms.len(), |k: int| "routes"@ + sp_module_route(rel) + "::"@ + ms[k])
}

/// Lists the handler functions a source file contributes, as module
/// paths.
pub fn route_entries(relative_path: &str, contents: &str) -> (r: Vec<String>)
    ensures
        r.deep_view() == sp_route_entries(relative_path@, contents.spec_bytes()),
{
    let methods = handler_methods(contents);
    let mp = module_route(relative_path);
    let mut r: Vec<String> = Vec::new();
    let mut k: usize = 0;
    while k < methods.len()
        invariant
            methods.deep_view() == sp_handler_methods(contents.spec_bytes()),
            mp@ == sp_module_route(relative_path@),
            k <= methods@.len(),
            r@.len() == k,
            forall|x: int|
                0 <= x < k ==> (#[trigger] r@[x])@ == "routes"@ + sp_module_route(
                    relative_path@,
                ) + "::"@ + methods.deep_view()[x],
        decreases methods@.len() - k,
    {
        let entry = String::from_str("routes").concat(mp.as_str()).concat("::").concat(
            methods[k].as_str(),
        );
        r.push(entry);
        k += 1;
    }
    proof {
        assert(r.deep_view() =~= sp_route_entries(relative_path@, contents.spec_bytes()));
    }
    r
}

} // verus!
