use vstd::prelude::*;

verus! {

/// The extension of the compiler's output.
pub const COMPILED_EXTENSION: &'static str = "spv";

/// The extension of the sources this library compiles.
pub const SOURCE_EXTENSION: &'static str = "hlsl";

/// Where the file name of `s` starts, looking at `s` up to `n`: just past the
/// last `/`, or 0.
pub open spec fn name_start(s: Seq<char>, n: int) -> int
    decreases n,
{
    if n <= 0 {
        0
    } else if s[n - 1] == '/' {
        n
    } else {
        name_start(s, n - 1)
    }
}

/// The last `.` in `s` before `n` that stands after position `start`, or -1: a dot
/// that opens a file name starts no extension.
pub open spec fn ext_dot(s: Seq<char>, start: int, n: int) -> int
    decreases n,
{
    if n <= 0 || n <= start + 1 {
        -1
    } else if s[n - 1] == '.' {
        n - 1
    } else {
        ext_dot(s, start, n - 1)
    }
}

/// Where the last component of `s` up to `n` ends: trailing `/` characters
/// and `.` components that follow a `/` are passed over.
pub open spec fn name_end(s: Seq<char>, n: int) -> int
    decreases n,
{
    if n <= 0 {
        0
    } else if s[n - 1] == '/' {
        name_end(s, n - 1)
    } else if n >= 2 && s[n - 1] == '.' && s[n - 2] == '/' {
        name_end(s, n - 2)
    } else {
        n
    }
}

/// Where the file name of `s` ends.
pub open spec fn file_name_end(s: Seq<char>) -> int {
    name_end(s, s.len() as int)
}

/// Where the file name of `s` starts.
pub open spec fn file_name_start(s: Seq<char>) -> int {
    name_start(s, file_name_end(s))
}

/// The last component of `s` names a file: it is not empty (a path such as
/// `/` or ``), not `.` (a path that is only the current directory) and not
/// `..`.
pub open spec fn has_file_name(s: Seq<char>) -> bool {
    let c = s.subrange(file_name_start(s), file_name_end(s));
    c.len() > 0 && c != seq!['.'] && c != seq!['.', '.']
}

/// Where the file name of `s` ends once its extension and the dot are taken
/// off.
pub open spec fn stem_end(s: Seq<char>) -> int {
    let d = ext_dot(s, file_name_start(s), file_name_end(s));
    if d >= 0 {
        d
    } else {
        file_name_end(s)
    }
}

/// The path `s` with the extension of its file name replaced by the compiled
/// extension (or given one, where it has none); what follows the file name is
/// dropped. A path without a file name stays as it is.
pub open spec fn output_path_of(s: Seq<char>) -> Seq<char> {
    if has_file_name(s) {
        s.subrange(0, stem_end(s)) + ".spv"@
    } else {
        s
    }
}

/// Where an asset path is found on disk: under `assets/`, unless it is
/// absolute.
pub open spec fn resolved_path_of(p: Seq<char>) -> Seq<char> {
    if p.len() > 0 && p[0] == '/' {
        p
    } else {
        "assets/"@ + p
    }
}

proof fn lemma_name_start_bounds(s: Seq<char>, n: int)
    requires
        0 <= n <= s.len(),
    ensures
        0 <= name_start(s, n) <= n,
        forall|j: int| name_start(s, n) <= j < n ==> s[j] != '/',
    decreases n,
{
    if n > 0 && s[n - 1] != '/' {
        lemma_name_start_bounds(s, n - 1);
    }
}

proof fn lemma_name_start_skip(s: Seq<char>, k: int, n: int)
    requires
        0 <= k <= n <= s.len(),
        forall|j: int| k <= j < n ==> s[j] != '/',
    ensures
        name_start(s, n) == name_start(s, k),
    decreases n,
{
    if n > k {
        lemma_name_start_skip(s, k, n - 1);
    }
}

proof fn lemma_name_start_same(s: Seq<char>, t: Seq<char>, n: int)
    requires
        0 <= n <= s.len(),
        n <= t.len(),
        forall|j: int| 0 <= j < n ==> s[j] == t[j],
    ensures
        name_start(s, n) == name_start(t, n),
    decreases n,
{
    if n > 0 {
        lemma_name_start_same(s, t, n - 1);
    }
}

proof fn lemma_ext_dot_bounds(s: Seq<char>, start: int, n: int)
    requires
        0 <= start,
        n <= s.len(),
    ensures
        ext_dot(s, start, n) == -1 || (start < ext_dot(s, start, n) < n && s[ext_dot(s, start, n)]
            == '.'),
    decreases n,
{
    if n > start + 1 && s[n - 1] != '.' {
        lemma_ext_dot_bounds(s, start, n - 1);
    }
}

proof fn lemma_name_end_bounds(s: Seq<char>, n: int)
    requires
        n <= s.len(),
    ensures
        0 <= name_end(s, n) <= if n < 0 {
            0
        } else {
            n
        },
        name_end(s, n) > 0 ==> s[name_end(s, n) - 1] != '/',
    decreases n,
{
    if n > 0 {
        if s[n - 1] == '/' {
            lemma_name_end_bounds(s, n - 1);
        } else if n >= 2 && s[n - 1] == '.' && s[n - 2] == '/' {
            lemma_name_end_bounds(s, n - 2);
        }
    }
}

proof fn lemma_stem_end_bounds(s: Seq<char>)
    ensures
        0 <= file_name_start(s) <= stem_end(s) <= file_name_end(s) <= s.len(),
        stem_end(s) < file_name_end(s) ==> file_name_start(s) < stem_end(s),
        forall|j: int| file_name_start(s) <= j < file_name_end(s) ==> s[j] != '/',
{
    lemma_name_end_bounds(s, s.len() as int);
    lemma_name_start_bounds(s, file_name_end(s));
    lemma_ext_dot_bounds(s, file_name_start(s), file_name_end(s));
}

/// Replacing the extension twice gives what replacing it once gave, for every
/// path.
pub proof fn lemma_output_path_idempotent(s: Seq<char>)
    ensures
        output_path_of(output_path_of(s)) == output_path_of(s),
{
    if has_file_name(s) {
        reveal_strlit(".spv");
        let b = file_name_start(s);
        let fe = file_name_end(s);
        let e = stem_end(s);
        lemma_stem_end_bounds(s);
        let o = output_path_of(s);
        let n = e + 4;
        assert(o.len() == n);
        assert(o[e] == '.' && o[e + 1] == 's' && o[e + 2] == 'p' && o[e + 3] == 'v');
        assert(file_name_end(o) == n);
        lemma_name_start_skip(o, e, n);
        lemma_name_start_same(s, o, e);
        lemma_name_start_skip(s, e, fe);
        assert(file_name_start(o) == b);
        if e == fe {
            let c = s.subrange(b, fe);
            assert(c.len() > 0 && c != seq!['.'] && c != seq!['.', '.']);
            if e == b + 1 && s[b] == '.' {
                assert(c =~= seq!['.']);
            }
        }
        assert(b < e);
        assert(o.subrange(b, n).len() > 2);
        assert(has_file_name(o));
        assert(ext_dot(o, b, e + 1) == e);
        assert(ext_dot(o, b, e + 2) == e);
        assert(ext_dot(o, b, e + 3) == e);
        assert(ext_dot(o, b, e + 4) == e);
        assert(stem_end(o) == e);
        assert(o.subrange(0, e) =~= s.subrange(0, e));
    }
}

/// `s` with the extension of its file name replaced by `spv`.
pub fn output_path(s: &str) -> (r: String)
    ensures
        r@ == output_path_of(s@),
{
    let len = s.unicode_len();
    let mut k: usize = len;
    while k > 0 && (s.get_char(k - 1) == '/' || (k >= 2 && s.get_char(k - 1) == '.'
        && s.get_char(k - 2) == '/'))
        invariant
            k <= len == s@.len(),
            name_end(s@, k as int) == name_end(s@, len as int),
        decreases k,
    {
        if s.get_char(k - 1) == '/' {
            k = k - 1;
        } else {
            k = k - 2;
        }
    }
    let fe = k;
    let mut i: usize = fe;
    while i > 0 && s.get_char(i - 1) != '/'
        invariant
            i <= fe <= len == s@.len(),
            fe == file_name_end(s@),
            name_start(s@, i as int) == name_start(s@, fe as int),
        decreases i,
    {
        i = i - 1;
    }
    let ns = i;
    let named = fe > ns && !(fe - ns == 1 && s.get_char(ns) == '.') && !(fe - ns == 2 && s.get_char(
        ns,
    ) == '.' && s.get_char(ns + 1) == '.');
    proof {
        let c = s@.subrange(ns as int, fe as int);
        if fe - ns == 1 && c[0] == '.' {
            assert(c =~= seq!['.']);
        }
        if fe - ns == 2 && c[0] == '.' && c[1] == '.' {
            assert(c =~= seq!['.', '.']);
        }
        if c == seq!['.'] {
            assert(c[0] == '.');
        }
        if c == seq!['.', '.'] {
            assert(c[0] == '.' && c[1] == '.');
        }
        assert(named == has_file_name(s@));
    }
    if !named {
        return String::from_str(s);
    }
    let mut j: usize = fe;
    while j > ns && j - ns > 1 && s.get_char(j - 1) != '.'
        invariant
            ns <= fe <= len == s@.len(),
            fe == file_name_end(s@),
            ns == file_name_start(s@),
            j <= fe,
            ext_dot(s@, ns as int, j as int) == ext_dot(s@, ns as int, fe as int),
        decreases j,
    {
        j = j - 1;
    }
    let end = if j > ns && j - ns > 1 {
        j - 1
    } else {
        fe
    };
    let stem = s.substring_char(0, end);
    let mut r = String::from_str(stem);
    r.append(".");
    r.append(COMPILED_EXTENSION);
    proof {
        reveal_strlit(".");
        reveal_strlit("spv");
        reveal_strlit(".spv");
        assert(("."@ + "spv"@) =~= ".spv"@);
        assert(r@ =~= stem@ + ".spv"@);
    }
    r
}

/// Where the asset path `p` lies on disk.
pub fn resolve_source_path(p: &str) -> (r: String)
    ensures
        r@ == resolved_path_of(p@),
{
    if p.unicode_len() > 0 && p.get_char(0) == '/' {
        String::from_str(p)
    } else {
        let mut r = String::from_str("assets/");
        r.append(p);
        r
    }
}

} // verus!
