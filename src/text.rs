//! Small operations on character strings, stated over their views.
use vstd::prelude::*;
use vstd::string::*;

verus! {

/// Where the segment after the last `sep` of `s` starts: just past the last
/// `sep`, or at 0 when `s` holds none.
pub open spec fn segment_start(s: Seq<char>, sep: char) -> int
    decreases s.len(),
{
    if s.len() == 0 {
        0
    } else if s.last() == sep {
        s.len() as int
    } else {
        segment_start(s.drop_last(), sep)
    }
}

/// The part of `s` after its last `sep` (all of `s` when it holds none).
pub open spec fn last_segment(s: Seq<char>, sep: char) -> Seq<char> {
    s.subrange(segment_start(s, sep), s.len() as int)
}

/// `s` without the suffix `suffix`, when it ends with it.
pub open spec fn strip_suffix(s: Seq<char>, suffix: Seq<char>) -> Option<Seq<char>> {
    if suffix.is_suffix_of(s) {
        Some(s.subrange(0, s.len() - suffix.len()))
    } else {
        None
    }
}

/// Whether `p` is a prefix of `s`.
pub fn has_prefix(p: &str, s: &str) -> (r: bool)
    ensures
        r == p@.is_prefix_of(s@),
{
    let pn = p.unicode_len();
    let sn = s.unicode_len();
    if pn > sn {
        return false;
    }
    let mut i: usize = 0;
    while i < pn
        invariant
            pn == p@.len(),
            sn == s@.len(),
            pn <= sn,
            i <= pn,
            forall|j: int| 0 <= j < i ==> p@[j] == s@[j],
        decreases pn - i,
    {
        if p.get_char(i) != s.get_char(i) {
            return false;
        }
        i = i + 1;
    }
    true
}

/// Whether `suffix` is a suffix of `s`.
pub fn has_suffix(suffix: &str, s: &str) -> (r: bool)
    ensures
        r == suffix@.is_suffix_of(s@),
{
    let qn = suffix.unicode_len();
    let sn = s.unicode_len();
    if qn > sn {
        return false;
    }
    let off = sn - qn;
    let mut i: usize = 0;
    while i < qn
        invariant
            qn == suffix@.len(),
            sn == s@.len(),
            off == sn - qn,
            i <= qn,
            forall|j: int| 0 <= j < i ==> suffix@[j] == s@[off + j],
        decreases qn - i,
    {
        if suffix.get_char(i) != s.get_char(off + i) {
            return false;
        }
        i = i + 1;
    }
    proof {
        assert(suffix@ =~= s@.subrange(off as int, sn as int));
    }
    true
}

/// The part of `s` after its last `sep`.
pub fn after_last<'a>(s: &'a str, sep: char) -> (r: &'a str)
    ensures
        r@ == last_segment(s@, sep),
{
    let n = s.unicode_len();
    let mut i: usize = n;
    proof {
        assert(s@.subrange(0, n as int) =~= s@);
    }
    while i > 0 && s.get_char(i - 1) != sep
        invariant
            n == s@.len(),
            i <= n,
            segment_start(s@, sep) == segment_start(s@.subrange(0, i as int), sep),
        decreases i,
    {
        proof {
            assert(s@.subrange(0, i as int).drop_last() =~= s@.subrange(0, i - 1));
        }
        i = i - 1;
    }
    s.substring_char(i, n)
}

/// `s` without the suffix `suffix`, or `None` when it does not end with it.
pub fn without_suffix(s: &str, suffix: &str) -> (r: Option<String>)
    ensures
        match r {
            Some(t) => strip_suffix(s@, suffix@) == Some(t@),
            None => strip_suffix(s@, suffix@) is None,
        },
{
    if has_suffix(suffix, s) {
        let n = s.unicode_len();
        let q = suffix.unicode_len();
        Some(String::from_str(s.substring_char(0, n - q)))
    } else {
        None
    }
}

/// Whether `a` and `b` hold the same characters.
pub fn same_text(a: &str, b: &str) -> (r: bool)
    ensures
        r == (a@ == b@),
{
    let r = a.unicode_len() == b.unicode_len() && has_prefix(a, b);
    proof {
        if a@.len() == b@.len() && a@.is_prefix_of(b@) {
            assert(a@ =~= b@);
        }
    }
    r
}

/// A copy of a list of strings.
pub fn copy_strings(v: &Vec<String>) -> (r: Vec<String>)
    ensures
        r.deep_view() == v.deep_view(),
{
    let mut r: Vec<String> = Vec::new();
    let mut i: usize = 0;
    while i < v.len()
        invariant
            i <= v@.len(),
            r@.len() == i,
            forall|j: int| 0 <= j < i ==> #[trigger] r@[j]@ == v@[j]@,
        decreases v@.len() - i,
    {
        r.push(v[i].clone());
        i = i + 1;
    }
    assert(r.deep_view() =~= v.deep_view());
    r
}

/// Whether `c` has the Unicode `White_Space` property, the set that
/// `char::is_whitespace` tests.
pub open spec fn is_space(c: char) -> bool {
    let u = c as u32;
    (0x09 <= u && u <= 0x0D) || u == 0x20 || u == 0x85 || u == 0xA0 || u == 0x1680 || (0x2000
        <= u && u <= 0x200A) || u == 0x2028 || u == 0x2029 || u == 0x202F || u == 0x205F || u
        == 0x3000
}

/// `s` without its leading whitespace.
pub open spec fn trim_front(s: Seq<char>) -> Seq<char>
    decreases s.len(),
{
    if s.len() > 0 && is_space(s[0]) {
        trim_front(s.drop_first())
    } else {
        s
    }
}

/// `s` without its trailing whitespace.
pub open spec fn trim_back(s: Seq<char>) -> Seq<char>
    decreases s.len(),
{
    if s.len() > 0 && is_space(s.last()) {
        trim_back(s.drop_last())
    } else {
        s
    }
}

/// `s` without leading and trailing whitespace.
pub open spec fn trimmed(s: Seq<char>) -> Seq<char> {
    trim_back(trim_front(s))
}

fn space(c: char) -> (r: bool)
    ensures
        r == is_space(c),
{
    let u = c as u32;
    (0x09 <= u && u <= 0x0D) || u == 0x20 || u == 0x85 || u == 0xA0 || u == 0x1680 || (0x2000
        <= u && u <= 0x200A) || u == 0x2028 || u == 0x2029 || u == 0x202F || u == 0x205F || u
        == 0x3000
}

/// `s` without leading and trailing whitespace, as `str::trim` gives it.
pub fn trim<'a>(s: &'a str) -> (r: &'a str)
    ensures
        r@ == trimmed(s@),
{
    let n = s.unicode_len();
    let mut i: usize = 0;
    proof {
        assert(s@.subrange(0, n as int) =~= s@);
    }
    while i < n && space(s.get_char(i))
        invariant
            n == s@.len(),
            i <= n,
            trim_front(s@) == trim_front(s@.subrange(i as int, n as int)),
        decreases n - i,
    {
        proof {
            assert(s@.subrange(i as int, n as int).drop_first() =~= s@.subrange(i + 1, n as int));
        }
        i = i + 1;
    }
    proof {
        assert(trim_front(s@.subrange(i as int, n as int)) == s@.subrange(i as int, n as int));
    }
    let mut j: usize = n;
    while j > i && space(s.get_char(j - 1))
        invariant
            n == s@.len(),
            i <= j <= n,
            trimmed(s@) == trim_back(s@.subrange(i as int, j as int)),
        decreases j,
    {
        proof {
            assert(s@.subrange(i as int, j as int).drop_last() =~= s@.subrange(i as int, j - 1));
        }
        j = j - 1;
    }
    s.substring_char(i, j)
}

/// `s` without the trailing separators and `.` components that a path's
/// last component skips: `a/b/` and `a/b/.` both end in the component `b`.
pub open spec fn strip_path_tail(s: Seq<char>) -> Seq<char>
    decreases s.len(),
{
    if s.len() == 0 {
        s
    } else if s.last() == '/' {
        strip_path_tail(s.drop_last())
    } else if s.last() == '.' && (s.len() == 1 || s[s.len() - 2] == '/') {
        strip_path_tail(s.drop_last())
    } else {
        s
    }
}

/// The file name of a relative path, as `Path::file_name` gives it: its
/// last component when that is a normal one, `None` when the path is empty
/// or ends in `..`.
pub open spec fn path_file_name(s: Seq<char>) -> Option<Seq<char>> {
    let last = last_segment(strip_path_tail(s), '/');
    if last.len() == 0 || last == ".."@ {
        None
    } else {
        Some(last)
    }
}

fn skipped_at_end(s: &str, j: usize) -> (r: bool)
    requires
        0 < j <= s@.len(),
    ensures
        r == (s@[j - 1] == '/' || (s@[j - 1] == '.' && (j == 1 || s@[j - 2] == '/'))),
{
    let c = s.get_char(j - 1);
    c == '/' || (c == '.' && (j == 1 || s.get_char(j - 2) == '/'))
}

/// The file name of the relative path `s`.
pub fn file_name_of(s: &str) -> (r: Option<String>)
    ensures
        match r {
            Some(f) => path_file_name(s@) == Some(f@),
            None => path_file_name(s@) is None,
        },
{
    let n = s.unicode_len();
    let mut j: usize = n;
    proof {
        assert(s@.subrange(0, n as int) =~= s@);
    }
    while j > 0 && skipped_at_end(s, j)
        invariant
            n == s@.len(),
            j <= n,
            strip_path_tail(s@) == strip_path_tail(s@.subrange(0, j as int)),
        decreases j,
    {
        proof {
            let t = s@.subrange(0, j as int);
            assert(t.drop_last() =~= s@.subrange(0, j - 1));
            assert(t.last() == s@[j - 1]);
            if j >= 2 {
                assert(t[t.len() - 2] == s@[j - 2]);
            }
        }
        j = j - 1;
    }
    proof {
        let t = s@.subrange(0, j as int);
        if j > 0 {
            assert(t.last() == s@[j - 1]);
            if j >= 2 {
                assert(t[t.len() - 2] == s@[j - 2]);
            }
        }
        assert(strip_path_tail(t) == t);
    }
    let last = after_last(s.substring_char(0, j), '/');
    if last.unicode_len() == 0 || same_text(last, "..") {
        None
    } else {
        Some(String::from_str(last))
    }
}

} // verus!
