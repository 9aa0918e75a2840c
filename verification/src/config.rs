use vstd::prelude::*;
use crate::text::{trim, trimmed};

verus! {

/// Settings the user edits: server, watched folders and switches.
#[derive(Clone, Debug)]
pub struct AppConfig {
    pub server_url: String,
    pub watch_paths: Vec<String>,
    pub sync_enabled: bool,
    pub minimize_to_tray: bool,
}

impl Default for AppConfig {
    fn default() -> (c: AppConfig)
        ensures
            c.server_url@ == Seq::<char>::empty(),
            c.watch_paths@.len() == 0,
            !c.sync_enabled,
            !c.minimize_to_tray,
    {
        AppConfig {
            server_url: String::new(),
            watch_paths: Vec::new(),
            sync_enabled: false,
            minimize_to_tray: false,
        }
    }
}

/// `s` without its trailing `/` characters.
pub open spec fn strip_trailing_slashes(s: Seq<char>) -> Seq<char>
    decreases s.len(),
{
    if s.len() > 0 && s.last() == '/' {
        strip_trailing_slashes(s.drop_last())
    } else {
        s
    }
}

/// The server base URL as requests use it: trimmed, without trailing slashes.
pub open spec fn normalized_base(s: Seq<char>) -> Seq<char> {
    strip_trailing_slashes(trimmed(s))
}

/// Stripping keeps a prefix that does not end with `/`; everything after it is `/`.
pub proof fn lemma_strip_trailing_slashes_shape(s: Seq<char>)
    ensures
        exists|k: int|
            0 <= k <= s.len() && strip_trailing_slashes(s) == s.subrange(0, k) && (forall|i: int|
                k <= i < s.len() ==> #[trigger] s[i] == '/') && (k > 0 ==> s[k - 1] != '/'),
    decreases s.len(),
{
    if s.len() > 0 && s.last() == '/' {
        lemma_strip_trailing_slashes_shape(s.drop_last());
        let k = choose|k: int|
            0 <= k <= s.drop_last().len() && strip_trailing_slashes(s.drop_last())
                == s.drop_last().subrange(0, k) && (forall|i: int|
                k <= i < s.drop_last().len() ==> #[trigger] s.drop_last()[i] == '/') && (k > 0
                ==> s.drop_last()[k - 1] != '/');
        assert(strip_trailing_slashes(s) =~= s.subrange(0, k));
        assert forall|i: int| k <= i < s.len() implies #[trigger] s[i] == '/' by {
            if i < s.len() - 1 {
                assert(s[i] == s.drop_last()[i]);
            }
        }
    } else {
        assert(strip_trailing_slashes(s) =~= s.subrange(0, s.len() as int));
    }
}

/// Trims the base URL and drops the slashes at its end.
pub fn normalize_base_url(base_url: &str) -> (r: String)
    ensures
        r@ == normalized_base(base_url@),
{
    let t = trim(base_url);
    let n = t.as_str().unicode_len();
    let mut end: usize = n;
    assert(t@.subrange(0, n as int) =~= t@);
    while end > 0 && t.as_str().get_char(end - 1) == '/'
        invariant
            end <= n,
            n == t@.len(),
            strip_trailing_slashes(t@) == strip_trailing_slashes(t@.subrange(0, end as int)),
        decreases end,
    {
        assert(t@.subrange(0, end as int).drop_last() =~= t@.subrange(0, end - 1));
        assert(t@.subrange(0, end as int).last() == t@[end - 1]);
        end = end - 1;
    }
    assert(t@.subrange(0, n as int) =~= t@);
    crate::text::substring(t.as_str(), 0, end)
}

/// `route` appended to the normalized base URL.
pub fn endpoint_url(base_url: &str, route: &str) -> (r: String)
    ensures
        r@ == normalized_base(base_url@) + route@,
{
    let mut r = normalize_base_url(base_url);
    r.append(route);
    r
}

/// Path separators (both the Unix and the Windows one).
pub open spec fn is_separator(c: char) -> bool {
    c == '/' || c == '\\'
}

/// Index where the last path component starts.
pub open spec fn name_start(p: Seq<char>) -> int
    decreases p.len(),
{
    if p.len() == 0 {
        0
    } else if is_separator(p.last()) {
        p.len() as int
    } else {
        name_start(p.drop_last())
    }
}

/// The last path component.
pub open spec fn file_name(p: Seq<char>) -> Seq<char> {
    p.subrange(name_start(p), p.len() as int)
}

/// Index of the last `.` in `s`, or -1.
pub open spec fn last_dot(s: Seq<char>) -> int
    decreases s.len(),
{
    if s.len() == 0 {
        -1
    } else if s.last() == '.' {
        s.len() - 1
    } else {
        last_dot(s.drop_last())
    }
}

/// Extension of a file name: what follows its last `.`, where that dot is not the first character.
pub open spec fn extension(name: Seq<char>) -> Option<Seq<char>> {
    if last_dot(name) > 0 {
        Some(name.subrange(last_dot(name) + 1, name.len() as int))
    } else {
        None
    }
}

/// ASCII lower case of one character.
pub open spec fn ascii_lower(c: char) -> char {
    if 'A' <= c && c <= 'Z' {
        ((c as u32) + 32) as char
    } else {
        c
    }
}

pub open spec fn ascii_lowercase(s: Seq<char>) -> Seq<char> {
    s.map_values(|c: char| ascii_lower(c))
}

/// Extensions (lower case) of the photo and video files that are synced.
pub open spec fn media_extensions() -> Seq<Seq<char>> {
    seq![
        seq!['j', 'p', 'g'],
        seq!['j', 'p', 'e', 'g'],
        seq!['p', 'n', 'g'],
        seq!['g', 'i', 'f'],
        seq!['w', 'e', 'b', 'p'],
        seq!['h', 'e', 'i', 'c'],
        seq!['h', 'e', 'i', 'f'],
        seq!['a', 'v', 'i', 'f'],
        seq!['b', 'm', 'p'],
        seq!['t', 'i', 'f'],
        seq!['t', 'i', 'f', 'f'],
        seq!['d', 'n', 'g'],
        seq!['c', 'r', '2'],
        seq!['c', 'r', '3'],
        seq!['n', 'e', 'f'],
        seq!['a', 'r', 'w'],
        seq!['o', 'r', 'f'],
        seq!['r', 'w', '2'],
        seq!['r', 'a', 'f'],
        seq!['m', 'p', '4'],
        seq!['m', 'o', 'v'],
        seq!['m', '4', 'v'],
        seq!['a', 'v', 'i'],
        seq!['m', 'k', 'v'],
        seq!['w', 'e', 'b', 'm'],
        seq!['3', 'g', 'p'],
        seq!['m', 't', 's'],
    ]
}

/// A path names a supported photo or video: its extension, in any case, is one of
/// `media_extensions`.
pub open spec fn supported_media(p: Seq<char>) -> bool {
    match extension(file_name(p)) {
        Some(e) => media_extensions().contains(ascii_lowercase(e)),
        None => false,
    }
}

proof fn lemma_name_start_prefix(p: Seq<char>, i: int)
    requires
        0 <= i <= p.len(),
        forall|j: int| i <= j < p.len() ==> !is_separator(#[trigger] p[j]),
    ensures
        name_start(p) == name_start(p.subrange(0, i)),
        0 <= name_start(p) <= i,
    decreases p.len() - i,
{
    if i == p.len() {
        assert(p.subrange(0, i) =~= p);
        lemma_name_start_bounds(p);
    } else {
        let q = p.drop_last();
        assert(!is_separator(p.last()));
        lemma_name_start_prefix(q, i);
        assert(q.subrange(0, i) =~= p.subrange(0, i));
    }
}

proof fn lemma_name_start_bounds(p: Seq<char>)
    ensures
        0 <= name_start(p) <= p.len(),
    decreases p.len(),
{
    if p.len() > 0 && !is_separator(p.last()) {
        lemma_name_start_bounds(p.drop_last());
    }
}

proof fn lemma_last_dot_prefix(s: Seq<char>, i: int)
    requires
        0 <= i <= s.len(),
        forall|j: int| i <= j < s.len() ==> #[trigger] s[j] != '.',
    ensures
        last_dot(s) == last_dot(s.subrange(0, i)),
        -1 <= last_dot(s) < i,
    decreases s.len() - i,
{
    if i == s.len() {
        assert(s.subrange(0, i) =~= s);
        lemma_last_dot_bounds(s);
    } else {
        let q = s.drop_last();
        lemma_last_dot_prefix(q, i);
        assert(q.subrange(0, i) =~= s.subrange(0, i));
    }
}

proof fn lemma_last_dot_bounds(s: Seq<char>)
    ensures
        -1 <= last_dot(s) < s.len(),
    decreases s.len(),
{
    if s.len() > 0 && s.last() != '.' {
        lemma_last_dot_bounds(s.drop_last());
    }
}

fn lower_char(c: char) -> (r: char)
    ensures
        r == ascii_lower(c),
{
    if 'A' <= c && c <= 'Z' {
        let u: u32 = c as u32;
        let l: u8 = (u + 32) as u8;
        assert(l as u32 == u + 32);
        l as char
    } else {
        c
    }
}

fn chars_equal(v: &Vec<char>, lit: &[char]) -> (r: bool)
    ensures
        r == (v@ == lit@),
{
    if v.len() != lit.len() {
        return false;
    }
    let mut i: usize = 0;
    while i < v.len()
        invariant
            i <= v.len(),
            v.len() == lit.len(),
            forall|j: int| 0 <= j < i ==> v@[j] == lit@[j],
        decreases v.len() - i,
    {
        if v[i] != lit[i] {
            return false;
        }
        i = i + 1;
    }
    assert(v@ =~= lit@);
    true
}

fn is_media_extension(e: &Vec<char>) -> (r: bool)
    ensures
        r == media_extensions().contains(e@),
{
    let l0: [char; 3] = ['j', 'p', 'g'];
    let l1: [char; 4] = ['j', 'p', 'e', 'g'];
    let l2: [char; 3] = ['p', 'n', 'g'];
    let l3: [char; 3] = ['g', 'i', 'f'];
    let l4: [char; 4] = ['w', 'e', 'b', 'p'];
    let l5: [char; 4] = ['h', 'e', 'i', 'c'];
    let l6: [char; 4] = ['h', 'e', 'i', 'f'];
    let l7: [char; 4] = ['a', 'v', 'i', 'f'];
    let l8: [char; 3] = ['b', 'm', 'p'];
    let l9: [char; 3] = ['t', 'i', 'f'];
    let l10: [char; 4] = ['t', 'i', 'f', 'f'];
    let l11: [char; 3] = ['d', 'n', 'g'];
    let l12: [char; 3] = ['c', 'r', '2'];
    let l13: [char; 3] = ['c', 'r', '3'];
    let l14: [char; 3] = ['n', 'e', 'f'];
    let l15: [char; 3] = ['a', 'r', 'w'];
    let l16: [char; 3] = ['o', 'r', 'f'];
    let l17: [char; 3] = ['r', 'w', '2'];
    let l18: [char; 3] = ['r', 'a', 'f'];
    let l19: [char; 3] = ['m', 'p', '4'];
    let l20: [char; 3] = ['m', 'o', 'v'];
    let l21: [char; 3] = ['m', '4', 'v'];
    let l22: [char; 3] = ['a', 'v', 'i'];
    let l23: [char; 3] = ['m', 'k', 'v'];
    let l24: [char; 4] = ['w', 'e', 'b', 'm'];
    let l25: [char; 3] = ['3', 'g', 'p'];
    let l26: [char; 3] = ['m', 't', 's'];
    let r = chars_equal(e, &l0) || chars_equal(e, &l1) || chars_equal(e, &l2) || chars_equal(
        e,
        &l3,
    ) || chars_equal(e, &l4) || chars_equal(e, &l5) || chars_equal(e, &l6) || chars_equal(e, &l7)
        || chars_equal(e, &l8) || chars_equal(e, &l9) || chars_equal(e, &l10) || chars_equal(
        e,
        &l11,
    ) || chars_equal(e, &l12) || chars_equal(e, &l13) || chars_equal(e, &l14) || chars_equal(
        e,
        &l15,
    ) || chars_equal(e, &l16) || chars_equal(e, &l17) || chars_equal(e, &l18) || chars_equal(
        e,
        &l19,
    ) || chars_equal(e, &l20) || chars_equal(e, &l21) || chars_equal(e, &l22) || chars_equal(
        e,
        &l23,
    ) || chars_equal(e, &l24) || chars_equal(e, &l25) || chars_equal(e, &l26);
    proof {
        let m = media_extensions();
        assert(l0@ == m[0]);
        assert(l1@ == m[1]);
        assert(l2@ == m[2]);
        assert(l3@ == m[3]);
        assert(l4@ == m[4]);
        assert(l5@ == m[5]);
        assert(l6@ == m[6]);
        assert(l7@ == m[7]);
        assert(l8@ == m[8]);
        assert(l9@ == m[9]);
        assert(l10@ == m[10]);
        assert(l11@ == m[11]);
        assert(l12@ == m[12]);
        assert(l13@ == m[13]);
        assert(l14@ == m[14]);
        assert(l15@ == m[15]);
        assert(l16@ == m[16]);
        assert(l17@ == m[17]);
        assert(l18@ == m[18]);
        assert(l19@ == m[19]);
        assert(l20@ == m[20]);
        assert(l21@ == m[21]);
        assert(l22@ == m[22]);
        assert(l23@ == m[23]);
        assert(l24@ == m[24]);
        assert(l25@ == m[25]);
        assert(l26@ == m[26]);
        if m.contains(e@) {
            let k = choose|k: int| 0 <= k < m.len() && m[k] == e@;
            assert(r);
        }
    }
    r
}

/// Whether the file at `path` is a photo or video that is synced.
pub fn is_supported_media(path: &str) -> (r: bool)
    ensures
        r == supported_media(path@),
{
    let n = path.unicode_len();
    let mut start: usize = n;
    while start > 0 && !(path.get_char(start - 1) == '/' || path.get_char(start - 1) == '\\')
        invariant
            start <= n,
            n == path@.len(),
            forall|j: int| start <= j < n ==> !is_separator(#[trigger] path@[j]),
        decreases start,
    {
        start = start - 1;
    }
    proof {
        lemma_name_start_prefix(path@, start as int);
        if start > 0 {
            assert(path@.subrange(0, start as int).last() == path@[start - 1]);
        }
        assert(name_start(path@) == start);
    }
    let ghost name = file_name(path@);
    let mut dot: usize = n;
    while dot > start && path.get_char(dot - 1) != '.'
        invariant
            start <= dot <= n,
            n == path@.len(),
            name == path@.subrange(start as int, n as int),
            forall|j: int| dot <= j < n ==> #[trigger] path@[j] != '.',
        decreases dot,
    {
        dot = dot - 1;
    }
    proof {
        let i = dot - start;
        assert forall|j: int| i <= j < name.len() implies #[trigger] name[j] != '.' by {
            assert(name[j] == path@[start + j]);
        }
        lemma_last_dot_prefix(name, i);
        if dot > start {
            assert(name.subrange(0, i).last() == path@[dot - 1]);
            assert(last_dot(name) == i - 1);
        } else {
            assert(name.subrange(0, i).len() == 0);
            assert(last_dot(name) == -1);
        }
    }
    if dot - start <= 1 {
        return false;
    }
    let mut ext: Vec<char> = Vec::new();
    let mut k: usize = dot;
    while k < n
        invariant
            dot <= k <= n,
            n == path@.len(),
            ext@ == ascii_lowercase(path@.subrange(dot as int, k as int)),
        decreases n - k,
    {
        let c = path.get_char(k);
        ext.push(lower_char(c));
        assert(ascii_lowercase(path@.subrange(dot as int, k + 1)) =~= ascii_lowercase(
            path@.subrange(dot as int, k as int),
        ).push(ascii_lower(c)));
        k = k + 1;
    }
    proof {
        assert(name.subrange(dot - start, name.len() as int) =~= path@.subrange(
            dot as int,
            n as int,
        ));
    }
    is_media_extension(&ext)
}


/// Number of supported media paths in `paths`.
pub open spec fn count_supported(paths: Seq<Seq<char>>) -> nat
    decreases paths.len(),
{
    if paths.len() == 0 {
        0
    } else {
        count_supported(paths.drop_last()) + if supported_media(paths.last()) {
            1nat
        } else {
            0nat
        }
    }
}

/// The count of two lists of paths is the sum of their counts.
pub proof fn lemma_count_supported_additive(a: Seq<Seq<char>>, b: Seq<Seq<char>>)
    ensures
        count_supported(a + b) == count_supported(a) + count_supported(b),
    decreases b.len(),
{
    if b.len() == 0 {
        assert(a + b =~= a);
    } else {
        lemma_count_supported_additive(a, b.drop_last());
        assert((a + b).drop_last() =~= a + b.drop_last());
        assert((a + b).last() == b.last());
    }
}

/// One path counts exactly when it is supported media.
pub proof fn lemma_count_supported_one(p: Seq<char>)
    ensures
        count_supported(seq![p]) == (if supported_media(p) { 1nat } else { 0nat }),
{
    assert(seq![p].drop_last() =~= Seq::<Seq<char>>::empty());
    assert(count_supported(Seq::<Seq<char>>::empty()) == 0);
    assert(seq![p].last() == p);
}

/// Counts the supported photo and video files among `paths`.
pub fn count_supported_media(paths: &Vec<String>) -> (r: u64)
    ensures
        r == count_supported(paths@.map_values(|p: String| p@)),
{
    let ghost all = paths@.map_values(|p: String| p@);
    let mut count: usize = 0;
    let mut i: usize = 0;
    while i < paths.len()
        invariant
            i <= paths.len(),
            all == paths@.map_values(|p: String| p@),
            count == count_supported(all.subrange(0, i as int)),
            count <= i,
        decreases paths.len() - i,
    {
        let s = is_supported_media(paths[i].as_str());
        assert(all.subrange(0, i + 1).drop_last() =~= all.subrange(0, i as int));
        if s {
            count = count + 1;
        }
        i = i + 1;
    }
    assert(all.subrange(0, paths.len() as int) =~= all);
    count as u64
}

} // verus!
