use vstd::prelude::*;

use crate::errors::FileInfoResult;
use crate::format::{accepted_extensions, preferred_extension_of, str_views, ImageType};
use crate::settings::ProfileData;

verus! {

// A path is read as text: its file name is what follows the last '/', and its
// extension is what follows the last '.' of the file name, where that dot is
// not the name's first character and the name is not "..".

/// The last index in `lo..hi` at which `s` holds `c`, or `lo - 1`.
pub open spec fn last_in(s: Seq<char>, c: char, lo: int, hi: int) -> int
    decreases hi - lo,
{
    if hi <= lo {
        lo - 1
    } else if s[hi - 1] == c {
        hi - 1
    } else {
        last_in(s, c, lo, hi - 1)
    }
}

/// Where the file name of a path starts.
pub open spec fn name_start(s: Seq<char>) -> int {
    last_in(s, '/', 0, s.len() as int) + 1
}

/// The file name of a path: what follows its last '/'.
pub open spec fn file_name_of(s: Seq<char>) -> Seq<char> {
    s.subrange(name_start(s), s.len() as int)
}

/// The index of the dot that starts a path's extension, or -1 where it has none.
pub open spec fn ext_dot(s: Seq<char>) -> int {
    let ns = name_start(s);
    let d = last_in(s, '.', ns, s.len() as int);
    if d > ns && file_name_of(s) != seq!['.', '.'] {
        d
    } else {
        -1
    }
}

/// The extension of a path, empty where it has none.
pub open spec fn extension_of(s: Seq<char>) -> Seq<char> {
    if ext_dot(s) >= 0 {
        s.subrange(ext_dot(s) + 1, s.len() as int)
    } else {
        Seq::empty()
    }
}

/// A path with its extension and the dot before it taken off.
pub open spec fn without_extension(s: Seq<char>) -> Seq<char> {
    if ext_dot(s) >= 0 {
        s.subrange(0, ext_dot(s))
    } else {
        s
    }
}

/// The hidden staging name beside a file: its name with a leading dot.
pub open spec fn temp_path_of(s: Seq<char>) -> Seq<char> {
    s.subrange(0, name_start(s)) + seq!['.'] + file_name_of(s)
}

/// The extension the output keeps when nothing is converted: the file's own
/// where the detected format accepts it, else the format's canonical one.
pub open spec fn original_extension(s: Seq<char>, t: ImageType) -> Seq<char> {
    if accepted_extensions(t).contains(extension_of(s)) {
        extension_of(s)
    } else {
        preferred_extension_of(t)
    }
}

/// The extension of the output file.
pub open spec fn final_extension(p: ProfileData, s: Seq<char>, t: ImageType) -> Seq<char> {
    if p.should_convert {
        preferred_extension_of(p.convert_extension)
    } else {
        original_extension(s, t)
    }
}

/// The postfix put between the file's stem and its extension.
pub open spec fn postfix_of(p: ProfileData) -> Seq<char> {
    if p.add_postfix {
        p.postfix@
    } else {
        Seq::empty()
    }
}

/// The output path for a source path, a profile and the detected format.
pub open spec fn out_path_spec(p: ProfileData, s: Seq<char>, t: ImageType) -> Seq<char> {
    without_extension(s) + postfix_of(p) + seq!['.'] + final_extension(p, s, t)
}

/// The characters of a string slice, one by one.
pub fn chars_of(s: &str) -> (r: Vec<char>)
    ensures
        r@ == s@,
{
    let n = s.unicode_len();
    let mut r: Vec<char> = Vec::new();
    let mut i: usize = 0;
    while i < n
        invariant
            n == s@.len(),
            i <= n,
            r@ == s@.subrange(0, i as int),
        decreases n - i,
    {
        r.push(s.get_char(i));
        i = i + 1;
    }
    assert(r@ == s@.subrange(0, n as int));
    r
}

/// Whether two string slices hold the same characters.
pub fn str_eq(a: &str, b: &str) -> (r: bool)
    ensures
        r == (a@ == b@),
{
    let n = a.unicode_len();
    if n != b.unicode_len() {
        return false;
    }
    let mut i: usize = 0;
    while i < n
        invariant
            n == a@.len(),
            n == b@.len(),
            i <= n,
            a@.subrange(0, i as int) == b@.subrange(0, i as int),
        decreases n - i,
    {
        if a.get_char(i) != b.get_char(i) {
            assert(a@[i as int] != b@[i as int]);
            return false;
        }
        assert(a@.subrange(0, i + 1) == a@.subrange(0, i as int).push(a@[i as int]));
        assert(b@.subrange(0, i + 1) == b@.subrange(0, i as int).push(b@[i as int]));
        i = i + 1;
    }
    assert(a@ == a@.subrange(0, n as int));
    assert(b@ == b@.subrange(0, n as int));
    true
}

/// The last index in `lo..hi` at which `v` holds `c`.
fn find_last(v: &Vec<char>, c: char, lo: usize, hi: usize) -> (r: Option<usize>)
    requires
        lo <= hi <= v@.len(),
    ensures
        r is None <==> last_in(v@, c, lo as int, hi as int) == lo - 1,
        r matches Some(i) ==> i == last_in(v@, c, lo as int, hi as int),
{
    let mut i: usize = hi;
    while i > lo
        invariant
            lo <= i <= hi <= v@.len(),
            last_in(v@, c, lo as int, hi as int) == last_in(v@, c, lo as int, i as int),
        decreases i,
    {
        if v[i - 1] == c {
            return Some(i - 1);
        }
        i = i - 1;
    }
    None
}

proof fn lemma_last_in_bounds(s: Seq<char>, c: char, lo: int, hi: int)
    requires
        lo <= hi,
    ensures
        lo - 1 <= last_in(s, c, lo, hi) < hi,
        last_in(s, c, lo, hi) >= lo ==> s[last_in(s, c, lo, hi)] == c,
    decreases hi - lo,
{
    if hi > lo && s[hi - 1] != c {
        lemma_last_in_bounds(s, c, lo, hi - 1);
    }
}

/// Where the file name of a path starts, and the dot of its extension.
fn split_points(v: &Vec<char>) -> (r: (usize, Option<usize>))
    ensures
        r.0 == name_start(v@),
        r.1 is None <==> ext_dot(v@) < 0,
        r.1 matches Some(d) ==> d == ext_dot(v@),
        r.0 <= v@.len(),
{
    let n = v.len();
    proof {
        lemma_last_in_bounds(v@, '/', 0, n as int);
    }
    let ns: usize = match find_last(v, '/', 0, n) {
        Some(i) => i + 1,
        None => 0,
    };
    proof {
        lemma_last_in_bounds(v@, '.', ns as int, n as int);
    }
    let dot = find_last(v, '.', ns, n);
    let dotdot = n - ns == 2 && v[ns] == '.' && v[ns + 1] == '.';
    proof {
        if n - ns == 2 {
            if v@[ns as int] == '.' && v@[ns + 1] == '.' {
                assert(file_name_of(v@) =~= seq!['.', '.']);
            } else {
                assert(file_name_of(v@)[0] == v@[ns as int]);
                assert(file_name_of(v@)[1] == v@[ns + 1]);
            }
        } else {
            assert(file_name_of(v@).len() != 2);
        }
        assert(dotdot == (file_name_of(v@) == seq!['.', '.']));
    }
    match dot {
        Some(d) => {
            if d > ns && !dotdot {
                (ns, Some(d))
            } else {
                (ns, None)
            }
        },
        None => (ns, None),
    }
}

/// A path with its extension taken off.
pub fn remove_extension(path: &str) -> (r: String)
    ensures
        r@ == without_extension(path@),
{
    let v = chars_of(path);
    let (_, dot) = split_points(&v);
    match dot {
        Some(d) => {
            proof {
                lemma_last_in_bounds(path@, '.', name_start(path@), path@.len() as int);
            }
            String::from_str(path.substring_char(0, d))
        },
        None => String::from_str(path),
    }
}

/// Whether a path has an extension (possibly empty, as in `a.`).
pub fn has_extension(path: &str) -> (r: bool)
    ensures
        r == (ext_dot(path@) >= 0),
{
    let v = chars_of(path);
    let (_, dot) = split_points(&v);
    dot.is_some()
}

/// The extension of a path, empty where it has none.
pub fn extension(path: &str) -> (r: String)
    ensures
        r@ == extension_of(path@),
{
    let v = chars_of(path);
    let n = v.len();
    let (_, dot) = split_points(&v);
    match dot {
        Some(d) => {
            proof {
                lemma_last_in_bounds(path@, '.', name_start(path@), path@.len() as int);
            }
            assert(d < n);
            String::from_str(path.substring_char(d + 1, n))
        },
        None => String::new(),
    }
}

/// The file name of a path.
pub fn file_name(path: &str) -> (r: String)
    ensures
        r@ == file_name_of(path@),
{
    let v = chars_of(path);
    let (ns, _) = split_points(&v);
    String::from_str(path.substring_char(ns, v.len()))
}

/// The hidden staging path beside a file: `dir/name` becomes `dir/.name`.
pub fn get_temp_path(path: &str) -> (r: String)
    ensures
        r@ == temp_path_of(path@),
{
    let v = chars_of(path);
    let (ns, _) = split_points(&v);
    let mut r = String::from_str(path.substring_char(0, ns));
    proof {
        reveal_strlit(".");
    }
    r.append(".");
    r.append(path.substring_char(ns, v.len()));
    r
}

/// Whether `x` is one of `list`.
pub fn contains_str(list: &[&str], x: &str) -> (r: bool)
    ensures
        r == str_views(list@).contains(x@),
{
    let mut i: usize = 0;
    while i < list.len()
        invariant
            i <= list@.len(),
            forall|j: int| 0 <= j < i ==> list@[j]@ != x@,
        decreases list@.len() - i,
    {
        if str_eq(list[i], x) {
            assert(str_views(list@)[i as int] == x@);
            return true;
        }
        i = i + 1;
    }
    proof {
        if str_views(list@).contains(x@) {
            let j = choose|j: int| 0 <= j < str_views(list@).len() && str_views(list@)[j] == x@;
            assert(list@[j]@ == x@);
        }
    }
    false
}

/// The output path: the source path without its extension, then the postfix
/// where the profile adds one, a dot, and the convert target's canonical
/// extension, or else the file's own extension where the detected format
/// accepts it and the format's canonical one where it does not.
pub fn get_out_path(parameters: &ProfileData, path: &str, guessed_format: &ImageType) -> (r: String)
    ensures
        r@ == out_path_spec(*parameters, path@, *guessed_format),
{
    let file_extension = extension(path);
    let original = if contains_str(guessed_format.extensions(), file_extension.as_str()) {
        file_extension
    } else {
        String::from_str(guessed_format.preferred_extension())
    };
    let ext = if parameters.should_convert {
        String::from_str(parameters.convert_extension.preferred_extension())
    } else {
        original
    };
    let mut r = remove_extension(path);
    if parameters.add_postfix {
        r.append(parameters.postfix.as_str());
    }
    proof {
        reveal_strlit(".");
    }
    r.append(".");
    r.append(ext.as_str());
    proof {
        if !parameters.add_postfix {
            assert(without_extension(path@) + postfix_of(*parameters) =~= without_extension(path@));
        }
    }
    r
}

/// The output path is a function of the profile, the source path and the
/// detected format alone: equal inputs give equal paths.
pub proof fn lemma_out_path_deterministic(
    p1: ProfileData,
    s1: Seq<char>,
    t1: ImageType,
    p2: ProfileData,
    s2: Seq<char>,
    t2: ImageType,
)
    requires
        p1.should_convert == p2.should_convert,
        p1.convert_extension == p2.convert_extension,
        p1.add_postfix == p2.add_postfix,
        p1.postfix@ == p2.postfix@,
        s1 == s2,
        t1 == t2,
    ensures
        out_path_spec(p1, s1, t1) == out_path_spec(p2, s2, t2),
{
}

/// The output path ends in a dot and an extension that is the convert
/// target's canonical one where the profile converts, and otherwise one that
/// the detected format accepts; never an arbitrary string.
pub proof fn lemma_out_path_extension(p: ProfileData, s: Seq<char>, t: ImageType)
    ensures
        out_path_spec(p, s, t) == without_extension(s) + postfix_of(p) + seq!['.'] + final_extension(
            p,
            s,
            t,
        ),
        p.should_convert ==> final_extension(p, s, t) == preferred_extension_of(p.convert_extension),
        !p.should_convert ==> accepted_extensions(t).contains(final_extension(p, s, t)),
{
    assert(accepted_extensions(t)[0] == preferred_extension_of(t));
}

/// What is shown of a file before processing: its size, which must fit in 32
/// bits, its extension and its file name.
pub fn file_info(path: &str, len: u64) -> (r: Result<FileInfoResult, String>)
    ensures
        r is Err <==> len > u32::MAX,
        r matches Err(m) ==> m@ == "File too large"@,
        r matches Ok(info) ==> info.size == len && info.extension@ == extension_of(path@)
            && info.filename@ == file_name_of(path@),
{
    if len > u32::MAX as u64 {
        return Err(String::from_str("File too large"));
    }
    Ok(FileInfoResult { size: len as u32, extension: extension(path), filename: file_name(path) })
}

/// Characters that hold no `c` in `k..hi` do not move the last `c` of `lo..hi`.
proof fn lemma_last_in_skip(s: Seq<char>, c: char, lo: int, k: int, hi: int)
    requires
        lo <= k <= hi <= s.len(),
        forall|i: int| k <= i < hi ==> s[i] != c,
    ensures
        last_in(s, c, lo, hi) == last_in(s, c, lo, k),
    decreases hi - k,
{
    if hi > k {
        lemma_last_in_skip(s, c, lo, k, hi - 1);
    }
}

/// The last `c` of `lo..hi` depends on those characters alone.
proof fn lemma_last_in_prefix(s: Seq<char>, t: Seq<char>, c: char, lo: int, hi: int)
    requires
        lo <= hi <= s.len(),
        hi <= t.len(),
        forall|i: int| lo <= i < hi ==> s[i] == t[i],
    ensures
        last_in(s, c, lo, hi) == last_in(t, c, lo, hi),
    decreases hi - lo,
{
    if hi > lo {
        lemma_last_in_prefix(s, t, c, lo, hi - 1);
    }
}

/// Whether a string can stand as an extension: not empty, with no '.' or '/'.
pub open spec fn plain_extension(e: Seq<char>) -> bool {
    e.len() > 0 && forall|i: int| 0 <= i < e.len() ==> e[i] != '.' && e[i] != '/'
}

proof fn lemma_known_extensions_plain(t: ImageType)
    ensures
        plain_extension(preferred_extension_of(t)),
        forall|i: int| 0 <= i < accepted_extensions(t).len() ==> plain_extension(
            #[trigger] accepted_extensions(t)[i],
        ),
{
    let p = preferred_extension_of(t);
    assert forall|i: int| 0 <= i < p.len() implies p[i] != '.' && p[i] != '/' by {}
    let a = accepted_extensions(t);
    assert forall|i: int| 0 <= i < a.len() implies plain_extension(#[trigger] a[i]) by {
        let e = a[i];
        assert forall|j: int| 0 <= j < e.len() implies e[j] != '.' && e[j] != '/' by {}
    }
}

/// A path `a.e`, where `e` can stand as an extension and `a` is not empty and
/// does not end in '/', has the extension `e`.
pub proof fn lemma_extension_of_joined(a: Seq<char>, e: Seq<char>)
    requires
        a.len() > 0,
        a.last() != '/',
        plain_extension(e),
    ensures
        extension_of(a + seq!['.'] + e) == e,
{
    let out = a + seq!['.'] + e;
    let n = out.len() as int;
    let m = a.len() as int;
    assert(out[m] == '.');
    assert forall|i: int| m + 1 <= i < n implies out[i] != '/' && out[i] != '.' by {
        assert(out[i] == e[i - m - 1]);
    }
    lemma_last_in_skip(out, '/', 0, m + 1, n);
    lemma_last_in_prefix(out, a, '/', 0, m);
    lemma_last_in_bounds(a, '/', 0, m);
    let j = last_in(a, '/', 0, m);
    assert(last_in(out, '/', 0, m + 1) == last_in(out, '/', 0, m));
    assert(name_start(out) == j + 1);
    assert(j + 1 < m);
    lemma_last_in_skip(out, '.', j + 1, m + 1, n);
    assert(last_in(out, '.', j + 1, n) == m);
    let name = file_name_of(out);
    assert(name[name.len() - 1] == e.last());
    assert(name != seq!['.', '.']) by {
        if name == seq!['.', '.'] {
            assert(name[1] == '.');
        }
    }
    assert(ext_dot(out) == m);
    assert(out.subrange(m + 1, n) =~= e);
}

/// The output path's extension, read as any path's, is the convert target's
/// canonical one where the profile converts, and otherwise one that the
/// detected format accepts; it is never an arbitrary string. This holds
/// wherever the part before the new extension is not empty and does not end
/// in '/'.
pub proof fn lemma_out_path_has_known_extension(p: ProfileData, s: Seq<char>, t: ImageType)
    requires
        (without_extension(s) + postfix_of(p)).len() > 0,
        (without_extension(s) + postfix_of(p)).last() != '/',
    ensures
        extension_of(out_path_spec(p, s, t)) == final_extension(p, s, t),
        p.should_convert ==> extension_of(out_path_spec(p, s, t)) == preferred_extension_of(
            p.convert_extension,
        ),
        !p.should_convert ==> accepted_extensions(t).contains(extension_of(out_path_spec(p, s, t))),
{
    lemma_out_path_extension(p, s, t);
    lemma_known_extensions_plain(t);
    lemma_known_extensions_plain(p.convert_extension);
    let e = final_extension(p, s, t);
    if !p.should_convert && accepted_extensions(t).contains(extension_of(s)) {
        let k = choose|k: int| 0 <= k < accepted_extensions(t).len() && accepted_extensions(t)[k] == extension_of(s);
        assert(plain_extension(accepted_extensions(t)[k]));
    }
    assert(plain_extension(e));
    lemma_extension_of_joined(without_extension(s) + postfix_of(p), e);
}

/// The extensions that file discovery accepts.
pub open spec fn image_extension_allowed(e: Seq<char>) -> bool {
    e == seq!['p', 'n', 'g'] || e == seq!['j', 'p', 'e', 'g'] || e == seq!['j', 'p', 'g']
        || e == seq!['g', 'i', 'f'] || e == seq!['w', 'e', 'b', 'p']
        || e == seq!['t', 'i', 'f', 'f'] || e == seq!['a', 'v', 'i', 'f']
}

/// A character with ASCII capitals made small.
pub open spec fn ascii_lower(c: char) -> char {
    if 'A' <= c && c <= 'Z' {
        (((c as u32) + 32) as u8) as char
    } else {
        c
    }
}

/// A string with ASCII capitals made small.
pub open spec fn lower_seq(s: Seq<char>) -> Seq<char> {
    s.map_values(|c: char| ascii_lower(c))
}

/// Whether a path names an image by its extension, whatever its case.
pub fn has_image_extension(path: &str) -> (r: bool)
    ensures
        r == image_extension_allowed(lower_seq(extension_of(path@))),
{
    let ext = extension(path);
    let v = chars_of(ext.as_str());
    let mut low: Vec<char> = Vec::new();
    let mut i: usize = 0;
    while i < v.len()
        invariant
            i <= v@.len(),
            v@ == ext@,
            low@ == lower_seq(v@).subrange(0, i as int),
        decreases v@.len() - i,
    {
        let c = v[i];
        let l = if 'A' <= c && c <= 'Z' {
            (((c as u32) + 32) as u8) as char
        } else {
            c
        };
        low.push(l);
        i = i + 1;
    }
    assert(low@ =~= lower_seq(ext@));
    proof {
        reveal_strlit("png");
        reveal_strlit("jpeg");
        reveal_strlit("jpg");
        reveal_strlit("gif");
        reveal_strlit("webp");
        reveal_strlit("tiff");
        reveal_strlit("avif");
        assert("png"@ =~= seq!['p', 'n', 'g']);
        assert("jpeg"@ =~= seq!['j', 'p', 'e', 'g']);
        assert("jpg"@ =~= seq!['j', 'p', 'g']);
        assert("gif"@ =~= seq!['g', 'i', 'f']);
        assert("webp"@ =~= seq!['w', 'e', 'b', 'p']);
        assert("tiff"@ =~= seq!['t', 'i', 'f', 'f']);
        assert("avif"@ =~= seq!['a', 'v', 'i', 'f']);
    }
    chars_eq(&low, "png") || chars_eq(&low, "jpeg") || chars_eq(&low, "jpg")
        || chars_eq(&low, "gif") || chars_eq(&low, "webp") || chars_eq(&low, "tiff")
        || chars_eq(&low, "avif")
}

/// Whether a character list spells a string slice.
fn chars_eq(v: &Vec<char>, s: &str) -> (r: bool)
    ensures
        r == (v@ == s@),
{
    let w = chars_of(s);
    if v.len() != w.len() {
        return false;
    }
    let mut i: usize = 0;
    while i < v.len()
        invariant
            v@.len() == w@.len(),
            w@ == s@,
            i <= v@.len(),
            forall|j: int| 0 <= j < i ==> v@[j] == w@[j],
        decreases v@.len() - i,
    {
        if v[i] != w[i] {
            return false;
        }
        i = i + 1;
    }
    assert(v@ =~= w@);
    true
}

} // verus!
