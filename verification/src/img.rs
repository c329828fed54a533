//! The file names under which stage images and their combinations are saved.

use vstd::prelude::*;
use crate::text::push_char;

verus! {

/// The position of the first `c` in `s`, or the length of `s` where it has none.
pub open spec fn first_pos(s: Seq<char>, c: char) -> int
    decreases s.len(),
{
    if s.len() == 0 {
        0
    } else if s[0] == c {
        0
    } else {
        1 + first_pos(s.drop_first(), c)
    }
}

/// The part of `s` before its first `c` (all of `s` where it has none).
pub open spec fn before_first(s: Seq<char>, c: char) -> Seq<char> {
    s.take(first_pos(s, c))
}

/// The part of `s` after its first `c`, where it has one.
pub open spec fn after_first(s: Seq<char>, c: char) -> Option<Seq<char>> {
    if first_pos(s, c) < s.len() {
        Some(s.skip(first_pos(s, c) + 1))
    } else {
        None
    }
}

/// The part of `s` after its last `c` (all of `s` where it has none).
pub open spec fn after_last(s: Seq<char>, c: char) -> Seq<char>
    decreases s.len(),
{
    if s.len() == 0 {
        Seq::empty()
    } else if s.last() == c {
        Seq::empty()
    } else {
        after_last(s.drop_last(), c).push(s.last())
    }
}

/// The file extension that a `Content-Type` value gives: its subtype
/// without parameters, `png` where there is no value or no `/` in it.
pub open spec fn extension_of(content_type: Option<Seq<char>>) -> Seq<char> {
    match content_type {
        Some(t) => match after_first(t, '/') {
            Some(rest) => before_first(before_first(rest, '/'), ';'),
            None => "png"@,
        },
        None => "png"@,
    }
}

/// The name of the file that an image of `url` is saved in: the last path
/// segment without the query, with an extension from the content type
/// where the segment has no `.`.
pub open spec fn image_file_name(url: Seq<char>, content_type: Option<Seq<char>>) -> Seq<char> {
    let name = before_first(after_last(url, '/'), '?');
    if name.contains('.') {
        name
    } else {
        name + "."@ + extension_of(content_type)
    }
}

/// The name of the file that two combined images are saved in.
pub open spec fn combined_file_name(first: Seq<char>, second: Seq<char>) -> Seq<char> {
    first + "_"@ + second + ".png"@
}

proof fn lemma_first_pos(s: Seq<char>, c: char, i: int)
    requires
        0 <= i <= s.len(),
        forall|j: int| 0 <= j < i ==> s[j] != c,
        i == s.len() || s[i] == c,
    ensures
        first_pos(s, c) == i,
    decreases s.len(),
{
    if s.len() > 0 && i > 0 {
        lemma_first_pos(s.drop_first(), c, i - 1);
    }
}

/// Finds the position of the first `c` in `s`.
fn find_first(s: &str, c: char) -> (pos: usize)
    ensures
        pos == first_pos(s@, c),
        pos <= s@.len(),
{
    let n = s.unicode_len();
    let mut i: usize = 0;
    while i < n && s.get_char(i) != c
        invariant
            i <= n,
            n == s@.len(),
            forall|j: int| 0 <= j < i ==> s@[j] != c,
        decreases n - i,
    {
        i = i + 1;
    }
    proof {
        lemma_first_pos(s@, c, i as int);
    }
    i
}

/// The part of `s` before its first `c`.
fn take_before_first(s: &str, c: char) -> (res: String)
    ensures
        res@ == before_first(s@, c),
{
    let pos = find_first(s, c);
    String::from_str(s.substring_char(0, pos))
}

/// The part of `s` after its first `c`, where it has one.
fn take_after_first(s: &str, c: char) -> (res: Option<String>)
    ensures
        match res {
            Some(r) => after_first(s@, c) == Some(r@),
            None => after_first(s@, c) is None,
        },
{
    let pos = find_first(s, c);
    let n = s.unicode_len();
    if pos < n {
        Some(String::from_str(s.substring_char(pos + 1, n)))
    } else {
        None
    }
}

/// The part of `s` after its last `c`.
fn take_after_last(s: &str, c: char) -> (res: String)
    ensures
        res@ == after_last(s@, c),
{
    let mut out = String::new();
    for ch in it: s.chars()
        invariant
            it.seq() == s@,
            out@ == after_last(s@.take(it.index() as int), c),
    {
        assert(s@.take(it.index() + 1).drop_last() =~= s@.take(it.index() as int));
        if ch == c {
            out = String::new();
        } else {
            push_char(&mut out, ch);
        }
    }
    assert(s@.take(s@.len() as int) =~= s@);
    out
}

/// Whether `s` has the character `c`.
fn has_char(s: &str, c: char) -> (res: bool)
    ensures
        res == s@.contains(c),
{
    let pos = find_first(s, c);
    let n = s.unicode_len();
    proof {
        lemma_first_pos_props(s@, c);
        if pos < n {
            assert(s@[pos as int] == c);
        }
    }
    pos < n
}

proof fn lemma_first_pos_props(s: Seq<char>, c: char)
    ensures
        0 <= first_pos(s, c) <= s.len(),
        first_pos(s, c) < s.len() ==> s[first_pos(s, c)] == c,
        forall|j: int| 0 <= j < first_pos(s, c) ==> s[j] != c,
    decreases s.len(),
{
    if s.len() > 0 && s[0] != c {
        lemma_first_pos_props(s.drop_first(), c);
        assert forall|j: int| 0 <= j < first_pos(s, c) implies s[j] != c by {
            if j > 0 {
                assert(s[j] == s.drop_first()[j - 1]);
            }
        }
    }
}

/// The file extension that a `Content-Type` value gives.
pub fn extension_for(content_type: Option<&str>) -> (ext: String)
    ensures
        ext@ == extension_of(
            match content_type {
                Some(t) => Some(t@),
                None => None,
            },
        ),
{
    match content_type {
        Some(t) => match take_after_first(t, '/') {
            Some(rest) => {
                let sub = take_before_first(rest.as_str(), '/');
                take_before_first(sub.as_str(), ';')
            },
            None => String::from_str("png"),
        },
        None => String::from_str("png"),
    }
}

/// The name of the file that an image of `url`, served with the given
/// `Content-Type`, is saved in.
pub fn file_name_for(url: &str, content_type: Option<&str>) -> (name: String)
    ensures
        name@ == image_file_name(
            url@,
            match content_type {
                Some(t) => Some(t@),
                None => None,
            },
        ),
{
    let segment = take_after_last(url, '/');
    let mut name = take_before_first(segment.as_str(), '?');
    if !has_char(name.as_str(), '.') {
        let ext = extension_for(content_type);
        name.append(".");
        name.append(ext.as_str());
    }
    name
}

/// The name of the file that the combination of two saved images is saved in.
pub fn combined_name(first: &str, second: &str) -> (name: String)
    ensures
        name@ == combined_file_name(first@, second@),
{
    let mut name = String::from_str(first);
    name.append("_");
    name.append(second);
    name.append(".png");
    name
}

/// Where the part after the last `c` of `s` starts.
spec fn last_start(s: Seq<char>, c: char) -> int
    decreases s.len(),
{
    if s.len() == 0 {
        0
    } else if s.last() == c {
        s.len() as int
    } else {
        last_start(s.drop_last(), c)
    }
}

proof fn lemma_after_last_props(s: Seq<char>, c: char)
    ensures
        0 <= last_start(s, c) <= s.len(),
        last_start(s, c) == 0 || s[last_start(s, c) - 1] == c,
        forall|k: int| last_start(s, c) <= k < s.len() ==> s[k] != c,
        after_last(s, c) == s.subrange(last_start(s, c), s.len() as int),
    decreases s.len(),
{
    if s.len() > 0 {
        if s.last() == c {
            assert(after_last(s, c) =~= s.subrange(s.len() as int, s.len() as int));
        } else {
            let t = s.drop_last();
            lemma_after_last_props(t, c);
            let i = last_start(t, c);
            assert(i == 0 || s[i - 1] == t[i - 1]);
            assert forall|k: int| last_start(s, c) <= k < s.len() implies s[k] != c by {
                if k < s.len() - 1 {
                    assert(s[k] == t[k]);
                }
            }
            assert(after_last(s, c) =~= s.subrange(i, s.len() as int));
        }
    }
}

/// The extension from a `Content-Type` value is `png` when there is no value
/// or no `/` in it; otherwise it is the text after the first `/`, up to the
/// next `/` or `;` or the end.
pub proof fn lemma_extension(t: Seq<char>)
    ensures
        extension_of(None) == "png"@,
        !t.contains('/') ==> extension_of(Some(t)) == "png"@,
        t.contains('/') ==> exists|p: int, q: int|
            #![trigger t.subrange(p + 1, q)]
            {
                &&& 0 <= p < q + 1 <= t.len() + 1
                &&& p + 1 <= q
                &&& t[p] == '/'
                &&& forall|k: int| 0 <= k < p ==> t[k] != '/'
                &&& forall|k: int| p + 1 <= k < q ==> t[k] != '/' && t[k] != ';'
                &&& q == t.len() || t[q] == '/' || t[q] == ';'
                &&& extension_of(Some(t)) == t.subrange(p + 1, q)
            },
{
    let content_type = Some(t);
    {
        lemma_first_pos_props(t, '/');
        let p = first_pos(t, '/');
        if t.contains('/') {
            let k0 = choose|k: int| 0 <= k < t.len() && t[k] == '/';
            assert(p < t.len());
            let rest = t.skip(p + 1);
            lemma_first_pos_props(rest, '/');
            let f1 = first_pos(rest, '/');
            let a = before_first(rest, '/');
            lemma_first_pos_props(a, ';');
            let f2 = first_pos(a, ';');
            let q = p + 1 + f2;
            assert(extension_of(content_type) == before_first(a, ';'));
            assert(before_first(a, ';') =~= t.subrange(p + 1, q));
            assert forall|k: int| p + 1 <= k < q implies t[k] != '/' && t[k] != ';' by {
                assert(t[k] == rest[k - p - 1]);
                assert(t[k] == a[k - p - 1]);
            }
            if q < t.len() {
                if f2 < a.len() {
                    assert(t[q] == a[f2]);
                } else {
                    assert(f1 < rest.len());
                    assert(t[q] == rest[f1]);
                }
            }
        } else {
            assert(p == t.len()) by {
                if p < t.len() {
                    assert(t[p] == '/');
                }
            }
        }
    }
}

/// The file name of an image always has a `.`. It begins with the name
/// part of the address: the text after the last `/` and before the first
/// `?` that follows it. When that name has a `.` it is the whole file name;
/// otherwise a `.` and an extension follow it.
pub proof fn lemma_image_file_name(url: Seq<char>, content_type: Option<Seq<char>>)
    ensures
        image_file_name(url, content_type).contains('.'),
        exists|i: int, j: int|
            #![trigger url.subrange(i, j)]
            {
                let name = url.subrange(i, j);
                let res = image_file_name(url, content_type);
                &&& 0 <= i <= j <= url.len()
                &&& i == 0 || url[i - 1] == '/'
                &&& forall|k: int| i <= k < url.len() ==> url[k] != '/'
                &&& forall|k: int| i <= k < j ==> url[k] != '?'
                &&& j == url.len() || url[j] == '?'
                &&& res.take(j - i) == name
                &&& name.contains('.') ==> res == name
                &&& !name.contains('.') ==> res.len() > j - i && res[j - i] == '.'
            },
{
    lemma_after_last_props(url, '/');
    let i = last_start(url, '/');
    let seg = after_last(url, '/');
    lemma_first_pos_props(seg, '?');
    let p = first_pos(seg, '?');
    let j = i + p;
    let name = before_first(seg, '?');
    assert(name =~= url.subrange(i, j));
    assert forall|k: int| i <= k < j implies url[k] != '?' by {
        assert(url[k] == seg[k - i]);
    }
    if j < url.len() {
        assert(p < seg.len());
        assert(url[j] == seg[p]);
    }
    let res = image_file_name(url, content_type);
    if name.contains('.') {
        assert(res.take(j - i) =~= name);
        let k = choose|k: int| 0 <= k < name.len() && name[k] == '.';
        assert(res[k] == '.');
    } else {
        reveal_strlit(".");
        let ext = extension_of(content_type);
        assert(res == name + "."@ + ext);
        assert(res.take(j - i) =~= name);
        assert(res[j - i] == '.');
    }
    assert(res.contains('.'));
    assert(url.subrange(i, j) == name);
}

} // verus!
