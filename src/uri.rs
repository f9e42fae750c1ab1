//! Routing by identifier and by MIME type.

use vstd::prelude::*;

verus! {

/// Index of the last occurrence of `c` in `s`, or -1 when there is none.
pub open spec fn last_index_of(s: Seq<char>, c: char) -> int
    decreases s.len(),
{
    if s.len() == 0 {
        -1
    } else if s.last() == c {
        s.len() - 1
    } else {
        last_index_of(s.drop_last(), c)
    }
}

/// The text after the final `/` (the whole identifier when it has none).
pub open spec fn file_name(s: Seq<char>) -> Seq<char> {
    s.subrange(last_index_of(s, '/') + 1, s.len() as int)
}

/// The text after the final `.` of the file name; none when the name has
/// no `.`.
pub open spec fn extension(s: Seq<char>) -> Option<Seq<char>> {
    let name = file_name(s);
    let dot = last_index_of(name, '.');
    if dot >= 0 {
        Some(name.subrange(dot + 1, name.len() as int))
    } else {
        None
    }
}

pub open spec fn png_word() -> Seq<char> {
    seq!['p', 'n', 'g']
}

/// The identifiers this loader claims: extension exactly `png`, case-sensitive.
pub open spec fn is_png_uri(s: Seq<char>) -> bool {
    extension(s) == Some(png_word())
}

pub open spec fn png_at(s: Seq<char>, i: int) -> bool {
    &&& 0 <= i
    &&& i + 3 <= s.len()
    &&& s[i] == 'p'
    &&& s[i + 1] == 'n'
    &&& s[i + 2] == 'g'
}

/// `png` occurs somewhere in `s`.
pub open spec fn mentions_png(s: Seq<char>) -> bool {
    exists|i: int| #[trigger] png_at(s, i)
}

proof fn lemma_last_index_bounds(s: Seq<char>, c: char)
    ensures
        -1 <= last_index_of(s, c) < s.len(),
        last_index_of(s, c) >= 0 ==> s[last_index_of(s, c)] == c,
    decreases s.len(),
{
    if s.len() > 0 && s.last() != c {
        lemma_last_index_bounds(s.drop_last(), c);
    }
}

/// Last index `i` in `lo..hi` with `s[i] == c`, counted from `lo`; -1 if none.
fn rfind_in(s: &str, lo: usize, hi: usize, c: char) -> (r: Option<usize>)
    requires
        lo <= hi <= s@.len(),
    ensures
        match r {
            Some(k) => k == last_index_of(s@.subrange(lo as int, hi as int), c),
            None => last_index_of(s@.subrange(lo as int, hi as int), c) == -1,
        },
{
    let mut i: usize = hi;
    while i > lo
        invariant
            lo <= i <= hi <= s@.len(),
            last_index_of(s@.subrange(lo as int, hi as int), c) == last_index_of(
                s@.subrange(lo as int, i as int),
                c,
            ),
        decreases i,
    {
        let ch = s.get_char(i - 1);
        assert(s@.subrange(lo as int, i as int).drop_last() =~= s@.subrange(
            lo as int,
            i - 1,
        ));
        if ch == c {
            return Some(i - 1 - lo);
        }
        i = i - 1;
    }
    None
}

/// Whether this loader claims the identifier `uri`, judged by its extension.
pub fn is_supported_uri(uri: &str) -> (r: bool)
    ensures
        r == is_png_uri(uri@),
{
    let n = uri.unicode_len();
    let slash = rfind_in(uri, 0, n, '/');
    assert(uri@.subrange(0, n as int) =~= uri@);
    proof {
        lemma_last_index_bounds(uri@, '/');
    }
    let start = match slash {
        Some(k) => k + 1,
        None => 0,
    };
    let found = rfind_in(uri, start, n, '.');
    let ghost name = file_name(uri@);
    assert(name =~= uri@.subrange(start as int, n as int));
    proof {
        lemma_last_index_bounds(name, '.');
    }
    let dot = match found {
        Some(k) => k,
        _ => {
            return false;
        },
    };
    let from = start + dot + 1;
    let ghost ext = name.subrange(dot + 1, name.len() as int);
    assert(ext =~= uri@.subrange(from as int, n as int));
    if n - from != 3 {
        assert(ext.len() != png_word().len());
        return false;
    }
    let r = uri.get_char(from) == 'p' && uri.get_char(from + 1) == 'n' && uri.get_char(from + 2)
        == 'g';
    if r {
        assert(ext =~= png_word());
    } else {
        assert(ext != png_word()) by {
            if ext == png_word() {
                assert(ext[0] == 'p' && ext[1] == 'n' && ext[2] == 'g');
            }
        }
    }
    r
}

/// Whether a MIME type reported with the bytes rules out PNG: it does
/// unless `png` occurs in it.
pub fn is_unsupported_mime(mime: &str) -> (r: bool)
    ensures
        r == !mentions_png(mime@),
{
    let n = mime.unicode_len();
    let mut i: usize = 0;
    while 3 <= n && i <= n - 3
        invariant
            n == mime@.len(),
            3 <= n ==> i <= n - 2,
            forall|j: int| 0 <= j < i ==> !#[trigger] png_at(mime@, j),
        decreases n - i,
    {
        if mime.get_char(i) == 'p' && mime.get_char(i + 1) == 'n' && mime.get_char(i + 2) == 'g' {
            assert(png_at(mime@, i as int));
            return false;
        }
        i = i + 1;
    }
    assert forall|j: int| !#[trigger] png_at(mime@, j) by {
        if 0 <= j && j >= i {
            assert(j + 3 > n);
        }
    }
    true
}

} // verus!
