//! Cleaning the text of a service reply down to the JSON object it holds:
//! blank lines are dropped and the rest joined, the word `json` and code
//! fences are removed, surrounding whitespace is trimmed, and the span from
//! the first `{` to the last `}` is taken.

use vstd::prelude::*;
use vstd::std_specs::iter::IteratorSpec;
use vstd::string::{axiom_spec_iter, next_postcondition};

verus! {

/// The characters of `s`, in order.
pub fn chars_of(s: &str) -> (r: Vec<char>)
    ensures
        r@ == s@,
{
    broadcast use axiom_spec_iter, next_postcondition;

    let mut it = s.chars();
    let mut out: Vec<char> = Vec::new();
    loop
        invariant
            out@ + it.remaining() == s@,
            it.decrease() is Some,
        ensures
            out@ == s@,
        decreases it.decrease()->0,
    {
        match it.next() {
            Some(c) => {
                out.push(c);
            },
            None => {
                assert(out@ =~= s@);
                break;
            },
        }
    }
    out
}

/// Unicode `White_Space`, the characters that `char::is_whitespace` accepts.
pub open spec fn is_space(c: char) -> bool {
    let u = c as u32;
    ||| 9 <= u <= 13
    ||| u == 32
    ||| u == 0x85
    ||| u == 0xA0
    ||| u == 0x1680
    ||| 0x2000 <= u <= 0x200A
    ||| u == 0x2028
    ||| u == 0x2029
    ||| u == 0x202F
    ||| u == 0x205F
    ||| u == 0x3000
}

pub open spec fn all_space(s: Seq<char>) -> bool {
    forall|i: int| 0 <= i < s.len() ==> is_space(#[trigger] s[i])
}

/// A line as it is kept: nothing where it is blank.
pub open spec fn kept_line(line: Seq<char>) -> Seq<char> {
    if all_space(line) {
        Seq::empty()
    } else {
        line
    }
}

/// The lines of `s` that are not blank, joined, reading from index `i` with
/// the current line starting at `start`. A line ends at `\n`, and a `\r`
/// right before that `\n` belongs to the line ending.
pub open spec fn joined_lines(s: Seq<char>, start: int, i: int) -> Seq<char>
    decreases s.len() - i,
{
    if i >= s.len() {
        kept_line(s.subrange(start, s.len() as int))
    } else if s[i] == '\n' {
        let end = if i > start && s[i - 1] == '\r' { i - 1 } else { i };
        kept_line(s.subrange(start, end)) + joined_lines(s, i + 1, i + 1)
    } else {
        joined_lines(s, start, i + 1)
    }
}

/// `s` from index `i` on, with every occurrence of `p` removed, scanning
/// from the left and taking occurrences that do not overlap.
pub open spec fn removed_from(s: Seq<char>, p: Seq<char>, i: int) -> Seq<char>
    decreases s.len() - i,
{
    if i >= s.len() || p.len() == 0 {
        s.subrange(i, s.len() as int)
    } else if i + p.len() <= s.len() && s.subrange(i, i + p.len()) == p {
        removed_from(s, p, i + p.len())
    } else {
        seq![s[i]] + removed_from(s, p, i + 1)
    }
}

/// The first index from `i` on that does not hold a space.
pub open spec fn space_end(s: Seq<char>, i: int) -> int
    decreases s.len() - i,
{
    if i < s.len() && is_space(s[i]) {
        space_end(s, i + 1)
    } else {
        i
    }
}

/// The start of the run of spaces that ends at `j`, going no lower than `lo`.
pub open spec fn space_start(s: Seq<char>, lo: int, j: int) -> int
    decreases j - lo,
{
    if j > lo && is_space(s[j - 1]) {
        space_start(s, lo, j - 1)
    } else {
        j
    }
}

/// `s` without leading and trailing spaces.
pub open spec fn trimmed(s: Seq<char>) -> Seq<char> {
    let a = space_end(s, 0);
    s.subrange(a, space_start(s, a, s.len() as int))
}

/// The first index from `i` on that holds `c`, or -1.
pub open spec fn first_from(s: Seq<char>, c: char, i: int) -> int
    decreases s.len() - i,
{
    if i >= s.len() {
        -1
    } else if s[i] == c {
        i
    } else {
        first_from(s, c, i + 1)
    }
}

/// The last index below `j` that holds `c`, or -1.
pub open spec fn last_before(s: Seq<char>, c: char, j: int) -> int
    decreases j,
{
    if j <= 0 {
        -1
    } else if s[j - 1] == c {
        j - 1
    } else {
        last_before(s, c, j - 1)
    }
}

pub open spec fn json_word() -> Seq<char> {
    seq!['j', 's', 'o', 'n']
}

pub open spec fn code_fence() -> Seq<char> {
    seq!['`', '`', '`']
}

/// A reply cleaned up: its non-blank lines joined, without the word `json`
/// and without code fences, trimmed.
pub open spec fn cleaned(text: Seq<char>) -> Seq<char> {
    trimmed(removed_from(removed_from(joined_lines(text, 0, 0), json_word(), 0), code_fence(), 0))
}

/// The span of the cleaned reply from its first `{` to its last `}`, when
/// there is such a span.
pub open spec fn json_span(text: Seq<char>) -> Option<Seq<char>> {
    let c = cleaned(text);
    let a = first_from(c, '{', 0);
    let b = last_before(c, '}', c.len() as int);
    if 0 <= a <= b {
        Some(c.subrange(a, b + 1))
    } else {
        None
    }
}

/// Whether `c` is a space.
pub fn is_space_char(c: char) -> (r: bool)
    ensures
        r == is_space(c),
{
    let u = c as u32;
    (9 <= u && u <= 13) || u == 32 || u == 0x85 || u == 0xA0 || u == 0x1680 || (0x2000 <= u && u
        <= 0x200A) || u == 0x2028 || u == 0x2029 || u == 0x202F || u == 0x205F || u == 0x3000
}

fn copy_range(s: &Vec<char>, lo: usize, hi: usize) -> (r: Vec<char>)
    requires
        lo <= hi <= s@.len(),
    ensures
        r@ == s@.subrange(lo as int, hi as int),
{
    let mut r: Vec<char> = Vec::new();
    let mut i: usize = lo;
    while i < hi
        invariant
            lo <= i <= hi,
            hi <= s@.len(),
            r@ == s@.subrange(lo as int, i as int),
        decreases hi - i,
    {
        r.push(s[i]);
        i = i + 1;
        assert(r@ =~= s@.subrange(lo as int, i as int));
    }
    r
}

/// Appends the line `s[lo..hi]` to `out` unless it is blank.
fn push_line(out: &mut Vec<char>, s: &Vec<char>, lo: usize, hi: usize)
    requires
        lo <= hi <= s@.len(),
    ensures
        final(out)@ == old(out)@ + kept_line(s@.subrange(lo as int, hi as int)),
{
    let ghost line = s@.subrange(lo as int, hi as int);
    let mut i: usize = lo;
    while i < hi && is_space_char(s[i])
        invariant
            lo <= i <= hi,
            hi <= s@.len(),
            forall|k: int| lo <= k < i ==> is_space(#[trigger] s@[k]),
        decreases hi - i,
    {
        i = i + 1;
    }
    if i == hi {
        assert(all_space(line)) by {
            assert forall|k: int| 0 <= k < line.len() implies is_space(#[trigger] line[k]) by {
                assert(line[k] == s@[lo + k]);
            }
        }
        assert(old(out)@ + kept_line(line) =~= old(out)@);
    } else {
        assert(!is_space(line[i - lo]));
        let mut j: usize = lo;
        while j < hi
            invariant
                lo <= j <= hi,
                hi <= s@.len(),
                out@ == old(out)@ + s@.subrange(lo as int, j as int),
            decreases hi - j,
        {
            out.push(s[j]);
            j = j + 1;
            assert(out@ =~= old(out)@ + s@.subrange(lo as int, j as int));
        }
    }
}

/// The non-blank lines of `s`, joined.
fn join_lines(s: &Vec<char>) -> (r: Vec<char>)
    ensures
        r@ == joined_lines(s@, 0, 0),
{
    let mut out: Vec<char> = Vec::new();
    let mut start: usize = 0;
    let mut i: usize = 0;
    while i < s.len()
        invariant
            start <= i <= s@.len(),
            out@ + joined_lines(s@, start as int, i as int) == joined_lines(s@, 0, 0),
        decreases s@.len() - i,
    {
        if s[i] == '\n' {
            let end = if i > start && s[i - 1] == '\r' { i - 1 } else { i };
            let ghost before = out@;
            push_line(&mut out, s, start, end);
            assert(out@ + joined_lines(s@, (i + 1) as int, (i + 1) as int) =~= before
                + joined_lines(s@, start as int, i as int));
            start = i + 1;
        }
        i = i + 1;
    }
    push_line(&mut out, s, start, i);
    out
}

/// Whether `p` occurs in `s` at index `i`.
fn occurs_at(s: &Vec<char>, p: &Vec<char>, i: usize) -> (r: bool)
    requires
        i <= s@.len(),
    ensures
        r == (i + p@.len() <= s@.len() && s@.subrange(i as int, i + p@.len()) == p@),
{
    if p.len() > s.len() - i {
        return false;
    }
    let mut k: usize = 0;
    while k < p.len()
        invariant
            k <= p@.len(),
            i + p@.len() <= s@.len(),
            s@.len() <= usize::MAX,
            forall|m: int| 0 <= m < k ==> s@[i + m] == #[trigger] p@[m],
        decreases p@.len() - k,
    {
        if s[i + k] != p[k] {
            assert(s@.subrange(i as int, i + p@.len())[k as int] != p@[k as int]);
            return false;
        }
        k = k + 1;
    }
    assert(s@.subrange(i as int, i + p@.len()) =~= p@);
    true
}

/// `s` with every occurrence of `p` removed, from the left.
fn remove_all(s: &Vec<char>, p: &Vec<char>) -> (r: Vec<char>)
    requires
        p@.len() > 0,
    ensures
        r@ == removed_from(s@, p@, 0),
{
    let mut out: Vec<char> = Vec::new();
    let mut i: usize = 0;
    while i < s.len()
        invariant
            i <= s@.len(),
            p@.len() > 0,
            out@ + removed_from(s@, p@, i as int) == removed_from(s@, p@, 0),
        decreases s@.len() - i,
    {
        if occurs_at(s, p, i) {
            i = i + p.len();
        } else {
            assert(out@.push(s@[i as int]) + removed_from(s@, p@, i + 1) =~= out@ + removed_from(
                s@,
                p@,
                i as int,
            ));
            out.push(s[i]);
            i = i + 1;
        }
    }
    assert(removed_from(s@, p@, i as int) =~= Seq::<char>::empty());
    assert(out@ =~= out@ + removed_from(s@, p@, i as int));
    out
}

/// `s` without leading and trailing spaces.
fn trim(s: &Vec<char>) -> (r: Vec<char>)
    ensures
        r@ == trimmed(s@),
{
    let n = s.len();
    let mut a: usize = 0;
    while a < n && is_space_char(s[a])
        invariant
            n == s@.len(),
            a <= n,
            space_end(s@, 0) == space_end(s@, a as int),
        decreases n - a,
    {
        a = a + 1;
    }
    let mut b: usize = n;
    while b > a && is_space_char(s[b - 1])
        invariant
            n == s@.len(),
            a <= b <= n,
            space_start(s@, a as int, n as int) == space_start(s@, a as int, b as int),
        decreases b - a,
    {
        b = b - 1;
    }
    copy_range(s, a, b)
}

/// The first index of `c` in `s`, if any.
fn find_first(s: &Vec<char>, c: char) -> (r: Option<usize>)
    ensures
        match r {
            Some(i) => i < s@.len() && first_from(s@, c, 0) == i,
            None => first_from(s@, c, 0) == -1,
        },
{
    let mut i: usize = 0;
    while i < s.len()
        invariant
            i <= s@.len(),
            first_from(s@, c, 0) == first_from(s@, c, i as int),
        decreases s@.len() - i,
    {
        if s[i] == c {
            return Some(i);
        }
        i = i + 1;
    }
    None
}

/// The last index of `c` in `s`, if any.
fn find_last(s: &Vec<char>, c: char) -> (r: Option<usize>)
    ensures
        match r {
            Some(i) => i < s@.len() && last_before(s@, c, s@.len() as int) == i,
            None => last_before(s@, c, s@.len() as int) == -1,
        },
{
    let mut j: usize = s.len();
    while j > 0
        invariant
            j <= s@.len(),
            last_before(s@, c, s@.len() as int) == last_before(s@, c, j as int),
        decreases j,
    {
        if s[j - 1] == c {
            return Some(j - 1);
        }
        j = j - 1;
    }
    None
}

/// The span of a reply from the first `{` to the last `}` once the reply is
/// cleaned up (see `cleaned`), when there is one.
pub fn find_json_span(text: &str) -> (r: Option<Vec<char>>)
    ensures
        match json_span(text@) {
            Some(span) => r is Some && r->0@ == span,
            None => r is None,
        },
{
    let chars = chars_of(text);
    let joined = join_lines(&chars);
    let word: Vec<char> = vec!['j', 's', 'o', 'n'];
    let fence: Vec<char> = vec!['`', '`', '`'];
    assert(word@ =~= json_word());
    assert(fence@ =~= code_fence());
    let without_word = remove_all(&joined, &word);
    let without_fence = remove_all(&without_word, &fence);
    let c = trim(&without_fence);
    match (find_first(&c, '{'), find_last(&c, '}')) {
        (Some(a), Some(b)) => {
            if a <= b {
                Some(copy_range(&c, a, b + 1))
            } else {
                None
            }
        },
        _ => None,
    }
}

} // verus!
