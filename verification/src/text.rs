use vstd::prelude::*;

verus! {

/// `pat` occurs in `s` starting at character `i`.
pub open spec fn occurs_at(s: Seq<char>, pat: Seq<char>, i: int) -> bool {
    0 <= i && i + pat.len() <= s.len() && s.subrange(i, i + pat.len()) == pat
}

/// A query parameter may start at `i`: at the start, or right after a `&`.
pub open spec fn parameter_start(q: Seq<char>, i: int) -> bool {
    i == 0 || (0 < i <= q.len() && q[i - 1] == '&')
}

/// A parameter starting at `i` begins with `head` (such as `url=`).
pub open spec fn parameter_at(q: Seq<char>, head: Seq<char>, i: int) -> bool {
    parameter_start(q, i) && occurs_at(q, head, i)
}

/// `i` is the first parameter that begins with `head`.
pub open spec fn first_parameter_at(q: Seq<char>, head: Seq<char>, i: int) -> bool {
    parameter_at(q, head, i) && forall|j: int| 0 <= j < i ==> !parameter_at(q, head, j)
}

/// Where the parameter text that goes on at `k` ends: at the next `&`, or at
/// the end of the query.
pub open spec fn parameter_end(q: Seq<char>, k: int) -> int
    decreases q.len() - k,
{
    if k >= q.len() || k < 0 {
        q.len() as int
    } else if q[k] == '&' {
        k
    } else {
        parameter_end(q, k + 1)
    }
}

/// The raw (still encoded) text that follows `head` in the first parameter of
/// the query that begins with `head`, up to the next `&`.
pub open spec fn raw_parameter(q: Seq<char>, head: Seq<char>) -> Option<Seq<char>> {
    if exists|i: int| parameter_at(q, head, i) {
        let i = choose|i: int| first_parameter_at(q, head, i);
        Some(q.subrange(i + head.len(), parameter_end(q, i + head.len())))
    } else {
        None
    }
}

proof fn lemma_first_parameter_unique(q: Seq<char>, head: Seq<char>, i: int, k: int)
    requires
        first_parameter_at(q, head, i),
        first_parameter_at(q, head, k),
    ensures
        i == k,
{
    if i < k {
        assert(!parameter_at(q, head, i));
    } else if k < i {
        assert(!parameter_at(q, head, k));
    }
}

/// The raw value of a parameter is the text that follows `head` at the start
/// of a parameter, up to the next `&` or the end of the query.
pub proof fn lemma_raw_parameter_shape(q: Seq<char>, head: Seq<char>)
    ensures
        raw_parameter(q, head) matches Some(r) ==> exists|i: int|
            parameter_start(q, i) && #[trigger] q.subrange(i, i + head.len()) == head
                && q.subrange(i + head.len(), i + head.len() + r.len()) == r && !r.contains('&') && (
            i + head.len() + r.len() == q.len() || q[i + head.len() + r.len()] == '&'),
{
    if exists|i: int| parameter_at(q, head, i) {
        let w = choose|i: int| parameter_at(q, head, i);
        lemma_first_parameter_exists(q, head, w);
        let i = choose|i: int| first_parameter_at(q, head, i);
        let k = i + head.len();
        lemma_parameter_end_bounds(q, k);
        let e = parameter_end(q, k);
        let r = q.subrange(k, e);
        assert(q.subrange(k, k + r.len()) =~= r);
        if r.contains('&') {
            let j = choose|j: int| 0 <= j < r.len() && r[j] == '&';
            assert(q[k + j] == '&');
        }
    }
}

proof fn lemma_first_parameter_exists(q: Seq<char>, head: Seq<char>, i: int)
    requires
        parameter_at(q, head, i),
    ensures
        exists|k: int| first_parameter_at(q, head, k),
    decreases i,
{
    if forall|j: int| 0 <= j < i ==> !parameter_at(q, head, j) {
        assert(first_parameter_at(q, head, i));
    } else {
        let j = choose|j: int| 0 <= j < i && parameter_at(q, head, j);
        lemma_first_parameter_exists(q, head, j);
    }
}

proof fn lemma_parameter_end_bounds(q: Seq<char>, k: int)
    requires
        0 <= k <= q.len(),
    ensures
        k <= parameter_end(q, k) <= q.len(),
        forall|j: int| k <= j < parameter_end(q, k) ==> q[j] != '&',
        parameter_end(q, k) < q.len() ==> q[parameter_end(q, k)] == '&',
    decreases q.len() - k,
{
    if k < q.len() && q[k] != '&' {
        lemma_parameter_end_bounds(q, k + 1);
    }
}

/// The raw text of the first query parameter that begins with `head`.
pub fn raw_parameter_exec(q: &str, head: &str) -> (r: Option<String>)
    ensures
        r matches Some(t) ==> raw_parameter(q@, head@) == Some(t@),
        r is None ==> raw_parameter(q@, head@) is None,
{
    let n = q.unicode_len();
    let m = head.unicode_len();
    let mut i: usize = 0;
    loop
        invariant
            n == q@.len(),
            m == head@.len(),
            i <= n,
            forall|j: int| 0 <= j < i ==> !parameter_at(q@, head@, j),
        decreases n - i,
    {
        let start = i == 0 || q.get_char(i - 1) == '&';
        if start && occurs_at_exec(q, n, head, m, i) {
            proof {
                assert(first_parameter_at(q@, head@, i as int));
                let k = choose|k: int| first_parameter_at(q@, head@, k);
                lemma_first_parameter_unique(q@, head@, i as int, k);
                lemma_parameter_end_bounds(q@, i + m);
            }
            let from = i + m;
            let mut e = from;
            while e < n && q.get_char(e) != '&'
                invariant
                    n == q@.len(),
                    from <= e <= n,
                    parameter_end(q@, from as int) == parameter_end(q@, e as int),
                decreases n - e,
            {
                e = e + 1;
            }
            let value = q.substring_char(from, e);
            return Some(value.to_owned());
        }
        if i == n {
            assert forall|j: int| !parameter_at(q@, head@, j) by {
                if 0 <= j && j < i {
                }
            }
            return None;
        }
        i = i + 1;
    }
}

/// Whether the two texts hold the same characters.
pub fn same_text(a: &str, b: &str) -> (r: bool)
    ensures
        r == (a@ == b@),
{
    let n = a.unicode_len();
    let m = b.unicode_len();
    if n != m {
        return false;
    }
    let mut i: usize = 0;
    while i < n
        invariant
            n == a@.len(),
            m == b@.len(),
            n == m,
            i <= n,
            forall|j: int| 0 <= j < i ==> a@[j] == b@[j],
        decreases n - i,
    {
        if a.get_char(i) != b.get_char(i) {
            return false;
        }
        i = i + 1;
    }
    assert(a@ =~= b@);
    true
}

/// Whether `pat` occurs in `s` starting at character `i`.
pub(crate) fn occurs_at_exec(s: &str, s_len: usize, pat: &str, pat_len: usize, i: usize) -> (r: bool)
    requires
        s_len == s@.len(),
        pat_len == pat@.len(),
    ensures
        r == occurs_at(s@, pat@, i as int),
{
    if i > s_len || pat_len > s_len - i {
        return false;
    }
    let mut k: usize = 0;
    while k < pat_len
        invariant
            s_len == s@.len(),
            pat_len == pat@.len(),
            i + pat_len <= s_len,
            k <= pat_len,
            forall|j: int| 0 <= j < k ==> s@[i + j] == pat@[j],
        decreases pat_len - k,
    {
        if s.get_char(i + k) != pat.get_char(k) {
            assert(s@.subrange(i as int, i + pat_len)[k as int] != pat@[k as int]);
            return false;
        }
        k = k + 1;
    }
    assert(s@.subrange(i as int, i + pat_len) =~= pat@);
    true
}

/// `c` is `w`, or is the ASCII capital whose small letter is `w`.
pub open spec fn same_letter_ignoring_ascii_case(c: char, w: char) -> bool {
    c == w || ('A' <= c <= 'Z' && c as u32 + 32 == w as u32)
}

/// `v` spells the lower-case word `w`, with ASCII capitals allowed in place of
/// its small letters.
pub open spec fn spells_word(v: Seq<char>, w: Seq<char>) -> bool {
    v.len() == w.len() && forall|i: int|
        0 <= i < v.len() ==> same_letter_ignoring_ascii_case(#[trigger] v[i], w[i])
}

/// Whether `v` spells the lower-case word `w`, ignoring ASCII case.
pub fn spells_word_exec(v: &str, w: &str) -> (r: bool)
    ensures
        r == spells_word(v@, w@),
{
    let n = v.unicode_len();
    let m = w.unicode_len();
    if n != m {
        return false;
    }
    let mut i: usize = 0;
    while i < n
        invariant
            n == v@.len(),
            m == w@.len(),
            n == m,
            i <= n,
            forall|j: int| 0 <= j < i ==> same_letter_ignoring_ascii_case(#[trigger] v@[j], w@[j]),
        decreases n - i,
    {
        let c = v.get_char(i);
        let d = w.get_char(i);
        let same = c == d || ('A' <= c && c <= 'Z' && (c as u32) + 32 == (d as u32));
        if !same {
            return false;
        }
        i = i + 1;
    }
    true
}

} // verus!
