//! Character-level helpers on strings, with their specifications.

use vstd::prelude::*;

verus! {

/// Index of the first occurrence of `c` in `s` at or after `from`,
/// or `s.len()` when there is none.
pub open spec fn find_from(s: Seq<char>, c: char, from: int) -> int
    decreases s.len() - from,
{
    if from >= s.len() {
        s.len() as int
    } else if s[from] == c {
        from
    } else {
        find_from(s, c, from + 1)
    }
}

/// The pieces of `s[from..]` separated by `c`, as `str::split` yields them.
pub open spec fn split_from(s: Seq<char>, c: char, from: int) -> Seq<Seq<char>>
    decreases s.len() - from,
{
    let end = find_from(s, c, from);
    if from < 0 || from > s.len() || end >= s.len() {
        seq![s.subrange(from, s.len() as int)]
    } else {
        proof {
            lemma_find_from_bounds(s, c, from);
        }
        seq![s.subrange(from, end)] + split_from(s, c, end + 1)
    }
}

/// The pieces of `s` separated by `c`: `s.split(c)` in Rust.
pub open spec fn split(s: Seq<char>, c: char) -> Seq<Seq<char>> {
    split_from(s, c, 0)
}

/// The index found lies between `from` and the end of `s`, holds `c` when it is not the
/// end, and no `c` comes before it.
pub proof fn lemma_find_from_bounds(s: Seq<char>, c: char, from: int)
    requires
        0 <= from <= s.len(),
    ensures
        from <= find_from(s, c, from) <= s.len(),
        find_from(s, c, from) < s.len() ==> s[find_from(s, c, from)] == c,
        forall|j: int| from <= j < find_from(s, c, from) ==> s[j] != c,
    decreases s.len() - from,
{
    if from < s.len() && s[from] != c {
        lemma_find_from_bounds(s, c, from + 1);
    }
}

/// The first piece of `s[from..]` ends at the first separator; the other pieces
/// are those of the text after it.
pub proof fn lemma_split_from_nonempty(s: Seq<char>, c: char, from: int)
    requires
        0 <= from <= s.len(),
    ensures
        split_from(s, c, from).len() >= 1,
        split_from(s, c, from)[0] == s.subrange(from, find_from(s, c, from)),
        find_from(s, c, from) < s.len() ==> split_from(s, c, from).len() >= 2
            && split_from(s, c, from).subrange(1, split_from(s, c, from).len() as int)
            == split_from(s, c, find_from(s, c, from) + 1),
        find_from(s, c, from) == s.len() ==> split_from(s, c, from).len() == 1,
    decreases s.len() - from,
{
    lemma_find_from_bounds(s, c, from);
    let end = find_from(s, c, from);
    if end < s.len() {
        lemma_find_from_bounds(s, c, end + 1);
        let rest = split_from(s, c, end + 1);
        assert(split_from(s, c, from) == seq![s.subrange(from, end)] + rest);
        if end + 1 <= s.len() {
            lemma_split_from_nonempty(s, c, end + 1);
        }
        assert(split_from(s, c, from).subrange(1, split_from(s, c, from).len() as int) =~= rest);
    }
}

/// Find the first `c` in `s` at or after `from`.
pub fn find_char(s: &str, c: char, from: usize) -> (res: usize)
    requires
        from <= s@.len(),
    ensures
        res == find_from(s@, c, from as int),
{
    let len = s.unicode_len();
    let mut i = from;
    while i < len
        invariant
            len == s@.len(),
            from <= i <= len,
            find_from(s@, c, from as int) == find_from(s@, c, i as int),
        decreases len - i,
    {
        if s.get_char(i) == c {
            return i;
        }
        i = i + 1;
    }
    i
}

/// Whether two strings hold the same characters.
pub fn str_eq(a: &str, b: &str) -> (res: bool)
    ensures
        res == (a@ == b@),
{
    let n = a.unicode_len();
    if n != b.unicode_len() {
        return false;
    }
    let mut i: usize = 0;
    while i < n
        invariant
            n == a@.len(),
            n == b@.len(),
            i <= n,
            forall|j: int| 0 <= j < i ==> a@[j] == b@[j],
        decreases n - i,
    {
        if a.get_char(i) != b.get_char(i) {
            return false;
        }
        i = i + 1;
    }
    assert(a@ =~= b@);
    true
}

/// The character sequences held by a list of strings.
pub open spec fn strings(v: Seq<String>) -> Seq<Seq<char>> {
    v.map_values(|s: String| s@)
}

/// Append a copy of `s` to `v`.
pub fn push_str(v: &mut Vec<String>, s: &str)
    ensures
        strings(final(v)@) == strings(old(v)@).push(s@),
{
    v.push(String::from_str(s));
    assert(strings(v@) =~= strings(old(v)@).push(s@));
}

/// A set of names, such as the programs installed on the system.
pub struct NameSet {
    names: Vec<String>,
}

impl View for NameSet {
    type V = Seq<Seq<char>>;

    closed spec fn view(&self) -> Seq<Seq<char>> {
        strings(self.names@)
    }
}

impl NameSet {
    /// A set holding the given names.
    pub fn new(names: Vec<String>) -> (res: NameSet)
        ensures
            res@ == strings(names@),
    {
        NameSet { names }
    }

    /// Whether `name` is in the set.
    pub fn contains(&self, name: &str) -> (res: bool)
        ensures
            res == self@.contains(name@),
    {
        let mut i: usize = 0;
        while i < self.names.len()
            invariant
                i <= self.names@.len(),
                forall|j: int| 0 <= j < i ==> self@[j] != name@,
            decreases self.names@.len() - i,
        {
            if str_eq(self.names[i].as_str(), name) {
                assert(self@[i as int] == name@);
                return true;
            }
            i = i + 1;
        }
        false
    }
}

} // verus!
