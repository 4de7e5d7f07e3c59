//! Test-name fragments and the path-to-name composition rule.

use vstd::prelude::*;

verus! {

/// The hierarchical delimiter written between a group name and what it
/// encloses: `::`.
pub open spec fn delim() -> Seq<char> {
    seq![':', ':']
}

/// The path separator of the library's path model.
pub open spec fn path_sep() -> char {
    '/'
}

/// `s` with every path separator replaced by the delimiter.
pub open spec fn replace_seps(s: Seq<char>) -> Seq<char>
    decreases s.len(),
{
    if s.len() == 0 {
        Seq::empty()
    } else if s[0] == path_sep() {
        delim() + replace_seps(s.skip(1))
    } else {
        seq![s[0]] + replace_seps(s.skip(1))
    }
}

/// The largest index at which `c` occurs in `s`, or `-1` if it does not.
pub open spec fn last_occurrence(s: Seq<char>, c: char) -> int
    decreases s.len(),
{
    if s.len() == 0 {
        -1
    } else if s[s.len() - 1] == c {
        s.len() - 1
    } else {
        last_occurrence(s.drop_last(), c)
    }
}

/// Where the extension of `p` begins, counting the dot: the length of `p`
/// if `p` has no extension.  A path has an extension when its final
/// component holds a dot after its first character.
pub open spec fn ext_cut(p: Seq<char>) -> int {
    let d = last_occurrence(p, '.');
    let s = last_occurrence(p, path_sep());
    if d > s + 1 {
        d
    } else {
        p.len() as int
    }
}

/// `p` with its extension (and the dot before it) removed.
pub open spec fn strip_ext(p: Seq<char>) -> Seq<char> {
    p.take(ext_cut(p))
}

/// The name derived from a relative path: the extension is stripped and
/// every path separator becomes the delimiter.
pub open spec fn name_of_path(p: Seq<char>) -> Seq<char> {
    replace_seps(strip_ext(p))
}

/// `rel` resolved against the directory `base`: `rel` itself if absolute,
/// otherwise `base`, one separator, and `rel`.
pub open spec fn join_path(base: Seq<char>, rel: Seq<char>) -> Seq<char> {
    if rel.len() > 0 && rel[0] == path_sep() {
        rel
    } else {
        base + seq![path_sep()] + rel
    }
}

/// `replace_seps` distributes over concatenation.
pub proof fn lemma_replace_seps_concat(a: Seq<char>, b: Seq<char>)
    ensures
        replace_seps(a + b) == replace_seps(a) + replace_seps(b),
    decreases a.len(),
{
    if a.len() == 0 {
        assert(a + b =~= b);
        assert(replace_seps(a) + replace_seps(b) =~= replace_seps(b));
    } else {
        assert((a + b).skip(1) =~= a.skip(1) + b);
        lemma_replace_seps_concat(a.skip(1), b);
        if a[0] == path_sep() {
            assert(delim() + (replace_seps(a.skip(1)) + replace_seps(b)) =~= (delim()
                + replace_seps(a.skip(1))) + replace_seps(b));
        } else {
            assert(seq![a[0]] + (replace_seps(a.skip(1)) + replace_seps(b)) =~= (seq![a[0]]
                + replace_seps(a.skip(1))) + replace_seps(b));
        }
    }
}

/// If `c` does not occur in `s` at or after index `k`, the last occurrence
/// of `c` in `s` is its last occurrence in the first `k` characters.
proof fn lemma_last_occurrence_take(s: Seq<char>, c: char, k: int)
    requires
        0 <= k <= s.len(),
        forall|j: int| k <= j < s.len() ==> s[j] != c,
    ensures
        last_occurrence(s, c) == last_occurrence(s.take(k), c),
    decreases s.len() - k,
{
    if k == s.len() {
        assert(s.take(k) =~= s);
    } else {
        lemma_last_occurrence_take(s, c, k + 1);
        assert(s.take(k + 1).drop_last() =~= s.take(k));
    }
}

/// A test name, or a fragment thereof.
#[derive(Debug, Eq, Hash)]
pub struct Name {
    s: String,
}

impl View for Name {
    type V = Seq<char>;

    closed spec fn view(&self) -> Seq<char> {
        self.s@
    }
}

impl PartialEq for Name {
    /// Two names are equal exactly when they hold the same characters.
    fn eq(&self, other: &Name) -> (r: bool) {
        self.s.eq(&other.s)
    }
}

impl vstd::std_specs::cmp::PartialEqSpecImpl for Name {
    open spec fn obeys_eq_spec() -> bool {
        true
    }

    open spec fn eq_spec(&self, other: &Name) -> bool {
        self@ == other@
    }
}

impl Clone for Name {
    fn clone(&self) -> (r: Self)
        ensures
            r@ == self@,
    {
        Name { s: self.s.clone() }
    }
}

impl Name {
    /// The characters of the name.
    pub fn as_str(&self) -> (r: &str)
        ensures
            r@ == self@,
    {
        self.s.as_str()
    }

    /// The name as an owned string.
    pub fn into_string(self) -> (r: String)
        ensures
            r@ == self@,
    {
        self.s
    }

    /// The largest index at which `c` occurs in `path`.
    fn rfind_char(path: &str, c: char) -> (r: Option<usize>)
        ensures
            match r {
                Some(i) => i < path@.len() && last_occurrence(path@, c) == i as int,
                None => last_occurrence(path@, c) == -1,
            },
    {
        let n = path.unicode_len();
        let mut i: usize = n;
        proof {
            assert(path@.take(n as int) =~= path@);
        }
        while i > 0
            invariant
                i <= n,
                n == path@.len(),
                last_occurrence(path@, c) == last_occurrence(path@.take(i as int), c),
            decreases i,
        {
            let ch = path.get_char(i - 1);
            if ch == c {
                return Some(i - 1);
            }
            proof {
                assert(path@.take(i as int).drop_last() =~= path@.take(i as int - 1));
            }
            i = i - 1;
        }
        proof {
            assert(path@.take(0) =~= Seq::<char>::empty());
        }
        None
    }

    /// The name derived from a relative file path: the extension is
    /// stripped and every path separator is replaced by the delimiter.
    pub fn from_path(path: &str) -> (r: Name)
        ensures
            r@ == name_of_path(path@),
    {
        let n = path.unicode_len();
        let dot = Self::rfind_char(path, '.');
        let slash = Self::rfind_char(path, '/');
        let cut: usize = match dot {
            Some(d) => {
                let in_component = match slash {
                    Some(s) => d > s + 1,
                    None => d > 0,
                };
                if in_component {
                    d
                } else {
                    n
                }
            },
            None => n,
        };
        assert(cut as int == ext_cut(path@));
        let mut out = String::new();
        let mut i: usize = 0;
        proof {
            assert(path@.take(0) =~= Seq::<char>::empty());
        }
        while i < cut
            invariant
                i <= cut,
                cut as int == ext_cut(path@),
                cut <= n,
                n == path@.len(),
                out@ == replace_seps(path@.take(i as int)),
            decreases cut - i,
        {
            let ch = path.get_char(i);
            proof {
                assert(path@.take(i as int + 1) =~= path@.take(i as int) + seq![path@[i as int]]);
                lemma_replace_seps_concat(path@.take(i as int), seq![path@[i as int]]);
                assert(seq![path@[i as int]].skip(1) =~= Seq::<char>::empty());
                assert(replace_seps(Seq::<char>::empty()) =~= Seq::<char>::empty());
                reveal_strlit("::");
            }
            if ch == '/' {
                proof {
                    assert(replace_seps(seq![path@[i as int]]) =~= delim() + Seq::<char>::empty());
                    assert(delim() + Seq::<char>::empty() =~= "::"@);
                }
                out.append("::");
            } else {
                let piece = path.substring_char(i, i + 1);
                proof {
                    assert(piece@ =~= seq![path@[i as int]]);
                    assert(replace_seps(seq![path@[i as int]]) =~= seq![path@[i as int]]
                        + Seq::<char>::empty());
                    assert(seq![path@[i as int]] + Seq::<char>::empty() =~= seq![path@[i as int]]);
                }
                out.append(piece);
            }
            i = i + 1;
        }
        Name { s: out }
    }
}

impl From<&'static str> for Name {
    /// A name holding exactly the given characters.
    fn from(value: &'static str) -> (r: Name)
        ensures
            r@ == value@,
    {
        Name { s: value.to_owned() }
    }
}

impl vstd::std_specs::convert::FromSpecImpl<&'static str> for Name {
    open spec fn obeys_from_spec() -> bool {
        false
    }

    open spec fn from_spec(v: &'static str) -> Name {
        arbitrary()
    }
}

impl From<String> for Name {
    /// A name holding exactly the given characters.
    fn from(value: String) -> (r: Name)
        ensures
            r@ == value@,
    {
        Name { s: value }
    }
}

impl vstd::std_specs::convert::FromSpecImpl<String> for Name {
    open spec fn obeys_from_spec() -> bool {
        false
    }

    open spec fn from_spec(v: String) -> Name {
        arbitrary()
    }
}

} // verus!
