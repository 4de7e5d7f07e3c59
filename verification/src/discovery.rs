//! Glob discovery: walks a base directory recursively, following symlinks,
//! and lazily yields a (name, absolute path) pair for every entry whose
//! path relative to the base matches a case-insensitive glob pattern in
//! which a single wildcard cannot cross a path separator.

use vstd::prelude::*;

use crate::name::name_of_path;
use crate::name::path_sep;
use crate::name::Name;

verus! {

#[verifier::external_type_specification]
#[verifier::external_body]
pub struct ExGlobMatcher(globset::GlobMatcher);

#[verifier::external_type_specification]
#[verifier::external_body]
pub struct ExWalkIntoIter(walkdir::IntoIter);

#[verifier::external_type_specification]
#[verifier::external_body]
pub struct ExWalkDirEntry(walkdir::DirEntry);

#[verifier::external_type_specification]
#[verifier::external_body]
pub struct ExWalkError(walkdir::Error);

/// How long a glob pattern may be, in characters.  The pattern compiler
/// allots its automaton a bounded size; a pattern this short compiles to an
/// automaton far under that bound, so compilation cannot abort on size.
pub const GLOB_PATTERN_MAX: usize = 4096;

/// The pattern a matcher was compiled from.
pub uninterp spec fn glob_pattern(m: globset::GlobMatcher) -> Seq<char>;

/// Whether a pattern is well-formed glob syntax: parsing succeeds or fails
/// as a function of the pattern alone.
pub uninterp spec fn glob_ok(pattern: Seq<char>) -> bool;

/// A pattern the discovery accepts: within the supported length, and
/// well-formed.
pub open spec fn pattern_accepted(pattern: Seq<char>) -> bool {
    pattern.len() <= GLOB_PATTERN_MAX && glob_ok(pattern)
}

/// Whether `path` matches the glob `pattern`, compiled case-insensitively
/// and with literal separators.  The result depends on the pattern and the
/// path alone.
pub uninterp spec fn glob_match(pattern: Seq<char>, path: Seq<char>) -> bool;

/// How many entries a directory walk has yet to yield.
pub uninterp spec fn walk_remaining(it: walkdir::IntoIter) -> nat;

/// Relies on `globset::GlobBuilder`: `build` parses the pattern, succeeding
/// or failing as a function of the pattern alone, and `compile_matcher`
/// compiles the parsed pattern — here always case-insensitively and with
/// literal separators — so a returned matcher holds exactly the given
/// pattern.  `compile_matcher` aborts when the compiled automaton would
/// exceed its size bound; the length cap keeps every admitted pattern far
/// under it.
#[verifier::external_body]
fn compile_glob(pattern: &str) -> (r: Result<globset::GlobMatcher, String>)
    requires
        pattern@.len() <= GLOB_PATTERN_MAX,
    ensures
        r is Ok <==> glob_ok(pattern@),
        r matches Ok(m) ==> glob_pattern(m) == pattern@,
{
    let built = globset::GlobBuilder::new(pattern)
        .case_insensitive(true)
        .literal_separator(true)
        .build();
    match built {
        Ok(glob) => Ok(glob.compile_matcher()),
        Err(e) => Err(e.to_string()),
    }
}

/// Relies on `globset::GlobMatcher::is_match`: whether the path matches is
/// a function of the compiled pattern and the path alone.
#[verifier::external_body]
fn glob_is_match(m: &globset::GlobMatcher, path: &str) -> (r: bool)
    ensures
        r == glob_match(glob_pattern(*m), path@),
{
    m.is_match(std::path::Path::new(path))
}

/// Relies on `walkdir::WalkDir`: the returned iterator walks `root`
/// recursively, following symlinks.  What it yields depends on the disk,
/// so nothing is promised of it.
#[verifier::external_body]
fn walk_open(root: &str) -> (r: walkdir::IntoIter)
{
    walkdir::WalkDir::new(root).follow_links(true).into_iter()
}

/// Relies on `walkdir::IntoIter::next`: the walk is finite (a symlink loop
/// is reported as an error rather than walked forever), every yielded
/// entry is consumed, and an unreadable entry comes out as an error.  The
/// entries themselves depend on the disk, so only the consumption of one
/// is promised.
#[verifier::external_body]
fn walk_step(it: &mut walkdir::IntoIter) -> (r: Option<Result<String, String>>)
    ensures
        r is Some ==> walk_remaining(*final(it)) < walk_remaining(*old(it)),
{
    match it.next() {
        None => None,
        Some(Ok(entry)) => Some(Ok(entry.path().to_string_lossy().into_owned())),
        Some(Err(e)) => Some(Err(e.to_string())),
    }
}

/// A structural or configuration failure of discovery; either aborts the
/// whole registration pass.
#[derive(Debug)]
pub enum DiscoveryError {
    /// The glob pattern was malformed; the message identifies it.
    BadPattern(String),
    /// An entry of the walked tree could not be read; the message
    /// identifies it.  Discovery fails fast rather than yield a silently
    /// incomplete set.
    Unreadable(String),
}

/// `full` lies in the tree rooted at the directory `base`: it is `base`
/// itself, or `base` followed by one separator and a remainder.
pub open spec fn lies_under(base: Seq<char>, full: Seq<char>) -> bool {
    ||| full == base
    ||| (full.len() > base.len() && full.take(base.len() as int) == base && full[base.len() as int]
        == path_sep())
}

/// `full` with the directory prefix `base` and one separator removed, when
/// it lies under `base`; the empty path when `full` is `base` itself.
fn strip_prefix(base: &str, full: &str) -> (r: Option<String>)
    ensures
        match r {
            Some(rel) => (rel@.len() == 0 && full@ == base@) || full@ == base@ + seq![path_sep()]
                + rel@,
            None => !lies_under(base@, full@),
        },
{
    let nb = base.unicode_len();
    let nf = full.unicode_len();
    if nf < nb {
        return None;
    }
    let mut k: usize = 0;
    while k < nb
        invariant
            k <= nb,
            nb == base@.len(),
            nf == full@.len(),
            nb <= nf,
            forall|j: int| 0 <= j < k ==> base@[j] == full@[j],
        decreases nb - k,
    {
        if base.get_char(k) != full.get_char(k) {
            proof {
                if lies_under(base@, full@) {
                    if full@ == base@ {
                        assert(full@[k as int] == base@[k as int]);
                    } else {
                        assert(full@.take(nb as int)[k as int] == full@[k as int]);
                    }
                }
            }
            return None;
        }
        k = k + 1;
    }
    if nf == nb {
        proof {
            assert(full@ =~= base@);
        }
        return Some(String::new());
    }
    if full.get_char(nb) != '/' {
        proof {
            if lies_under(base@, full@) {
                assert(full@.len() == base@.len());
            }
        }
        return None;
    }
    let rel = full.substring_char(nb + 1, nf).to_owned();
    proof {
        assert(full@ =~= base@ + seq![path_sep()] + rel@);
    }
    Some(rel)
}

/// A lazy, single-pass discovery: each call of [`Discovery::next`] walks
/// just far enough to find the next matching entry.
pub struct Discovery {
    walker: walkdir::IntoIter,
    matcher: globset::GlobMatcher,
    base: String,
    pattern: String,
    dead: bool,
}

impl Discovery {
    /// The pattern the discovery matches against.
    pub closed spec fn pattern_spec(self) -> Seq<char> {
        self.pattern@
    }

    /// The absolute base directory of the walk.
    pub closed spec fn base_spec(self) -> Seq<char> {
        self.base@
    }

    /// The matcher was compiled from the pattern.
    pub closed spec fn wf(self) -> bool {
        glob_pattern(self.matcher) == self.pattern@
    }

    /// The discovery is over: the walk ended, or an error aborted it.  An
    /// exhausted discovery yields nothing more — the sequence is a single
    /// pass and an error kills it entirely.
    pub closed spec fn exhausted(self) -> bool {
        self.dead
    }

    /// Opens a discovery of the entries under the directory `base` whose
    /// relative paths match `pattern`.  Fails exactly when the pattern is
    /// malformed or over the supported length, before anything is walked.
    pub fn open(base: String, pattern: &str) -> (r: Result<Discovery, DiscoveryError>)
        ensures
            r is Ok <==> pattern_accepted(pattern@),
            match r {
                Ok(d) => d.wf() && d.pattern_spec() == pattern@ && d.base_spec() == base@
                    && !d.exhausted(),
                Err(e) => e is BadPattern,
            },
    {
        if pattern.unicode_len() > GLOB_PATTERN_MAX {
            return Err(
                DiscoveryError::BadPattern(
                    String::from_str("glob pattern exceeds the supported length"),
                ),
            );
        }
        match compile_glob(pattern) {
            Err(msg) => Err(DiscoveryError::BadPattern(msg)),
            Ok(matcher) => {
                let walker = walk_open(base.as_str());
                Ok(
                    Discovery {
                        walker,
                        matcher,
                        base,
                        pattern: pattern.to_owned(),
                        dead: false,
                    },
                )
            },
        }
    }

    /// The next matching entry: its name, derived from its path relative
    /// to the base, and its full path.  `Ok(None)` means the discovery is
    /// over; an unreadable entry aborts it with an error, after which — as
    /// after its clean end — it yields nothing ever again.
    pub fn next(&mut self) -> (r: Result<Option<(Name, String)>, DiscoveryError>)
        requires
            old(self).wf(),
        ensures
            final(self).wf(),
            final(self).pattern_spec() == old(self).pattern_spec(),
            final(self).base_spec() == old(self).base_spec(),
            old(self).exhausted() ==> (r matches Ok(found) && found is None),
            match r {
                Ok(found) => match found {
                    Some((name, path)) => !final(self).exhausted() && exists|rel: Seq<char>|
                        #[trigger] glob_match(old(self).pattern_spec(), rel) && name@
                            == name_of_path(rel) && ((rel.len() == 0 && path@ == old(
                            self,
                        ).base_spec()) || path@ == old(self).base_spec() + seq![path_sep()] + rel),
                    None => final(self).exhausted(),
                },
                Err(e) => e is Unreadable && final(self).exhausted(),
            },
    {
        if self.dead {
            return Ok(None);
        }
        loop
            invariant
                self.wf(),
                !self.dead,
                !old(self).exhausted(),
                self.pattern_spec() == old(self).pattern_spec(),
                self.base_spec() == old(self).base_spec(),
            decreases walk_remaining(self.walker),
        {
            match walk_step(&mut self.walker) {
                None => {
                    self.dead = true;
                    return Ok(None);
                },
                Some(Err(msg)) => {
                    self.dead = true;
                    return Err(DiscoveryError::Unreadable(msg));
                },
                Some(Ok(full)) => {
                    match strip_prefix(self.base.as_str(), full.as_str()) {
                        None => {
                        },
                        Some(rel) => {
                            if glob_is_match(&self.matcher, rel.as_str()) {
                                let name = Name::from_path(rel.as_str());
                                return Ok(Some((name, full)));
                            }
                        },
                    }
                },
            }
        }
    }
}

} // verus!
