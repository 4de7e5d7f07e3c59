//! The test registry: a builder that accumulates named test units while
//! nested groups prefix the names of the tests registered within them.

use vstd::prelude::*;

use crate::directive::Ignore;
use crate::directive::ShouldPanic;
use crate::discovery::pattern_accepted;
use crate::discovery::Discovery;
use crate::discovery::DiscoveryError;
use crate::name::delim;
use crate::name::join_path;
use crate::name::Name;

verus! {

/// A registered test: its fully-qualified name, an opaque runnable body,
/// and the two directives, both defaulted at registration.
pub struct DynTest<B> {
    /// The fully-qualified name: every enclosing group name followed by the
    /// delimiter, then the leaf name.
    pub name: String,
    /// The ignore directive.
    pub ignore: Ignore,
    /// The expected-panic directive.
    pub should_panic: ShouldPanic,
    /// The runnable body.  The registry never invokes it; ownership moves
    /// outward with the finished list.
    pub body: B,
}

impl<B> DynTest<B> {
    /// `self` with the ignore directive overwritten.
    pub open spec fn with_ignore(self, ignore: Ignore) -> Self {
        DynTest { ignore, ..self }
    }

    /// `self` with the expected-panic directive overwritten.
    pub open spec fn with_should_panic(self, should_panic: ShouldPanic) -> Self {
        DynTest { should_panic, ..self }
    }

    /// Overwrites the ignore directive and returns the handle for chaining.
    pub fn ignore(&mut self, ignore: Ignore) -> (r: &mut Self)
        ensures
            *r == old(self).with_ignore(ignore),
            *final(self) == *final(r),
    {
        self.ignore = ignore;
        self
    }

    /// Overwrites the expected-panic directive and returns the handle for
    /// chaining.
    pub fn should_panic(&mut self, should_panic: ShouldPanic) -> (r: &mut Self)
        ensures
            *r == old(self).with_should_panic(should_panic),
            *final(self) == *final(r),
    {
        self.should_panic = should_panic;
        self
    }
}

/// Law: the two directives are last-write-wins setters, each independent of
/// the other and of any earlier write to itself.
pub proof fn lemma_directives_last_write_wins<B>(
    t: DynTest<B>,
    a: Ignore,
    b: Ignore,
    s: ShouldPanic,
    s2: ShouldPanic,
)
    ensures
        t.with_ignore(a).with_ignore(b) == t.with_ignore(b),
        t.with_should_panic(s).with_should_panic(s2) == t.with_should_panic(s2),
        t.with_ignore(a).with_should_panic(s) == t.with_should_panic(s).with_ignore(a),
{
}

/// The group-name prefix in force once the groups `gs` have been opened, in
/// order: each group name followed by the delimiter.
pub open spec fn group_prefix(gs: Seq<Seq<char>>) -> Seq<char>
    decreases gs.len(),
{
    if gs.len() == 0 {
        Seq::empty()
    } else {
        group_prefix(gs.drop_last()) + gs.last() + delim()
    }
}

/// The fully-qualified name of the leaf `leaf` registered under the nested
/// groups `gs`: every group name followed by the delimiter, then the leaf,
/// with no delimiter after it.
pub open spec fn qualified_name(gs: Seq<Seq<char>>, leaf: Seq<char>) -> Seq<char> {
    group_prefix(gs) + leaf
}

/// Law (name composition): under no groups a test bears its leaf name, and
/// opening one more group extends the prefix by exactly that group's name
/// and the delimiter — so a test registered under the nested groups
/// `g1, …, gk` is named `g1 :: … :: gk :: leaf`.
pub proof fn lemma_name_composition(gs: Seq<Seq<char>>, g: Seq<char>, leaf: Seq<char>)
    ensures
        qualified_name(Seq::empty(), leaf) == leaf,
        group_prefix(gs.push(g)) == group_prefix(gs) + g + delim(),
        qualified_name(gs.push(g), leaf) == (group_prefix(gs) + g + delim()) + leaf,
{
    assert(group_prefix(Seq::empty()) + leaf =~= leaf);
    assert(gs.push(g).drop_last() =~= gs);
    assert(gs.push(g).last() == g);
}

/// A dynamic test harness: accumulates a flat, ordered list of test units.
/// `B` is the type of the runnable bodies, which the registry stores but
/// never runs.
pub struct DynTester<B> {
    manifest: &'static str,
    file: &'static str,
    line: usize,
    col: usize,
    tests: Vec<DynTest<B>>,
    group: String,
}

impl<B> DynTester<B> {
    /// The base directory against which relative paths are resolved.
    pub closed spec fn manifest_dir(self) -> Seq<char> {
        self.manifest@
    }

    /// The current group-name prefix.
    pub closed spec fn prefix(self) -> Seq<char> {
        self.group@
    }

    /// The tests registered so far, in registration order.
    pub closed spec fn tests(self) -> Seq<DynTest<B>> {
        self.tests@
    }

    /// The source coordinates of the registration call site.
    pub closed spec fn site(self) -> (Seq<char>, usize, usize) {
        (self.file@, self.line, self.col)
    }

    /// An empty registry with no open group, rooted at the directory
    /// `manifest` and carrying the source coordinates of its construction
    /// site.
    pub fn new(manifest: &'static str, file: &'static str, line: usize, col: usize) -> (r: Self)
        ensures
            r.manifest_dir() == manifest@,
            r.prefix() == Seq::<char>::empty(),
            r.tests() == Seq::<DynTest<B>>::empty(),
            r.site() == (file@, line, col),
    {
        let r = DynTester { manifest, file, line, col, tests: Vec::new(), group: String::new() };
        proof {
            assert(r.prefix() =~= Seq::<char>::empty());
            assert(r.tests() =~= Seq::<DynTest<B>>::empty());
        }
        r
    }

    /// Registers a test whose fully-qualified name is the current group
    /// prefix followed by `name`, with both directives defaulted, and
    /// returns a handle to it for further configuration.  Registration
    /// order is preserved; duplicate names are permitted.
    pub fn test(&mut self, name: Name, body: B) -> (t: &mut DynTest<B>)
        ensures
            t.name@ == old(self).prefix() + name@,
            t.ignore == Ignore::NoIgnore,
            t.should_panic == ShouldPanic::No,
            t.body == body,
            final(self).tests() == old(self).tests().push(*final(t)),
            final(self).prefix() == old(self).prefix(),
            final(self).manifest_dir() == old(self).manifest_dir(),
            final(self).site() == old(self).site(),
    {
        let full = self.group.clone().concat(name.as_str());
        let unit = DynTest {
            name: full,
            ignore: Ignore::NoIgnore,
            should_panic: ShouldPanic::No,
            body,
        };
        self.tests.push(unit);
        let idx = self.tests.len() - 1;
        proof {
            assert forall|x: DynTest<B>| #[trigger] self.tests@.update(idx as int, x) == old(
                self,
            ).tests().push(x) by {
                assert(self.tests@.update(idx as int, x) =~= old(self).tests().push(x));
            }
        }
        &mut self.tests[idx]
    }

    /// `mid` is `base` as a group closure for the group `name` receives it:
    /// the prefix extended by `name` and the delimiter, everything else
    /// unchanged.
    pub open spec fn group_entry(base: Self, name: Seq<char>, mid: Self) -> bool {
        &&& mid.prefix() == base.prefix() + name + delim()
        &&& mid.tests() == base.tests()
        &&& mid.manifest_dir() == base.manifest_dir()
        &&& mid.site() == base.site()
    }

    /// Opens a group: runs `f` on the registry with `name` and the
    /// delimiter appended to the prefix, then restores the prefix to its
    /// exact prior value.  The tests `f` registered are kept.
    pub fn group<F: FnOnce(Self) -> Self>(&mut self, name: Name, f: F)
        requires
            forall|mid: Self|
                Self::group_entry(*old(self), name@, mid) ==> call_requires(f, (mid,)),
        ensures
            final(self).prefix() == old(self).prefix(),
            exists|mid: Self, out: Self|
                Self::group_entry(*old(self), name@, mid) && #[trigger] call_ensures(f, (mid,), out)
                    && final(self).tests() == out.tests() && final(self).manifest_dir()
                    == out.manifest_dir() && final(self).site() == out.site(),
    {
        let prev = self.group.clone();
        let mut work = DynTester {
            manifest: "",
            file: "",
            line: 0,
            col: 0,
            tests: Vec::new(),
            group: String::new(),
        };
        core::mem::swap(self, &mut work);
        work.group.append(name.as_str());
        work.group.append("::");
        proof {
            reveal_strlit("::");
            assert(work.prefix() =~= old(self).prefix() + name@ + delim());
            assert(Self::group_entry(*old(self), name@, work));
        }
        let mut out = f(work);
        out.group = prev;
        core::mem::swap(self, &mut out);
    }

    /// Joins `path` onto the registry's fixed base directory.  Pure: no
    /// side effects and no file-system access.
    pub fn resolve(&self, path: &str) -> (r: String)
        ensures
            r@ == join_path(self.manifest_dir(), path@),
    {
        if path.unicode_len() > 0 {
            let c = path.get_char(0);
            if c == '/' {
                return path.to_owned();
            }
        }
        let mut out = self.manifest.to_owned();
        out.append("/");
        out.append(path);
        proof {
            reveal_strlit("/");
            assert(out@ =~= join_path(self.manifest_dir(), path@));
        }
        out
    }

    /// Globs for files relative to the registry's base directory: a lazy
    /// discovery of (name, absolute path) pairs.  Fails exactly when the
    /// pattern is malformed or over the supported length.
    pub fn glob(&self, pattern: &str) -> (r: Result<Discovery, DiscoveryError>)
        ensures
            r is Ok <==> pattern_accepted(pattern@),
            match r {
                Ok(d) => d.wf() && d.pattern_spec() == pattern@ && d.base_spec() == join_path(
                    self.manifest_dir(),
                    "."@,
                ) && !d.exhausted(),
                Err(e) => e is BadPattern,
            },
    {
        self.glob_in(".", pattern)
    }

    /// Globs for files relative to `base`, itself relative to the
    /// registry's base directory: a lazy discovery of (name, absolute
    /// path) pairs.  Fails exactly when the pattern is malformed or over
    /// the supported length.
    pub fn glob_in(&self, base: &str, pattern: &str) -> (r: Result<Discovery, DiscoveryError>)
        ensures
            r is Ok <==> pattern_accepted(pattern@),
            match r {
                Ok(d) => d.wf() && d.pattern_spec() == pattern@ && d.base_spec() == join_path(
                    self.manifest_dir(),
                    base@,
                ) && !d.exhausted(),
                Err(e) => e is BadPattern,
            },
    {
        let resolved = self.resolve(base);
        Discovery::open(resolved, pattern)
    }

    /// Drains the registry: the finished, ordered list of test units, whose
    /// ownership moves to the caller.
    pub fn into_tests(self) -> (r: Vec<DynTest<B>>)
        ensures
            r@ == self.tests(),
    {
        self.tests
    }
}

} // verus!
