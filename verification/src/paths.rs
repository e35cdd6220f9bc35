//! Path Resolver: derives the engine's installation layout from a base
//! installation directory, by pure path arithmetic on byte strings.
//!
//! A rooted path is modelled as a non-empty sequence of components. The first
//! component is the root prefix (empty on POSIX roots such as `/opt`, a drive
//! designator such as `C:` on Win32); every later component is a non-empty
//! run of bytes free of the separator. Rendering joins the components with
//! the platform separator, so `["", "opt", "app"]` renders as `/opt/app`.

use vstd::prelude::*;

use crate::BridgeError;
use crate::Platform;

verus! {

/// True when `c` contains no occurrence of the separator byte.
pub open spec fn sep_free(c: Seq<u8>, sep: u8) -> bool {
    forall|i: int| 0 <= i < c.len() ==> c[i] != sep
}

/// Rendering of the components after the root: a separator before each one.
pub open spec fn render_rest(cs: Seq<Seq<u8>>, sep: u8) -> Seq<u8>
    decreases cs.len(),
{
    if cs.len() == 0 {
        Seq::empty()
    } else {
        seq![sep] + cs[0] + render_rest(cs.drop_first(), sep)
    }
}

/// Rendering of a full component sequence: the root prefix verbatim, then a
/// separator before each later component.
pub open spec fn render_path(cs: Seq<Seq<u8>>, sep: u8) -> Seq<u8>
    recommends
        cs.len() >= 1,
{
    cs[0] + render_rest(cs.drop_first(), sep)
}

/// The number of separator bytes in `s`.
pub open spec fn sep_count(s: Seq<u8>, sep: u8) -> nat
    decreases s.len(),
{
    if s.len() == 0 {
        0
    } else {
        sep_count(s.drop_last(), sep) + if s.last() == sep { 1nat } else { 0nat }
    }
}

/// A well-formed rooted path: it contains a separator (so a root prefix and
/// at least one component exist), does not end in a separator, and has no
/// empty component between two separators.
pub open spec fn wf_rooted_path(s: Seq<u8>, sep: u8) -> bool {
    &&& sep_count(s, sep) >= 1
    &&& s.len() >= 1 && s.last() != sep
    &&& forall|i: int| 0 <= i < s.len() - 1 ==> !(#[trigger] s[i] == sep && s[i + 1] == sep)
}

/// A parsed rooted directory path: its separator convention and components.
#[derive(Debug)]
pub struct DirPath {
    /// The separator byte this path was parsed under.
    pub sep: u8,
    /// The components, root prefix first.
    pub comps: Vec<Vec<u8>>,
}

impl View for DirPath {
    type V = Seq<Seq<u8>>;

    open spec fn view(&self) -> Seq<Seq<u8>> {
        self.comps@.map_values(|c: Vec<u8>| c@)
    }
}

impl DirPath {
    /// Structural validity: a root prefix exists, every component is free of
    /// the separator, and every component after the root is non-empty.
    pub open spec fn wf(&self) -> bool {
        &&& self@.len() >= 1
        &&& forall|i: int| 0 <= i < self@.len() ==> sep_free(self@[i], self.sep)
        &&& forall|i: int| 1 <= i < self@.len() ==> self@[i].len() > 0
    }

    /// The number of components, the root prefix included.
    pub fn component_count(&self) -> (n: usize)
        ensures
            n == self@.len(),
    {
        self.comps.len()
    }

    /// Renders the first `k` components joined by the separator.
    pub fn render_prefix(&self, k: usize) -> (r: Vec<u8>)
        requires
            self.wf(),
            1 <= k <= self@.len(),
        ensures
            r@ == render_path(self@.take(k as int), self.sep),
    {
        let mut r: Vec<u8> = Vec::new();
        append_bytes(&mut r, &self.comps[0]);
        proof {
            assert(self@.take(1).drop_first() =~= Seq::<Seq<u8>>::empty());
            assert(r@ =~= render_path(self@.take(1), self.sep));
        }
        let mut i: usize = 1;
        while i < k
            invariant
                self.wf(),
                1 <= i <= k <= self@.len(),
                r@ == render_path(self@.take(i as int), self.sep),
            decreases k - i,
        {
            r.push(self.sep);
            append_bytes(&mut r, &self.comps[i]);
            proof {
                assert(self@.take(i + 1) =~= self@.take(i as int).push(self@[i as int]));
                lemma_render_push(self@.take(i as int), self@[i as int], self.sep);
                assert(r@ =~= render_path(self@.take(i + 1), self.sep));
            }
            i = i + 1;
        }
        proof {
            assert(self@.take(k as int) == self@.take(i as int));
        }
        r
    }

    /// Renders the whole path.
    pub fn render(&self) -> (r: Vec<u8>)
        requires
            self.wf(),
        ensures
            r@ == render_path(self@, self.sep),
    {
        let r = self.render_prefix(self.comps.len());
        proof {
            assert(self@.take(self@.len() as int) =~= self@);
        }
        r
    }

    /// Renders the path with one more component appended below it.
    pub fn render_child(&self, name: &Vec<u8>) -> (r: Vec<u8>)
        requires
            self.wf(),
            name@.len() > 0,
            sep_free(name@, self.sep),
        ensures
            r@ == render_path(self@.push(name@), self.sep),
    {
        let mut r = self.render();
        r.push(self.sep);
        append_bytes(&mut r, name);
        proof {
            lemma_render_push(self@, name@, self.sep);
            assert(r@ =~= render_path(self@.push(name@), self.sep));
        }
        r
    }

    /// Renders the path with its last `up` components removed and one new
    /// component appended in their place.
    pub fn render_ancestor_child(&self, up: usize, name: &Vec<u8>) -> (r: Vec<u8>)
        requires
            self.wf(),
            up < self@.len(),
            name@.len() > 0,
            sep_free(name@, self.sep),
        ensures
            r@ == render_path(self@.take(self@.len() - up as int).push(name@), self.sep),
    {
        let keep = self.comps.len() - up;
        let mut r = self.render_prefix(keep);
        r.push(self.sep);
        append_bytes(&mut r, name);
        proof {
            lemma_take_wf(self, keep as int);
            lemma_render_push(self@.take(keep as int), name@, self.sep);
            assert(r@ =~= render_path(self@.take(self@.len() - up as int).push(name@), self.sep));
        }
        r
    }

    /// Renders the path with two more components appended below it.
    pub fn render_grandchild(&self, a: &Vec<u8>, b: &Vec<u8>) -> (r: Vec<u8>)
        requires
            self.wf(),
            a@.len() > 0,
            sep_free(a@, self.sep),
            b@.len() > 0,
            sep_free(b@, self.sep),
        ensures
            r@ == render_path(self@.push(a@).push(b@), self.sep),
    {
        let mut r = self.render_child(a);
        r.push(self.sep);
        append_bytes(&mut r, b);
        proof {
            lemma_render_push(self@.push(a@), b@, self.sep);
            assert(r@ =~= render_path(self@.push(a@).push(b@), self.sep));
        }
        r
    }
}

/// A truncated well-formed path is well-formed in the same sense.
proof fn lemma_take_wf(d: &DirPath, k: int)
    requires
        d.wf(),
        1 <= k <= d@.len(),
    ensures
        d@.take(k).len() >= 1,
        forall|i: int| 0 <= i < k ==> sep_free(#[trigger] d@.take(k)[i], d.sep),
{
}

/// Appending a component to a rendered path appends a separator and the
/// component's bytes.
pub proof fn lemma_render_rest_push(cs: Seq<Seq<u8>>, c: Seq<u8>, sep: u8)
    ensures
        render_rest(cs.push(c), sep) == render_rest(cs, sep) + seq![sep] + c,
    decreases cs.len(),
{
    if cs.len() == 0 {
        assert(cs.push(c)[0] == c);
        assert(cs.push(c).drop_first() =~= Seq::<Seq<u8>>::empty());
        assert(render_rest(cs.push(c).drop_first(), sep) == Seq::<u8>::empty());
        assert(render_rest(cs.push(c), sep) =~= render_rest(cs, sep) + seq![sep] + c);
    } else {
        assert(cs.push(c).drop_first() =~= cs.drop_first().push(c));
        lemma_render_rest_push(cs.drop_first(), c, sep);
        assert(render_rest(cs.push(c), sep) =~= render_rest(cs, sep) + seq![sep] + c);
    }
}

/// The same fact for a full path: rendering distributes over `push`.
pub proof fn lemma_render_push(cs: Seq<Seq<u8>>, c: Seq<u8>, sep: u8)
    requires
        cs.len() >= 1,
    ensures
        render_path(cs.push(c), sep) == render_path(cs, sep) + seq![sep] + c,
{
    assert(cs.push(c).drop_first() =~= cs.drop_first().push(c));
    lemma_render_rest_push(cs.drop_first(), c, sep);
    assert(render_path(cs.push(c), sep) =~= render_path(cs, sep) + seq![sep] + c);
}

/// The separator byte of each platform's path convention.
pub open spec fn sep_for(p: Platform) -> u8 {
    if p is Win32 {
        92u8
    } else {
        47u8
    }
}

/// Returns the platform's separator byte.
pub fn separator(p: Platform) -> (r: u8)
    ensures
        r == sep_for(p),
{
    match p {
        Platform::Win32 => 92u8,
        _ => 47u8,
    }
}

/// The name of the locales subdirectory on non-bundle platforms.
pub open spec fn locales_name() -> Seq<u8> {
    seq![108u8, 111u8, 99u8, 97u8, 108u8, 101u8, 115u8]
}

/// The fixed name of the cache directory kept outside the per-version
/// installation tree.
pub open spec fn cache_name() -> Seq<u8> {
    seq![99u8, 101u8, 102u8, 95u8, 99u8, 97u8, 99u8, 104u8, 101u8]
}

/// The name of the engine's log file inside the installation directory.
pub open spec fn log_name() -> Seq<u8> {
    seq![108u8, 105u8, 98u8, 46u8, 108u8, 111u8, 103u8]
}

/// The name of the framework bundle on the application-bundle platform.
pub open spec fn bundle_name() -> Seq<u8> {
    seq![
        67u8, 104u8, 114u8, 111u8, 109u8, 105u8, 117u8, 109u8, 32u8, 69u8, 109u8, 98u8, 101u8, 100u8,
        100u8, 101u8, 100u8, 32u8, 70u8, 114u8, 97u8, 109u8, 101u8, 119u8, 111u8, 114u8, 107u8, 46u8,
        102u8, 114u8, 97u8, 109u8, 101u8, 119u8, 111u8, 114u8, 107u8,
    ]
}

/// The bundle-relative resources subdirectory.
pub open spec fn bundle_resources_name() -> Seq<u8> {
    seq![82u8, 101u8, 115u8, 111u8, 117u8, 114u8, 99u8, 101u8, 115u8]
}

/// The name prefix of the subprocess executable; the version string follows.
pub open spec fn subp_prefix() -> Seq<u8> {
    seq![
        99u8, 104u8, 114u8, 111u8, 109u8, 105u8, 117u8, 109u8, 95u8, 115u8, 117u8, 98u8, 112u8, 45u8,
    ]
}

/// The executable suffix appended on Win32.
pub open spec fn exe_suffix() -> Seq<u8> {
    seq![46u8, 101u8, 120u8, 101u8]
}

/// The full name of the subprocess executable for a version string.
pub open spec fn subprocess_name(version: Seq<u8>, p: Platform) -> Seq<u8> {
    if p is Win32 {
        subp_prefix() + version + exe_suffix()
    } else {
        subp_prefix() + version
    }
}

/// None of the fixed directory and file names contains a separator byte.
pub proof fn lemma_names_sep_free(sep: u8)
    requires
        sep == 47u8 || sep == 92u8,
    ensures
        sep_free(locales_name(), sep),
        sep_free(cache_name(), sep),
        sep_free(log_name(), sep),
        sep_free(bundle_name(), sep),
        sep_free(bundle_resources_name(), sep),
        sep_free(subp_prefix(), sep),
        sep_free(exe_suffix(), sep),
{
}

/// Counting separators distributes over appending one byte.
pub proof fn lemma_sep_count_snoc(s: Seq<u8>, b: u8, sep: u8)
    ensures
        sep_count(s.push(b), sep) == sep_count(s, sep) + if b == sep {
            1nat
        } else {
            0nat
        },
{
    assert(s.push(b).drop_last() =~= s);
}

/// The element views of a vector of components.
pub open spec fn views_of(cs: Seq<Vec<u8>>) -> Seq<Seq<u8>> {
    cs.map_values(|c: Vec<u8>| c@)
}

/// Parses `bytes` as a rooted path under the separator `sep`. Succeeds on
/// exactly the well-formed rooted paths; the parsed components render back
/// to the input, one component per separator plus the root prefix.
pub fn parse_dir_path(bytes: &Vec<u8>, sep: u8) -> (r: Result<DirPath, BridgeError>)
    ensures
        r matches Ok(d) ==> ({
            &&& d.sep == sep
            &&& d.wf()
            &&& render_path(d@, sep) == bytes@
            &&& d@.len() == sep_count(bytes@, sep) + 1
        }),
        r is Ok <==> wf_rooted_path(bytes@, sep),
        r is Err ==> r == Err::<DirPath, BridgeError>(BridgeError::MalformedBaseDir),
{
    let mut comps: Vec<Vec<u8>> = Vec::new();
    let mut cur: Vec<u8> = Vec::new();
    let mut i: usize = 0;
    while i < bytes.len()
        invariant
            i <= bytes@.len(),
            comps@.len() == sep_count(bytes@.take(i as int), sep),
            sep_free(cur@, sep),
            cur@.len() <= i,
            cur@ == bytes@.subrange(i - cur@.len(), i as int),
            comps@.len() == 0 ==> cur@ == bytes@.take(i as int),
            comps@.len() > 0 ==> bytes@.take(i as int) == render_path(views_of(comps@), sep)
                + seq![sep] + cur@,
            forall|k: int| 0 <= k < views_of(comps@).len() ==> sep_free(
                #[trigger] views_of(comps@)[k],
                sep,
            ),
            forall|k: int| 1 <= k < views_of(comps@).len() ==> views_of(comps@)[k].len() > 0,
            forall|j: int| 0 <= j < i - 1 ==> !(#[trigger] bytes@[j] == sep && bytes@[j + 1]
                == sep),
        decreases bytes@.len() - i,
    {
        let b = bytes[i];
        proof {
            assert(bytes@.take(i + 1) =~= bytes@.take(i as int).push(bytes@[i as int]));
            lemma_sep_count_snoc(bytes@.take(i as int), bytes@[i as int], sep);
        }
        if b == sep {
            if comps.len() > 0 && cur.len() == 0 {
                proof {
                    // the previous byte is also a separator, so the path is
                    // not well formed
                    assert(bytes@.take(i as int).len() > 0);
                    assert(bytes@.take(i as int).last() == sep);
                    assert(bytes@[i - 1] == sep && bytes@[i as int] == sep);
                }
                return Err(BridgeError::MalformedBaseDir);
            }
            proof {
                if i > 0 {
                    // the previous byte belongs to the (non-empty) current
                    // component, so no two adjacent separators arise
                    if comps@.len() == 0 && cur@.len() == 0 {
                        assert(bytes@.take(i as int).len() == 0);
                        assert(false);
                    }
                    assert(bytes@[i - 1] == cur@[cur@.len() - 1]);
                    assert(bytes@[i - 1] != sep);
                }
                if comps@.len() > 0 {
                    lemma_render_push(views_of(comps@), cur@, sep);
                }
                assert(views_of(comps@.push(cur)) =~= views_of(comps@).push(cur@));
                if comps@.len() == 0 {
                    assert(seq![cur@].drop_first() =~= Seq::<Seq<u8>>::empty());
                    assert(render_path(views_of(comps@).push(cur@), sep) =~= cur@);
                }
            }
            comps.push(cur);
            cur = Vec::new();
            proof {
                assert(bytes@.take(i + 1) =~= render_path(views_of(comps@), sep) + seq![sep]
                    + cur@);
                assert(cur@ =~= bytes@.subrange(i + 1 - cur@.len(), i + 1));
            }
        } else {
            cur.push(b);
            proof {
                assert(cur@ =~= bytes@.subrange(i + 1 - cur@.len(), i + 1));
                if comps@.len() == 0 {
                    assert(cur@ =~= bytes@.take(i + 1));
                }
                if comps@.len() > 0 {
                    assert(bytes@.take(i + 1) =~= render_path(views_of(comps@), sep) + seq![sep]
                        + cur@);
                }
            }
        }
        i = i + 1;
    }
    proof {
        assert(bytes@.take(i as int) =~= bytes@);
    }
    if cur.len() == 0 || comps.len() == 0 {
        proof {
            if comps@.len() == 0 {
                // no separator occurs in the input
                assert(sep_count(bytes@, sep) == 0);
            } else {
                // the input ends in a separator
                assert(bytes@.len() > 0);
                assert(bytes@.last() == sep);
            }
        }
        return Err(BridgeError::MalformedBaseDir);
    }
    proof {
        lemma_render_push(views_of(comps@), cur@, sep);
        assert(views_of(comps@.push(cur)) =~= views_of(comps@).push(cur@));
    }
    let ghost n_seps = comps@.len();
    comps.push(cur);
    let d = DirPath { sep, comps };
    proof {
        assert(render_path(d@, sep) =~= bytes@);
        assert(bytes@.last() == cur@[cur@.len() - 1]);
        assert(bytes@.last() != sep);
        assert(sep_count(bytes@, sep) == n_seps);
    }
    Ok(d)
}

/// Builds the locales subdirectory name.
pub fn make_locales_name() -> (r: Vec<u8>)
    ensures
        r@ == locales_name(),
{
    let mut r: Vec<u8> = Vec::new();
    r.push(108u8);
    r.push(111u8);
    r.push(99u8);
    r.push(97u8);
    r.push(108u8);
    r.push(101u8);
    r.push(115u8);
    proof {
        assert(r@ =~= locales_name());
    }
    r
}

/// Builds the cache directory name.
pub fn make_cache_name() -> (r: Vec<u8>)
    ensures
        r@ == cache_name(),
{
    let mut r: Vec<u8> = Vec::new();
    r.push(99u8);
    r.push(101u8);
    r.push(102u8);
    r.push(95u8);
    r.push(99u8);
    r.push(97u8);
    r.push(99u8);
    r.push(104u8);
    r.push(101u8);
    proof {
        assert(r@ =~= cache_name());
    }
    r
}

/// Builds the log file name.
pub fn make_log_name() -> (r: Vec<u8>)
    ensures
        r@ == log_name(),
{
    let mut r: Vec<u8> = Vec::new();
    r.push(108u8);
    r.push(105u8);
    r.push(98u8);
    r.push(46u8);
    r.push(108u8);
    r.push(111u8);
    r.push(103u8);
    proof {
        assert(r@ =~= log_name());
    }
    r
}

/// Builds the framework bundle name.
pub fn make_bundle_name() -> (r: Vec<u8>)
    ensures
        r@ == bundle_name(),
{
    let mut r: Vec<u8> = Vec::new();
    r.push(67u8);
    r.push(104u8);
    r.push(114u8);
    r.push(111u8);
    r.push(109u8);
    r.push(105u8);
    r.push(117u8);
    r.push(109u8);
    r.push(32u8);
    r.push(69u8);
    r.push(109u8);
    r.push(98u8);
    r.push(101u8);
    r.push(100u8);
    r.push(100u8);
    r.push(101u8);
    r.push(100u8);
    r.push(32u8);
    r.push(70u8);
    r.push(114u8);
    r.push(97u8);
    r.push(109u8);
    r.push(101u8);
    r.push(119u8);
    r.push(111u8);
    r.push(114u8);
    r.push(107u8);
    r.push(46u8);
    r.push(102u8);
    r.push(114u8);
    r.push(97u8);
    r.push(109u8);
    r.push(101u8);
    r.push(119u8);
    r.push(111u8);
    r.push(114u8);
    r.push(107u8);
    proof {
        assert(r@ =~= bundle_name());
    }
    r
}

/// Builds the bundle-relative resources name.
pub fn make_bundle_resources_name() -> (r: Vec<u8>)
    ensures
        r@ == bundle_resources_name(),
{
    let mut r: Vec<u8> = Vec::new();
    r.push(82u8);
    r.push(101u8);
    r.push(115u8);
    r.push(111u8);
    r.push(117u8);
    r.push(114u8);
    r.push(99u8);
    r.push(101u8);
    r.push(115u8);
    proof {
        assert(r@ =~= bundle_resources_name());
    }
    r
}

/// Builds the full subprocess executable name for the version.
pub fn make_subprocess_name(version: &Vec<u8>, p: Platform) -> (r: Vec<u8>)
    ensures
        r@ == subprocess_name(version@, p),
{
    let mut r: Vec<u8> = Vec::new();
    r.push(99u8);
    r.push(104u8);
    r.push(114u8);
    r.push(111u8);
    r.push(109u8);
    r.push(105u8);
    r.push(117u8);
    r.push(109u8);
    r.push(95u8);
    r.push(115u8);
    r.push(117u8);
    r.push(98u8);
    r.push(112u8);
    r.push(45u8);
    proof {
        assert(r@ =~= subp_prefix());
    }
    append_bytes(&mut r, version);
    match p {
        Platform::Win32 => {
            r.push(46u8);
            r.push(101u8);
            r.push(120u8);
            r.push(101u8);
            proof {
                assert(r@ =~= subp_prefix() + version@ + exe_suffix());
            }
        },
        _ => {},
    }
    r
}

/// The engine installation layout derived from one base directory: every
/// path the initialization settings need, as rendered byte strings.
#[derive(Debug)]
pub struct InstallationLayout {
    /// Path of the subprocess executable inside the installation directory.
    pub subprocess_executable: Vec<u8>,
    /// Directory holding the engine's resource data.
    pub resources_dir: Vec<u8>,
    /// Directory holding the engine's locale data.
    pub locales_dir: Vec<u8>,
    /// Path of the framework bundle, or empty where the framework is linked
    /// statically.
    pub framework_dir: Vec<u8>,
    /// Cache directory, kept a sibling of the grandparent of the base
    /// directory so that it survives per-version upgrades.
    pub cache_dir: Vec<u8>,
    /// Path of the engine's log file.
    pub log_file: Vec<u8>,
}

/// Derives the installation layout from the parsed base directory and the
/// engine version, following the platform's directory convention. Fails
/// exactly when the base directory has fewer than two parent components.
pub fn resolve_layout(base: &DirPath, version: &Vec<u8>, p: Platform) -> (r: Result<
    InstallationLayout,
    BridgeError,
>)
    requires
        base.wf(),
        base.sep == sep_for(p),
        sep_free(version@, sep_for(p)),
    ensures
        r is Err <==> base@.len() < 3,
        r is Err ==> r == Err::<InstallationLayout, BridgeError>(BridgeError::BaseDirTooShallow),
        r matches Ok(l) ==> ({
            let sep = sep_for(p);
            &&& l.subprocess_executable@ == render_path(
                base@.push(subprocess_name(version@, p)),
                sep,
            )
            &&& l.resources_dir@ == if p is Cocoa {
                render_path(base@.push(bundle_name()).push(bundle_resources_name()), sep)
            } else {
                render_path(base@, sep)
            }
            &&& l.locales_dir@ == if p is Cocoa {
                render_path(base@.push(bundle_name()).push(bundle_resources_name()), sep)
            } else {
                render_path(base@.push(locales_name()), sep)
            }
            &&& l.framework_dir@ == if p is Cocoa {
                render_path(base@.push(bundle_name()), sep)
            } else {
                Seq::<u8>::empty()
            }
            &&& l.cache_dir@ == render_path(base@.take(base@.len() - 2).push(cache_name()), sep)
            &&& l.log_file@ == render_path(base@.push(log_name()), sep)
        }),
{
    if base.component_count() < 3 {
        return Err(BridgeError::BaseDirTooShallow);
    }
    proof {
        lemma_names_sep_free(base.sep);
    }
    let subp_name = make_subprocess_name(version, p);
    proof {
        assert(sep_free(subp_name@, base.sep));
    }
    let subprocess_executable = base.render_child(&subp_name);
    let log_file = base.render_child(&make_log_name());
    let cache_dir = base.render_ancestor_child(2, &make_cache_name());
    let (resources_dir, locales_dir, framework_dir) = match p {
        Platform::Cocoa => {
            let bundle = make_bundle_name();
            let res = base.render_grandchild(&bundle, &make_bundle_resources_name());
            let loc = base.render_grandchild(&bundle, &make_bundle_resources_name());
            let fw = base.render_child(&bundle);
            (res, loc, fw)
        },
        _ => {
            let res = base.render();
            let loc = base.render_child(&make_locales_name());
            (res, loc, Vec::new())
        },
    };
    Ok(InstallationLayout {
        subprocess_executable,
        resources_dir,
        locales_dir,
        framework_dir,
        cache_dir,
        log_file,
    })
}

/// Appends the bytes of `src` to `dst`.
pub fn append_bytes(dst: &mut Vec<u8>, src: &Vec<u8>)
    ensures
        final(dst)@ == old(dst)@ + src@,
{
    let mut i: usize = 0;
    while i < src.len()
        invariant
            i <= src@.len(),
            dst@ == old(dst)@ + src@.take(i as int),
        decreases src@.len() - i,
    {
        dst.push(src[i]);
        proof {
            assert(src@.take(i + 1) =~= src@.take(i as int).push(src@[i as int]));
            assert(dst@ =~= old(dst)@ + src@.take(i + 1));
        }
        i = i + 1;
    }
    proof {
        assert(src@.take(src@.len() as int) =~= src@);
    }
}

} // verus!
