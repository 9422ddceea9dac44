//! Algorithm URIs (`algo://user/algo/version`) and call options.

use vstd::prelude::*;
use vstd::string::*;
use crate::algo::version::Version;
use crate::algo::version;
use crate::client;
use crate::client::get_header;
use crate::num;
use crate::num::u64_to_string;
use crate::text;
use crate::text::{starts_with, substring};

verus! {

/// The prefix of an algorithm URI.
pub open spec fn algo_prefix() -> Seq<char> {
    seq!['a', 'l', 'g', 'o', ':', '/', '/']
}

/// The path of an algorithm URI: without `algo://`, or else without one leading `/`.
pub open spec fn algo_path_of(uri: Seq<char>) -> Seq<char> {
    if text::starts_with_seq(uri, algo_prefix()) {
        uri.subrange(7, uri.len() as int)
    } else if text::starts_with_seq(uri, seq!['/']) {
        uri.subrange(1, uri.len() as int)
    } else {
        uri
    }
}

/// URI of an Algorithmia algorithm
pub struct AlgoUri {
    path: String,
}

impl View for AlgoUri {
    type V = Seq<char>;

    /// The algorithm's path (`user/algo` or `user/algo/version`).
    closed spec fn view(&self) -> Seq<char> {
        self.path@
    }
}

impl Clone for AlgoUri {
    fn clone(&self) -> (r: Self)
        ensures
            r@ == self@,
    {
        AlgoUri { path: self.path.clone() }
    }
}

impl<'a> From<&'a str> for AlgoUri {
    /// The algorithm named by a URI or path: `algo://` or a leading `/` is
    /// dropped.
    fn from(uri: &'a str) -> (r: AlgoUri)
        ensures
            r@ == algo_path_of(uri@),
    {
        proof {
            reveal_strlit("algo://");
            reveal_strlit("/");
            assert("algo://"@ =~= algo_prefix());
            assert("/"@ =~= seq!['/']);
        }
        let n = uri.unicode_len();
        let path = if starts_with(uri, "algo://") {
            substring(uri, 7, n)
        } else if starts_with(uri, "/") {
            substring(uri, 1, n)
        } else {
            String::from_str(uri)
        };
        AlgoUri { path }
    }
}

impl<'a> vstd::std_specs::convert::FromSpecImpl<&'a str> for AlgoUri {
    /// The contract of `from` is its own `ensures`, over the view.
    open spec fn obeys_from_spec() -> bool {
        false
    }

    open spec fn from_spec(v: &'a str) -> AlgoUri {
        choose|a: AlgoUri| a@ == algo_path_of(v@)
    }
}

impl From<String> for AlgoUri {
    /// As `From<&str>`, on an owned string.
    fn from(uri: String) -> (r: AlgoUri)
        ensures
            r@ == algo_path_of(uri@),
    {
        AlgoUri::from(uri.as_str())
    }
}

impl vstd::std_specs::convert::FromSpecImpl<String> for AlgoUri {
    /// The contract of `from` is its own `ensures`, over the view.
    open spec fn obeys_from_spec() -> bool {
        false
    }

    open spec fn from_spec(v: String) -> AlgoUri {
        choose|a: AlgoUri| a@ == algo_path_of(v@)
    }
}

impl AlgoUri {
    /// The algorithm `algo` at a version (`From<(&str, Version)>`): the latest
    /// version is the bare name, any other is appended after `/`.
    pub fn with_version(algo: &str, version: &Version) -> (r: AlgoUri)
        ensures
            r@ == algo_path_of(versioned_path(algo@, *version)),
    {
        let path = AlgoRef::with_version(algo, version).path;
        AlgoUri::from(path.as_str())
    }

    /// Returns the algorithm's URI path
    pub fn path(&self) -> (r: &str)
        ensures
            r@ == self@,
    {
        self.path.as_str()
    }

    /// The URI as its `Display` shows it: the path.
    pub fn to_display_string(&self) -> (r: String)
        ensures
            r@ == self@,
    {
        self.path.clone()
    }
}

/// The path of `algo` at a version: the bare name for the latest version,
/// else `algo/version`.
pub open spec fn versioned_path(algo: Seq<char>, v: Version) -> Seq<char> {
    match v {
        Version::Latest => algo,
        _ => algo + seq!['/'] + version::version_text(v),
    }
}

/// Reference to an algorithm by its path, possibly with a version.
pub struct AlgoRef {
    pub path: String,
}

impl<'a> From<&'a str> for AlgoRef {
    /// The reference to a path.
    fn from(path: &'a str) -> (r: AlgoRef)
        ensures
            r.path@ == path@,
    {
        AlgoRef { path: String::from_str(path) }
    }
}

impl<'a> vstd::std_specs::convert::FromSpecImpl<&'a str> for AlgoRef {
    /// The contract of `from` is its own `ensures`, over the path's view.
    open spec fn obeys_from_spec() -> bool {
        false
    }

    open spec fn from_spec(v: &'a str) -> AlgoRef {
        choose|a: AlgoRef| a.path@ == v@
    }
}

impl AlgoRef {
    /// The reference to `algo` at a version (`From<(&str, V)>`).
    pub fn with_version(algo: &str, version: &Version) -> (r: AlgoRef)
        ensures
            r.path@ == versioned_path(algo@, *version),
    {
        proof {
            reveal_strlit("/");
        }
        match version {
            Version::Latest => AlgoRef { path: String::from_str(algo) },
            _ => {
                let mut p = String::from_str(algo);
                p.append("/");
                let v = version.to_string();
                p.append(v.as_str());
                assert(p@ =~= versioned_path(algo@, *version));
                AlgoRef { path: p }
            },
        }
    }
}

/// Options used to alter the algorithm call, e.g. configuring the timeout.
///
/// Each option is a name and a value; setting an option again replaces its value.
pub struct AlgoOptions {
    opts: Vec<(String, String)>,
}

impl AlgoOptions {
    /// The options, in the order they were first set.
    pub closed spec fn pairs(&self) -> Seq<(Seq<char>, Seq<char>)> {
        client::header_views(self.opts@)
    }

    /// The value of an option.
    pub closed spec fn lookup(&self, key: Seq<char>) -> Option<Seq<char>> {
        client::header_get(self.opts@, key)
    }

    /// The place of an option among the options set (-1 for one not set).
    pub closed spec fn position(&self, key: Seq<char>) -> int {
        client::header_index_from(self.opts@, key, 0)
    }

    /// The option already set stands at its place.
    pub proof fn lemma_position(&self, key: Seq<char>)
        ensures
            self.lookup(key) is Some ==> 0 <= self.position(key) < self.pairs().len()
                && self.pairs()[self.position(key)].0 == key,
            self.lookup(key) is None ==> self.position(key) == -1,
    {
        lemma_header_index_from(self.opts@, key, 0);
    }

    /// No options (`AlgoOptions::default`).
    pub fn new() -> (r: AlgoOptions)
        ensures
            r.pairs().len() == 0,
            forall|k: Seq<char>| r.lookup(k) is None,
    {
        AlgoOptions { opts: Vec::new() }
    }

    /// Sets an option (`HashMap::insert` through `DerefMut`).
    #[verifier::loop_isolation(false)]
    pub fn insert(&mut self, key: String, value: String)
        ensures
            final(self).lookup(key@) == Some(value@),
            forall|k: Seq<char>| k != key@ ==> final(self).lookup(k) == old(self).lookup(k),
            old(self).lookup(key@) is Some ==> final(self).pairs() == old(self).pairs().update(
                old(self).position(key@),
                (key@, value@),
            ),
            old(self).lookup(key@) is None ==> final(self).pairs() == old(self).pairs().push(
                (key@, value@),
            ),
    {
        let n = self.opts.len();
        let mut i: usize = 0;
        let ghost before = self.opts@;
        while i < n
            invariant
                n == self.opts@.len(),
                self.opts@ == before,
                i <= n,
                client::header_index_from(before, key@, 0) == client::header_index_from(
                    before,
                    key@,
                    i as int,
                ),
            decreases n - i,
        {
            if self.opts[i].0 == key {
                assert(client::header_index_from(before, key@, i as int) == i);
                let k = self.opts[i].0.clone();
                self.opts.set(i, (k, value));
                proof {
                    assert forall|other: Seq<char>| other != key@ implies client::header_get(
                        self.opts@,
                        other,
                    ) == client::header_get(before, other) by {
                        lemma_set_value_other(before, i as int, self.opts@, key@, other);
                    }
                    lemma_set_value_same(before, i as int, self.opts@, key@);
                    assert(client::header_views(self.opts@) =~= client::header_views(before).update(
                        i as int,
                        (key@, value@),
                    ));
                }
                return;
            }
            i = i + 1;
        }
        self.opts.push((key, value));
        proof {
            assert forall|other: Seq<char>| other != key@ implies client::header_get(
                self.opts@,
                other,
            ) == client::header_get(before, other) by {
                lemma_push_other(before, self.opts@, key@, other);
            }
            lemma_push_same(before, self.opts@, key@);
            assert(client::header_views(self.opts@) =~= client::header_views(before).push(
                (key@, self.opts@.last().1@),
            ));
        }
    }

    /// The value of an option (`HashMap::get` through `Deref`).
    pub fn get(&self, key: &str) -> (r: Option<&String>)
        ensures
            match r {
                Some(v) => self.lookup(key@) == Some(v@),
                None => self.lookup(key@) is None,
            },
    {
        get_header(&self.opts, key)
    }

    /// No option is set (`HashMap::is_empty`).
    pub fn is_empty(&self) -> (r: bool)
        ensures
            r == (self.pairs().len() == 0),
    {
        self.opts.len() == 0
    }

    /// The number of options set.
    pub fn len(&self) -> (r: usize)
        ensures
            r == self.pairs().len(),
    {
        self.opts.len()
    }

    /// The `i`-th option set, as name and value.
    pub fn pair_at(&self, i: usize) -> (r: (&str, &str))
        requires
            i < self.pairs().len(),
        ensures
            r.0@ == self.pairs()[i as int].0,
            r.1@ == self.pairs()[i as int].1,
    {
        (self.opts[i].0.as_str(), self.opts[i].1.as_str())
    }

    /// Configure timeout in seconds
    pub fn timeout(&mut self, timeout: u32)
        ensures
            final(self).lookup("timeout"@) == Some(num::decimal(timeout as nat)),
            old(self).lookup("timeout"@) is Some ==> final(self).pairs() == old(self).pairs().update(
                old(self).position("timeout"@),
                ("timeout"@, num::decimal(timeout as nat)),
            ),
            old(self).lookup("timeout"@) is None ==> final(self).pairs() == old(self).pairs().push(
                ("timeout"@, num::decimal(timeout as nat)),
            ),
            forall|k: Seq<char>|
                k != "timeout"@ ==> final(self).lookup(k) == old(self).lookup(k),
    {
        self.insert(String::from_str("timeout"), u64_to_string(timeout as u64));
    }

    /// Enable or disable stdout retrieval
    ///
    /// This has no affect unless authenticated as the owner of the algorithm
    pub fn stdout(&mut self, stdout: bool)
        ensures
            final(self).lookup("stdout"@) == Some(if stdout {
                "true"@
            } else {
                "false"@
            }),
            old(self).lookup("stdout"@) is Some ==> final(self).pairs() == old(self).pairs().update(
                old(self).position("stdout"@),
                ("stdout"@, if stdout {
                    "true"@
                } else {
                    "false"@
                }),
            ),
            old(self).lookup("stdout"@) is None ==> final(self).pairs() == old(self).pairs().push(
                ("stdout"@, if stdout {
                    "true"@
                } else {
                    "false"@
                }),
            ),
            forall|k: Seq<char>| k != "stdout"@ ==> final(self).lookup(k) == old(self).lookup(k),
    {
        let v = if stdout {
            String::from_str("true")
        } else {
            String::from_str("false")
        };
        self.insert(String::from_str("stdout"), v);
    }

    /// Sets the option to enable stdout retrieval
    pub fn enable_stdout(&mut self)
        ensures
            final(self).lookup("stdout"@) == Some("true"@),
            old(self).lookup("stdout"@) is Some ==> final(self).pairs() == old(self).pairs().update(
                old(self).position("stdout"@),
                ("stdout"@, "true"@),
            ),
            old(self).lookup("stdout"@) is None ==> final(self).pairs() == old(self).pairs().push(
                ("stdout"@, "true"@),
            ),
            forall|k: Seq<char>| k != "stdout"@ ==> final(self).lookup(k) == old(self).lookup(k),
    {
        self.stdout(true);
    }
}

proof fn lemma_header_index_is(h: Seq<(String, String)>, key: Seq<char>, k: int)
    requires
        0 <= k < h.len(),
        h[k].0@ == key,
        forall|j: int| 0 <= j < k ==> h[j].0@ != key,
    ensures
        client::header_index_from(h, key, 0) == k,
{
    lemma_header_index_from(h, key, 0);
}

proof fn lemma_header_index_none(h: Seq<(String, String)>, key: Seq<char>)
    requires
        forall|j: int| 0 <= j < h.len() ==> h[j].0@ != key,
    ensures
        client::header_index_from(h, key, 0) == -1,
{
    lemma_header_index_from(h, key, 0);
}

proof fn lemma_header_index_from(h: Seq<(String, String)>, key: Seq<char>, i: int)
    requires
        0 <= i,
    ensures
        ({
            let r = client::header_index_from(h, key, i);
            &&& r < 0 ==> r == -1 && forall|j: int| i <= j < h.len() ==> h[j].0@ != key
            &&& r >= 0 ==> i <= r < h.len() && h[r].0@ == key && forall|j: int|
                i <= j < r ==> h[j].0@ != key
        }),
    decreases h.len() - i,
{
    if i < h.len() && h[i].0@ != key {
        lemma_header_index_from(h, key, i + 1);
    }
}

/// Lookups agree when the names agree position by position and the values at
/// the looked-up positions agree.
proof fn lemma_same_names_lookup(
    a: Seq<(String, String)>,
    b: Seq<(String, String)>,
    other: Seq<char>,
    i: int,
)
    requires
        a.len() == b.len(),
        0 <= i < a.len(),
        forall|j: int| 0 <= j < a.len() ==> a[j].0@ == b[j].0@,
        forall|j: int| 0 <= j < a.len() && j != i ==> a[j].1@ == b[j].1@,
        a[i].0@ != other,
    ensures
        client::header_get(a, other) == client::header_get(b, other),
{
    lemma_header_index_from(a, other, 0);
    let k = client::header_index_from(a, other, 0);
    if k < 0 {
        lemma_header_index_none(b, other);
    } else {
        lemma_header_index_is(b, other, k);
    }
}

proof fn lemma_set_value_other(
    before: Seq<(String, String)>,
    i: int,
    after: Seq<(String, String)>,
    key: Seq<char>,
    other: Seq<char>,
)
    requires
        0 <= i < before.len(),
        before[i].0@ == key,
        after == before.update(i, (after[i].0, after[i].1)),
        after[i].0@ == key,
        other != key,
    ensures
        client::header_get(after, other) == client::header_get(before, other),
{
    lemma_same_names_lookup(before, after, other, i);
}

proof fn lemma_set_value_same(
    before: Seq<(String, String)>,
    i: int,
    after: Seq<(String, String)>,
    key: Seq<char>,
)
    requires
        0 <= i < before.len(),
        client::header_index_from(before, key, 0) == i,
        after == before.update(i, (after[i].0, after[i].1)),
        after[i].0@ == key,
    ensures
        client::header_get(after, key) == Some(after[i].1@),
{
    lemma_header_index_from(before, key, 0);
    lemma_header_index_is(after, key, i);
}

proof fn lemma_push_other(
    before: Seq<(String, String)>,
    after: Seq<(String, String)>,
    key: Seq<char>,
    other: Seq<char>,
)
    requires
        after.len() == before.len() + 1,
        forall|j: int| 0 <= j < before.len() ==> after[j] == before[j],
        after.last().0@ == key,
        other != key,
    ensures
        client::header_get(after, other) == client::header_get(before, other),
{
    lemma_header_index_from(before, other, 0);
    let k = client::header_index_from(before, other, 0);
    if k < 0 {
        lemma_header_index_none(after, other);
    } else {
        lemma_header_index_is(after, other, k);
    }
}

proof fn lemma_push_same(before: Seq<(String, String)>, after: Seq<(String, String)>, key: Seq<char>)
    requires
        after.len() == before.len() + 1,
        forall|j: int| 0 <= j < before.len() ==> after[j] == before[j],
        after.last().0@ == key,
        client::header_index_from(before, key, 0) == -1,
    ensures
        client::header_get(after, key) == Some(after.last().1@),
{
    lemma_header_index_from(before, key, 0);
    lemma_header_index_is(after, key, before.len() as int);
}

} // verus!
