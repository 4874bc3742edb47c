use vstd::prelude::*;
use vstd::relations::*;
use vstd::seq_lib::*;
use vstd::string::*;

use crate::byte_order::{lemma_descending_bytes_total, sort_descending_by_bytes, descending_bytes_order};
use crate::text::{join_path, opt_text, path_joined, texts, trim, trimmed};

verus! {

/// Where the search for the `coli` executable looks, as read from the
/// environment and the disk by the caller.
pub struct ColiLocations {
    /// The path the user configured, if any.
    pub configured_path: Option<String>,
    /// The entries of `PATH`, in order (none when `PATH` is unset).
    pub path_entries: Vec<String>,
    /// The value of `NVM_BIN`, if set.
    pub nvm_bin: Option<String>,
    /// The home directory, if `HOME` is set.
    pub home: Option<String>,
    /// The names in the home directory's `.nvm/versions/node`, in any order
    /// (none when it cannot be read).
    pub nvm_versions: Vec<String>,
}

/// A configured path is tried first, unless it is blank.
pub open spec fn configured_candidates(configured: Option<Seq<char>>) -> Seq<Seq<char>> {
    match configured {
        Some(p) => if trimmed(p).len() == 0 {
            Seq::empty()
        } else {
            seq![p]
        },
        None => Seq::empty(),
    }
}

/// `coli` in each `PATH` entry, in order.
pub open spec fn path_var_candidates(entries: Seq<Seq<char>>) -> Seq<Seq<char>> {
    entries.map_values(|e: Seq<char>| path_joined(e, "coli"@))
}

/// `coli` in the `NVM_BIN` directory.
pub open spec fn nvm_bin_candidates(nvm_bin: Option<Seq<char>>) -> Seq<Seq<char>> {
    match nvm_bin {
        Some(dir) => seq![path_joined(dir, "coli"@)],
        None => Seq::empty(),
    }
}

/// The directory under a home directory that holds one directory per installed
/// Node version.
pub open spec fn nvm_versions_dir_of(home: Seq<char>) -> Seq<char> {
    path_joined(home, ".nvm/versions/node"@)
}

/// `bin/coli` of an installed Node version.
pub open spec fn nvm_version_candidate(home: Seq<char>, version: Seq<char>) -> Seq<char> {
    path_joined(path_joined(nvm_versions_dir_of(home), version), "bin/coli"@)
}

/// The places under the home directory that package managers install into.
pub open spec fn home_install_candidates(home: Seq<char>) -> Seq<Seq<char>> {
    seq![
        path_joined(home, ".npm-global/bin/coli"@),
        path_joined(home, ".volta/bin/coli"@),
        path_joined(home, ".local/bin/coli"@),
    ]
}

/// Under the home directory: each installed Node version, in descending byte
/// order of its name, then
/// the package managers' directories.
pub open spec fn home_candidates(home: Option<Seq<char>>, versions: Seq<Seq<char>>) -> Seq<
    Seq<char>,
> {
    match home {
        Some(h) => versions.sort_by(descending_bytes_order()).map_values(
            |v: Seq<char>| nvm_version_candidate(h, v),
        ) + home_install_candidates(h),
        None => Seq::empty(),
    }
}

/// The system-wide install locations.
pub open spec fn system_candidates() -> Seq<Seq<char>> {
    seq!["/opt/homebrew/bin/coli"@, "/usr/local/bin/coli"@, "/usr/bin/coli"@]
}

impl ColiLocations {
    /// Every path at which `coli` is looked for, in the order they are tried.
    pub open spec fn candidates(&self) -> Seq<Seq<char>> {
        configured_candidates(opt_text(self.configured_path)) + path_var_candidates(
            texts(self.path_entries@),
        ) + nvm_bin_candidates(opt_text(self.nvm_bin)) + home_candidates(
            opt_text(self.home),
            texts(self.nvm_versions@),
        ) + system_candidates()
    }
}

/// The directory whose entries are the installed Node versions, for a home directory.
pub fn nvm_versions_dir(home: &str) -> (r: String)
    ensures
        r@ == nvm_versions_dir_of(home@),
{
    join_path(home, ".nvm/versions/node")
}

/// Appends `name` joined to each of `dirs` to `out`.
fn push_joined_each(out: &mut Vec<String>, dirs: &Vec<String>, name: &str)
    ensures
        texts(final(out)@) == texts(old(out)@) + texts(dirs@).map_values(
            |e: Seq<char>| path_joined(e, name@),
        ),
{
    let ghost start = texts(out@);
    let mut k: usize = 0;
    while k < dirs.len()
        invariant
            k <= dirs@.len(),
            texts(out@) == start + texts(dirs@.subrange(0, k as int)).map_values(
                |e: Seq<char>| path_joined(e, name@),
            ),
        decreases dirs.len() - k,
    {
        let joined = join_path(dirs[k].as_str(), name);
        let ghost before = texts(out@);
        out.push(joined);
        assert(texts(out@) =~= before.push(path_joined(dirs@[k as int]@, name@)));
        assert(texts(dirs@.subrange(0, k + 1)) =~= texts(dirs@.subrange(0, k as int)).push(
            dirs@[k as int]@,
        ));
        assert(texts(dirs@.subrange(0, k + 1)).map_values(|e: Seq<char>| path_joined(e, name@))
            =~= texts(dirs@.subrange(0, k as int)).map_values(
            |e: Seq<char>| path_joined(e, name@),
        ).push(path_joined(dirs@[k as int]@, name@)));
        assert(texts(out@) =~= start + texts(dirs@.subrange(0, k + 1)).map_values(
            |e: Seq<char>| path_joined(e, name@),
        ));
        k = k + 1;
    }
    assert(dirs@.subrange(0, dirs@.len() as int) =~= dirs@);
}

/// Appends each of `names` joined to `base` to `out`.
fn push_each_under(out: &mut Vec<String>, base: &str, names: &Vec<String>)
    ensures
        texts(final(out)@) == texts(old(out)@) + texts(names@).map_values(
            |v: Seq<char>| path_joined(base@, v),
        ),
{
    let ghost start = texts(out@);
    let mut k: usize = 0;
    while k < names.len()
        invariant
            k <= names@.len(),
            texts(out@) == start + texts(names@.subrange(0, k as int)).map_values(
                |v: Seq<char>| path_joined(base@, v),
            ),
        decreases names.len() - k,
    {
        let joined = join_path(base, names[k].as_str());
        let ghost before = texts(out@);
        out.push(joined);
        assert(texts(out@) =~= before.push(path_joined(base@, names@[k as int]@)));
        assert(texts(names@.subrange(0, k + 1)) =~= texts(names@.subrange(0, k as int)).push(
            names@[k as int]@,
        ));
        assert(texts(names@.subrange(0, k + 1)).map_values(|v: Seq<char>| path_joined(base@, v))
            =~= texts(names@.subrange(0, k as int)).map_values(
            |v: Seq<char>| path_joined(base@, v),
        ).push(path_joined(base@, names@[k as int]@)));
        k = k + 1;
    }
    assert(names@.subrange(0, names@.len() as int) =~= names@);
}

/// Lists every path at which `coli` is looked for, in the order they are tried:
/// the configured path unless blank, `coli` in each `PATH` entry, in `NVM_BIN`,
/// in each installed Node version (names in descending byte order), in the package managers'
/// directories under the home directory, and the system-wide locations.
pub fn coli_candidates(locations: ColiLocations) -> (r: Vec<String>)
    ensures
        texts(r@) == locations.candidates(),
{
    let ghost loc = locations;
    let mut out: Vec<String> = Vec::new();
    let ColiLocations { configured_path, path_entries, nvm_bin, home, nvm_versions } = locations;
    match configured_path {
        Some(path) => {
            if !trim(path.as_str()).is_empty() {
                out.push(path);
            }
        },
        None => {},
    }
    assert(texts(out@) =~= configured_candidates(opt_text(loc.configured_path)));
    push_joined_each(&mut out, &path_entries, "coli");
    match nvm_bin {
        Some(dir) => {
            out.push(join_path(dir.as_str(), "coli"));
        },
        None => {},
    }
    let ghost before_home = texts(out@);
    assert(before_home =~= configured_candidates(opt_text(loc.configured_path))
        + path_var_candidates(texts(loc.path_entries@)) + nvm_bin_candidates(
        opt_text(loc.nvm_bin),
    ));
    match home {
        Some(h) => {
            let versions_dir = nvm_versions_dir(h.as_str());
            let ordered = sort_descending_by_bytes(nvm_versions);
            let mut version_dirs: Vec<String> = Vec::new();
            push_each_under(&mut version_dirs, versions_dir.as_str(), &ordered);
            assert(texts(Seq::<String>::empty()) =~= Seq::<Seq<char>>::empty());
            proof {
                lemma_descending_bytes_total();
            }
            let ghost sorted = texts(loc.nvm_versions@).sort_by(descending_bytes_order());
            assert(texts(version_dirs@) =~= sorted.map_values(
                |v: Seq<char>| path_joined(nvm_versions_dir_of(h@), v),
            ));
            assert(texts(version_dirs@).map_values(|e: Seq<char>| path_joined(e, "bin/coli"@))
                =~= sorted.map_values(|v: Seq<char>| nvm_version_candidate(h@, v)));
            push_joined_each(&mut out, &version_dirs, "bin/coli");
            let ghost with_versions = texts(out@);
            assert(with_versions == before_home + sorted.map_values(
                |v: Seq<char>| nvm_version_candidate(h@, v),
            ));
            out.push(join_path(h.as_str(), ".npm-global/bin/coli"));
            out.push(join_path(h.as_str(), ".volta/bin/coli"));
            out.push(join_path(h.as_str(), ".local/bin/coli"));
            assert(texts(out@) =~= with_versions + home_install_candidates(h@));
            assert(opt_text(loc.home) == Some(h@));
            assert(texts(out@) =~= before_home + home_candidates(
                opt_text(loc.home),
                texts(loc.nvm_versions@),
            ));
        },
        None => {},
    }
    let ghost before_system = texts(out@);
    out.push(String::from_str("/opt/homebrew/bin/coli"));
    out.push(String::from_str("/usr/local/bin/coli"));
    out.push(String::from_str("/usr/bin/coli"));
    assert(texts(out@) =~= before_system + system_candidates());
    out
}

/// The state of a search for the first candidate that answers as `coli`:
/// the candidates in order, how many have failed, and whether the one after
/// them answered.
pub struct SearchView {
    pub candidates: Seq<Seq<char>>,
    pub failed: nat,
    pub found: bool,
}

impl SearchView {
    /// No probe is left to make.
    pub open spec fn finished(self) -> bool {
        self.found || self.failed >= self.candidates.len()
    }

    /// The candidate to probe next, if the search goes on.
    pub open spec fn next_probe(self) -> Option<Seq<char>> {
        if self.finished() {
            None
        } else {
            Some(self.candidates[self.failed as int])
        }
    }

    /// The state once the probe of the next candidate has answered; a finished
    /// search stays as it is.
    pub open spec fn after_probe(self, responded: bool) -> SearchView {
        if self.finished() {
            self
        } else if responded {
            SearchView { found: true, ..self }
        } else {
            SearchView { failed: self.failed + 1, ..self }
        }
    }

    /// The candidate that answered, if one has.
    pub open spec fn resolved(self) -> Option<Seq<char>> {
        if self.found {
            Some(self.candidates[self.failed as int])
        } else {
            None
        }
    }
}

/// A search that has probed nothing yet.
pub open spec fn search_start(candidates: Seq<Seq<char>>) -> SearchView {
    SearchView { candidates, failed: 0, found: false }
}

/// Where a search ends when it is driven by the probes it offers, each answered
/// as `responds` says, until it offers none.
pub open spec fn run_search(state: SearchView, responds: spec_fn(Seq<char>) -> bool) -> SearchView
    decreases state.candidates.len() - state.failed, if state.found { 0int } else { 1int },
{
    match state.next_probe() {
        None => state,
        Some(path) => run_search(state.after_probe(responds(path)), responds),
    }
}

/// The first of `candidates` that answers, if any.
pub open spec fn first_responding(
    candidates: Seq<Seq<char>>,
    responds: spec_fn(Seq<char>) -> bool,
) -> Option<Seq<char>>
    decreases candidates.len(),
{
    if candidates.len() == 0 {
        None
    } else if responds(candidates[0]) {
        Some(candidates[0])
    } else {
        first_responding(candidates.drop_first(), responds)
    }
}

/// Searches `candidates` in order for the first one that answers when probed.
/// The caller probes each path that `next_probe` offers and reports the
/// answer with `record_probe`.
pub struct ColiSearch {
    candidates: Vec<String>,
    failed: usize,
    found: bool,
}

impl View for ColiSearch {
    type V = SearchView;

    closed spec fn view(&self) -> SearchView {
        SearchView { candidates: texts(self.candidates@), failed: self.failed as nat, found: self.found }
    }
}

impl ColiSearch {
    #[verifier::type_invariant]
    spec fn well_formed(&self) -> bool {
        &&& self.failed <= self.candidates@.len()
        &&& self.found ==> self.failed < self.candidates@.len()
    }

    /// Starts a search over `candidates`, in order.
    pub fn new(candidates: Vec<String>) -> (s: ColiSearch)
        ensures
            s@ == search_start(texts(candidates@)),
    {
        ColiSearch { candidates, failed: 0, found: false }
    }

    /// Whether no probe is left to make.
    pub fn is_finished(&self) -> (r: bool)
        ensures
            r == self@.finished(),
    {
        proof {
            use_type_invariant(self);
        }
        self.found || self.failed >= self.candidates.len()
    }

    /// The path to probe next, or `None` when the search is over.
    pub fn next_probe(&self) -> (r: Option<String>)
        ensures
            opt_text(r) == self@.next_probe(),
    {
        proof {
            use_type_invariant(self);
        }
        if self.found || self.failed >= self.candidates.len() {
            None
        } else {
            Some(self.candidates[self.failed].clone())
        }
    }

    /// Records whether the path that `next_probe` offered answered as `coli`.
    pub fn record_probe(&mut self, responded: bool)
        ensures
            final(self)@ == old(self)@.after_probe(responded),
    {
        proof {
            use_type_invariant(&*self);
        }
        if self.found || self.failed >= self.candidates.len() {
        } else if responded {
            self.found = true;
        } else {
            self.failed = self.failed + 1;
        }
    }

    /// The path that answered, once one has.
    pub fn resolved(&self) -> (r: Option<String>)
        ensures
            opt_text(r) == self@.resolved(),
    {
        proof {
            use_type_invariant(self);
        }
        if self.found {
            Some(self.candidates[self.failed].clone())
        } else {
            None
        }
    }
}

/// Whether the search has found a `coli` that answers.
pub fn check_coli_available(search: &ColiSearch) -> (r: bool)
    ensures
        r == (search@.resolved() is Some),
{
    search.resolved().is_some()
}

proof fn lemma_run_from(state: SearchView, responds: spec_fn(Seq<char>) -> bool)
    requires
        !state.found,
        state.failed <= state.candidates.len(),
    ensures
        run_search(state, responds).resolved() == first_responding(
            state.candidates.skip(state.failed as int),
            responds,
        ),
        run_search(state, responds).finished(),
    decreases state.candidates.len() - state.failed,
{
    let rest = state.candidates.skip(state.failed as int);
    if state.finished() {
        assert(rest.len() == 0);
    } else {
        let c = state.candidates[state.failed as int];
        assert(rest[0] == c);
        if responds(c) {
            let next = state.after_probe(true);
            assert(run_search(next, responds) == next);
        } else {
            let next = state.after_probe(false);
            assert(rest.drop_first() =~= state.candidates.skip(next.failed as int));
            lemma_run_from(next, responds);
        }
    }
}

/// Probing the candidates in order and stopping at the first that answers
/// finds exactly the first candidate that answers, and finds nothing when
/// none does: however the probes turn out, the search ends, and what it
/// resolves to is `first_responding`.
pub proof fn lemma_search_finds_first_responding(
    candidates: Seq<Seq<char>>,
    responds: spec_fn(Seq<char>) -> bool,
)
    ensures
        run_search(search_start(candidates), responds).finished(),
        run_search(search_start(candidates), responds).resolved() == first_responding(
            candidates,
            responds,
        ),
{
    assert(candidates.skip(0) =~= candidates);
    lemma_run_from(search_start(candidates), responds);
}

/// A search offers a probe exactly while nothing has answered and some
/// candidate is left, and the probe it offers is the first candidate not yet
/// tried; the candidates are never reordered or skipped.
pub proof fn lemma_search_offers_next_untried(state: SearchView)
    ensures
        state.next_probe() is Some <==> (!state.found && state.failed < state.candidates.len()),
        state.next_probe() matches Some(path) ==> path == state.candidates[state.failed as int],
        !state.found && state.failed < state.candidates.len() ==> state.after_probe(false).failed
            == state.failed + 1 && !state.after_probe(false).found && state.after_probe(
            true,
        ).found && state.after_probe(true).failed == state.failed,
        state.after_probe(true).candidates == state.candidates,
        state.after_probe(false).candidates == state.candidates,
        state.found ==> state.resolved() == Some(state.candidates[state.failed as int]),
        !state.found ==> state.resolved() is None,
{
}

/// How many configured paths are tried: one, unless it is absent or blank.
pub open spec fn configured_count(configured: Option<Seq<char>>) -> int {
    match configured {
        Some(p) => if trimmed(p).len() > 0 {
            1
        } else {
            0
        },
        None => 0,
    }
}

/// Where the `PATH` candidates start in the list.
pub open spec fn path_start(loc: ColiLocations) -> int {
    configured_count(opt_text(loc.configured_path))
}

/// Where the candidates under the home directory start in the list.
pub open spec fn home_start(loc: ColiLocations) -> int {
    path_start(loc) + loc.path_entries@.len() + if loc.nvm_bin is Some {
        1int
    } else {
        0int
    }
}

/// The layout of the search list, stated place by place:
/// - a configured path that is not blank comes first, as given;
/// - then `coli` in each `PATH` entry, in order;
/// - then `coli` in `NVM_BIN`, if set;
/// - when the home directory is known: `bin/coli` of every installed Node
///   version (each exactly once, in descending byte order of the name), then
///   `.npm-global/bin/coli`, `.volta/bin/coli` and `.local/bin/coli` under the
///   home directory, whether or not any Node version is installed; with no
///   home directory, none of these;
/// - last, `/opt/homebrew/bin/coli`, `/usr/local/bin/coli`, `/usr/bin/coli`.
pub proof fn lemma_candidates_layout(loc: ColiLocations)
    ensures
        ({
            let c = loc.candidates();
            let p0 = path_start(loc);
            let h0 = home_start(loc);
            let n = c.len() as int;
            let entries = texts(loc.path_entries@);
            let versions = texts(loc.nvm_versions@);
            &&& n == h0 + (if loc.home is Some {
                versions.len() + 3
            } else {
                0
            }) + 3
            &&& (loc.configured_path is Some && trimmed(loc.configured_path->0@).len() > 0 ==> c[0]
                == loc.configured_path->0@)
            &&& forall|i: int|
                0 <= i < entries.len() ==> #[trigger] c[p0 + i] == path_joined(
                    entries[i],
                    "coli"@,
                )
            &&& (loc.nvm_bin is Some ==> c[h0 - 1] == path_joined(loc.nvm_bin->0@, "coli"@))
            &&& c[n - 3] == "/opt/homebrew/bin/coli"@
            &&& c[n - 2] == "/usr/local/bin/coli"@
            &&& c[n - 1] == "/usr/bin/coli"@
            &&& (loc.home is Some ==> {
                let h = loc.home->0@;
                let ordered = versions.sort_by(descending_bytes_order());
                &&& c[n - 6] == path_joined(h, ".npm-global/bin/coli"@)
                &&& c[n - 5] == path_joined(h, ".volta/bin/coli"@)
                &&& c[n - 4] == path_joined(h, ".local/bin/coli"@)
                &&& ordered.to_multiset() == versions.to_multiset()
                &&& sorted_by(ordered, descending_bytes_order())
                &&& forall|i: int|
                    0 <= i < versions.len() ==> #[trigger] c[h0 + i] == path_joined(
                        path_joined(path_joined(h, ".nvm/versions/node"@), ordered[i]),
                        "bin/coli"@,
                    )
            })
        }),
{
    let c = loc.candidates();
    let versions = texts(loc.nvm_versions@);
    let a = configured_candidates(opt_text(loc.configured_path));
    let b = path_var_candidates(texts(loc.path_entries@));
    let d = nvm_bin_candidates(opt_text(loc.nvm_bin));
    let e = home_candidates(opt_text(loc.home), versions);
    let f = system_candidates();
    assert(c =~= a + b + d + e + f);
    lemma_descending_bytes_total();
    versions.lemma_sort_by_ensures(descending_bytes_order());
    let ordered = versions.sort_by(descending_bytes_order());
    assert(ordered.len() == versions.len()) by {
        broadcast use group_to_multiset_ensures;
        assert(ordered.to_multiset().len() == versions.to_multiset().len());
    }
    assert(a.len() == path_start(loc));
    assert forall|i: int| 0 <= i < b.len() implies #[trigger] c[path_start(loc) + i] == b[i] by {
        assert(c[path_start(loc) + i] == (a + b + d + e + f)[a.len() + i]);
    }
    if let Some(h) = opt_text(loc.home) {
        let m = ordered.map_values(|v: Seq<char>| nvm_version_candidate(h, v));
        assert(e =~= m + home_install_candidates(h));
        assert forall|i: int| 0 <= i < versions.len() implies #[trigger] c[home_start(loc) + i]
            == path_joined(
            path_joined(path_joined(h, ".nvm/versions/node"@), ordered[i]),
            "bin/coli"@,
        ) by {
            assert(c[home_start(loc) + i] == (a + b + d + e + f)[a.len() + b.len() + d.len() + i]);
            assert(e[i] == m[i]);
        }
    }
}

/// What `first_responding` finds: a candidate that answers, with every
/// candidate before it silent; and it finds nothing only when no candidate
/// answers.
pub proof fn lemma_first_responding_is_first(
    candidates: Seq<Seq<char>>,
    responds: spec_fn(Seq<char>) -> bool,
)
    ensures
        first_responding(candidates, responds) matches Some(path) ==> exists|i: int|
            0 <= i < candidates.len() && #[trigger] candidates[i] == path && responds(path) && (
            forall|j: int| 0 <= j < i ==> !responds(#[trigger] candidates[j])),
        first_responding(candidates, responds) is None ==> forall|i: int|
            0 <= i < candidates.len() ==> !responds(#[trigger] candidates[i]),
    decreases candidates.len(),
{
    if candidates.len() > 0 {
        if responds(candidates[0]) {
            assert(candidates[0] == candidates[0]);
        } else {
            let rest = candidates.drop_first();
            lemma_first_responding_is_first(rest, responds);
            if let Some(path) = first_responding(rest, responds) {
                let i = choose|i: int|
                    0 <= i < rest.len() && #[trigger] rest[i] == path && responds(path) && (forall|
                        j: int,
                    | 0 <= j < i ==> !responds(#[trigger] rest[j]));
                assert(candidates[i + 1] == path);
                assert forall|j: int| 0 <= j < i + 1 implies !responds(#[trigger] candidates[j]) by {
                    if j > 0 {
                        assert(candidates[j] == rest[j - 1]);
                    }
                }
            } else {
                assert forall|i: int| 0 <= i < candidates.len() implies !responds(
                    #[trigger] candidates[i],
                ) by {
                    if i > 0 {
                        assert(candidates[i] == rest[i - 1]);
                    }
                }
            }
        }
    }
}

} // verus!
