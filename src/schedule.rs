//! Selection of peers and scenarios by label, and the fan-in of the
//! verdicts of the workers that ran them.
use vstd::prelude::*;
use crate::peer::{Peer, Test, all_tests, test_label};
use crate::verdict::Verdict;

verus! {

/// The labels held by a list of strings.
pub open spec fn labels(v: Seq<String>) -> Seq<Seq<char>> {
    v.map_values(|s: String| s@)
}

/// Whether `label` passes the filters: an empty allow list admits every
/// label, and the deny list wins over the allow list.
pub open spec fn selected(label: Seq<char>, allow: Seq<Seq<char>>, deny: Seq<Seq<char>>) -> bool {
    (allow.len() == 0 || allow.contains(label)) && !deny.contains(label)
}

/// The positions, in order, of the first `n` peers that pass the filters.
pub open spec fn selected_peers(peers: Seq<Peer>, allow: Seq<Seq<char>>, deny: Seq<Seq<char>>, n: nat) -> Seq<usize>
    decreases n,
{
    if n == 0 {
        Seq::empty()
    } else {
        let prev = selected_peers(peers, allow, deny, (n - 1) as nat);
        if selected(peers[n - 1].label@, allow, deny) {
            prev.push((n - 1) as usize)
        } else {
            prev
        }
    }
}

/// The scenarios of `tests` that pass the filters, in their order.
pub open spec fn selected_tests(tests: Seq<Test>, allow: Seq<Seq<char>>, deny: Seq<Seq<char>>) -> Seq<Test>
    decreases tests.len(),
{
    if tests.len() == 0 {
        Seq::empty()
    } else {
        let prev = selected_tests(tests.drop_last(), allow, deny);
        if selected(test_label(tests.last()), allow, deny) {
            prev.push(tests.last())
        } else {
            prev
        }
    }
}

/// Whether `list` holds `label`.
pub fn contains_label(list: &Vec<String>, label: &String) -> (r: bool)
    ensures
        r == labels(list@).contains(label@),
{
    let mut i: usize = 0;
    while i < list.len()
        invariant
            i <= list@.len(),
            forall|j: int| 0 <= j < i ==> list@[j]@ != label@,
        decreases list@.len() - i,
    {
        if list[i] == *label {
            assert(labels(list@)[i as int] == label@);
            return true;
        }
        i = i + 1;
    }
    assert(!labels(list@).contains(label@)) by {
        if labels(list@).contains(label@) {
            let j = choose|j: int| 0 <= j < labels(list@).len() && labels(list@)[j] == label@;
            assert(list@[j]@ == label@);
        }
    }
    false
}

/// Whether `label` passes the allow and deny lists.
pub fn is_selected(label: &String, allow: &Vec<String>, deny: &Vec<String>) -> (r: bool)
    ensures
        r == selected(label@, labels(allow@), labels(deny@)),
{
    (allow.len() == 0 || contains_label(allow, label)) && !contains_label(deny, label)
}

/// The positions in `peers` of the peers to run, in table order.
pub fn select_peers(peers: &Vec<Peer>, allow: &Vec<String>, deny: &Vec<String>) -> (r: Vec<usize>)
    ensures
        r@ == selected_peers(peers@, labels(allow@), labels(deny@), peers@.len()),
{
    let mut r: Vec<usize> = Vec::new();
    let mut i: usize = 0;
    while i < peers.len()
        invariant
            i <= peers@.len(),
            r@ == selected_peers(peers@, labels(allow@), labels(deny@), i as nat),
        decreases peers@.len() - i,
    {
        if is_selected(&peers[i].label, allow, deny) {
            r.push(i);
        }
        i = i + 1;
    }
    r
}

/// The scenarios to run against `peer`, in submission order: those that the
/// peer takes part in and that pass the filters.
pub fn select_tests(peer: &Peer, allow: &Vec<String>, deny: &Vec<String>) -> (r: Vec<Test>)
    ensures
        r@ == selected_tests(all_tests(), labels(allow@), labels(deny@)),
{
    let tests = Test::all();
    let mut r: Vec<Test> = Vec::new();
    let mut i: usize = 0;
    while i < tests.len()
        invariant
            tests@ == all_tests(),
            i <= tests@.len(),
            r@ == selected_tests(tests@.subrange(0, i as int), labels(allow@), labels(deny@)),
        decreases tests@.len() - i,
    {
        let t = tests[i];
        assert(tests@.subrange(0, i + 1).drop_last() =~= tests@.subrange(0, i as int));
        if peer.test_enabled(&t) && is_selected(&t.label(), allow, deny) {
            r.push(t);
        }
        i = i + 1;
    }
    assert(tests@.subrange(0, tests@.len() as int) =~= tests@);
    r
}

/// The outcome of one scenario against one peer.
#[derive(Clone, Copy, Debug, PartialEq, Eq, Structural)]
pub struct TestOutcome {
    /// The peer's position in the peer table.
    pub peer: usize,
    pub test: Test,
    pub verdict: Verdict,
}

/// The verdict of a worker that handed back `joined`: nothing comes back
/// from a worker that failed unexpectedly.
pub open spec fn joined_verdict(joined: Option<Verdict>) -> Verdict {
    match joined {
        Some(v) => v,
        None => Verdict::Crashed,
    }
}

/// The outcomes of the workers that ran `tests`, in submission order.
pub open spec fn collected(peer: usize, tests: Seq<Test>, joined: Seq<Option<Verdict>>) -> Seq<TestOutcome> {
    Seq::new(tests.len(), |i: int| TestOutcome { peer, test: tests[i], verdict: joined_verdict(joined[i]) })
}

/// Gathers the results of the workers of peer `peer`, `joined[i]` from the
/// worker that ran `tests[i]`, into one outcome per scenario in submission order; a worker
/// that failed unexpectedly counts as crashed.
pub fn collect_outcomes(peer: usize, tests: &Vec<Test>, joined: &Vec<Option<Verdict>>) -> (r: Vec<TestOutcome>)
    requires
        tests@.len() == joined@.len(),
    ensures
        r@ == collected(peer, tests@, joined@),
{
    let mut r: Vec<TestOutcome> = Vec::new();
    let mut i: usize = 0;
    while i < tests.len()
        invariant
            tests@.len() == joined@.len(),
            i <= tests@.len(),
            r@ =~= collected(peer, tests@, joined@).subrange(0, i as int),
        decreases tests@.len() - i,
    {
        let verdict = match joined[i] {
            Some(v) => v,
            None => Verdict::Crashed,
        };
        r.push(TestOutcome { peer, test: tests[i], verdict });
        i = i + 1;
    }
    assert(r@ =~= collected(peer, tests@, joined@));
    r
}

/// Workers are isolated: every scenario gets an outcome, a worker that
/// crashed costs only its own outcome, and what one worker handed back is
/// reported whatever its siblings did.
pub proof fn lemma_workers_isolated(
    peer: usize,
    tests: Seq<Test>,
    joined: Seq<Option<Verdict>>,
    others: Seq<Option<Verdict>>,
    i: int,
)
    requires
        joined.len() == tests.len(),
        others.len() == tests.len(),
        0 <= i < tests.len(),
        others[i] == joined[i],
    ensures
        collected(peer, tests, joined).len() == tests.len(),
        collected(peer, tests, joined)[i] == collected(peer, tests, others)[i],
        joined[i] is Some ==> collected(peer, tests, joined)[i].verdict == joined[i]->0,
        joined[i] is None ==> collected(peer, tests, joined)[i].verdict == Verdict::Crashed,
{
}

proof fn lemma_selected_peers_pass(peers: Seq<Peer>, allow: Seq<Seq<char>>, deny: Seq<Seq<char>>, n: nat)
    requires
        n <= peers.len(),
        n <= usize::MAX,
    ensures
        forall|k: int| 0 <= k < selected_peers(peers, allow, deny, n).len() ==> {
            let j = #[trigger] selected_peers(peers, allow, deny, n)[k] as int;
            0 <= j < n && selected(peers[j].label@, allow, deny)
        },
        forall|j: int| 0 <= j < n && selected(peers[j].label@, allow, deny)
            ==> selected_peers(peers, allow, deny, n).contains(j as usize),
    decreases n,
{
    if n > 0 {
        lemma_selected_peers_pass(peers, allow, deny, (n - 1) as nat);
        let prev = selected_peers(peers, allow, deny, (n - 1) as nat);
        let cur = selected_peers(peers, allow, deny, n);
        assert forall|k: int| 0 <= k < cur.len() implies {
            let j = #[trigger] cur[k] as int;
            0 <= j < n && selected(peers[j].label@, allow, deny)
        } by {
            if k < prev.len() {
                assert(cur[k] == prev[k]);
            }
        }
        assert forall|j: int| 0 <= j < n && selected(peers[j].label@, allow, deny)
            implies cur.contains(j as usize) by {
            if j < n - 1 {
                let k = choose|k: int| 0 <= k < prev.len() && prev[k] == j as usize;
                assert(cur[k] == prev[k]);
            } else {
                assert(cur[cur.len() - 1] == j as usize);
            }
        }
    }
}

proof fn lemma_selected_tests_pass(tests: Seq<Test>, allow: Seq<Seq<char>>, deny: Seq<Seq<char>>)
    ensures
        forall|k: int| 0 <= k < selected_tests(tests, allow, deny).len()
            ==> selected(test_label(#[trigger] selected_tests(tests, allow, deny)[k]), allow, deny),
    decreases tests.len(),
{
    if tests.len() > 0 {
        lemma_selected_tests_pass(tests.drop_last(), allow, deny);
        let prev = selected_tests(tests.drop_last(), allow, deny);
        let cur = selected_tests(tests, allow, deny);
        assert forall|k: int| 0 <= k < cur.len() implies selected(test_label(#[trigger] cur[k]), allow, deny) by {
            if k < prev.len() {
                assert(cur[k] == prev[k]);
            }
        }
    }
}

/// Filtering: with the peer allow list `["local"]`, the peers run are
/// exactly those labelled "local" that are not denied, whatever the
/// table; with "h3" among the denied scenarios, the HTTP/3 scenario is
/// never run.
pub proof fn lemma_filters(
    peers: Seq<Peer>,
    allow: Seq<Seq<char>>,
    deny: Seq<Seq<char>>,
    allow_tests: Seq<Seq<char>>,
    deny_tests: Seq<Seq<char>>,
)
    requires
        peers.len() <= usize::MAX,
    ensures
        allow == seq!["local"@] ==> {
            &&& forall|k: int| 0 <= k < selected_peers(peers, allow, deny, peers.len()).len()
                ==> peers[selected_peers(peers, allow, deny, peers.len())[k] as int].label@ == "local"@
            &&& forall|j: int| 0 <= j < peers.len() && peers[j].label@ == "local"@ && !deny.contains("local"@)
                ==> selected_peers(peers, allow, deny, peers.len()).contains(j as usize)
        },
        deny_tests.contains("h3"@) ==> !selected_tests(all_tests(), allow_tests, deny_tests).contains(Test::H3),
{
    lemma_selected_peers_pass(peers, allow, deny, peers.len());
    lemma_selected_tests_pass(all_tests(), allow_tests, deny_tests);
    if allow == seq!["local"@] {
        assert forall|j: int| 0 <= j < peers.len() && peers[j].label@ == "local"@ && !deny.contains("local"@)
            implies selected(peers[j].label@, allow, deny) by {
            assert(allow[0] == "local"@);
        }
        assert forall|k: int| 0 <= k < selected_peers(peers, allow, deny, peers.len()).len()
            implies peers[selected_peers(peers, allow, deny, peers.len())[k] as int].label@ == "local"@ by {
            let j = selected_peers(peers, allow, deny, peers.len())[k] as int;
            assert(allow.contains(peers[j].label@));
        }
    }
    if deny_tests.contains("h3"@) {
        let sel = selected_tests(all_tests(), allow_tests, deny_tests);
        if sel.contains(Test::H3) {
            let k = choose|k: int| 0 <= k < sel.len() && sel[k] == Test::H3;
            assert(selected(test_label(sel[k]), allow_tests, deny_tests));
        }
    }
}

} // verus!
