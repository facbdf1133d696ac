use vstd::prelude::*;
use vstd::string::StringExecFns;
use crate::identity::Identity;
use crate::refnames::{push_refspec, push_refspec_spec};
use crate::seeds::{join_url, url_joined};

verus! {

/// Result of trying one seed for one identity: exactly one classification
/// per attempt.
#[derive(Clone, Debug, PartialEq, Eq)]
pub enum FetchOutcome {
    /// The seed does not provide the identity — a classification, not a
    /// failure.
    NotFound,
    /// The identity was found and the local data is already current.
    UpToDate,
    /// New data for the identity was fetched from the seed.
    Updated,
    /// Transport or storage failed while talking to the seed; the message
    /// describes how.
    Failed(String),
}

/// `FetchOutcome` at the specification level.
pub enum OutcomeModel {
    NotFound,
    UpToDate,
    Updated,
    Failed(Seq<char>),
}

impl View for FetchOutcome {
    type V = OutcomeModel;

    open spec fn view(&self) -> OutcomeModel {
        match self {
            FetchOutcome::NotFound => OutcomeModel::NotFound,
            FetchOutcome::UpToDate => OutcomeModel::UpToDate,
            FetchOutcome::Updated => OutcomeModel::Updated,
            FetchOutcome::Failed(msg) => OutcomeModel::Failed(msg@),
        }
    }
}

/// How one whole fetch cycle ended.
#[derive(Clone, Debug, PartialEq, Eq)]
pub enum FetchConclusion {
    /// A seed gave a definitive answer (or every seed reported not-found,
    /// with `seed` empty): `changed` says whether anything new arrived, and
    /// `seed` names the endpoint to remember as serving the identity.
    Done { changed: bool, seed: Option<String> },
    /// No seed was definitive and at least one attempt failed: the
    /// collected per-seed failures.
    Failed { errors: Vec<String> },
}

/// `FetchConclusion` at the specification level.
pub enum ConclusionModel {
    Done { changed: bool, seed: Option<Seq<char>> },
    Failed { errors: Seq<Seq<char>> },
}

impl View for FetchConclusion {
    type V = ConclusionModel;

    open spec fn view(&self) -> ConclusionModel {
        match self {
            FetchConclusion::Done { changed, seed } => ConclusionModel::Done {
                changed: *changed,
                seed: match seed {
                    Some(s) => Some(s@),
                    None => None,
                },
            },
            FetchConclusion::Failed { errors } => ConclusionModel::Failed {
                errors: errors.deep_view(),
            },
        }
    }
}

/// One fetch cycle's bookkeeping at the specification level.
pub struct SessionModel {
    pub candidates: Seq<Seq<char>>,
    pub next_index: int,
    pub errors: Seq<Seq<char>>,
}

/// The candidate list a cycle starts from: the cached seed first when one
/// is known, then the full configured list in configured order — so a stale
/// cache entry never keeps the configured seeds from being tried.
pub open spec fn init_model(cached: Option<Seq<char>>, seeds: Seq<Seq<char>>) -> SessionModel {
    SessionModel {
        candidates: match cached {
            Some(c) => seq![c] + seeds,
            None => seeds,
        },
        next_index: 0,
        errors: Seq::empty(),
    }
}

/// The note collected when a seed attempt fails.
pub open spec fn seed_failure_note_spec(seed: Seq<char>, message: Seq<char>) -> Seq<char> {
    "failed to fetch project from seed "@ + seed + ": "@ + message
}

/// How the cycle advances when the attempt against the current candidate
/// comes back: a definitive answer concludes at once with that seed to be
/// cached; not-found moves on; a failure is collected and moves on.
pub open spec fn step_model(m: SessionModel, outcome: OutcomeModel) -> (SessionModel, Option<
    ConclusionModel,
>) {
    let seed = m.candidates[m.next_index];
    match outcome {
        OutcomeModel::UpToDate => (
            m,
            Some(ConclusionModel::Done { changed: false, seed: Some(seed) }),
        ),
        OutcomeModel::Updated => (
            m,
            Some(ConclusionModel::Done { changed: true, seed: Some(seed) }),
        ),
        OutcomeModel::NotFound => (
            SessionModel {
                candidates: m.candidates,
                next_index: m.next_index + 1,
                errors: m.errors,
            },
            None,
        ),
        OutcomeModel::Failed(message) => (
            SessionModel {
                candidates: m.candidates,
                next_index: m.next_index + 1,
                errors: m.errors.push(seed_failure_note_spec(seed, message)),
            },
            None,
        ),
    }
}

/// How a cycle that exhausted its candidates ends: no change when every
/// attempt was a plain not-found, else the aggregated failures.
pub open spec fn finish_model(m: SessionModel) -> ConclusionModel {
    if m.errors.len() == 0 {
        ConclusionModel::Done { changed: false, seed: None }
    } else {
        ConclusionModel::Failed { errors: m.errors }
    }
}

pub fn seed_failure_note(seed: &str, message: &str) -> (r: String)
    ensures
        r@ == seed_failure_note_spec(seed@, message@),
{
    let mut s = String::from_str("failed to fetch project from seed ");
    s.append(seed);
    s.append(": ");
    s.append(message);
    s
}

fn clone_strings(v: &Vec<String>) -> (r: Vec<String>)
    ensures
        r@ == v@,
{
    let mut r: Vec<String> = Vec::new();
    let mut i: usize = 0;
    while i < v.len()
        invariant
            i <= v@.len(),
            r@ == v@.subrange(0, i as int),
        decreases v@.len() - i,
    {
        r.push(v[i].clone());
        proof {
            assert(r@ =~= v@.subrange(0, i + 1 as int));
        }
        i = i + 1;
    }
    proof {
        assert(v@.subrange(0, v@.len() as int) =~= v@);
    }
    r
}

/// One multi-seed fetch cycle for one identity.
///
/// The caller asks [`Self::next_seed`] which endpoint to try, performs the
/// attempt, and reports its classification through [`Self::record`]; a
/// definitive answer concludes the cycle at once, and a cycle that runs out
/// of candidates is concluded by [`Self::finish`]. The whole walk is pinned
/// to [`step_model`] and [`finish_model`].
pub struct FetchSession {
    pub candidates: Vec<String>,
    pub next_index: usize,
    pub errors: Vec<String>,
}

impl View for FetchSession {
    type V = SessionModel;

    open spec fn view(&self) -> SessionModel {
        SessionModel {
            candidates: self.candidates.deep_view(),
            next_index: self.next_index as int,
            errors: self.errors.deep_view(),
        }
    }
}

impl FetchSession {
    /// Start a cycle: try the cached seed first when one is known, then
    /// every configured seed in configured order.
    pub fn new(cached: Option<String>, seeds: &Vec<String>) -> (s: FetchSession)
        ensures
            match cached {
                Some(c) => s@ == init_model(Some(c@), seeds.deep_view()),
                None => s@ == init_model(None, seeds.deep_view()),
            },
    {
        match cached {
            Some(c) => {
                let ghost cached_view = c@;
                let mut v: Vec<String> = Vec::new();
                v.push(c);
                let mut rest = clone_strings(seeds);
                v.append(&mut rest);
                let s = FetchSession { candidates: v, next_index: 0, errors: Vec::new() };
                proof {
                    assert(s.errors.deep_view() =~= Seq::<Seq<char>>::empty());
                    assert(s.candidates.deep_view() =~= seq![cached_view] + seeds.deep_view());
                }
                s
            },
            None => {
                let s = FetchSession {
                    candidates: clone_strings(seeds),
                    next_index: 0,
                    errors: Vec::new(),
                };
                proof {
                    assert(s.errors.deep_view() =~= Seq::<Seq<char>>::empty());
                    assert(s.candidates.deep_view() =~= seeds.deep_view());
                }
                s
            },
        }
    }

    /// The endpoint the cycle should try next, or nothing when every
    /// candidate has been consumed.
    pub fn next_seed(&self) -> (r: Option<String>)
        ensures
            self@.next_index < self@.candidates.len() ==> (r matches Some(s) && s@
                == self@.candidates[self@.next_index]),
            self@.next_index >= self@.candidates.len() ==> r is None,
    {
        if self.next_index < self.candidates.len() {
            Some(self.candidates[self.next_index].clone())
        } else {
            None
        }
    }

    /// Report how the attempt against the current candidate came back; the
    /// cycle advances exactly as [`step_model`] says, and a returned
    /// conclusion ends it — no later candidate is consulted.
    pub fn record(&mut self, outcome: FetchOutcome) -> (r: Option<FetchConclusion>)
        requires
            old(self)@.next_index < old(self)@.candidates.len(),
        ensures
            final(self)@ == step_model(old(self)@, outcome@).0,
            match r {
                Some(c) => step_model(old(self)@, outcome@).1 == Some(c@),
                None => step_model(old(self)@, outcome@).1 is None,
            },
    {
        match outcome {
            FetchOutcome::UpToDate => {
                let seed = self.candidates[self.next_index].clone();
                Some(FetchConclusion::Done { changed: false, seed: Some(seed) })
            },
            FetchOutcome::Updated => {
                let seed = self.candidates[self.next_index].clone();
                Some(FetchConclusion::Done { changed: true, seed: Some(seed) })
            },
            FetchOutcome::NotFound => {
                let total = self.candidates.len();
                assert(self.next_index < total);
                self.next_index = self.next_index + 1;
                None
            },
            FetchOutcome::Failed(message) => {
                let note = seed_failure_note(
                    self.candidates[self.next_index].as_str(),
                    message.as_str(),
                );
                self.errors.push(note);
                let total = self.candidates.len();
                assert(self.next_index < total);
                self.next_index = self.next_index + 1;
                proof {
                    assert(self.errors.deep_view() =~= old(self).errors.deep_view().push(
                        seed_failure_note_spec(
                            old(self)@.candidates[old(self)@.next_index],
                            message@,
                        ),
                    ));
                }
                None
            },
        }
    }

    /// Conclude a cycle in which no candidate was definitive: no change
    /// when every attempt was a plain not-found, else the collected
    /// failures.
    pub fn finish(self) -> (r: FetchConclusion)
        requires
            self@.next_index >= self@.candidates.len(),
        ensures
            r@ == finish_model(self@),
    {
        if self.errors.len() == 0 {
            proof {
                assert(self.errors.deep_view() =~= Seq::<Seq<char>>::empty());
            }
            FetchConclusion::Done { changed: false, seed: None }
        } else {
            FetchConclusion::Failed { errors: self.errors }
        }
    }
}

/// The transport's report when the advertised identity reference is not on
/// the seed: absence is a classification, not a failure.
pub open spec fn identity_absent_message() -> Seq<char> {
    "fatal: couldn't find remote ref refs/rad/id\n"@
}

/// Classify the attempt to fetch the identity document itself from a seed:
/// no error means the attempt goes on to the delegate and reference stage;
/// the store's ref-not-found report means the seed does not provide the
/// identity; any other error is a real failure, carried with its message.
pub fn classify_identity_fetch(fetch_error: Option<String>) -> (r: Option<FetchOutcome>)
    ensures
        match fetch_error {
            None => r is None,
            Some(msg) => if msg@ == identity_absent_message() {
                (r matches Some(o) && o@ == OutcomeModel::NotFound)
            } else {
                (r matches Some(o) && o@ == OutcomeModel::Failed(msg@))
            },
        },
{
    match fetch_error {
        None => None,
        Some(msg) => {
            let expected = String::from_str("fatal: couldn't find remote ref refs/rad/id\n");
            if msg == expected {
                Some(FetchOutcome::NotFound)
            } else {
                Some(FetchOutcome::Failed(msg))
            }
        },
    }
}

/// The transport transcript's marker that objects were actually uploaded:
/// its presence is the implementation-visible signal that the fetch
/// transferred something new. The bytes spell "POST git-upload-pack".
pub open spec fn upload_marker() -> Seq<u8> {
    seq![
        80u8, 79u8, 83u8, 84u8, 32u8, 103u8, 105u8, 116u8, 45u8, 117u8, 112u8, 108u8, 111u8,
        97u8, 100u8, 45u8, 112u8, 97u8, 99u8, 107u8,
    ]
}

/// The marker occurs in `transcript` starting at position `i`.
pub open spec fn marker_at(transcript: Seq<u8>, i: int) -> bool {
    &&& 0 <= i
    &&& i + upload_marker().len() <= transcript.len()
    &&& transcript.subrange(i, i + upload_marker().len() as int) == upload_marker()
}

pub open spec fn contains_upload_marker(transcript: Seq<u8>) -> bool {
    exists|i: int| marker_at(transcript, i)
}

fn upload_marker_bytes() -> (r: Vec<u8>)
    ensures
        r@ == upload_marker(),
{
    let mut v: Vec<u8> = Vec::new();
    v.push(80u8);
    v.push(79u8);
    v.push(83u8);
    v.push(84u8);
    v.push(32u8);
    v.push(103u8);
    v.push(105u8);
    v.push(116u8);
    v.push(45u8);
    v.push(117u8);
    v.push(112u8);
    v.push(108u8);
    v.push(111u8);
    v.push(97u8);
    v.push(100u8);
    v.push(45u8);
    v.push(112u8);
    v.push(97u8);
    v.push(99u8);
    v.push(107u8);
    proof {
        assert(v@ =~= upload_marker());
    }
    v
}

fn window_matches(hay: &Vec<u8>, at: usize, needle: &Vec<u8>) -> (r: bool)
    requires
        at + needle@.len() <= hay@.len(),
    ensures
        r == (hay@.subrange(at as int, at as int + needle@.len() as int) == needle@),
{
    let ghost window = hay@.subrange(at as int, at as int + needle@.len() as int);
    let hay_len = hay.len();
    let mut j: usize = 0;
    while j < needle.len()
        invariant
            at + needle@.len() <= hay@.len(),
            hay_len == hay@.len(),
            j <= needle@.len(),
            window == hay@.subrange(at as int, at as int + needle@.len() as int),
            forall|t: int| 0 <= t < j ==> window[t] == needle@[t],
        decreases needle@.len() - j,
    {
        if hay[at + j] != needle[j] {
            proof {
                assert(window[j as int] == hay@[at + j]);
                assert(window != needle@);
            }
            return false;
        }
        proof {
            assert(window[j as int] == hay@[at + j]);
        }
        j = j + 1;
    }
    proof {
        assert(window =~= needle@);
    }
    true
}

/// Decide `Updated` against `UpToDate` from the transport's transcript of
/// the batched reference fetch: new objects were transferred exactly when
/// the upload marker occurs in it.
pub fn classify_transfer(transcript: &Vec<u8>) -> (r: FetchOutcome)
    ensures
        r@ == (if contains_upload_marker(transcript@) {
            OutcomeModel::Updated
        } else {
            OutcomeModel::UpToDate
        }),
{
    let needle = upload_marker_bytes();
    if transcript.len() < needle.len() {
        proof {
            assert forall|i: int| !marker_at(transcript@, i) by {}
        }
        return FetchOutcome::UpToDate;
    }
    let last = transcript.len() - needle.len();
    let mut i: usize = 0;
    while i <= last
        invariant
            needle@ == upload_marker(),
            last + needle@.len() == transcript@.len(),
            last + needle@.len() <= usize::MAX,
            i <= last + 1,
            forall|t: int| 0 <= t < i ==> !marker_at(transcript@, t),
        decreases last + 1 - i,
    {
        if window_matches(transcript, i, &needle) {
            proof {
                assert(marker_at(transcript@, i as int));
            }
            return FetchOutcome::Updated;
        }
        proof {
            assert(!marker_at(transcript@, i as int));
        }
        i = i + 1;
    }
    proof {
        assert forall|t: int| !marker_at(transcript@, t) by {
            if 0 <= t <= last {
                assert(!marker_at(transcript@, t));
            }
        }
    }
    FetchOutcome::UpToDate
}

/// The runner's reaction to one cycle's conclusion: an update notification
/// is published exactly for a cycle that changed something; the identity is
/// re-enqueued either way, so the polling loop sustains itself.
pub fn should_publish(conclusion: &FetchConclusion) -> (r: bool)
    ensures
        r == (conclusion@ matches ConclusionModel::Done { changed: true, .. }),
{
    match conclusion {
        FetchConclusion::Done { changed, .. } => *changed,
        FetchConclusion::Failed { .. } => false,
    }
}

/// The per-project URL and refspec for publishing the event log to a seed.
pub struct PushPlan {
    pub url: String,
    pub refspec: String,
}

/// Plan the outbound, best-effort publication of this peer's event log to a
/// seed: the seed's base URL joined with the identity's canonical form, and
/// the atomic refspec that mirrors every log head of the identity's
/// namespace under this peer's name. Fails only where the base URL cannot
/// be joined.
pub fn plan_push_to_seed(seed_url: &str, identity: &Identity, this_peer_id: &str) -> (r: Option<
    PushPlan,
>)
    ensures
        match r {
            Some(p) => url_joined(seed_url@, identity@) == Some(p.url@) && p.refspec@
                == push_refspec_spec(identity@, this_peer_id@),
            None => url_joined(seed_url@, identity@) is None,
        },
{
    match join_url(seed_url, identity.encoded.as_str()) {
        Some(url) => Some(
            PushPlan { url, refspec: push_refspec(identity.encoded.as_str(), this_peer_id) },
        ),
        None => None,
    }
}

/// Keeps the peers whose canonical form differs from this node's own.
pub open spec fn tracked_peer_filter(own: Seq<char>) -> spec_fn(Seq<char>) -> bool {
    |p: Seq<char>| p != own
}

/// The peers to track for an identity: its declared remote-peer set minus
/// this node's own peer id, order kept. Marking them tracked, and reading
/// the set back, is the identity system's work; this is the decision of
/// which peers it is handed.
pub fn peers_to_track(remotes: &Vec<String>, this_peer_id: &str) -> (r: Vec<String>)
    ensures
        r.deep_view() == remotes.deep_view().filter(tracked_peer_filter(this_peer_id@)),
{
    let own: String = this_peer_id.to_owned();
    let ghost pred = tracked_peer_filter(this_peer_id@);
    let mut r: Vec<String> = Vec::new();
    let mut i: usize = 0;
    proof {
        assert(remotes.deep_view().subrange(0, 0) =~= Seq::<Seq<char>>::empty());
        assert(r.deep_view() =~= Seq::<Seq<char>>::empty().filter(pred));
    }
    while i < remotes.len()
        invariant
            i <= remotes@.len(),
            own@ == this_peer_id@,
            pred == tracked_peer_filter(this_peer_id@),
            r.deep_view() == remotes.deep_view().subrange(0, i as int).filter(pred),
        decreases remotes@.len() - i,
    {
        let ghost prefix = remotes.deep_view().subrange(0, i as int);
        let ghost grown = remotes.deep_view().subrange(0, i + 1 as int);
        let keep = !(remotes[i] == own);
        if keep {
            r.push(remotes[i].clone());
        }
        proof {
            assert(grown.drop_last() =~= prefix);
            assert(grown.last() == remotes.deep_view()[i as int]);
            assert(pred(grown.last()) == (grown.last() != this_peer_id@));
            assert(pred(grown.last()) == keep);
            reveal_with_fuel(Seq::filter, 2);
            if keep {
                assert(r.deep_view() =~= prefix.filter(pred).push(grown.last()));
                assert(grown.filter(pred) == grown.drop_last().filter(pred).push(grown.last()));
            } else {
                assert(grown.filter(pred) == grown.drop_last().filter(pred));
            }
            assert(r.deep_view() == grown.filter(pred));
        }
        i = i + 1;
    }
    proof {
        assert(remotes.deep_view().subrange(0, remotes@.len() as int) =~= remotes.deep_view());
    }
    r
}

/// The state after feeding a cycle `n` not-found answers in a row.
pub open spec fn feed_not_found(m: SessionModel, n: nat) -> SessionModel
    decreases n,
{
    if n == 0 {
        m
    } else {
        feed_not_found(step_model(m, OutcomeModel::NotFound).0, (n - 1) as nat)
    }
}

proof fn lemma_feed_not_found_shape(m: SessionModel, n: nat)
    ensures
        feed_not_found(m, n).candidates == m.candidates,
        feed_not_found(m, n).errors == m.errors,
        feed_not_found(m, n).next_index == m.next_index + n,
    decreases n,
{
    if n > 0 {
        lemma_feed_not_found_shape(step_model(m, OutcomeModel::NotFound).0, (n - 1) as nat);
    }
}

/// Law: a definitive answer short-circuits the cycle. For any two seeds
/// where the first reports not-found and the second reports updated, the
/// first report yields no conclusion and the second concludes the cycle at
/// once — changed, with the second seed the one to cache — while only the
/// first two candidates were ever consulted.
pub proof fn lemma_fetch_short_circuit(s1: Seq<char>, s2: Seq<char>)
    ensures
        ({
            let m0 = init_model(None, seq![s1, s2]);
            let first = step_model(m0, OutcomeModel::NotFound);
            let second = step_model(first.0, OutcomeModel::Updated);
            first.1 is None && second.1 == Some(
                ConclusionModel::Done { changed: true, seed: Some(s2) },
            ) && second.0.next_index == 1
        }),
{
    let m0 = init_model(None, seq![s1, s2]);
    assert(m0.candidates[1] == s2);
}

/// Law: when every configured seed reports not-found, the cycle concludes
/// "no change", with no failure collected and no seed cached.
pub proof fn lemma_fetch_all_not_found(seeds: Seq<Seq<char>>)
    ensures
        ({
            let end = feed_not_found(init_model(None, seeds), seeds.len());
            end.next_index == seeds.len() && finish_model(end) == ConclusionModel::Done {
                changed: false,
                seed: None,
            }
        }),
{
    lemma_feed_not_found_shape(init_model(None, seeds), seeds.len());
}

/// Law: once a seed is cached for an identity, the next cycle tries that
/// seed first, and keeps the configured list behind it as fallback: after a
/// transport failure on the cached seed the configured seeds are still to
/// be tried, so a stale cache entry never ends the cycle by itself.
pub proof fn lemma_cached_seed_tried_first(
    cached: Seq<char>,
    seeds: Seq<Seq<char>>,
    message: Seq<char>,
)
    ensures
        init_model(Some(cached), seeds).candidates == seq![cached] + seeds,
        init_model(Some(cached), seeds).candidates[0] == cached,
        init_model(Some(cached), seeds).next_index == 0,
        ({
            let after = step_model(
                init_model(Some(cached), seeds),
                OutcomeModel::Failed(message),
            ).0;
            after.next_index == 1 && after.candidates.len() == 1 + seeds.len() && forall|j: int|
                0 <= j < seeds.len() ==> after.candidates[1 + j] == seeds[j]
        }),
{
}

} // verus!
