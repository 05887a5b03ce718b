//! The change detector: turns observed filesystem notifications into a
//! definitive "this represents a real content change" decision, updating the
//! ledger as it goes.

use vstd::prelude::*;
use crate::events::{ObservedEvent, PathObservation, spec_eligible, spec_relevant, relevant};
use crate::fingerprint::{fingerprint_of, fingerprint_text};
use crate::ledger::{ChangeLedger, LedgerError, spec_changed};
use crate::paths::{TrackedPath, join_segments, path_is_eligible};

verus! {

/// The ledger key and the fingerprint that an observation stands for.
pub open spec fn obs_key(obs: PathObservation) -> Seq<char> {
    join_segments(obs.path@)
}

/// The fingerprint of an observation's content.
pub open spec fn obs_fingerprint(obs: PathObservation) -> Seq<char> {
    fingerprint_of(obs.content->0@)
}

/// Whether an observation, held against the given ledger rows, represents a
/// genuine content change: the path is eligible, its content was readable,
/// and its fingerprint is new to the ledger or differs from the stored one.
pub open spec fn spec_real_change(
    rows: Map<Seq<char>, Seq<char>>,
    obs: PathObservation,
) -> bool {
    &&& spec_eligible(obs)
    &&& obs.content is Some
    &&& spec_changed(rows, obs_key(obs), obs_fingerprint(obs))
}

/// Serves a directory and owns the ledger that decides when a genuine
/// content change has happened under it.
pub struct DirServer {
    pub ledger: ChangeLedger,
}

impl DirServer {
    /// A server with a fresh, empty ledger.
    pub fn new() -> (r: Result<DirServer, LedgerError>)
        ensures
            r matches Ok(ds) ==> ds.ledger@ == Map::<Seq<char>, Seq<char>>::empty(),
    {
        match ChangeLedger::new() {
            Ok(ledger) => Ok(DirServer { ledger }),
            Err(e) => Err(e),
        }
    }

    /// Decides whether an observed path is eligible for change tracking.
    pub fn check_path(&self, obs: &PathObservation) -> (r: bool)
        ensures
            r == spec_eligible(*obs),
    {
        path_is_eligible(&obs.path, obs.is_file)
    }

    /// Computes the fingerprint of a file's text.
    pub fn hash_file(&self, content: &str) -> (r: String)
        ensures
            r@ == fingerprint_of(content@),
            r@.len() == 64,
    {
        fingerprint_text(content)
    }

    /// Holds one observation against the ledger. An ineligible or unreadable
    /// path is skipped, as is one whose ledger access failed; in every such
    /// case nothing is returned and the ledger is unchanged. A path is
    /// returned exactly when it was eligible, readable, and its fingerprint
    /// amounted to a genuine change, in which case the ledger now maps it to
    /// that fingerprint.
    pub fn detect_change(&mut self, obs: &PathObservation) -> (r: Option<TrackedPath>)
        ensures
            r is None ==> final(self).ledger@ == old(self).ledger@,
            r matches Some(p) ==> ({
                &&& spec_real_change(old(self).ledger@, *obs)
                &&& p@ == obs.path@
                &&& final(self).ledger@ == old(self).ledger@.insert(
                    obs_key(*obs),
                    obs_fingerprint(*obs),
                )
            }),
            !spec_eligible(*obs) ==> r is None,
            obs.content is None ==> r is None,
            (spec_eligible(*obs) && obs.content is Some && !spec_changed(
                old(self).ledger@,
                obs_key(*obs),
                obs_fingerprint(*obs),
            )) ==> r is None,
    {
        if !self.check_path(obs) {
            return None;
        }
        let content = match &obs.content {
            Some(c) => c,
            None => {
                return None;
            },
        };
        let fp = self.hash_file(content.as_str());
        let key = obs.path.display();
        match self.ledger.record_update(key.as_str(), fp.as_str()) {
            Ok(true) => Some(obs.path.clone()),
            Ok(false) => {
                proof {
                    assert(old(self).ledger@.insert(obs_key(*obs), obs_fingerprint(*obs))
                        =~= old(self).ledger@);
                }
                None
            },
            Err(_) => None,
        }
    }

    /// Establishes the baseline: records the fingerprint of every eligible,
    /// readable entry that the ledger does not know yet. Entries the ledger
    /// already holds keep their stored fingerprint; unreadable or failing
    /// entries are skipped, and a single bad entry never aborts the scan.
    pub fn load_files(&mut self, entries: &Vec<PathObservation>) -> (r: Result<(), LedgerError>)
        ensures
            r is Ok,
            forall|k: Seq<char>| #[trigger] old(self).ledger@.contains_key(k)
                ==> final(self).ledger@.contains_key(k) && final(self).ledger@[k]
                == old(self).ledger@[k],
            forall|k: Seq<char>| #[trigger] final(self).ledger@.contains_key(k)
                ==> old(self).ledger@.contains_key(k) || (exists|i: int|
                    0 <= i < entries@.len() && spec_eligible(#[trigger] entries@[i])
                    && entries@[i].content is Some && obs_key(entries@[i]) == k
                    && final(self).ledger@[k] == obs_fingerprint(entries@[i])),
    {
        let n = entries.len();
        let mut idx: usize = 0;
        while idx < n
            invariant
                n == entries@.len(),
                idx <= n,
                forall|k: Seq<char>| #[trigger] old(self).ledger@.contains_key(k)
                    ==> self.ledger@.contains_key(k) && self.ledger@[k]
                    == old(self).ledger@[k],
                forall|k: Seq<char>| #[trigger] self.ledger@.contains_key(k)
                    ==> old(self).ledger@.contains_key(k) || (exists|i: int|
                        0 <= i < idx && spec_eligible(#[trigger] entries@[i])
                        && entries@[i].content is Some && obs_key(entries@[i]) == k
                        && self.ledger@[k] == obs_fingerprint(entries@[i])),
            decreases n - idx,
        {
            let ghost pre = self.ledger@;
            let obs = &entries[idx];
            if self.check_path(obs) {
                match &obs.content {
                    Some(content) => {
                        let fp = self.hash_file(content.as_str());
                        let key = obs.path.display();
                        match self.ledger.record_initial(key.as_str(), fp.as_str()) {
                            Ok(()) => {},
                            Err(_) => {},
                        }
                        proof {
                            let post = self.ledger@;
                            let e = entries@[idx as int];
                            assert forall|k: Seq<char>| #[trigger] post.contains_key(k) implies
                                old(self).ledger@.contains_key(k) || (exists|i: int|
                                0 <= i < idx + 1 && spec_eligible(#[trigger] entries@[i])
                                    && entries@[i].content is Some && obs_key(entries@[i]) == k
                                    && post[k] == obs_fingerprint(entries@[i])) by {
                                if pre.contains_key(k) {
                                    assert(post[k] == pre[k]);
                                } else {
                                    assert(k == obs_key(e));
                                    assert(post[k] == obs_fingerprint(e));
                                    assert(spec_eligible(e) && e.content is Some);
                                }
                            }
                        }
                    },
                    None => {},
                }
            }
            idx += 1;
        }
        Ok(())
    }

    /// Processes one coalesced batch, in batch order: for each relevant
    /// event, each of its observations is held against the ledger, and the
    /// first genuine content change wins — that path is returned and the
    /// ledger now maps it to its new fingerprint. When no observation yields
    /// a change, nothing is returned and the ledger is unchanged; ineligible
    /// paths are never returned.
    pub fn process_event(&mut self, events: &Vec<ObservedEvent>) -> (r: Option<TrackedPath>)
        ensures
            r is None ==> final(self).ledger@ == old(self).ledger@,
            r matches Some(p) ==> (exists|i: int, j: int|
                0 <= i < events@.len() && 0 <= j < events@[i].observations@.len()
                && spec_relevant(events@[i].kind) && spec_real_change(
                    old(self).ledger@,
                    #[trigger] events@[i].observations@[j],
                ) && p@ == events@[i].observations@[j].path@ && final(self).ledger@ == old(
                    self,
                ).ledger@.insert(
                    obs_key(events@[i].observations@[j]),
                    obs_fingerprint(events@[i].observations@[j]),
                )),
    {
        let n = events.len();
        let mut i: usize = 0;
        while i < n
            invariant
                n == events@.len(),
                i <= n,
                self.ledger@ == old(self).ledger@,
            decreases n - i,
        {
            let event = &events[i];
            if relevant(event.kind) {
                let m = event.observations.len();
                let mut j: usize = 0;
                while j < m
                    invariant
                        n == events@.len(),
                        i < n,
                        *event == events@[i as int],
                        m == event.observations@.len(),
                        j <= m,
                        spec_relevant(event.kind),
                        self.ledger@ == old(self).ledger@,
                    decreases m - j,
                {
                    match self.detect_change(&event.observations[j]) {
                        Some(p) => {
                            proof {
                                let wi = i as int;
                                let wj = j as int;
                                assert(0 <= wi < events@.len() && 0 <= wj < events@[
                                    wi
                                ].observations@.len() && spec_relevant(events@[wi].kind)
                                    && spec_real_change(
                                    old(self).ledger@,
                                    events@[wi].observations@[wj],
                                ) && p@ == events@[wi].observations@[wj].path@
                                    && self.ledger@ == old(self).ledger@.insert(
                                    obs_key(events@[wi].observations@[wj]),
                                    obs_fingerprint(events@[wi].observations@[wj]),
                                ));
                            }
                            return Some(p);
                        },
                        None => {},
                    }
                    j += 1;
                }
            }
            i += 1;
        }
        None
    }
}

/// Idempotence of the baseline: a ledger that already holds a path's current
/// fingerprint sees no genuine change in an observation of that unmodified
/// content, so the detector reports nothing for it.
pub proof fn lemma_baseline_idempotent(
    rows: Map<Seq<char>, Seq<char>>,
    obs: PathObservation,
)
    requires
        rows.contains_key(obs_key(obs)),
        obs.content is Some,
        rows[obs_key(obs)] == obs_fingerprint(obs),
    ensures
        !spec_real_change(rows, obs),
{
}

/// Exclusion correctness: an observation of a path with a hidden segment, or
/// whose file name carries the backup marker, never represents a genuine
/// change, whatever the ledger holds and whatever the content — so the
/// detector, which only ever returns a genuine change, never returns it.
pub proof fn lemma_excluded_never_reported(
    rows: Map<Seq<char>, Seq<char>>,
    obs: PathObservation,
)
    requires
        (exists|i: int|
            0 <= i < obs.path@.len() && crate::paths::is_hidden_segment(#[trigger] obs.path@[i]))
            || (obs.path@.len() > 0 && crate::paths::is_backup_name(
            obs.path@[obs.path@.len() - 1],
        )),
    ensures
        !spec_real_change(rows, obs),
{
}

/// Detection correctness: new content whose fingerprint differs from the
/// stored one is a genuine change, and once the ledger has been updated to
/// it, delivering the same content again is no change.
pub proof fn lemma_change_once(
    rows: Map<Seq<char>, Seq<char>>,
    obs: PathObservation,
)
    requires
        spec_eligible(obs),
        obs.content is Some,
        rows.contains_key(obs_key(obs)),
        rows[obs_key(obs)] != obs_fingerprint(obs),
    ensures
        spec_real_change(rows, obs),
        !spec_real_change(rows.insert(obs_key(obs), obs_fingerprint(obs)), obs),
{
}

} // verus!
