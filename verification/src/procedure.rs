//! The staged procedure a motion passes through, and its per-stage vote
//! accounting.
//!
//! A motion is developed in the open until an absolute majority of its
//! developers votes to propose it. It is then frozen for public debate
//! until a fixed deadline. After the deadline, a random sample of the
//! electorate acts as a filter: an absolute majority of the sample must
//! approve the motion for it to reach the general vote. The motion finally
//! carries when more electors vote for it than against it; an even split is
//! not a plurality, so ties reject.
//!
//! Each stage is a distinct type, so only the operations of the current
//! stage are callable. Advancing consumes the old stage value; a failed
//! advance hands the caller's value back unchanged, so nothing is lost by
//! retrying.

use vstd::prelude::*;
use vstd::set_lib::lemma_len_subset;
use crate::motion::Motion;
use crate::person::{contains_id, PersonId};
use crate::ratio::{scaled_count, Ratio, PETITIONER_RATIO_DEN, PETITIONER_RATIO_NUM};
use crate::sampling::sample_indices;
use crate::time::{compute_deadline, deadline_after, now_millis, Timestamp};

verus! {

broadcast use vstd::seq_lib::seq_to_set_is_finite;

/// Supertrait that keeps the set of stage types closed: only this module
/// implements it.
pub trait Sealed {}

/// Typestate for the electoral procedure; exactly the four stage payload
/// types implement it.
pub trait ProcedureStage: Sealed {}

/// Development until a majority of the developers votes to propose the
/// motion. The minimum number of votes to propose is the number of
/// developers / 2 + 1.
pub struct Prototype {
    /// all voters are developers, listed in the motion
    pub have_voted: Vec<PersonId>,
    pub proposal_votes: u64,
}

/// Development is frozen and the motion is under public debate until the
/// recorded date is reached.
pub struct Proposal {
    pub end_date: Timestamp,
}

/// The motion is shown to a limited random subset of the electorate for
/// approval; they alone vote in this stage, and a majority of the sample
/// sends the motion to the general vote.
pub struct Petition {
    pub voter_ids: Vec<PersonId>,
    pub have_voted: Vec<PersonId>,
    pub approval_votes: u64,
}

/// The general vote: the motion is carried when there are more votes for
/// than votes against.
pub struct Referendum {
    pub have_voted: Vec<PersonId>,
    /// votes for adoption
    pub votes_for: u64,
    /// votes against adoption
    pub votes_against: u64,
}

impl Sealed for Prototype {}

impl Sealed for Proposal {}

impl Sealed for Petition {}

impl Sealed for Referendum {}

impl ProcedureStage for Prototype {}

impl ProcedureStage for Proposal {}

impl ProcedureStage for Petition {}

impl ProcedureStage for Referendum {}

/// An electoral procedure for passing a motion: one motion, owned by the
/// procedure, and exactly one current stage payload.
pub struct Procedure<St: ProcedureStage> {
    pub motion: Motion,
    pub stage: St,
}

/// A ledger of distinct voters drawn from a pool never outnumbers the pool:
/// while an unused eligible entry remains, the ledger is strictly shorter
/// than the pool, and recording that entry keeps the ledger distinct and
/// inside the pool.
proof fn lemma_ledger_grows(voted: Seq<PersonId>, pool: Seq<PersonId>, id: PersonId)
    requires
        voted.no_duplicates(),
        forall|i: int| 0 <= i < voted.len() ==> pool.contains(voted[i]),
        pool.contains(id),
        !voted.contains(id),
    ensures
        voted.len() < pool.len(),
        voted.push(id).no_duplicates(),
        forall|i: int| 0 <= i < voted.push(id).len() ==> pool.contains(voted.push(id)[i]),
{
    let grown = voted.push(id);
    assert forall|i: int, j: int|
        0 <= i < grown.len() && 0 <= j < grown.len() && i != j implies grown[i] != grown[j] by {
        if i < voted.len() && j < voted.len() {
            assert(grown[i] == voted[i] && grown[j] == voted[j]);
        } else if i == voted.len() {
            assert(grown[j] == voted[j]);
            if voted[j] == id {
                assert(voted.contains(id));
            }
        } else {
            assert(grown[i] == voted[i]);
            if voted[i] == id {
                assert(voted.contains(id));
            }
        }
    };
    assert forall|i: int| 0 <= i < grown.len() implies pool.contains(grown[i]) by {
        if i < voted.len() {
            assert(grown[i] == voted[i]);
        } else {
            assert(grown[i] == id);
        }
    };
    assert forall|x: PersonId| grown.to_set().contains(x) implies pool.to_set().contains(
        x,
    ) by {
        assert(grown.contains(x));
        let k = choose|k: int| 0 <= k < grown.len() && grown[k] == x;
        assert(pool.contains(grown[k]));
    };
    grown.unique_seq_to_set();
    pool.lemma_cardinality_of_set();
    lemma_len_subset(grown.to_set(), pool.to_set());
}

impl<St: ProcedureStage> Procedure<St> {
    /// The motion under decision, unchanged since the procedure began.
    pub fn motion(&self) -> (m: &Motion)
        ensures
            *m == self.motion,
    {
        &self.motion
    }
}

impl Procedure<Prototype> {
    /// The vote ledger is consistent: every recorded voter is a developer
    /// of the motion, nobody is recorded twice, and the running count
    /// equals the number recorded.
    pub open spec fn wf(self) -> bool {
        &&& self.stage.have_voted@.no_duplicates()
        &&& forall|i: int|
            0 <= i < self.stage.have_voted@.len() ==> self.motion.developers@.contains(
                self.stage.have_voted@[i],
            )
        &&& self.stage.proposal_votes == self.stage.have_voted@.len()
    }

    /// Whether `id` may still cast a proposal vote: a developer of the
    /// motion who has not voted in this stage.
    pub open spec fn eligible(self, id: PersonId) -> bool {
        self.motion.developers@.contains(id) && !self.stage.have_voted@.contains(id)
    }

    /// Starts the procedure on a motion, with an empty vote ledger.
    pub fn begin(motion: Motion) -> (p: Self)
        ensures
            p.wf(),
            p.motion == motion,
            p.stage.proposal_votes == 0,
            p.stage.have_voted@.len() == 0,
    {
        Self { motion, stage: Prototype { have_voted: Vec::new(), proposal_votes: 0 } }
    }

    pub fn proposal_votes(&self) -> (n: u64)
        ensures
            n == self.stage.proposal_votes,
    {
        self.stage.proposal_votes
    }

    /// Records a proposal vote. Succeeds and increments the count by
    /// exactly one iff `person_id` is a developer of the motion who has not
    /// already voted in this stage; otherwise it errors and changes
    /// nothing.
    pub fn register_proposal_vote(&mut self, person_id: PersonId) -> (r: Result<(), ()>)
        requires
            old(self).wf(),
        ensures
            final(self).wf(),
            final(self).motion == old(self).motion,
            r is Ok <==> old(self).eligible(person_id),
            r is Ok ==> final(self).stage.have_voted@ == old(self).stage.have_voted@.push(
                person_id,
            ) && final(self).stage.proposal_votes == old(self).stage.proposal_votes + 1,
            r is Err ==> *final(self) == *old(self),
    {
        let is_valid = contains_id(&self.motion.developers, person_id) && !contains_id(
            &self.stage.have_voted,
            person_id,
        );
        if is_valid {
            // the developer list's length bounds the ledger, so the count
            // stays below u64::MAX
            let _pool_len: usize = self.motion.developers.len();
            proof {
                lemma_ledger_grows(
                    self.stage.have_voted@,
                    self.motion.developers@,
                    person_id,
                );
            }
            self.stage.proposal_votes = self.stage.proposal_votes + 1;
            self.stage.have_voted.push(person_id);
            Ok(())
        } else {
            Err(())
        }
    }

    /// Advances to the Proposal stage iff the votes cast strictly exceed
    /// half the developer count, rounded down: an absolute majority, so
    /// ties always fail, and a motion with no developers can never advance.
    /// On success the debate deadline is fixed `prop_time_ms` milliseconds
    /// after `now` and the ledger is discarded; on failure the procedure is
    /// handed back unchanged.
    pub fn into_proposal_at(self, now: Timestamp, prop_time_ms: u64) -> (r: Result<
        Procedure<Proposal>,
        Self,
    >)
        ensures
            r is Ok <==> self.stage.proposal_votes > self.motion.developers@.len() as int / 2,
            r matches Ok(p) ==> p.motion == self.motion && p.stage.end_date == deadline_after(
                now,
                prop_time_ms,
            ),
            r matches Err(q) ==> q == self,
    {
        let half: u64 = (self.motion.developers.len() as u64) / 2;
        if self.stage.proposal_votes > half {
            Ok(
                Procedure {
                    motion: self.motion,
                    stage: Proposal { end_date: compute_deadline(now, prop_time_ms) },
                },
            )
        } else {
            Err(self)
        }
    }

    /// Reads the clock and advances as `into_proposal_at` does, with the
    /// deadline set `prop_time_ms` milliseconds from the current time.
    pub fn into_proposal(self, prop_time_ms: u64) -> (r: Result<Procedure<Proposal>, Self>)
        ensures
            r is Ok <==> self.stage.proposal_votes > self.motion.developers@.len() as int / 2,
            r matches Ok(p) ==> p.motion == self.motion,
            r matches Err(q) ==> q == self,
    {
        let now = now_millis();
        self.into_proposal_at(now, prop_time_ms)
    }
}

impl Procedure<Proposal> {
    /// The fixed end of the debate period.
    pub fn end_date(&self) -> (d: Timestamp)
        ensures
            d == self.stage.end_date,
    {
        self.stage.end_date
    }

    /// Advances to the Petition stage iff `now` has reached the debate
    /// deadline; any earlier instant fails, however close, and the
    /// procedure is handed back unchanged. On success a sample of
    /// `ratio` times the electorate, rounded to the nearest count, is
    /// drawn from the motion's electors without replacement, and the
    /// approval ledger starts empty, scoped to exactly that sample.
    pub fn into_petition_at(self, now: Timestamp, ratio: Ratio) -> (r: Result<
        Procedure<Petition>,
        Self,
    >)
        requires
            ratio.wf(),
        ensures
            r is Ok <==> self.stage.end_date <= now,
            r matches Ok(p) ==> {
                &&& p.motion == self.motion
                &&& p.wf()
                &&& p.stage.approval_votes == 0
                &&& p.stage.have_voted@.len() == 0
                &&& p.stage.voter_ids@.len() == scaled_count(
                    self.motion.electors@.len() as int,
                    ratio.num as int,
                    ratio.den as int,
                )
                &&& forall|i: int|
                    0 <= i < p.stage.voter_ids@.len() ==> self.motion.electors@.contains(
                        p.stage.voter_ids@[i],
                    )
                &&& self.motion.electors@.no_duplicates()
                    ==> p.stage.voter_ids@.no_duplicates()
            },
            r matches Err(q) ==> q == self,
    {
        if self.stage.end_date <= now {
            let elector_len: usize = self.motion.electors.len();
            let want: usize = ratio.scale(elector_len);
            let picks = sample_indices(elector_len, want);
            let mut voter_ids: Vec<PersonId> = Vec::new();
            let mut i: usize = 0;
            while i < picks.len()
                invariant
                    i <= picks@.len(),
                    voter_ids@.len() == i,
                    elector_len == self.motion.electors@.len(),
                    picks@.no_duplicates(),
                    forall|j: int| 0 <= j < picks@.len() ==> picks@[j] < elector_len,
                    forall|j: int|
                        0 <= j < i ==> voter_ids@[j] == self.motion.electors@[picks@[j] as int],
                decreases picks@.len() - i,
            {
                let idx: usize = picks[i];
                let chosen: PersonId = self.motion.electors[idx];
                voter_ids.push(chosen);
                i = i + 1;
            }
            proof {
                assert forall|j: int|
                    0 <= j < voter_ids@.len() implies self.motion.electors@.contains(
                    voter_ids@[j],
                ) by {
                    assert(voter_ids@[j] == self.motion.electors@[picks@[j] as int]);
                };
                if self.motion.electors@.no_duplicates() {
                    assert forall|j: int, k: int|
                        0 <= j < voter_ids@.len() && 0 <= k < voter_ids@.len() && j
                        != k implies voter_ids@[j] != voter_ids@[k] by {
                        assert(picks@[j] != picks@[k]);
                        assert(self.motion.electors@[picks@[j] as int]
                            != self.motion.electors@[picks@[k] as int]);
                    };
                }
            }
            Ok(
                Procedure {
                    motion: self.motion,
                    stage: Petition { voter_ids, have_voted: Vec::new(), approval_votes: 0 },
                },
            )
        } else {
            Err(self)
        }
    }

    /// Reads the clock and advances as `into_petition_at` does, drawing the
    /// default share of the electorate.
    pub fn into_petition(self) -> (r: Result<Procedure<Petition>, Self>)
        ensures
            r matches Ok(p) ==> {
                &&& p.motion == self.motion
                &&& p.wf()
                &&& p.stage.approval_votes == 0
                &&& p.stage.have_voted@.len() == 0
                &&& p.stage.voter_ids@.len() == scaled_count(
                    self.motion.electors@.len() as int,
                    PETITIONER_RATIO_NUM as int,
                    PETITIONER_RATIO_DEN as int,
                )
                &&& forall|i: int|
                    0 <= i < p.stage.voter_ids@.len() ==> self.motion.electors@.contains(
                        p.stage.voter_ids@[i],
                    )
                &&& self.motion.electors@.no_duplicates()
                    ==> p.stage.voter_ids@.no_duplicates()
            },
            r matches Err(q) ==> q == self,
    {
        let now = now_millis();
        self.into_petition_at(now, Ratio::new(PETITIONER_RATIO_NUM, PETITIONER_RATIO_DEN))
    }
}

impl Procedure<Petition> {
    /// The approval ledger is consistent: every recorded voter belongs to
    /// the sampled subset, nobody is recorded twice, and the running count
    /// equals the number recorded.
    pub open spec fn wf(self) -> bool {
        &&& self.stage.have_voted@.no_duplicates()
        &&& forall|i: int|
            0 <= i < self.stage.have_voted@.len() ==> self.stage.voter_ids@.contains(
                self.stage.have_voted@[i],
            )
        &&& self.stage.approval_votes == self.stage.have_voted@.len()
    }

    /// Whether `id` may still cast an approval vote: a member of the
    /// sampled subset who has not voted in this stage.
    pub open spec fn eligible(self, id: PersonId) -> bool {
        self.stage.voter_ids@.contains(id) && !self.stage.have_voted@.contains(id)
    }

    pub fn votes_for(&self) -> (n: u64)
        ensures
            n == self.stage.approval_votes,
    {
        self.stage.approval_votes
    }

    /// The fixed sampled subset eligible to vote in this stage.
    pub fn voter_ids(&self) -> (r: &[PersonId])
        ensures
            r@ == self.stage.voter_ids@,
    {
        self.stage.voter_ids.as_slice()
    }

    /// Records an approval vote. Succeeds and increments the count by
    /// exactly one iff `person_id` is in the sampled subset and has not
    /// already voted in this stage; otherwise it errors and changes
    /// nothing.
    pub fn register_approval_vote(&mut self, person_id: PersonId) -> (r: Result<(), ()>)
        requires
            old(self).wf(),
        ensures
            final(self).wf(),
            final(self).motion == old(self).motion,
            final(self).stage.voter_ids == old(self).stage.voter_ids,
            r is Ok <==> old(self).eligible(person_id),
            r is Ok ==> final(self).stage.have_voted@ == old(self).stage.have_voted@.push(
                person_id,
            ) && final(self).stage.approval_votes == old(self).stage.approval_votes + 1,
            r is Err ==> *final(self) == *old(self),
    {
        let is_valid = contains_id(&self.stage.voter_ids, person_id) && !contains_id(
            &self.stage.have_voted,
            person_id,
        );
        if is_valid {
            // the sample's length bounds the ledger, so the count stays
            // below u64::MAX
            let _pool_len: usize = self.stage.voter_ids.len();
            proof {
                lemma_ledger_grows(
                    self.stage.have_voted@,
                    self.stage.voter_ids@,
                    person_id,
                );
            }
            self.stage.approval_votes = self.stage.approval_votes + 1;
            self.stage.have_voted.push(person_id);
            Ok(())
        } else {
            Err(())
        }
    }

    /// Advances to the Referendum stage iff the approvals strictly exceed
    /// half the sample size, rounded down; ties fail. On success the
    /// for/against ledger starts empty, scoped to the full electorate; on
    /// failure the procedure is handed back unchanged.
    pub fn into_referendum(self) -> (r: Result<Procedure<Referendum>, Self>)
        ensures
            r is Ok <==> self.stage.approval_votes > self.stage.voter_ids@.len() as int / 2,
            r matches Ok(p) ==> p.motion == self.motion && p.wf() && p.stage.votes_for == 0
                && p.stage.votes_against == 0 && p.stage.have_voted@.len() == 0,
            r matches Err(q) ==> q == self,
    {
        let half: u64 = (self.stage.voter_ids.len() as u64) / 2;
        if self.stage.approval_votes > half {
            Ok(
                Procedure {
                    motion: self.motion,
                    stage: Referendum {
                        have_voted: Vec::new(),
                        votes_for: 0,
                        votes_against: 0,
                    },
                },
            )
        } else {
            Err(self)
        }
    }
}

impl Procedure<Referendum> {
    /// The ballot ledger is consistent: every recorded voter is an elector
    /// of the motion, nobody is recorded twice, and the two running counts
    /// together equal the number recorded.
    pub open spec fn wf(self) -> bool {
        &&& self.stage.have_voted@.no_duplicates()
        &&& forall|i: int|
            0 <= i < self.stage.have_voted@.len() ==> self.motion.electors@.contains(
                self.stage.have_voted@[i],
            )
        &&& self.stage.votes_for + self.stage.votes_against == self.stage.have_voted@.len()
    }

    /// Whether `id` may still cast a ballot: an elector of the motion who
    /// has voted neither for nor against in this stage.
    pub open spec fn eligible(self, id: PersonId) -> bool {
        self.motion.electors@.contains(id) && !self.stage.have_voted@.contains(id)
    }

    pub fn votes_for(&self) -> (n: u64)
        ensures
            n == self.stage.votes_for,
    {
        self.stage.votes_for
    }

    pub fn votes_against(&self) -> (n: u64)
        ensures
            n == self.stage.votes_against,
    {
        self.stage.votes_against
    }

    /// Records a ballot for adoption. Succeeds and increments the for-count
    /// by exactly one iff `person_id` is an elector who has not already
    /// voted on either side in this stage; otherwise it errors and changes
    /// nothing.
    pub fn register_vote_for(&mut self, person_id: PersonId) -> (r: Result<(), ()>)
        requires
            old(self).wf(),
        ensures
            final(self).wf(),
            final(self).motion == old(self).motion,
            r is Ok <==> old(self).eligible(person_id),
            r is Ok ==> final(self).stage.have_voted@ == old(self).stage.have_voted@.push(
                person_id,
            ) && final(self).stage.votes_for == old(self).stage.votes_for + 1
                && final(self).stage.votes_against == old(self).stage.votes_against,
            r is Err ==> *final(self) == *old(self),
    {
        let is_valid = contains_id(&self.motion.electors, person_id) && !contains_id(
            &self.stage.have_voted,
            person_id,
        );
        if is_valid {
            // the electorate's length bounds the ledger, so the count stays
            // below u64::MAX
            let _pool_len: usize = self.motion.electors.len();
            proof {
                lemma_ledger_grows(self.stage.have_voted@, self.motion.electors@, person_id);
            }
            self.stage.votes_for = self.stage.votes_for + 1;
            self.stage.have_voted.push(person_id);
            Ok(())
        } else {
            Err(())
        }
    }

    /// Records a ballot against adoption. Succeeds and increments the
    /// against-count by exactly one iff `person_id` is an elector who has
    /// not already voted on either side in this stage; otherwise it errors
    /// and changes nothing.
    pub fn register_vote_against(&mut self, person_id: PersonId) -> (r: Result<(), ()>)
        requires
            old(self).wf(),
        ensures
            final(self).wf(),
            final(self).motion == old(self).motion,
            r is Ok <==> old(self).eligible(person_id),
            r is Ok ==> final(self).stage.have_voted@ == old(self).stage.have_voted@.push(
                person_id,
            ) && final(self).stage.votes_against == old(self).stage.votes_against + 1
                && final(self).stage.votes_for == old(self).stage.votes_for,
            r is Err ==> *final(self) == *old(self),
    {
        let is_valid = contains_id(&self.motion.electors, person_id) && !contains_id(
            &self.stage.have_voted,
            person_id,
        );
        if is_valid {
            // the electorate's length bounds the ledger, so the count stays
            // below u64::MAX
            let _pool_len: usize = self.motion.electors.len();
            proof {
                lemma_ledger_grows(self.stage.have_voted@, self.motion.electors@, person_id);
            }
            self.stage.votes_against = self.stage.votes_against + 1;
            self.stage.have_voted.push(person_id);
            Ok(())
        } else {
            Err(())
        }
    }

    /// The terminal decision: the motion passes iff the votes for strictly
    /// exceed the votes against. An even split is not a plurality, so ties
    /// reject, and the rejected procedure is handed back unchanged.
    pub fn pass(self) -> (r: Result<(), Self>)
        ensures
            r is Ok <==> self.stage.votes_for > self.stage.votes_against,
            r matches Err(q) ==> q == self,
    {
        if self.stage.votes_for > self.stage.votes_against {
            Ok(())
        } else {
            Err(self)
        }
    }
}

/// Once a proposal vote is recorded for an ID, that ID is no longer
/// eligible in the Prototype stage: a second registration by the same ID
/// must fail and leave the tally unchanged.
pub proof fn lemma_proposal_vote_only_once(
    pre: Procedure<Prototype>,
    post: Procedure<Prototype>,
    id: PersonId,
)
    requires
        post.stage.have_voted@ == pre.stage.have_voted@.push(id),
    ensures
        !post.eligible(id),
{
    assert(post.stage.have_voted@[pre.stage.have_voted@.len() as int] == id);
}

/// Once an approval vote is recorded for an ID, that ID is no longer
/// eligible in the Petition stage: a second registration by the same ID
/// must fail and leave the tally unchanged.
pub proof fn lemma_approval_vote_only_once(
    pre: Procedure<Petition>,
    post: Procedure<Petition>,
    id: PersonId,
)
    requires
        post.stage.have_voted@ == pre.stage.have_voted@.push(id),
    ensures
        !post.eligible(id),
{
    assert(post.stage.have_voted@[pre.stage.have_voted@.len() as int] == id);
}

/// Once a ballot is recorded for an ID, on either side, that ID is no
/// longer eligible in the Referendum stage: a person casts at most one vote
/// total, regardless of side.
pub proof fn lemma_referendum_vote_only_once(
    pre: Procedure<Referendum>,
    post: Procedure<Referendum>,
    id: PersonId,
)
    requires
        post.stage.have_voted@ == pre.stage.have_voted@.push(id),
    ensures
        !post.eligible(id),
{
    assert(post.stage.have_voted@[pre.stage.have_voted@.len() as int] == id);
}

} // verus!
