//! Badge-weighted governance: each account votes once on a proposal with a
//! weight equal to the number of badges it holds, and a proposal whose
//! voting period has passed is executed when it has more votes for than
//! against.

use vstd::prelude::*;
use std::collections::HashMap;
use crate::access::{install_admin, opt_view};
use crate::address::Address;

verus! {

broadcast use vstd::std_specs::hash::group_hash_axioms;

/// A proposal and its running tally.
pub struct Proposal {
    pub id: u32,
    pub proposer: Address,
    pub metadata_hash: [u8; 32],
    pub votes_for: u32,
    pub votes_against: u32,
    pub end_time: u64,
    pub executed: bool,
}

/// A proposal with identities and the metadata hash taken as byte sequences.
pub struct ProposalView {
    pub id: u32,
    pub proposer: Seq<u8>,
    pub metadata_hash: Seq<u8>,
    pub votes_for: u32,
    pub votes_against: u32,
    pub end_time: u64,
    pub executed: bool,
}

impl View for Proposal {
    type V = ProposalView;

    open spec fn view(&self) -> ProposalView {
        ProposalView {
            id: self.id,
            proposer: self.proposer@,
            metadata_hash: self.metadata_hash@,
            votes_for: self.votes_for,
            votes_against: self.votes_against,
            end_time: self.end_time,
            executed: self.executed,
        }
    }
}

impl Clone for Proposal {
    fn clone(&self) -> (p: Self)
        ensures
            p@ == self@,
    {
        Proposal {
            id: self.id,
            proposer: self.proposer.clone(),
            metadata_hash: self.metadata_hash,
            votes_for: self.votes_for,
            votes_against: self.votes_against,
            end_time: self.end_time,
            executed: self.executed,
        }
    }
}

/// The event published when a proposal is executed.
pub struct ProposalExecuted {
    pub proposal_id: u32,
}

/// Why a governance operation was refused.
#[derive(Debug, Clone, Copy, PartialEq, Eq, Structural)]
pub enum GovernanceError {
    AlreadyInitialized,
    NotInitialized,
    ProposalNotFound,
    AlreadyVoted,
    VotingStillActive,
    ProposalRejected,
    AlreadyExecuted,
}

/// The text with which the contract reports each refusal.
pub open spec fn governance_error_text(e: GovernanceError) -> Seq<char> {
    match e {
        GovernanceError::AlreadyInitialized => "Already initialized"@,
        GovernanceError::NotInitialized => "Not initialized"@,
        GovernanceError::ProposalNotFound => "Proposal not found"@,
        GovernanceError::AlreadyVoted => "Already voted"@,
        GovernanceError::VotingStillActive => "Voting still active"@,
        GovernanceError::ProposalRejected => "Proposal rejected"@,
        GovernanceError::AlreadyExecuted => "Already executed"@,
    }
}

impl GovernanceError {
    /// The text with which the contract reports this refusal.
    pub fn message(&self) -> (m: &'static str)
        ensures
            m@ == governance_error_text(*self),
    {
        match self {
            GovernanceError::AlreadyInitialized => "Already initialized",
            GovernanceError::NotInitialized => "Not initialized",
            GovernanceError::ProposalNotFound => "Proposal not found",
            GovernanceError::AlreadyVoted => "Already voted",
            GovernanceError::VotingStillActive => "Voting still active",
            GovernanceError::ProposalRejected => "Proposal rejected",
            GovernanceError::AlreadyExecuted => "Already executed",
        }
    }
}

impl ProposalView {
    /// Adding `weight` to the side chosen by `support` stays within a `u32`.
    pub open spec fn fits(self, support: bool, weight: u32) -> bool {
        if support {
            self.votes_for + weight <= u32::MAX
        } else {
            self.votes_against + weight <= u32::MAX
        }
    }

    /// The proposal after a vote of `weight` for it (`support`) or against it.
    pub open spec fn tallied(self, support: bool, weight: u32) -> ProposalView {
        if support {
            ProposalView { votes_for: (self.votes_for + weight) as u32, ..self }
        } else {
            ProposalView { votes_against: (self.votes_against + weight) as u32, ..self }
        }
    }

    /// The proposal after executing it at ledger time `now`: refused when it
    /// was executed before, while its voting period lasts (up to and
    /// including `end_time`), and when it has no more votes for than against.
    pub open spec fn conclusion(self, now: u64) -> Result<ProposalView, GovernanceError> {
        if self.executed {
            Err(GovernanceError::AlreadyExecuted)
        } else if now <= self.end_time {
            Err(GovernanceError::VotingStillActive)
        } else if self.votes_for <= self.votes_against {
            Err(GovernanceError::ProposalRejected)
        } else {
            Ok(ProposalView { executed: true, ..self })
        }
    }
}

/// Records a vote of `weight` for (`support`) or against `proposal`,
/// unless the voter has `already_voted` on it.
pub fn cast_ballot(proposal: &mut Proposal, already_voted: bool, support: bool, weight: u32) -> (r: Result<(), GovernanceError>)
    requires
        !already_voted ==> old(proposal)@.fits(support, weight),
    ensures
        already_voted ==> r == Err::<(), GovernanceError>(GovernanceError::AlreadyVoted) && final(proposal)@ == old(proposal)@,
        !already_voted ==> r is Ok && final(proposal)@ == old(proposal)@.tallied(support, weight),
{
    if already_voted {
        return Err(GovernanceError::AlreadyVoted);
    }
    if support {
        proposal.votes_for = proposal.votes_for + weight;
    } else {
        proposal.votes_against = proposal.votes_against + weight;
    }
    Ok(())
}

/// Executes `proposal` at ledger time `now`, when its voting period has
/// passed and it has more votes for than against.
pub fn conclude(proposal: &mut Proposal, now: u64) -> (r: Result<ProposalExecuted, GovernanceError>)
    ensures
        match old(proposal)@.conclusion(now) {
            Ok(p) => r matches Ok(ev) && ev.proposal_id == old(proposal).id && final(proposal)@ == p,
            Err(e) => r matches Err(e2) && e2 == e && final(proposal)@ == old(proposal)@,
        },
        (!old(proposal).executed && now > old(proposal).end_time && old(proposal).votes_for > old(proposal).votes_against)
            ==> r is Ok && final(proposal).executed && final(proposal).votes_for == old(proposal).votes_for
                && final(proposal).votes_against == old(proposal).votes_against,
{
    if proposal.executed {
        return Err(GovernanceError::AlreadyExecuted);
    }
    if now <= proposal.end_time {
        return Err(GovernanceError::VotingStillActive);
    }
    if proposal.votes_for <= proposal.votes_against {
        return Err(GovernanceError::ProposalRejected);
    }
    proposal.executed = true;
    Ok(ProposalExecuted { proposal_id: proposal.id })
}

/// A recorded vote: who voted on which proposal.
pub struct Ballot {
    pub voter: Address,
    pub proposal_id: u32,
}

/// The (voter, proposal) pairs that a list of ballots records.
pub open spec fn ballot_set(bs: Seq<Ballot>) -> Set<(Seq<u8>, u32)> {
    Set::new(|p: (Seq<u8>, u32)| exists|i: int| 0 <= i < bs.len() && #[trigger] bs[i].voter@ == p.0 && bs[i].proposal_id == p.1)
}

proof fn lemma_ballot_set_push(bs: Seq<Ballot>, b: Ballot)
    ensures
        ballot_set(bs.push(b)) == ballot_set(bs).insert((b.voter@, b.proposal_id)),
{
    let nb = bs.push(b);
    assert forall|p: (Seq<u8>, u32)| ballot_set(nb).contains(p) implies ballot_set(bs).insert((b.voter@, b.proposal_id)).contains(p) by {
        let i = choose|i: int| 0 <= i < nb.len() && #[trigger] nb[i].voter@ == p.0 && nb[i].proposal_id == p.1;
        if i < bs.len() {
            assert(bs[i] == nb[i]);
        }
    }
    assert forall|p: (Seq<u8>, u32)| ballot_set(bs).insert((b.voter@, b.proposal_id)).contains(p) implies ballot_set(nb).contains(p) by {
        if p == (b.voter@, b.proposal_id) {
            assert(nb[bs.len() as int] == b);
        } else {
            let i = choose|i: int| 0 <= i < bs.len() && #[trigger] bs[i].voter@ == p.0 && bs[i].proposal_id == p.1;
            assert(nb[i] == bs[i]);
        }
    }
    assert(ballot_set(nb) =~= ballot_set(bs).insert((b.voter@, b.proposal_id)));
}

/// The governance contract's storage: the badge contract whose counts weigh
/// votes, the proposals by id, and who has voted on which proposal.
pub struct GovernanceView {
    pub badge_nft: Option<Seq<u8>>,
    pub proposals: Map<u32, ProposalView>,
    pub ballots: Set<(Seq<u8>, u32)>,
}

impl GovernanceView {
    /// Whether `voter` has voted on proposal `proposal_id`.
    pub open spec fn has_voted(self, voter: Seq<u8>, proposal_id: u32) -> bool {
        self.ballots.contains((voter, proposal_id))
    }

    /// The storage after installing `badge_nft` as the badge contract.
    pub open spec fn initialize(self, badge_nft: Seq<u8>) -> Result<Self, GovernanceError> {
        if self.badge_nft is Some {
            Err(GovernanceError::AlreadyInitialized)
        } else {
            Ok(GovernanceView { badge_nft: Some(badge_nft), ..self })
        }
    }

    /// The storage after writing `proposal` under its id.
    pub open spec fn store_proposal(self, proposal: ProposalView) -> Self {
        GovernanceView { proposals: self.proposals.insert(proposal.id, proposal), ..self }
    }

    /// A vote of `weight` on proposal `proposal_id` stays within a `u32`.
    pub open spec fn vote_fits(self, proposal_id: u32, support: bool, weight: u32) -> bool {
        self.proposals.contains_key(proposal_id) ==> self.proposals[proposal_id].fits(support, weight)
    }

    /// The storage after `voter` votes with `weight` for (`support`) or
    /// against proposal `proposal_id`.
    pub open spec fn cast_vote(self, voter: Seq<u8>, proposal_id: u32, support: bool, weight: u32) -> Result<Self, GovernanceError> {
        if self.badge_nft is None {
            Err(GovernanceError::NotInitialized)
        } else if !self.proposals.contains_key(proposal_id) {
            Err(GovernanceError::ProposalNotFound)
        } else if self.has_voted(voter, proposal_id) {
            Err(GovernanceError::AlreadyVoted)
        } else {
            Ok(GovernanceView {
                proposals: self.proposals.insert(proposal_id, self.proposals[proposal_id].tallied(support, weight)),
                ballots: self.ballots.insert((voter, proposal_id)),
                ..self
            })
        }
    }

    /// The storage after executing proposal `proposal_id` at ledger time `now`.
    pub open spec fn execute_proposal(self, proposal_id: u32, now: u64) -> Result<Self, GovernanceError> {
        if !self.proposals.contains_key(proposal_id) {
            Err(GovernanceError::ProposalNotFound)
        } else {
            match self.proposals[proposal_id].conclusion(now) {
                Ok(p) => Ok(GovernanceView { proposals: self.proposals.insert(proposal_id, p), ..self }),
                Err(e) => Err(e),
            }
        }
    }
}

/// Each account votes once per proposal: after a successful vote, every
/// further vote by that account on that proposal is refused with
/// `AlreadyVoted`, whatever side and weight it asks for.
pub proof fn law_one_vote_per_proposal(s: GovernanceView, t: GovernanceView, voter: Seq<u8>, proposal_id: u32, support: bool, weight: u32, support2: bool, weight2: u32)
    requires
        s.cast_vote(voter, proposal_id, support, weight) == Ok::<GovernanceView, GovernanceError>(t),
    ensures
        t.has_voted(voter, proposal_id),
        t.cast_vote(voter, proposal_id, support2, weight2) == Err::<GovernanceView, GovernanceError>(GovernanceError::AlreadyVoted),
{
}

/// A successful vote adds its whole weight to the chosen side of the chosen
/// proposal, and leaves the other side and every other proposal as they were.
pub proof fn law_vote_adds_weight(s: GovernanceView, t: GovernanceView, voter: Seq<u8>, proposal_id: u32, support: bool, weight: u32, other: u32)
    requires
        s.vote_fits(proposal_id, support, weight),
        s.cast_vote(voter, proposal_id, support, weight) == Ok::<GovernanceView, GovernanceError>(t),
        other != proposal_id,
    ensures
        t.proposals.contains_key(proposal_id),
        support ==> t.proposals[proposal_id].votes_for == s.proposals[proposal_id].votes_for + weight,
        support ==> t.proposals[proposal_id].votes_against == s.proposals[proposal_id].votes_against,
        !support ==> t.proposals[proposal_id].votes_against == s.proposals[proposal_id].votes_against + weight,
        !support ==> t.proposals[proposal_id].votes_for == s.proposals[proposal_id].votes_for,
        t.proposals[proposal_id].executed == s.proposals[proposal_id].executed,
        t.proposals[proposal_id].end_time == s.proposals[proposal_id].end_time,
        t.proposals.contains_key(other) == s.proposals.contains_key(other),
        s.proposals.contains_key(other) ==> t.proposals[other] == s.proposals[other],
{
}

/// A proposal is executed only after its voting period, only with more votes
/// for than against, and only once: a successful execution marks it
/// executed, and every later execution is refused with `AlreadyExecuted`.
pub proof fn law_execute_once_after_majority(s: GovernanceView, t: GovernanceView, proposal_id: u32, now: u64, later: u64)
    requires
        s.execute_proposal(proposal_id, now) == Ok::<GovernanceView, GovernanceError>(t),
    ensures
        s.proposals.contains_key(proposal_id),
        !s.proposals[proposal_id].executed,
        now > s.proposals[proposal_id].end_time,
        s.proposals[proposal_id].votes_for > s.proposals[proposal_id].votes_against,
        t.proposals[proposal_id].executed,
        t.proposals[proposal_id].votes_for == s.proposals[proposal_id].votes_for,
        t.proposals[proposal_id].votes_against == s.proposals[proposal_id].votes_against,
        t.execute_proposal(proposal_id, later) == Err::<GovernanceView, GovernanceError>(GovernanceError::AlreadyExecuted),
{
}

/// A tie does not pass: a proposal whose voting period is over, not yet
/// executed, with as many votes against as for, is refused with
/// `ProposalRejected`.
pub proof fn law_tie_rejected(s: GovernanceView, proposal_id: u32, now: u64)
    requires
        s.proposals.contains_key(proposal_id),
        !s.proposals[proposal_id].executed,
        now > s.proposals[proposal_id].end_time,
        s.proposals[proposal_id].votes_for <= s.proposals[proposal_id].votes_against,
    ensures
        s.execute_proposal(proposal_id, now) == Err::<GovernanceView, GovernanceError>(GovernanceError::ProposalRejected),
{
}

/// Executing a proposal never touches who has voted, the installed badge
/// contract, or which proposals exist.
pub proof fn law_execute_keeps_ballots(s: GovernanceView, t: GovernanceView, proposal_id: u32, now: u64)
    requires
        s.execute_proposal(proposal_id, now) == Ok::<GovernanceView, GovernanceError>(t),
    ensures
        t.ballots == s.ballots,
        t.badge_nft == s.badge_nft,
        t.proposals.dom() == s.proposals.dom(),
{
    assert(t.proposals.dom() =~= s.proposals.dom());
}

/// An account is reported as having voted on a proposal exactly when a
/// ballot of that account on that proposal is recorded.
pub proof fn law_has_voted_iff_ballot(s: GovernanceView, voter: Seq<u8>, proposal_id: u32)
    ensures
        s.has_voted(voter, proposal_id) <==> s.ballots.contains((voter, proposal_id)),
{
}

/// A vote that has nothing against it is accepted: with a badge contract
/// installed, the proposal stored, no ballot of the voter on it recorded,
/// and the tally within a `u32`, the vote succeeds, records the ballot, adds
/// the weight to the chosen side and changes nothing else.
pub proof fn law_vote_accepted(s: GovernanceView, voter: Seq<u8>, proposal_id: u32, support: bool, weight: u32)
    requires
        s.badge_nft is Some,
        s.proposals.contains_key(proposal_id),
        !s.ballots.contains((voter, proposal_id)),
        support ==> s.proposals[proposal_id].votes_for + weight <= u32::MAX,
        !support ==> s.proposals[proposal_id].votes_against + weight <= u32::MAX,
    ensures
        s.cast_vote(voter, proposal_id, support, weight) matches Ok(t) && {
            let old_p = s.proposals[proposal_id];
            let new_p = t.proposals[proposal_id];
            &&& t.badge_nft == s.badge_nft
            &&& t.ballots == s.ballots.insert((voter, proposal_id))
            &&& t.proposals.dom() == s.proposals.dom()
            &&& forall|q: u32| q != proposal_id && #[trigger] s.proposals.contains_key(q) ==> t.proposals[q] == s.proposals[q]
            &&& new_p.votes_for == (if support { old_p.votes_for + weight } else { old_p.votes_for as int })
            &&& new_p.votes_against == (if support { old_p.votes_against as int } else { old_p.votes_against + weight })
            &&& new_p.id == old_p.id
            &&& new_p.proposer == old_p.proposer
            &&& new_p.metadata_hash == old_p.metadata_hash
            &&& new_p.end_time == old_p.end_time
            &&& new_p.executed == old_p.executed
        },
{
    let t = s.cast_vote(voter, proposal_id, support, weight).get_Ok_0();
    assert(t.proposals.dom() =~= s.proposals.dom());
}

/// A vote is refused only for a reason: no badge contract installed
/// (`NotInitialized`), no such proposal (`ProposalNotFound`), or a ballot of
/// the voter on it already recorded (`AlreadyVoted`).
pub proof fn law_vote_refusals(s: GovernanceView, voter: Seq<u8>, proposal_id: u32, support: bool, weight: u32)
    ensures
        s.badge_nft is None ==> s.cast_vote(voter, proposal_id, support, weight) == Err::<GovernanceView, GovernanceError>(GovernanceError::NotInitialized),
        (s.badge_nft is Some && !s.proposals.contains_key(proposal_id))
            ==> s.cast_vote(voter, proposal_id, support, weight) == Err::<GovernanceView, GovernanceError>(GovernanceError::ProposalNotFound),
        (s.badge_nft is Some && s.proposals.contains_key(proposal_id) && s.ballots.contains((voter, proposal_id)))
            ==> s.cast_vote(voter, proposal_id, support, weight) == Err::<GovernanceView, GovernanceError>(GovernanceError::AlreadyVoted),
        (s.cast_vote(voter, proposal_id, support, weight) is Err) ==> (s.badge_nft is None || !s.proposals.contains_key(proposal_id) || s.ballots.contains((voter, proposal_id))),
{
}

/// A proposal that has passed is executed: stored, not executed yet, its
/// voting period over (`now` after `end_time`), and strictly more votes for
/// than against, executing it succeeds, marks it executed and changes
/// nothing else.
pub proof fn law_execute_accepted(s: GovernanceView, proposal_id: u32, now: u64)
    requires
        s.proposals.contains_key(proposal_id),
        !s.proposals[proposal_id].executed,
        now > s.proposals[proposal_id].end_time,
        s.proposals[proposal_id].votes_for > s.proposals[proposal_id].votes_against,
    ensures
        s.execute_proposal(proposal_id, now) matches Ok(t) && {
            let old_p = s.proposals[proposal_id];
            let new_p = t.proposals[proposal_id];
            &&& t.badge_nft == s.badge_nft
            &&& t.ballots == s.ballots
            &&& t.proposals.dom() == s.proposals.dom()
            &&& forall|q: u32| q != proposal_id && #[trigger] s.proposals.contains_key(q) ==> t.proposals[q] == s.proposals[q]
            &&& new_p.executed
            &&& new_p.votes_for == old_p.votes_for
            &&& new_p.votes_against == old_p.votes_against
            &&& new_p.id == old_p.id
            &&& new_p.proposer == old_p.proposer
            &&& new_p.metadata_hash == old_p.metadata_hash
            &&& new_p.end_time == old_p.end_time
        },
{
    let t = s.execute_proposal(proposal_id, now).get_Ok_0();
    assert(t.proposals.dom() =~= s.proposals.dom());
}

/// Execution is refused only for a reason: no such proposal, already
/// executed, voting period not over (`now` up to `end_time`), or no more
/// votes for than against.
pub proof fn law_execute_refusals(s: GovernanceView, proposal_id: u32, now: u64)
    ensures
        !s.proposals.contains_key(proposal_id)
            ==> s.execute_proposal(proposal_id, now) == Err::<GovernanceView, GovernanceError>(GovernanceError::ProposalNotFound),
        (s.proposals.contains_key(proposal_id) && s.proposals[proposal_id].executed)
            ==> s.execute_proposal(proposal_id, now) == Err::<GovernanceView, GovernanceError>(GovernanceError::AlreadyExecuted),
        (s.proposals.contains_key(proposal_id) && !s.proposals[proposal_id].executed && now <= s.proposals[proposal_id].end_time)
            ==> s.execute_proposal(proposal_id, now) == Err::<GovernanceView, GovernanceError>(GovernanceError::VotingStillActive),
{
}

/// Installing the badge contract succeeds exactly when none is installed,
/// and then stores it and leaves proposals and ballots as they were.
pub proof fn law_governance_initialize_outcome(s: GovernanceView, badge_nft: Seq<u8>)
    ensures
        s.badge_nft is None ==> s.initialize(badge_nft) == Ok::<GovernanceView, GovernanceError>(GovernanceView { badge_nft: Some(badge_nft), proposals: s.proposals, ballots: s.ballots }),
        s.badge_nft is Some ==> s.initialize(badge_nft) == Err::<GovernanceView, GovernanceError>(GovernanceError::AlreadyInitialized),
{
}

/// The governance contract's state.
pub struct Governance {
    badge_nft: Option<Address>,
    proposals: HashMap<u32, Proposal>,
    ballots: Vec<Ballot>,
}

impl View for Governance {
    type V = GovernanceView;

    closed spec fn view(&self) -> GovernanceView {
        GovernanceView {
            badge_nft: opt_view(self.badge_nft),
            proposals: self.proposals@.map_values(|p: Proposal| p@),
            ballots: ballot_set(self.ballots@),
        }
    }
}

impl Governance {
    /// The state's internal invariant: each proposal is stored under its own id.
    pub closed spec fn wf(&self) -> bool {
        forall|k: u32| #[trigger] self.proposals@.contains_key(k) ==> self.proposals@[k].id == k
    }

    /// A freshly deployed contract: no badge contract, proposals or votes.
    pub fn new() -> (g: Self)
        ensures
            g.wf(),
            g@.badge_nft is None,
            g@.proposals == Map::<u32, ProposalView>::empty(),
            g@.ballots == Set::<(Seq<u8>, u32)>::empty(),
    {
        let g = Governance { badge_nft: None, proposals: HashMap::new(), ballots: Vec::new() };
        assert(g@.proposals =~= Map::<u32, ProposalView>::empty());
        assert(g@.ballots =~= Set::<(Seq<u8>, u32)>::empty());
        g
    }

    /// Installs `badge_nft` as the badge contract whose counts weigh votes;
    /// refused once one is installed.
    pub fn initialize(&mut self, badge_nft: Address) -> (r: Result<(), GovernanceError>)
        requires
            old(self).wf(),
        ensures
            final(self).wf(),
            old(self)@.initialize(badge_nft@) == (match r {
                Ok(_) => Ok(final(self)@),
                Err(e) => Err::<GovernanceView, GovernanceError>(e),
            }),
            r is Err ==> final(self)@ == old(self)@,
    {
        if install_admin(&mut self.badge_nft, badge_nft) {
            Ok(())
        } else {
            Err(GovernanceError::AlreadyInitialized)
        }
    }

    /// The installed badge contract, if any.
    pub fn badge_contract(&self) -> (r: Option<Address>)
        ensures
            opt_view(r) == self@.badge_nft,
    {
        match &self.badge_nft {
            Some(a) => Some(a.clone()),
            None => None,
        }
    }

    /// Writes `proposal` under its id, replacing what was stored there.
    pub fn store_proposal(&mut self, proposal: Proposal)
        requires
            old(self).wf(),
        ensures
            final(self).wf(),
            final(self)@ == old(self)@.store_proposal(proposal@),
    {
        let ghost pv = proposal@;
        self.proposals.insert(proposal.id, proposal);
        assert(self@.proposals =~= old(self)@.proposals.insert(pv.id, pv));
    }

    /// The proposal stored under `proposal_id`.
    pub fn get_proposal(&self, proposal_id: u32) -> (r: Result<Proposal, GovernanceError>)
        requires
            self.wf(),
        ensures
            match r {
                Ok(p) => self@.proposals.contains_key(proposal_id) && p@ == self@.proposals[proposal_id],
                Err(e) => !self@.proposals.contains_key(proposal_id) && e == GovernanceError::ProposalNotFound,
            },
    {
        match self.proposals.get(&proposal_id) {
            Some(p) => Ok(p.clone()),
            None => Err(GovernanceError::ProposalNotFound),
        }
    }

    /// Whether `voter` has voted on proposal `proposal_id`.
    pub fn has_voted(&self, voter: &Address, proposal_id: u32) -> (r: bool)
        ensures
            r == self@.has_voted(voter@, proposal_id),
            r == self@.ballots.contains((voter@, proposal_id)),
    {
        let n = self.ballots.len();
        let mut i: usize = 0;
        while i < n
            invariant
                n == self.ballots@.len(),
                i <= n,
                forall|j: int| 0 <= j < i ==> !(#[trigger] self.ballots@[j].voter@ == voter@ && self.ballots@[j].proposal_id == proposal_id),
            decreases n - i,
        {
            if self.ballots[i].proposal_id == proposal_id && self.ballots[i].voter.same(voter) {
                assert(ballot_set(self.ballots@).contains((voter@, proposal_id)));
                return true;
            }
            i += 1;
        }
        false
    }

    /// `voter` votes with `weight` for (`support`) or against proposal
    /// `proposal_id`. The weight is the number of badges the voter holds in
    /// the installed badge contract. Each account votes once per proposal.
    pub fn cast_vote(&mut self, voter: &Address, proposal_id: u32, support: bool, weight: u32) -> (r: Result<(), GovernanceError>)
        requires
            old(self).wf(),
            old(self)@.vote_fits(proposal_id, support, weight),
        ensures
            final(self).wf(),
            old(self)@.cast_vote(voter@, proposal_id, support, weight) == (match r {
                Ok(_) => Ok(final(self)@),
                Err(e) => Err::<GovernanceView, GovernanceError>(e),
            }),
            r is Err ==> final(self)@ == old(self)@,
    {
        if self.badge_nft.is_none() {
            return Err(GovernanceError::NotInitialized);
        }
        let mut proposal = match self.proposals.get(&proposal_id) {
            Some(p) => p.clone(),
            None => return Err(GovernanceError::ProposalNotFound),
        };
        let voted = self.has_voted(voter, proposal_id);
        match cast_ballot(&mut proposal, voted, support, weight) {
            Err(e) => Err(e),
            Ok(()) => {
                let ghost pv = proposal@;
                let ghost bs = self.ballots@;
                let ballot = Ballot { voter: voter.clone(), proposal_id };
                proof {
                    lemma_ballot_set_push(bs, ballot);
                }
                self.proposals.insert(proposal_id, proposal);
                self.ballots.push(ballot);
                assert(self@.proposals =~= old(self)@.proposals.insert(proposal_id, pv));
                Ok(())
            },
        }
    }

    /// Executes proposal `proposal_id` at ledger time `now`: it must exist,
    /// not be executed yet, have its voting period over, and have more votes
    /// for than against. Returns the event to publish.
    pub fn execute_proposal(&mut self, proposal_id: u32, now: u64) -> (r: Result<ProposalExecuted, GovernanceError>)
        requires
            old(self).wf(),
        ensures
            final(self).wf(),
            old(self)@.execute_proposal(proposal_id, now) == (match r {
                Ok(_) => Ok(final(self)@),
                Err(e) => Err::<GovernanceView, GovernanceError>(e),
            }),
            r is Err ==> final(self)@ == old(self)@,
            r matches Ok(ev) ==> ev.proposal_id == proposal_id,
    {
        let mut proposal = match self.proposals.get(&proposal_id) {
            Some(p) => p.clone(),
            None => return Err(GovernanceError::ProposalNotFound),
        };
        match conclude(&mut proposal, now) {
            Err(e) => Err(e),
            Ok(ev) => {
                let ghost pv = proposal@;
                self.proposals.insert(proposal_id, proposal);
                assert(self@.proposals =~= old(self)@.proposals.insert(proposal_id, pv));
                Ok(ev)
            },
        }
    }
}

} // verus!
