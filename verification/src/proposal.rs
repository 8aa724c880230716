use vstd::prelude::*;

use crate::session::SessionBoundaries;

verus! {

/// The largest branch length a proposal may carry. Anything longer is
/// rejected outright, whatever its block numbers.
pub const MAX_DATA_BRANCH_LEN: usize = 10;

/// Identity of a block: an opaque 32-byte digest. The validation logic never
/// looks inside it; it only stores, copies and compares whole values.
#[derive(Clone, Copy, Debug, PartialEq, Eq, Hash)]
pub struct BlockHash(pub [u8; 32]);

impl Default for BlockHash {
    fn default() -> (r: BlockHash)
        ensures
            forall|i: int| 0 <= i < 32 ==> r.0[i] == 0u8,
    {
        BlockHash([0u8; 32])
    }
}

/// A block identified by hash together with its height.
#[derive(Clone, Copy, Debug, PartialEq, Eq, Hash)]
pub struct BlockHashNum {
    pub hash: BlockHash,
    pub num: u64,
}

/// A proposal as it arrives from another node: a claimed branch of ancestor
/// hashes ending in the block to finalize, and that block's claimed height.
/// Nothing about it can be trusted until it passes `validate_bounds`.
#[derive(Clone, Debug, PartialEq, Eq, Hash)]
pub struct UnvalidatedAlephProposal {
    pub branch: Vec<BlockHash>,
    pub number: u64,
}

/// The four bounds checks that turn an untrusted proposal into a trusted one:
/// the branch is non-empty and no longer than `MAX_DATA_BRANCH_LEN`, the top
/// number leaves room for the whole branch above the genesis block, and the
/// spanned range `[number - len + 1, number]` lies inside the session.
pub open spec fn branch_bounds_ok(
    branch: Seq<BlockHash>,
    number: u64,
    boundaries: SessionBoundaries,
) -> bool {
    &&& branch.len() <= MAX_DATA_BRANCH_LEN
    &&& branch.len() >= 1
    &&& number >= branch.len()
    &&& boundaries.spec_first_block() <= number - (branch.len() - 1)
    &&& number <= boundaries.spec_last_block()
}

/// Everything `validate_bounds` promises about its result: success exactly on
/// proposals passing `branch_bounds_ok`, and the validated value carries the
/// same branch and number as the input.
pub open spec fn validate_bounds_post(
    proposal: UnvalidatedAlephProposal,
    boundaries: SessionBoundaries,
    r: Option<AlephProposal>,
) -> bool {
    &&& r is Some <==> branch_bounds_ok(proposal.branch@, proposal.number, boundaries)
    &&& r matches Some(q) ==> q.spec_branch() == proposal.branch@ && q.spec_number()
        == proposal.number
}

impl UnvalidatedAlephProposal {
    pub fn new(branch: Vec<BlockHash>, block_number: u64) -> (r: Self)
        ensures
            r.branch@ == branch@,
            r.number == block_number,
    {
        UnvalidatedAlephProposal { branch, number: block_number }
    }

    /// Checks the claimed branch and number against the session boundaries and,
    /// only if every bound holds, hands back the same data as a trusted
    /// `AlephProposal`. Rejection carries no detail: a caller learns only that
    /// the claim is not a valid in-session proposal.
    pub fn validate_bounds(&self, session_boundaries: &SessionBoundaries) -> (r: Option<
        AlephProposal,
    >)
        ensures
            validate_bounds_post(*self, *session_boundaries, r),
            r matches Some(q) ==> q.well_formed(),
    {
        if self.branch.len() > MAX_DATA_BRANCH_LEN {
            return None;
        }
        if self.branch.len() == 0 {
            return None;
        }
        if self.number < self.branch.len() as u64 {
            // This also excludes branches that would start at the genesis block.
            return None;
        }
        let bottom_block = self.number - (self.branch.len() as u64 - 1);
        let top_block = self.number;
        if session_boundaries.first_block() <= bottom_block && top_block
            <= session_boundaries.last_block() {
            let branch = self.branch.clone();
            assert(branch@ =~= self.branch@);
            return Some(AlephProposal { branch, number: self.number });
        }
        None
    }
}

/// A proposal that passed `validate_bounds`: its invariant guarantees that
/// every accessor below is free of underflow and indexes in range.
#[derive(Clone, Debug, PartialEq, Eq, Hash)]
pub struct AlephProposal {
    branch: Vec<BlockHash>,
    number: u64,
}

impl AlephProposal {
    pub closed spec fn spec_branch(&self) -> Seq<BlockHash> {
        self.branch@
    }

    pub closed spec fn spec_number(&self) -> u64 {
        self.number
    }

    /// The part of the bounds checks that does not mention the session: it is
    /// what every accessor needs to stay in range.
    pub open spec fn well_formed(&self) -> bool {
        &&& 1 <= self.spec_branch().len() <= MAX_DATA_BRANCH_LEN
        &&& self.spec_number() >= self.spec_branch().len()
    }

    /// Height of the lowest block of the branch, as a mathematical integer.
    pub open spec fn spec_number_bottom_block(&self) -> int {
        self.spec_number() - (self.spec_branch().len() - 1)
    }

    /// Height of the highest block of the branch, as a mathematical integer.
    pub open spec fn spec_number_top_block(&self) -> int {
        self.spec_number() as int
    }

    /// Outputs the length of the branch.
    pub fn len(&self) -> (r: usize)
        ensures
            r == self.spec_branch().len(),
    {
        self.branch.len()
    }

    /// Outputs the highest block in the branch.
    pub fn top_block(&self) -> (r: BlockHashNum)
        requires
            self.well_formed(),
        ensures
            r.hash == self.spec_branch().last(),
            r.num == self.spec_number_top_block(),
    {
        BlockHashNum { hash: self.branch[self.branch.len() - 1], num: self.number_top_block() }
    }

    /// Outputs the lowest block in the branch.
    pub fn bottom_block(&self) -> (r: BlockHashNum)
        requires
            self.well_formed(),
        ensures
            r.hash == self.spec_branch().first(),
            r.num == self.spec_number_bottom_block(),
    {
        BlockHashNum { hash: self.branch[0], num: self.number_bottom_block() }
    }

    /// Outputs the number one below the lowest block in the branch: the height
    /// of the ancestor that must already be finalized.
    pub fn number_below_branch(&self) -> (r: u64)
        requires
            self.well_formed(),
        ensures
            r == self.spec_number_bottom_block() - 1,
    {
        self.number - self.branch.len() as u64
    }

    /// Outputs the number of the lowest block in the branch.
    pub fn number_bottom_block(&self) -> (r: u64)
        requires
            self.well_formed(),
        ensures
            r == self.spec_number_bottom_block(),
    {
        self.number - (self.branch.len() as u64 - 1)
    }

    /// Outputs the number of the highest block in the branch.
    pub fn number_top_block(&self) -> (r: u64)
        ensures
            r == self.spec_number_top_block(),
    {
        self.number
    }

    /// Outputs the block at height `num` of the branch when `num` falls
    /// between the lowest and the highest block number, and `None` otherwise.
    pub fn block_at_num(&self, num: u64) -> (r: Option<BlockHashNum>)
        requires
            self.well_formed(),
        ensures
            self.spec_number_bottom_block() <= num <= self.spec_number_top_block() ==> r == Some(
                (BlockHashNum { hash: self.spec_branch()[num - self.spec_number_bottom_block()], num }),
            ),
            !(self.spec_number_bottom_block() <= num <= self.spec_number_top_block()) ==> r is None,
    {
        if self.number_bottom_block() <= num && num <= self.number_top_block() {
            let ind: usize = (num - self.number_bottom_block()) as usize;
            return Some(BlockHashNum { hash: self.branch[ind], num });
        }
        None
    }
}

/// A branch longer than `MAX_DATA_BRANCH_LEN` fails bounds validation whatever
/// its block number and whatever the session boundaries.
pub proof fn lemma_overlong_branch_never_validates(
    branch: Seq<BlockHash>,
    number: u64,
    boundaries: SessionBoundaries,
)
    requires
        branch.len() > MAX_DATA_BRANCH_LEN,
    ensures
        !branch_bounds_ok(branch, number, boundaries),
{
}

/// An empty branch fails bounds validation whatever its block number and
/// whatever the session boundaries.
pub proof fn lemma_empty_branch_never_validates(
    branch: Seq<BlockHash>,
    number: u64,
    boundaries: SessionBoundaries,
)
    requires
        branch.len() == 0,
    ensures
        !branch_bounds_ok(branch, number, boundaries),
{
}

/// A block number below `len(branch) - 1` fails bounds validation: computing
/// the bottom block's number would underflow, so such claims are rejected
/// before any arithmetic happens.
pub proof fn lemma_underflowing_number_never_validates(
    branch: Seq<BlockHash>,
    number: u64,
    boundaries: SessionBoundaries,
)
    requires
        number < branch.len() - 1,
    ensures
        !branch_bounds_ok(branch, number, boundaries),
{
}

/// For a branch of admissible length and non-underflowing number, bounds
/// validation succeeds exactly when the spanned block range
/// `[number - len + 1, number]` lies inside the session boundaries.
pub proof fn lemma_validation_is_session_containment(
    branch: Seq<BlockHash>,
    number: u64,
    boundaries: SessionBoundaries,
)
    requires
        1 <= branch.len() <= MAX_DATA_BRANCH_LEN,
        number >= branch.len(),
    ensures
        branch_bounds_ok(branch, number, boundaries) <==> (boundaries.spec_first_block() <= number
            - (branch.len() - 1) && number <= boundaries.spec_last_block()),
{
}

/// Bounds validation is deterministic: two results obtained for the same
/// proposal and the same boundaries agree, both in whether they accept and in
/// the branch and number of the accepted value.
pub proof fn lemma_validate_bounds_deterministic(
    proposal: UnvalidatedAlephProposal,
    boundaries: SessionBoundaries,
    r1: Option<AlephProposal>,
    r2: Option<AlephProposal>,
)
    requires
        validate_bounds_post(proposal, boundaries, r1),
        validate_bounds_post(proposal, boundaries, r2),
    ensures
        r1 is Some <==> r2 is Some,
        r1 matches Some(q1) ==> r2 matches Some(q2) && q1.spec_branch() == q2.spec_branch()
            && q1.spec_number() == q2.spec_number(),
{
}

/// Status of a validated proposal as the block-import state progresses, for
/// proposals whose finalization must still wait.
#[derive(PartialEq, Eq, Clone, Debug)]
pub enum PendingProposalStatus {
    PendingTopBlock,
    TopBlockImportedButIncorrectBranch,
    TopBlockImportedButNotFinalizedAncestor,
}

/// What the consumer of a validated proposal decides about it: finalize the
/// given block, ignore the proposal, or keep it pending for the given reason.
#[derive(PartialEq, Eq, Clone, Debug)]
pub enum ProposalStatus {
    Finalize(BlockHashNum),
    Ignore,
    Pending(PendingProposalStatus),
}

} // verus!
