use vstd::prelude::*;

verus! {

/// Identifier of a session. Sessions are numbered consecutively from zero.
#[derive(Clone, Copy, Debug, PartialEq, Eq, Structural)]
pub struct SessionId(pub u32);

/// Number of blocks that make up one session.
#[derive(Clone, Copy, Debug, PartialEq, Eq, Structural)]
pub struct SessionPeriod(pub u32);

/// The inclusive range of block numbers that belong to one session.
///
/// Session `i` of period `p` spans blocks `i * p` up to and including
/// `i * p + p - 1`. The arithmetic is carried out in the 64-bit block-number
/// domain, where a product of two 32-bit inputs cannot overflow; the lower
/// bound of an empty (zero-period) session degenerates to its first block.
#[derive(Clone, Copy, Debug, PartialEq, Eq, Structural)]
pub struct SessionBoundaries {
    first_block: u64,
    last_block: u64,
}

impl SessionBoundaries {
    pub closed spec fn spec_first_block(&self) -> u64 {
        self.first_block
    }

    pub closed spec fn spec_last_block(&self) -> u64 {
        self.last_block
    }

    pub fn new(session_id: SessionId, period: SessionPeriod) -> (r: SessionBoundaries)
        ensures
            r.spec_first_block() == session_id.0 * period.0,
            period.0 > 0 ==> r.spec_last_block() == r.spec_first_block() + period.0 - 1,
            period.0 == 0 ==> r.spec_last_block() == r.spec_first_block(),
    {
        proof {
            assert((session_id.0 as int) * (period.0 as int) + (period.0 as int) < 0x1_0000_0000_0000_0000int)
                by (nonlinear_arith)
                requires
                    session_id.0 <= 0xffff_ffffu32,
                    period.0 <= 0xffff_ffffu32,
            ;
        }
        let first: u64 = (session_id.0 as u64) * (period.0 as u64);
        let span: u64 = first + (period.0 as u64);
        let last: u64 = if span == 0 { 0 } else { span - 1 };
        SessionBoundaries { first_block: first, last_block: last }
    }

    #[verifier::when_used_as_spec(spec_first_block)]
    pub fn first_block(&self) -> (r: u64)
        ensures
            r == self.spec_first_block(),
    {
        self.first_block
    }

    #[verifier::when_used_as_spec(spec_last_block)]
    pub fn last_block(&self) -> (r: u64)
        ensures
            r == self.spec_last_block(),
    {
        self.last_block
    }
}

} // verus!
