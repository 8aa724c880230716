use vstd::prelude::*;

verus! {

/// Account identity in the elections logic. The chain's generic account type
/// instantiates to a plain word here, which is also what keeps the ordering
/// of election results provable.
pub type AccountId = u64;

/// Weight of one vote.
pub type VoteWeight = u64;

/// Number of members every committee gets when the genesis configuration
/// does not say otherwise.
pub const DEFAULT_COMMITTEE_SIZE: u32 = 4;

/// The backing a member collected: the summed weight of the votes naming it,
/// and each voter with its weight.
#[derive(Clone, Debug, PartialEq, Eq)]
pub struct Support {
    pub total: u128,
    pub voters: Vec<(AccountId, u128)>,
}

/// Why an election could not be carried out.
#[derive(Clone, Copy, Debug, PartialEq, Eq)]
pub enum Error {
    DataProvider(&'static str),
}

/// One vote as the data provider reports it: the voter, the vote's weight,
/// and the targets it names. With single-target nomination the first target
/// is the vote's member.
pub type Voter = (AccountId, VoteWeight, Vec<AccountId>);

/// The member a vote backs.
pub open spec fn spec_target(v: Voter) -> AccountId {
    v.2@[0]
}

/// The summed weight of the votes backing `m`.
pub open spec fn spec_member_total(m: AccountId, voters: Seq<Voter>) -> int
    decreases voters.len(),
{
    if voters.len() == 0 {
        0
    } else {
        let rest = spec_member_total(m, voters.drop_last());
        if spec_target(voters.last()) == m {
            rest + voters.last().1
        } else {
            rest
        }
    }
}

/// The voters backing `m`, in report order, each with its weight.
pub open spec fn spec_member_voters(m: AccountId, voters: Seq<Voter>) -> Seq<(AccountId, u128)>
    decreases voters.len(),
{
    if voters.len() == 0 {
        Seq::empty()
    } else {
        let rest = spec_member_voters(m, voters.drop_last());
        if spec_target(voters.last()) == m {
            rest.push((voters.last().0, voters.last().1 as u128))
        } else {
            rest
        }
    }
}

/// Whether some entry of the support list is keyed by `k`.
pub open spec fn spec_has_key(s: Seq<(AccountId, Support)>, k: AccountId) -> bool {
    exists|i: int| 0 <= i < s.len() && s[i].0 == k
}

/// Strictly ascending keys.
pub open spec fn spec_sorted(s: Seq<(AccountId, Support)>) -> bool {
    forall|i: int, j: int| 0 <= i < j < s.len() ==> s[i].0 < s[j].0
}

/// Everything `elect` promises of its result: one entry per distinct member,
/// in ascending account order, each carrying exactly the votes that name it.
pub open spec fn elect_post(
    members: Seq<AccountId>,
    voters: Seq<Voter>,
    s: Seq<(AccountId, Support)>,
) -> bool {
    &&& spec_sorted(s)
    &&& forall|m: AccountId| members.contains(m) ==> spec_has_key(s, m)
    &&& forall|i: int| 0 <= i < s.len() ==> members.contains(#[trigger] s[i].0)
    &&& forall|i: int|
        0 <= i < s.len() ==> (#[trigger] s[i].1).total == spec_member_total(s[i].0, voters)
    &&& forall|i: int|
        0 <= i < s.len() ==> (#[trigger] s[i].1).voters@ == spec_member_voters(s[i].0, voters)
}

/// The summed weight of votes for any member is bounded by one maximal vote
/// per reported voter.
proof fn lemma_member_total_bound(m: AccountId, voters: Seq<Voter>)
    ensures
        0 <= spec_member_total(m, voters),
        spec_member_total(m, voters) <= voters.len() * 0xffff_ffff_ffff_ffffu64,
    decreases voters.len(),
{
    if voters.len() == 0 {
    } else {
        lemma_member_total_bound(m, voters.drop_last());
        assert((voters.len() - 1) * 0xffff_ffff_ffff_ffffu64 + 0xffff_ffff_ffff_ffffu64
            == voters.len() * 0xffff_ffff_ffff_ffffu64) by (nonlinear_arith);
    }
}

/// The election: every listed member is elected, and for the sake of era
/// payouts each member's support is assembled from the reported votes. Votes
/// for accounts outside the member list are discarded.
#[verifier::loop_isolation(false)]
#[verifier::rlimit(30)]
pub fn elect(members: &Vec<AccountId>, voters: &Vec<Voter>) -> (r: Result<
    Vec<(AccountId, Support)>,
    Error,
>)
    requires
        // single-target nomination: every vote names at least one target
        forall|i: int| 0 <= i < voters@.len() ==> (#[trigger] voters@[i]).2@.len() >= 1,
    ensures
        r matches Ok(s) && elect_post(members@, voters@, s@),
{
    let mut supports: Vec<(AccountId, Support)> = Vec::new();
    let mut mi: usize = 0;
    while mi < members.len()
        invariant
            mi <= members@.len(),
            spec_sorted(supports@),
            forall|j: int| 0 <= j < mi ==> spec_has_key(supports@, members@[j]),
            forall|i: int|
                0 <= i < supports@.len() ==> members@.contains(#[trigger] supports@[i].0),
            forall|i: int|
                0 <= i < supports@.len() ==> (#[trigger] supports@[i].1).total == 0 && supports@[i].1.voters@
                    =~= Seq::<(AccountId, u128)>::empty(),
        decreases members@.len() - mi,
    {
        let m = members[mi];
        let mut pos: usize = 0;
        while pos < supports.len() && supports[pos].0 < m
            invariant
                pos <= supports@.len(),
                forall|j: int| 0 <= j < pos ==> (#[trigger] supports@[j].0) < m,
            decreases supports@.len() - pos,
        {
            pos += 1;
        }
        if pos < supports.len() && supports[pos].0 == m {
            // a member listed twice gets a single entry
            assert(spec_has_key(supports@, m));
        } else {
            let ghost before = supports@;
            supports.insert(pos, (m, Support { total: 0, voters: Vec::new() }));
            proof {
                assert(forall|j: int| 0 <= j < pos ==> supports@[j] == before[j]);
                assert(forall|j: int|
                    pos < j < supports@.len() ==> supports@[j] == before[j - 1]);
                assert(supports@[pos as int].0 == m);
                assert forall|i: int, j: int|
                    0 <= i < j < supports@.len() implies supports@[i].0 < supports@[j].0 by {
                    if i < pos && j > pos {
                        assert(supports@[i] == before[i]);
                        assert(supports@[j] == before[j - 1]);
                        if pos < before.len() {
                            assert(before[pos as int].0 > m || before[pos as int].0 == m);
                        }
                    }
                }
                assert forall|j: int|
                    0 <= j < mi + 1 implies spec_has_key(supports@, members@[j]) by {
                    if j < mi {
                        let k = choose|k: int|
                            0 <= k < before.len() && before[k].0 == members@[j];
                        if k < pos {
                            assert(supports@[k].0 == members@[j]);
                        } else {
                            assert(supports@[k + 1].0 == members@[j]);
                        }
                    } else {
                        assert(supports@[pos as int].0 == m);
                    }
                }
            }
        }
        mi += 1;
    }
    assert(forall|j: int| 0 <= j < members@.len() ==> spec_has_key(supports@, members@[j]));
    assert forall|m: AccountId| members@.contains(m) implies spec_has_key(supports@, m) by {
        let j = choose|j: int| 0 <= j < members@.len() && members@[j] == m;
        assert(spec_has_key(supports@, members@[j]));
    }
    let ghost keyed = supports@;
    let mut vi: usize = 0;
    while vi < voters.len()
        invariant
            vi <= voters@.len(),
            supports@.len() == keyed.len(),
            forall|i: int| 0 <= i < supports@.len() ==> (#[trigger] supports@[i].0) == keyed[i].0,
            spec_sorted(supports@),
            forall|i: int|
                0 <= i < supports@.len() ==> (#[trigger] supports@[i].1).total
                    == spec_member_total(supports@[i].0, voters@.take(vi as int)),
            forall|i: int|
                0 <= i < supports@.len() ==> (#[trigger] supports@[i].1).voters@
                    =~= spec_member_voters(supports@[i].0, voters@.take(vi as int)),
        decreases voters@.len() - vi,
    {
        let member = voters[vi].2[0];
        let vote = voters[vi].1;
        let voter = voters[vi].0;
        assert(member == spec_target(voters@[vi as int]));
        let mut pos: usize = 0;
        while pos < supports.len() && supports[pos].0 < member
            invariant
                pos <= supports@.len(),
                forall|j: int| 0 <= j < pos ==> (#[trigger] supports@[j].0) < member,
            decreases supports@.len() - pos,
        {
            pos += 1;
        }
        proof {
            assert(voters@.take(vi as int + 1).drop_last() =~= voters@.take(vi as int));
            assert(voters@.take(vi as int + 1).last() == voters@[vi as int]);
        }
        if pos < supports.len() && supports[pos].0 == member {
            let ghost before = supports@;
            let mut entry = supports.remove(pos);
            proof {
                lemma_member_total_bound(member, voters@.take(vi as int));
                assert((vi as int) * 0xffff_ffff_ffff_ffffu64 + 0xffff_ffff_ffff_ffffu64
                    < 0x1_0000_0000_0000_0000_0000_0000_0000_0000int) by (nonlinear_arith)
                    requires
                        0 <= vi < 0x1_0000_0000_0000_0000int,
                ;
            }
            entry.1.total = entry.1.total + (vote as u128);
            entry.1.voters.push((voter, vote as u128));
            supports.insert(pos, entry);
            proof {
                assert(supports@ =~= before.update(pos as int, supports@[pos as int]));
                assert forall|i: int|
                    0 <= i < supports@.len() implies (#[trigger] supports@[i].1).total
                    == spec_member_total(supports@[i].0, voters@.take(vi as int + 1)) by {
                    if i != pos {
                        assert(supports@[i] == before[i]);
                        assert(supports@[i].0 != member);
                    }
                }
                assert forall|i: int|
                    0 <= i < supports@.len() implies (#[trigger] supports@[i].1).voters@
                    =~= spec_member_voters(supports@[i].0, voters@.take(vi as int + 1)) by {
                    if i != pos {
                        assert(supports@[i] == before[i]);
                        assert(supports@[i].0 != member);
                    }
                }
            }
        } else {
            // the vote names no listed member and is discarded
            proof {
                assert forall|i: int|
                    0 <= i < supports@.len() implies (#[trigger] supports@[i].0) != member by {
                    if i < pos {
                        assert(supports@[i].0 < member);
                    }
                }
            }
        }
        vi += 1;
    }
    proof {
        assert(voters@.take(voters@.len() as int) =~= voters@);
        assert forall|m: AccountId| members@.contains(m) implies spec_has_key(supports@, m) by {
            assert(spec_has_key(keyed, m));
            let k = choose|k: int| 0 <= k < keyed.len() && keyed[k].0 == m;
            assert(supports@[k].0 == m);
        }
        assert forall|i: int|
            0 <= i < supports@.len() implies members@.contains(#[trigger] supports@[i].0) by {
            assert(supports@[i].0 == keyed[i].0);
            assert(members@.contains(keyed[i].0));
        }
    }
    Ok(supports)
}

/// The genesis configuration of the elections logic: the initial member
/// list, the validators reserved from the next era on, and the committee
/// size.
pub struct GenesisConfig {
    pub members: Vec<AccountId>,
    pub next_era_reserved_validators: Vec<AccountId>,
    pub committee_size: u32,
}

impl Default for GenesisConfig {
    /// An empty chain starts with no members, no reserved validators and the
    /// default committee size.
    fn default() -> (r: GenesisConfig)
        ensures
            r.members@.len() == 0,
            r.next_era_reserved_validators@.len() == 0,
            r.committee_size == DEFAULT_COMMITTEE_SIZE,
    {
        GenesisConfig {
            members: Vec::new(),
            next_era_reserved_validators: Vec::new(),
            committee_size: DEFAULT_COMMITTEE_SIZE,
        }
    }
}

/// What the storage migration of the elections state writes, computed from
/// the member list the old storage held.
pub struct MigratedElections {
    pub members_per_session: u32,
    pub reserved_members: Vec<AccountId>,
    pub non_reserved_members: Vec<AccountId>,
    pub eras_members: (Vec<AccountId>, Vec<AccountId>),
}

/// The migration turns the old single member list into: a member count per
/// session, the same list as the reserved members, no non-reserved members,
/// and the pair of both as the era's members.
pub fn migrate(members: Vec<AccountId>) -> (r: MigratedElections)
    requires
        members@.len() <= u32::MAX,
    ensures
        r.members_per_session == members@.len(),
        r.reserved_members@ == members@,
        r.non_reserved_members@.len() == 0,
        r.eras_members.0@ == members@,
        r.eras_members.1@.len() == 0,
{
    let members_per_session = members.len() as u32;
    let reserved = members.clone();
    proof {
        assert(reserved@ =~= members@);
    }
    MigratedElections {
        members_per_session,
        reserved_members: reserved,
        non_reserved_members: Vec::new(),
        eras_members: (members, Vec::new()),
    }
}

} // verus!
