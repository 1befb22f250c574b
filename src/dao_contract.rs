use vstd::prelude::*;
use crate::error::ErrorCode;
use crate::pubkey::Pubkey;
use crate::proposal::{
    byte_len, bumped, is_winner, labels_fit, labels_within, tallies, text_len, winning_option,
    Proposal,
    ProposalOption, MAX_DATA_LEN, MAX_OPTIONS, REJECT_OPTION, VOTING_PERIOD,
};
use crate::registry::DaoInfo;

verus! {

/// The smallest membership an organization may start with.
pub const MIN_MEMBERS: usize = 2;

/// The largest membership a registry record has room for.
pub const MAX_MEMBERS: usize = 9;

/// The accounts that `create_dao` works on.
pub struct CreateDao {
    pub daoinfo: DaoInfo,
    pub payer: Pubkey,
}

/// Fills a fresh registry with `members`, verbatim; at least `MIN_MEMBERS`
/// and at most `MAX_MEMBERS` are needed.
pub fn create_dao(ctx: &mut CreateDao, members: Vec<Pubkey>) -> (r: Result<(), ErrorCode>)
    ensures
        r is Err <==> members@.len() < MIN_MEMBERS || members@.len() > MAX_MEMBERS,
        members@.len() < MIN_MEMBERS <==> r == Err::<(), ErrorCode>(ErrorCode::NotEnoughMembers),
        members@.len() > MAX_MEMBERS <==> r == Err::<(), ErrorCode>(ErrorCode::CapacityExceeded),
        r is Err ==> *final(ctx) == *old(ctx),
        r is Ok ==> final(ctx).daoinfo.members@ == members@,
        final(ctx).payer == old(ctx).payer,
{
    if members.len() < MIN_MEMBERS {
        return Err(ErrorCode::NotEnoughMembers);
    }
    if members.len() > MAX_MEMBERS {
        return Err(ErrorCode::CapacityExceeded);
    }
    ctx.daoinfo.members = members;
    Ok(())
}

/// The accounts that `create_proposal` works on.
pub struct CreateProposal {
    pub proposal: Proposal,
    pub proposer: Pubkey,
    pub daoinfo: DaoInfo,
}

/// The inputs of a new proposal fit the record's reserved space.
pub open spec fn proposal_fits(
    title: &String,
    description: &String,
    data: Seq<u8>,
    options: Seq<ProposalOption>,
) -> bool {
    &&& byte_len(title) <= MAX_DATA_LEN
    &&& byte_len(description) <= MAX_DATA_LEN
    &&& data.len() <= MAX_DATA_LEN
    &&& options.len() <= MAX_OPTIONS
    &&& labels_fit(options)
}

/// Writes a fresh proposal, opened at `now`, when both the signer and the
/// recorded `proposer` are members of the registry and the inputs fit the
/// record.
pub fn create_proposal(
    ctx: &mut CreateProposal,
    dao_pubkey: Pubkey,
    title: String,
    description: String,
    program_id: Pubkey,
    data: Vec<u8>,
    options: Vec<ProposalOption>,
    proposer: Pubkey,
    now: i64,
) -> (r: Result<(), ErrorCode>)
    requires
        now <= i64::MAX - VOTING_PERIOD,
    ensures
        !(old(ctx).daoinfo.has_member(old(ctx).proposer) && old(ctx).daoinfo.has_member(proposer))
            <==> r == Err::<(), ErrorCode>(ErrorCode::Unauthorized),
        old(ctx).daoinfo.has_member(old(ctx).proposer) && old(ctx).daoinfo.has_member(proposer)
            && !proposal_fits(&title, &description, data@, options@) <==> r == Err::<
            (),
            ErrorCode,
        >(ErrorCode::CapacityExceeded),
        r is Ok <==> old(ctx).daoinfo.has_member(old(ctx).proposer) && old(ctx).daoinfo.has_member(
            proposer,
        ) && proposal_fits(&title, &description, data@, options@),
        r is Err ==> final(ctx).proposal.same_record(&old(ctx).proposal),
        final(ctx).proposer == old(ctx).proposer,
        final(ctx).daoinfo.members@ == old(ctx).daoinfo.members@,
        r is Ok ==> {
            let p = final(ctx).proposal;
            &&& p.dao == dao_pubkey
            &&& p.proposer == proposer
            &&& p.title@ == title@
            &&& p.description@ == description@
            &&& p.program_id == program_id
            &&& p.data@ == data@
            &&& p.options@ == options@
            &&& p.voters@.len() == 0
            &&& p.start_time == now
            &&& p.end_time == now + VOTING_PERIOD
            &&& !p.executed
            &&& p.winner_index is None
            &&& p.within_capacity()
            &&& final(ctx).daoinfo.has_member(p.proposer)
        },
{
    if !ctx.daoinfo.is_member(&ctx.proposer) || !ctx.daoinfo.is_member(&proposer) {
        return Err(ErrorCode::Unauthorized);
    }
    if text_len(&title) > MAX_DATA_LEN || text_len(&description) > MAX_DATA_LEN || data.len()
        > MAX_DATA_LEN || options.len() > MAX_OPTIONS || !labels_within(&options) {
        return Err(ErrorCode::CapacityExceeded);
    }
    ctx.proposal = Proposal {
        dao: dao_pubkey,
        proposer,
        title,
        description,
        program_id,
        data,
        options,
        voters: Vec::new(),
        start_time: now,
        end_time: now + VOTING_PERIOD,
        executed: false,
        winner_index: None,
    };
    Ok(())
}

/// The result that carries `e` as its error, or success when there is none.
pub open spec fn as_result(e: Option<ErrorCode>) -> Result<(), ErrorCode> {
    match e {
        Some(err) => Err(err),
        None => Ok(()),
    }
}

/// Why a ballot of `voter` for option `idx` is refused, checked in this order:
/// not a member, already voted, no such option.
pub open spec fn vote_error(dao: &DaoInfo, p: &Proposal, voter: Pubkey, idx: int) -> Option<
    ErrorCode,
> {
    if !dao.has_member(voter) {
        Some(ErrorCode::Unauthorized)
    } else if p.has_voted(voter) {
        Some(ErrorCode::AlreadyVoted)
    } else if !(0 <= idx < p.options@.len()) {
        Some(ErrorCode::InvalidOption)
    } else {
        None
    }
}

/// `q` is `p` with the ballot of `voter` for option `idx` recorded: the voter
/// joins the ballots and that option's tally rises by one, saturating.
pub open spec fn ballot_recorded(p: &Proposal, q: &Proposal, voter: Pubkey, idx: int) -> bool {
    &&& q.same_content(p)
    &&& q.executed == p.executed
    &&& q.winner_index == p.winner_index
    &&& q.voters@ == p.voters@.push(voter)
    &&& q.options@.len() == p.options@.len()
    &&& q.tally_seq() == p.tally_seq().update(idx, bumped(p.tally_seq()[idx]))
    &&& forall|i: int|
        0 <= i < q.options@.len() ==> (#[trigger] q.options@[i]).text@ == p.options@[i].text@
}

/// Why finalizing `p` at time `now` is refused: the window is still open, or
/// the outcome is already fixed.
pub open spec fn finalize_error(p: &Proposal, now: i64) -> Option<ErrorCode> {
    if now <= p.end_time {
        Some(ErrorCode::VotingStillActive)
    } else if p.winner_index is Some {
        Some(ErrorCode::AlreadyFinalized)
    } else {
        None
    }
}

/// `q` is `p` with its outcome fixed to the first option of largest tally.
pub open spec fn finalized(p: &Proposal, q: &Proposal) -> bool {
    &&& q.same_ballots(p)
    &&& q.executed == p.executed
    &&& (q.winner_index matches Some(w) && is_winner(p.tally_seq(), w as int))
}

/// Why the execution gate refuses `p`, handed `n_accounts` accounts.
pub open spec fn execute_error(p: &Proposal, n_accounts: int) -> Option<ErrorCode> {
    if p.winner_index is None {
        Some(ErrorCode::ProposalNotFinalized)
    } else if p.executed {
        Some(ErrorCode::AlreadyExecuted)
    } else if p.winner_index != Some(REJECT_OPTION) && n_accounts < ACTION_ACCOUNTS {
        Some(ErrorCode::MissingAccounts)
    } else {
        None
    }
}

/// `q` is `p` marked executed, and otherwise unchanged.
pub open spec fn marked_executed(p: &Proposal, q: &Proposal) -> bool {
    &&& q.same_ballots(p)
    &&& q.winner_index == p.winner_index
    &&& q.executed
}

/// The accounts that `vote` works on.
pub struct Vote {
    pub voter: Pubkey,
    pub daoinfo: DaoInfo,
    pub proposal: Proposal,
}

/// Records the signing voter's single ballot for option `option_index`.
pub fn vote(ctx: &mut Vote, option_index: u8) -> (r: Result<(), ErrorCode>)
    ensures
        r == as_result(vote_error(&old(ctx).daoinfo, &old(ctx).proposal, old(ctx).voter, option_index as int)),
        r is Err ==> final(ctx).proposal.same_record(&old(ctx).proposal),
        r is Ok ==> ballot_recorded(&old(ctx).proposal, &final(ctx).proposal, old(ctx).voter, option_index as int),
        final(ctx).voter == old(ctx).voter,
        final(ctx).daoinfo.members@ == old(ctx).daoinfo.members@,
{
    let voter = ctx.voter;
    if !ctx.daoinfo.is_member(&voter) {
        return Err(ErrorCode::Unauthorized);
    }
    if ctx.proposal.voted(&voter) {
        return Err(ErrorCode::AlreadyVoted);
    }
    let idx = option_index as usize;
    if idx >= ctx.proposal.options.len() {
        return Err(ErrorCode::InvalidOption);
    }
    let ghost before = ctx.proposal.options@;
    ctx.proposal.voters.push(voter);
    let mut chosen = ctx.proposal.options.remove(idx);
    chosen.vote_count = chosen.vote_count.saturating_add(1);
    ctx.proposal.options.insert(idx, chosen);
    assert(tallies(ctx.proposal.options@) =~= tallies(before).update(
        idx as int,
        bumped(tallies(before)[idx as int]),
    ));
    Ok(())
}

/// The accounts that `vote_count` works on.
pub struct FinalizeProposal {
    pub proposal: Proposal,
    pub daoinfo: DaoInfo,
}

/// Closes voting once the window has passed at time `now`, and fixes the
/// outcome: the first option with the largest tally.
pub fn vote_count(ctx: &mut FinalizeProposal, now: i64) -> (r: Result<(), ErrorCode>)
    requires
        old(ctx).proposal.options@.len() <= MAX_OPTIONS,
    ensures
        r == as_result(finalize_error(&old(ctx).proposal, now)),
        r is Err ==> final(ctx).proposal.same_record(&old(ctx).proposal),
        r is Ok ==> finalized(&old(ctx).proposal, &final(ctx).proposal),
        final(ctx).daoinfo.members@ == old(ctx).daoinfo.members@,
{
    if now <= ctx.proposal.end_time {
        return Err(ErrorCode::VotingStillActive);
    }
    if ctx.proposal.winner_index.is_some() {
        return Err(ErrorCode::AlreadyFinalized);
    }
    let winner = winning_option(&ctx.proposal.options);
    ctx.proposal.winner_index = Some(winner as u8);
    Ok(())
}

/// Number of accounts the delegated action takes, in this order: mint,
/// authority, destination, destination owner, payer, rent, system program,
/// token program, associated token program.
pub const ACTION_ACCOUNTS: usize = 9;

/// Position of the payer, the one signer among the action's accounts.
pub const PAYER_SLOT: usize = 4;

/// The action's account at `slot` may be written to.
pub open spec fn writable_slot(slot: int) -> bool {
    slot <= 2 || slot == PAYER_SLOT
}

/// One account handed to the delegated action, with its access rights.
#[derive(Clone, Copy, Debug)]
pub struct AccountMeta {
    pub pubkey: Pubkey,
    pub is_signer: bool,
    pub is_writable: bool,
}

/// A call of the delegated action: its program, accounts in order, and payload.
pub struct Invocation {
    pub program_id: Pubkey,
    pub accounts: Vec<AccountMeta>,
    pub data: Vec<u8>,
}

/// What remains to do once the execution gate has let a proposal through.
pub enum Execution {
    /// The winning option rejects the proposal: it is marked executed and
    /// nothing is invoked.
    Skipped,
    /// The action must be invoked; on success `complete_execution` marks the
    /// proposal executed.
    Invoke(Invocation),
}

/// The accounts that `execute_proposal` works on.
pub struct ExecuteProposal {
    pub proposal: Proposal,
    pub daoinfo: DaoInfo,
}

/// `inv` calls the proposal's action with the first accounts of `remaining`.
pub open spec fn is_action_call(p: &Proposal, remaining: Seq<Pubkey>, inv: &Invocation) -> bool {
    &&& inv.program_id == p.program_id
    &&& inv.data@ == p.data@
    &&& inv.accounts@.len() == ACTION_ACCOUNTS
    &&& forall|i: int|
        0 <= i < ACTION_ACCOUNTS ==> {
            let m = #[trigger] inv.accounts@[i];
            &&& m.pubkey == remaining[i]
            &&& m.is_signer == (i == PAYER_SLOT)
            &&& m.is_writable == writable_slot(i)
        }
}

fn action_accounts(remaining: &Vec<Pubkey>) -> (r: Vec<AccountMeta>)
    requires
        remaining@.len() >= ACTION_ACCOUNTS,
    ensures
        r@.len() == ACTION_ACCOUNTS,
        forall|i: int|
            0 <= i < ACTION_ACCOUNTS ==> {
                let m = #[trigger] r@[i];
                &&& m.pubkey == remaining@[i]
                &&& m.is_signer == (i == PAYER_SLOT)
                &&& m.is_writable == writable_slot(i)
            },
{
    let mut metas: Vec<AccountMeta> = Vec::new();
    let mut i: usize = 0;
    while i < ACTION_ACCOUNTS
        invariant
            0 <= i <= ACTION_ACCOUNTS,
            remaining@.len() >= ACTION_ACCOUNTS,
            metas@.len() == i,
            forall|j: int|
                0 <= j < i ==> {
                    let m = #[trigger] metas@[j];
                    &&& m.pubkey == remaining@[j]
                    &&& m.is_signer == (j == PAYER_SLOT)
                    &&& m.is_writable == writable_slot(j)
                },
        decreases ACTION_ACCOUNTS - i,
    {
        metas.push(
            AccountMeta {
                pubkey: remaining[i],
                is_signer: i == PAYER_SLOT,
                is_writable: i <= 2 || i == PAYER_SLOT,
            },
        );
        i = i + 1;
    }
    metas
}

fn copy_bytes(b: &Vec<u8>) -> (r: Vec<u8>)
    ensures
        r@ == b@,
{
    let mut out: Vec<u8> = Vec::new();
    let mut i: usize = 0;
    while i < b.len()
        invariant
            0 <= i <= b@.len(),
            out@ == b@.subrange(0, i as int),
        decreases b@.len() - i,
    {
        out.push(b[i]);
        i = i + 1;
        assert(out@ =~= b@.subrange(0, i as int));
    }
    assert(out@ =~= b@);
    out
}

/// The execution gate. A finalized, not yet executed proposal whose winning
/// option is the reject option is marked executed at once; any other winner
/// yields the call of the delegated action, built from the first
/// `ACTION_ACCOUNTS` of `remaining_accounts`, and leaves the record as it was.
pub fn execute_proposal(ctx: &mut ExecuteProposal, remaining_accounts: &Vec<Pubkey>) -> (r: Result<
    Execution,
    ErrorCode,
>)
    ensures
        r is Err <==> execute_error(&old(ctx).proposal, remaining_accounts@.len() as int) is Some,
        (r matches Err(e) ==> execute_error(&old(ctx).proposal, remaining_accounts@.len() as int)
            == Some(e)),
        (r matches Ok(Execution::Skipped)) <==> execute_error(
            &old(ctx).proposal,
            remaining_accounts@.len() as int,
        ) is None && old(ctx).proposal.winner_index == Some(REJECT_OPTION),
        (r matches Ok(Execution::Skipped)) ==> marked_executed(&old(ctx).proposal, &final(ctx).proposal),
        (r matches Ok(Execution::Invoke(inv)) ==> is_action_call(
            &old(ctx).proposal,
            remaining_accounts@,
            &inv,
        )),
        !(r matches Ok(Execution::Skipped)) ==> final(ctx).proposal.same_record(&old(ctx).proposal),
        final(ctx).daoinfo.members@ == old(ctx).daoinfo.members@,
{
    let winner = match ctx.proposal.winner_index {
        Some(w) => w,
        None => {
            return Err(ErrorCode::ProposalNotFinalized);
        },
    };
    if ctx.proposal.executed {
        return Err(ErrorCode::AlreadyExecuted);
    }
    if winner == REJECT_OPTION {
        ctx.proposal.executed = true;
        return Ok(Execution::Skipped);
    }
    if remaining_accounts.len() < ACTION_ACCOUNTS {
        return Err(ErrorCode::MissingAccounts);
    }
    let accounts = action_accounts(remaining_accounts);
    let data = copy_bytes(&ctx.proposal.data);
    Ok(Execution::Invoke(Invocation { program_id: ctx.proposal.program_id, accounts, data }))
}

/// Marks the proposal executed after its delegated action has succeeded; the
/// same gate as `execute_proposal` applies.
pub fn complete_execution(ctx: &mut ExecuteProposal) -> (r: Result<(), ErrorCode>)
    ensures
        r == as_result(execute_error(&old(ctx).proposal, ACTION_ACCOUNTS as int)),
        r is Err ==> final(ctx).proposal.same_record(&old(ctx).proposal),
        r is Ok ==> marked_executed(&old(ctx).proposal, &final(ctx).proposal),
        final(ctx).daoinfo.members@ == old(ctx).daoinfo.members@,
{
    if ctx.proposal.winner_index.is_none() {
        return Err(ErrorCode::ProposalNotFinalized);
    }
    if ctx.proposal.executed {
        return Err(ErrorCode::AlreadyExecuted);
    }
    ctx.proposal.executed = true;
    Ok(())
}

} // verus!
