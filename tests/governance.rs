use simple_dao::{
    complete_execution, create_dao, create_proposal, execute_proposal, text_len, vote, vote_count,
    winning_option, CreateDao, CreateProposal, DaoInfo, ErrorCode, ExecuteProposal, Execution,
    FinalizeProposal, Proposal, ProposalOption, Pubkey, Vote, ACTION_ACCOUNTS, MAX_MEMBERS,
    MAX_OPTIONS, PROPOSAL_LEN, VOTING_PERIOD,
};

fn key(n: u8) -> Pubkey {
    let mut bytes = [0u8; 32];
    bytes[0] = n;
    bytes[31] = n.wrapping_mul(7);
    Pubkey::new_from_array(bytes)
}

fn option(text: &str, votes: u64) -> ProposalOption {
    ProposalOption { text: text.to_string(), vote_count: votes }
}

fn blank_proposal() -> Proposal {
    Proposal {
        dao: key(0),
        proposer: key(0),
        title: String::new(),
        description: String::new(),
        program_id: key(0),
        data: Vec::new(),
        options: Vec::new(),
        voters: Vec::new(),
        start_time: 0,
        end_time: 0,
        executed: false,
        winner_index: None,
    }
}

fn registry(members: &[u8]) -> DaoInfo {
    let mut ctx = CreateDao { daoinfo: DaoInfo { members: Vec::new() }, payer: key(200) };
    create_dao(&mut ctx, members.iter().map(|m| key(*m)).collect()).unwrap();
    ctx.daoinfo
}

fn yes_no_proposal(members: &[u8], now: i64) -> Proposal {
    let mut ctx = CreateProposal {
        proposal: blank_proposal(),
        proposer: key(members[0]),
        daoinfo: registry(members),
    };
    create_proposal(
        &mut ctx,
        key(100),
        "Mint".to_string(),
        "Mint tokens to the treasury".to_string(),
        key(101),
        vec![1, 2, 3],
        vec![option("Yes", 0), option("No", 0)],
        key(members[0]),
        now,
    )
    .unwrap();
    ctx.proposal
}

fn cast(members: &[u8], proposal: Proposal, voter: u8, idx: u8) -> (Proposal, Result<(), ErrorCode>) {
    let mut ctx = Vote { voter: key(voter), daoinfo: registry(members), proposal };
    let r = vote(&mut ctx, idx);
    (ctx.proposal, r)
}

fn finalize(proposal: Proposal, now: i64) -> (Proposal, Result<(), ErrorCode>) {
    let mut ctx = FinalizeProposal { proposal, daoinfo: registry(&[1, 2]) };
    let r = vote_count(&mut ctx, now);
    (ctx.proposal, r)
}

fn tallies(p: &Proposal) -> Vec<u64> {
    p.options.iter().map(|o| o.vote_count).collect()
}

fn remaining() -> Vec<Pubkey> {
    (10..10 + ACTION_ACCOUNTS as u8).map(key).collect()
}

#[test]
fn create_dao_needs_two_members() {
    for n in 0..2u8 {
        let mut ctx = CreateDao { daoinfo: DaoInfo { members: vec![key(9)] }, payer: key(200) };
        let r = create_dao(&mut ctx, (0..n).map(key).collect());
        assert_eq!(r, Err(ErrorCode::NotEnoughMembers));
        assert!(ctx.daoinfo.members == vec![key(9)]);
    }
    for n in 2..5u8 {
        let mut ctx = CreateDao { daoinfo: DaoInfo { members: Vec::new() }, payer: key(200) };
        let members: Vec<Pubkey> = (0..n).map(key).collect();
        assert_eq!(create_dao(&mut ctx, members.clone()), Ok(()));
        assert!(ctx.daoinfo.members == members);
    }
}

#[test]
fn create_dao_keeps_duplicates() {
    let mut ctx = CreateDao { daoinfo: DaoInfo { members: Vec::new() }, payer: key(200) };
    assert_eq!(create_dao(&mut ctx, vec![key(1), key(1)]), Ok(()));
    assert_eq!(ctx.daoinfo.members.len(), 2);
}

#[test]
fn is_member_compares_all_bytes() {
    let dao = registry(&[1, 2]);
    assert!(dao.is_member(&key(1)));
    assert!(!dao.is_member(&key(3)));
    let mut bytes = key(1).to_bytes();
    bytes[17] = 1;
    assert!(!dao.is_member(&Pubkey::new_from_array(bytes)));
}

#[test]
fn create_proposal_sets_the_window() {
    let p = yes_no_proposal(&[1, 2, 3], 1_000);
    assert_eq!(p.start_time, 1_000);
    assert_eq!(p.end_time, 1_000 + VOTING_PERIOD);
    assert_eq!(p.end_time, 1_100);
    assert!(!p.executed);
    assert_eq!(p.winner_index, None);
    assert!(p.voters.is_empty());
    assert_eq!(p.title, "Mint");
    assert_eq!(p.data, vec![1, 2, 3]);
    assert!(p.dao == key(100));
    assert!(p.program_id == key(101));
    assert_eq!(tallies(&p), vec![0, 0]);
}

#[test]
fn create_proposal_by_non_member_is_unauthorized() {
    let mut ctx = CreateProposal {
        proposal: blank_proposal(),
        proposer: key(7),
        daoinfo: registry(&[1, 2]),
    };
    let r = create_proposal(
        &mut ctx,
        key(100),
        "t".to_string(),
        "d".to_string(),
        key(101),
        Vec::new(),
        vec![option("Yes", 0)],
        key(1),
        5,
    );
    assert_eq!(r, Err(ErrorCode::Unauthorized));
    assert_eq!(ctx.proposal.title, "");
}

#[test]
fn create_proposal_rejects_oversized_inputs() {
    let attempt = |title: String, data: Vec<u8>, options: Vec<ProposalOption>| {
        let mut ctx = CreateProposal {
            proposal: blank_proposal(),
            proposer: key(1),
            daoinfo: registry(&[1, 2]),
        };
        create_proposal(&mut ctx, key(100), title, "d".to_string(), key(101), data, options, key(1), 5)
    };
    assert_eq!(attempt("a".repeat(100), vec![0; 100], vec![option(&"b".repeat(100), 0)]), Ok(()));
    assert_eq!(attempt("a".repeat(101), Vec::new(), Vec::new()), Err(ErrorCode::CapacityExceeded));
    // fifty-one bytes of two-byte characters
    assert_eq!(attempt("é".repeat(51), Vec::new(), Vec::new()), Err(ErrorCode::CapacityExceeded));
    assert_eq!(attempt("t".to_string(), vec![0; 101], Vec::new()), Err(ErrorCode::CapacityExceeded));
    let many: Vec<ProposalOption> = (0..MAX_OPTIONS + 1).map(|_| option("o", 0)).collect();
    assert_eq!(attempt("t".to_string(), Vec::new(), many), Err(ErrorCode::CapacityExceeded));
    let full: Vec<ProposalOption> = (0..MAX_OPTIONS).map(|_| option("o", 0)).collect();
    assert_eq!(attempt("t".to_string(), Vec::new(), full), Ok(()));
    assert_eq!(
        attempt("t".to_string(), Vec::new(), vec![option("ok", 0), option(&"x".repeat(101), 0)]),
        Err(ErrorCode::CapacityExceeded)
    );
}

#[test]
fn create_proposal_keeps_supplied_tallies() {
    let mut ctx = CreateProposal {
        proposal: blank_proposal(),
        proposer: key(1),
        daoinfo: registry(&[1, 2]),
    };
    let r = create_proposal(
        &mut ctx,
        key(100),
        "t".to_string(),
        "d".to_string(),
        key(101),
        Vec::new(),
        vec![option("Yes", 4), option("No", 2)],
        key(1),
        5,
    );
    assert_eq!(r, Ok(()));
    assert_eq!(tallies(&ctx.proposal), vec![4, 2]);
}

#[test]
fn text_len_counts_bytes() {
    assert_eq!(text_len(&String::new()), 0);
    assert_eq!(text_len(&"abc".to_string()), 3);
    assert_eq!(text_len(&"é".to_string()), 2);
}

#[test]
fn vote_by_non_member_is_unauthorized() {
    let members = [1, 2, 3];
    let p = yes_no_proposal(&members, 0);
    let (p, r) = cast(&members, p, 9, 0);
    assert_eq!(r, Err(ErrorCode::Unauthorized));
    let (p, _) = cast(&members, p, 1, 0);
    let (p, r) = cast(&members, p, 9, 1);
    assert_eq!(r, Err(ErrorCode::Unauthorized));
    let (p, r) = cast(&members, p, 9, 7);
    assert_eq!(r, Err(ErrorCode::Unauthorized));
    assert_eq!(tallies(&p), vec![1, 0]);
    assert_eq!(p.voters.len(), 1);
}

#[test]
fn member_votes_only_once() {
    let members = [1, 2, 3];
    let p = yes_no_proposal(&members, 0);
    let (p, r) = cast(&members, p, 2, 0);
    assert_eq!(r, Ok(()));
    assert!(p.voted(&key(2)));
    let (p, r) = cast(&members, p, 2, 0);
    assert_eq!(r, Err(ErrorCode::AlreadyVoted));
    let (p, r) = cast(&members, p, 2, 1);
    assert_eq!(r, Err(ErrorCode::AlreadyVoted));
    let (p, r) = cast(&members, p, 2, 9);
    assert_eq!(r, Err(ErrorCode::AlreadyVoted));
    assert_eq!(tallies(&p), vec![1, 0]);
}

#[test]
fn vote_for_missing_option_is_invalid() {
    let members = [1, 2, 3];
    let p = yes_no_proposal(&members, 0);
    for idx in [2u8, 3, 50, 255] {
        let (q, r) = cast(&members, yes_no_proposal(&members, 0), 1, idx);
        assert_eq!(r, Err(ErrorCode::InvalidOption));
        assert_eq!(tallies(&q), vec![0, 0]);
        assert!(q.voters.is_empty());
    }
    let (p, r) = cast(&members, p, 1, 1);
    assert_eq!(r, Ok(()));
    assert_eq!(tallies(&p), vec![0, 1]);
}

#[test]
fn vote_tally_saturates() {
    let members = [1, 2];
    let mut p = yes_no_proposal(&members, 0);
    p.options[0].vote_count = u64::MAX;
    let (p, r) = cast(&members, p, 1, 0);
    assert_eq!(r, Ok(()));
    assert_eq!(tallies(&p), vec![u64::MAX, 0]);
    assert_eq!(p.options[0].text, "Yes");
}

#[test]
fn votes_are_accepted_after_the_window() {
    let members = [1, 2];
    let p = yes_no_proposal(&members, 0);
    let (p, r) = finalize(p, 500);
    assert_eq!(r, Ok(()));
    let (p, r) = cast(&members, p, 1, 1);
    assert_eq!(r, Ok(()));
    assert_eq!(tallies(&p), vec![0, 1]);
    assert_eq!(p.winner_index, Some(0));
}

#[test]
fn finalize_waits_for_the_window_and_runs_once() {
    let members = [1, 2, 3];
    let p = yes_no_proposal(&members, 1_000);
    let (p, _) = cast(&members, p, 1, 1);
    let (p, r) = finalize(p, 1_000);
    assert_eq!(r, Err(ErrorCode::VotingStillActive));
    let (p, r) = finalize(p, 1_100);
    assert_eq!(r, Err(ErrorCode::VotingStillActive));
    assert_eq!(p.winner_index, None);
    let (p, r) = finalize(p, 1_101);
    assert_eq!(r, Ok(()));
    assert_eq!(p.winner_index, Some(1));
    let (p, _) = cast(&members, p, 2, 0);
    let (p, _) = cast(&members, p, 3, 0);
    let (p, r) = finalize(p, 2_000);
    assert_eq!(r, Err(ErrorCode::AlreadyFinalized));
    assert_eq!(p.winner_index, Some(1));
}

#[test]
fn winner_ties_go_to_the_lowest_index() {
    let opts = |t: &[u64]| t.iter().map(|v| option("o", *v)).collect::<Vec<_>>();
    assert_eq!(winning_option(&opts(&[3, 3, 1])), 0);
    assert_eq!(winning_option(&opts(&[0, 0, 0])), 0);
    assert_eq!(winning_option(&opts(&[1, 5, 5])), 1);
    assert_eq!(winning_option(&opts(&[])), 0);
    assert_eq!(winning_option(&opts(&[0, 0, 2])), 2);
    assert_eq!(winning_option(&opts(&[u64::MAX, 1, u64::MAX])), 0);
}

#[test]
fn execute_before_finalize_is_refused() {
    let p = yes_no_proposal(&[1, 2], 0);
    let mut ctx = ExecuteProposal { proposal: p, daoinfo: registry(&[1, 2]) };
    assert!(matches!(execute_proposal(&mut ctx, &remaining()), Err(ErrorCode::ProposalNotFinalized)));
    assert_eq!(complete_execution(&mut ctx), Err(ErrorCode::ProposalNotFinalized));
    assert!(!ctx.proposal.executed);
}

#[test]
fn execute_builds_the_action_call_once() {
    let p = yes_no_proposal(&[1, 2], 0);
    let (p, _) = finalize(p, 101);
    assert_eq!(p.winner_index, Some(0));
    let mut ctx = ExecuteProposal { proposal: p, daoinfo: registry(&[1, 2]) };
    let keys = remaining();
    match execute_proposal(&mut ctx, &keys) {
        Ok(Execution::Invoke(inv)) => {
            assert!(inv.program_id == key(101));
            assert_eq!(inv.data, vec![1, 2, 3]);
            assert_eq!(inv.accounts.len(), 9);
            for (i, m) in inv.accounts.iter().enumerate() {
                assert!(m.pubkey == keys[i]);
                assert_eq!(m.is_signer, i == 4);
                assert_eq!(m.is_writable, i <= 2 || i == 4);
            }
        }
        _ => panic!("expected an invocation"),
    }
    // the action has not run yet: nothing is marked
    assert!(!ctx.proposal.executed);
    assert_eq!(complete_execution(&mut ctx), Ok(()));
    assert!(ctx.proposal.executed);
    assert!(matches!(execute_proposal(&mut ctx, &keys), Err(ErrorCode::AlreadyExecuted)));
    assert_eq!(complete_execution(&mut ctx), Err(ErrorCode::AlreadyExecuted));
}

#[test]
fn execute_takes_only_the_first_nine_accounts() {
    let p = yes_no_proposal(&[1, 2], 0);
    let (p, _) = finalize(p, 101);
    let mut ctx = ExecuteProposal { proposal: p, daoinfo: registry(&[1, 2]) };
    let mut keys = remaining();
    keys.push(key(250));
    match execute_proposal(&mut ctx, &keys) {
        Ok(Execution::Invoke(inv)) => {
            assert_eq!(inv.accounts.len(), 9);
            assert!(inv.accounts[8].pubkey == keys[8]);
        }
        _ => panic!("expected an invocation"),
    }
}

#[test]
fn execute_needs_every_action_account() {
    let p = yes_no_proposal(&[1, 2], 0);
    let (p, _) = finalize(p, 101);
    let mut ctx = ExecuteProposal { proposal: p, daoinfo: registry(&[1, 2]) };
    let mut keys = remaining();
    keys.pop();
    assert!(matches!(execute_proposal(&mut ctx, &keys), Err(ErrorCode::MissingAccounts)));
    assert!(!ctx.proposal.executed);
}

#[test]
fn failed_action_leaves_proposal_unexecuted() {
    let p = yes_no_proposal(&[1, 2], 0);
    let (p, _) = finalize(p, 101);
    let mut ctx = ExecuteProposal { proposal: p, daoinfo: registry(&[1, 2]) };
    assert!(matches!(execute_proposal(&mut ctx, &remaining()), Ok(Execution::Invoke(_))));
    // the invocation failed, so completion is never reported; a retry is let through
    assert!(!ctx.proposal.executed);
    assert!(matches!(execute_proposal(&mut ctx, &remaining()), Ok(Execution::Invoke(_))));
}

#[test]
fn yes_outcome_triggers_the_action() {
    let members = [1, 2, 3];
    let p = yes_no_proposal(&members, 0);
    let (p, r1) = cast(&members, p, 1, 0);
    let (p, r2) = cast(&members, p, 2, 0);
    let (p, r3) = cast(&members, p, 3, 1);
    assert_eq!((r1, r2, r3), (Ok(()), Ok(()), Ok(())));
    let (p, r) = finalize(p, VOTING_PERIOD + 1);
    assert_eq!(r, Ok(()));
    assert_eq!(p.winner_index, Some(0));
    let mut ctx = ExecuteProposal { proposal: p, daoinfo: registry(&members) };
    let mut invocations = 0;
    if let Ok(Execution::Invoke(_)) = execute_proposal(&mut ctx, &remaining()) {
        invocations += 1;
        assert_eq!(complete_execution(&mut ctx), Ok(()));
    }
    assert!(matches!(execute_proposal(&mut ctx, &remaining()), Err(ErrorCode::AlreadyExecuted)));
    assert_eq!(invocations, 1);
    assert!(ctx.proposal.executed);
}

#[test]
fn no_outcome_marks_executed_without_action() {
    let members = [1, 2, 3];
    let p = yes_no_proposal(&members, 0);
    let (p, _) = cast(&members, p, 1, 1);
    let (p, _) = cast(&members, p, 2, 1);
    let (p, _) = cast(&members, p, 3, 1);
    let (p, r) = finalize(p, VOTING_PERIOD + 1);
    assert_eq!(r, Ok(()));
    assert_eq!(p.winner_index, Some(1));
    let mut ctx = ExecuteProposal { proposal: p, daoinfo: registry(&members) };
    // no accounts are needed for a rejected proposal
    assert!(matches!(execute_proposal(&mut ctx, &Vec::new()), Ok(Execution::Skipped)));
    assert!(ctx.proposal.executed);
    assert!(matches!(execute_proposal(&mut ctx, &Vec::new()), Err(ErrorCode::AlreadyExecuted)));
}

#[test]
fn error_messages() {
    assert_eq!(ErrorCode::NotEnoughMembers.message(), "Not Enough DAO Members");
    assert_eq!(ErrorCode::AlreadyExecuted.message(), "Voting has already executed");
    assert_eq!(ErrorCode::InvalidOption.message(), "Invalid option index");
}

#[test]
fn serialized_len_of_records() {
    let p = yes_no_proposal(&[1, 2], 0);
    assert!(p.fits_capacity());
    // keys 32 * 3, "Mint" 4 + 4, description 4 + 27, data 4 + 3,
    // options 4 + (4 + 3 + 8) + (4 + 2 + 8), voters 4, times 16, flag 1, outcome 1
    assert_eq!(p.serialized_len(), 96 + 8 + 31 + 7 + 33 + 4 + 16 + 1 + 1);
    let (p, _) = cast(&[1, 2], p, 1, 0);
    let (p, _) = finalize(p, 101);
    assert_eq!(p.serialized_len(), 96 + 8 + 31 + 7 + 33 + 36 + 16 + 1 + 2);
    assert_eq!(PROPOSAL_LEN, 32 * 3 + 104 * 3 + 4 + 50 * 112 + 4 + 32 * 50 + 16 + 1 + 2);
    assert!(p.serialized_len() <= PROPOSAL_LEN);
}

#[test]
fn fits_capacity_checks_every_bound() {
    let mut p = yes_no_proposal(&[1, 2], 0);
    p.voters = (0..51).map(key).collect();
    assert!(!p.fits_capacity());
    let mut p = yes_no_proposal(&[1, 2], 0);
    p.options[1].text = "n".repeat(101);
    assert!(!p.fits_capacity());
    let mut p = yes_no_proposal(&[1, 2], 0);
    p.description = "d".repeat(101);
    assert!(!p.fits_capacity());
}

#[test]
fn create_dao_refuses_too_many_members() {
    let mut ctx = CreateDao { daoinfo: DaoInfo { members: Vec::new() }, payer: key(200) };
    let nine: Vec<Pubkey> = (0..MAX_MEMBERS as u8).map(key).collect();
    assert_eq!(nine.len(), 9);
    assert_eq!(create_dao(&mut ctx, nine.clone()), Ok(()));
    assert!(ctx.daoinfo.members == nine);
    let mut ctx = CreateDao { daoinfo: DaoInfo { members: vec![key(9)] }, payer: key(200) };
    let ten: Vec<Pubkey> = (0..10u8).map(key).collect();
    assert_eq!(create_dao(&mut ctx, ten), Err(ErrorCode::CapacityExceeded));
    assert!(ctx.daoinfo.members == vec![key(9)]);
}

#[test]
fn create_proposal_for_non_member_proposer_is_unauthorized() {
    let mut ctx = CreateProposal {
        proposal: blank_proposal(),
        proposer: key(1),
        daoinfo: registry(&[1, 2]),
    };
    let r = create_proposal(
        &mut ctx,
        key(100),
        "t".to_string(),
        "d".to_string(),
        key(101),
        Vec::new(),
        vec![option("Yes", 0)],
        key(7),
        5,
    );
    assert_eq!(r, Err(ErrorCode::Unauthorized));
    assert_eq!(ctx.proposal.title, "");
    // a member may record another member as proposer
    let r = create_proposal(
        &mut ctx,
        key(100),
        "t".to_string(),
        "d".to_string(),
        key(101),
        Vec::new(),
        vec![option("Yes", 0)],
        key(2),
        5,
    );
    assert_eq!(r, Ok(()));
    assert!(ctx.proposal.proposer == key(2));
}

#[test]
fn every_error_has_its_message() {
    assert_eq!(ErrorCode::Unauthorized.message(), "Unauthorized");
    assert_eq!(ErrorCode::AlreadyVoted.message(), "Member has Already Voted");
    assert_eq!(ErrorCode::VotingStillActive.message(), "Voting period still active");
    assert_eq!(ErrorCode::ProposalNotFinalized.message(), "Proposal is not finalized");
    assert_eq!(ErrorCode::AlreadyFinalized.message(), "Proposal already finalized");
    assert_eq!(ErrorCode::CapacityExceeded.message(), "Input exceeds the record's capacity");
    assert_eq!(ErrorCode::MissingAccounts.message(), "Not enough accounts for the delegated action");
}
