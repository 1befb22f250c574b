//! A small on-ledger governance engine: a fixed membership list, proposals
//! with mutually exclusive options, one ballot per member, time-gated
//! finalization and a single gated execution of a delegated action.
mod dao_contract;
mod error;
mod laws;
mod proposal;
mod pubkey;
mod registry;

pub use dao_contract::{
    complete_execution, create_dao, create_proposal, execute_proposal, vote, vote_count,
    AccountMeta, CreateDao, CreateProposal, ExecuteProposal, Execution, FinalizeProposal,
    Invocation, Vote, ACTION_ACCOUNTS, MAX_MEMBERS, MIN_MEMBERS, PAYER_SLOT,
};
pub use dao_contract::{
    as_result, ballot_recorded, execute_error, finalize_error, finalized, is_action_call,
    marked_executed, proposal_fits, vote_error, writable_slot,
};
pub use error::ErrorCode;
pub use proposal::{bumped, byte_len, is_winner, labels_fit, labels_within, options_len, tallies};
pub use proposal::{
    text_len, winning_option, Proposal, ProposalOption, KEY_BYTES, MAX_APPROVERS, MAX_DATA_LEN,
    MAX_OPTIONS, OPTION_LEN, PREFIX_BYTES, PROPOSAL_LEN, REJECT_OPTION, VOTING_PERIOD,
};
pub use pubkey::Pubkey;
pub use registry::DaoInfo;
pub use laws::{
    lemma_ballot_kept, lemma_execute_needs_outcome, lemma_execute_once, lemma_finalize_once,
    lemma_finalized_can_execute, lemma_non_member_refused, lemma_out_of_range_option,
    lemma_single_ballot, lemma_winner_unique, lemma_ballots_within_capacity,
    lemma_outcome_survives_votes,
};
