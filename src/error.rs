use vstd::prelude::*;

verus! {

/// Every way an instruction of the engine can be refused.
#[derive(Clone, Copy, Debug, PartialEq, Eq, Structural)]
pub enum ErrorCode {
    NotEnoughMembers,
    Unauthorized,
    AlreadyVoted,
    InvalidOption,
    VotingStillActive,
    ProposalNotFinalized,
    AlreadyFinalized,
    AlreadyExecuted,
    CapacityExceeded,
    MissingAccounts,
}

impl ErrorCode {
    /// The human-readable message of the error.
    pub fn message(&self) -> (r: &'static str)
        ensures
            *self is NotEnoughMembers ==> r@ == "Not Enough DAO Members"@,
            *self is Unauthorized ==> r@ == "Unauthorized"@,
            *self is AlreadyVoted ==> r@ == "Member has Already Voted"@,
            *self is InvalidOption ==> r@ == "Invalid option index"@,
            *self is VotingStillActive ==> r@ == "Voting period still active"@,
            *self is ProposalNotFinalized ==> r@ == "Proposal is not finalized"@,
            *self is AlreadyFinalized ==> r@ == "Proposal already finalized"@,
            *self is AlreadyExecuted ==> r@ == "Voting has already executed"@,
            *self is CapacityExceeded ==> r@ == "Input exceeds the record's capacity"@,
            *self is MissingAccounts ==> r@ == "Not enough accounts for the delegated action"@,
    {
        proof {
            reveal_strlit("Not Enough DAO Members");
            reveal_strlit("Unauthorized");
            reveal_strlit("Member has Already Voted");
            reveal_strlit("Invalid option index");
            reveal_strlit("Voting period still active");
            reveal_strlit("Proposal is not finalized");
            reveal_strlit("Proposal already finalized");
            reveal_strlit("Voting has already executed");
            reveal_strlit("Input exceeds the record's capacity");
            reveal_strlit("Not enough accounts for the delegated action");
        }
        match self {
            ErrorCode::NotEnoughMembers => "Not Enough DAO Members",
            ErrorCode::Unauthorized => "Unauthorized",
            ErrorCode::AlreadyVoted => "Member has Already Voted",
            ErrorCode::InvalidOption => "Invalid option index",
            ErrorCode::VotingStillActive => "Voting period still active",
            ErrorCode::ProposalNotFinalized => "Proposal is not finalized",
            ErrorCode::AlreadyFinalized => "Proposal already finalized",
            ErrorCode::AlreadyExecuted => "Voting has already executed",
            ErrorCode::CapacityExceeded => "Input exceeds the record's capacity",
            ErrorCode::MissingAccounts => "Not enough accounts for the delegated action",
        }
    }
}

} // verus!
