use vstd::prelude::*;
use crate::pubkey::Pubkey;

verus! {

/// Largest number of bytes in a title, a description, an option label or a payload.
pub const MAX_DATA_LEN: usize = 100;

/// Largest number of options of one proposal.
pub const MAX_OPTIONS: usize = 50;

/// Largest number of ballots one proposal record has room for.
pub const MAX_APPROVERS: usize = 50;

/// Length of the voting window, in seconds.
pub const VOTING_PERIOD: i64 = 100;

/// The option index that, once it wins, means "reject": nothing is executed.
pub const REJECT_OPTION: u8 = 1;

/// One of the mutually exclusive choices of a proposal, with its running tally.
pub struct ProposalOption {
    pub text: String,
    pub vote_count: u64,
}

/// One proposal: its content, voting window, options, ballots and outcome.
pub struct Proposal {
    pub dao: Pubkey,
    pub proposer: Pubkey,
    pub title: String,
    pub description: String,
    pub program_id: Pubkey,
    pub data: Vec<u8>,
    pub options: Vec<ProposalOption>,
    pub voters: Vec<Pubkey>,
    pub start_time: i64,
    pub end_time: i64,
    pub executed: bool,
    pub winner_index: Option<u8>,
}

/// Number of bytes of the UTF-8 encoding of `s`.
pub open spec fn byte_len(s: &String) -> nat {
    vstd::utf8::encode_utf8(s@).len()
}

/// The tallies of a sequence of options, in option order.
pub open spec fn tallies(options: Seq<ProposalOption>) -> Seq<u64> {
    options.map_values(|o: ProposalOption| o.vote_count)
}

/// `w` is the first index holding the largest tally; with no options it is 0.
pub open spec fn is_winner(t: Seq<u64>, w: int) -> bool {
    if t.len() == 0 {
        w == 0
    } else {
        &&& 0 <= w < t.len()
        &&& forall|j: int| 0 <= j < t.len() ==> t[j] <= t[w]
        &&& forall|j: int| 0 <= j < w ==> t[j] < t[w]
    }
}

/// A tally raised by one, staying at the largest value rather than wrapping.
pub open spec fn bumped(n: u64) -> u64 {
    if n == u64::MAX {
        n
    } else {
        (n + 1) as u64
    }
}

/// Each option label fits the reserved space.
pub open spec fn labels_fit(options: Seq<ProposalOption>) -> bool {
    forall|i: int| 0 <= i < options.len() ==> byte_len(&#[trigger] options[i].text) <= MAX_DATA_LEN
}

/// Whether each option label fits the reserved space.
pub fn labels_within(options: &Vec<ProposalOption>) -> (r: bool)
    ensures
        r == labels_fit(options@),
{
    let mut i: usize = 0;
    while i < options.len()
        invariant
            0 <= i <= options@.len(),
            forall|j: int| 0 <= j < i ==> byte_len(&#[trigger] options@[j].text) <= MAX_DATA_LEN,
        decreases options@.len() - i,
    {
        if text_len(&options[i].text) > MAX_DATA_LEN {
            return false;
        }
        i = i + 1;
    }
    true
}

/// Number of bytes in `s`.
pub fn text_len(s: &String) -> (r: usize)
    ensures
        r == byte_len(s),
{
    s.as_str().as_bytes().len()
}

impl Proposal {
    /// The proposal's tallies, in option order.
    pub open spec fn tally_seq(&self) -> Seq<u64> {
        tallies(self.options@)
    }

    /// The member `key` has cast a ballot on this proposal.
    pub open spec fn has_voted(&self, key: Pubkey) -> bool {
        self.voters@.contains(key)
    }

    /// Everything but the ballots and tallies is as in `other`.
    pub open spec fn same_content(&self, other: &Proposal) -> bool {
        &&& self.dao == other.dao
        &&& self.proposer == other.proposer
        &&& self.title@ == other.title@
        &&& self.description@ == other.description@
        &&& self.program_id == other.program_id
        &&& self.data@ == other.data@
        &&& self.start_time == other.start_time
        &&& self.end_time == other.end_time
    }

    /// Everything but the outcome and the executed flag is as in `other`.
    pub open spec fn same_ballots(&self, other: &Proposal) -> bool {
        &&& self.same_content(other)
        &&& self.options@ == other.options@
        &&& self.voters@ == other.voters@
    }

    /// The whole record is as in `other`.
    pub open spec fn same_record(&self, other: &Proposal) -> bool {
        &&& self.same_ballots(other)
        &&& self.executed == other.executed
        &&& self.winner_index == other.winner_index
    }

    /// Whether `key` has cast a ballot on this proposal.
    pub fn voted(&self, key: &Pubkey) -> (r: bool)
        ensures
            r == self.has_voted(*key),
    {
        let mut i: usize = 0;
        while i < self.voters.len()
            invariant
                0 <= i <= self.voters@.len(),
                forall|j: int| 0 <= j < i ==> self.voters@[j] != *key,
            decreases self.voters@.len() - i,
        {
            if self.voters[i] == *key {
                return true;
            }
            i = i + 1;
        }
        false
    }
}

/// The index of the first option with the largest tally (0 when all are zero
/// or there are none).
pub fn winning_option(options: &Vec<ProposalOption>) -> (w: usize)
    ensures
        is_winner(tallies(options@), w as int),
{
    let ghost t = tallies(options@);
    let mut max_votes: u64 = 0;
    let mut winner: usize = 0;
    let mut i: usize = 0;
    while i < options.len()
        invariant
            t == tallies(options@),
            0 <= i <= options@.len(),
            winner == 0 || winner < i,
            i == 0 ==> max_votes == 0 && winner == 0,
            i > 0 ==> t[winner as int] == max_votes,
            forall|j: int| 0 <= j < i ==> t[j] <= max_votes,
            forall|j: int| 0 <= j < winner ==> t[j] < max_votes,
        decreases options@.len() - i,
    {
        if options[i].vote_count > max_votes {
            max_votes = options[i].vote_count;
            winner = i;
        }
        i = i + 1;
    }
    winner
}

/// Bytes taken by a public key.
pub const KEY_BYTES: usize = 32;

/// Bytes of the length prefix of a string or a sequence.
pub const PREFIX_BYTES: usize = 4;

/// Largest serialized size of one option: a label and a tally.
pub const OPTION_LEN: usize = PREFIX_BYTES + MAX_DATA_LEN + 8;

/// Largest serialized size of a proposal record within capacity; storage for
/// a record is reserved at this size.
pub const PROPOSAL_LEN: usize = KEY_BYTES + KEY_BYTES + (PREFIX_BYTES + MAX_DATA_LEN) + (
PREFIX_BYTES + MAX_DATA_LEN) + KEY_BYTES + (PREFIX_BYTES + MAX_DATA_LEN) + (PREFIX_BYTES
    + MAX_OPTIONS * OPTION_LEN) + (PREFIX_BYTES + KEY_BYTES * MAX_APPROVERS) + 8 + 8 + 1 + 2;

/// Serialized size of a sequence of options, without its length prefix.
pub open spec fn options_len(o: Seq<ProposalOption>) -> nat
    decreases o.len(),
{
    if o.len() == 0 {
        0
    } else {
        (options_len(o.drop_last()) + PREFIX_BYTES + byte_len(&o.last().text) + 8) as nat
    }
}

proof fn lemma_options_len_bound(o: Seq<ProposalOption>)
    requires
        labels_fit(o),
    ensures
        options_len(o) <= o.len() * OPTION_LEN,
    decreases o.len(),
{
    if o.len() > 0 {
        let rest = o.drop_last();
        assert forall|i: int| 0 <= i < rest.len() implies byte_len(&#[trigger] rest[i].text)
            <= MAX_DATA_LEN by {
            assert(rest[i] == o[i]);
        }
        lemma_options_len_bound(rest);
        assert(byte_len(&o[o.len() - 1].text) <= MAX_DATA_LEN);
        assert(o.len() * OPTION_LEN == rest.len() * OPTION_LEN + OPTION_LEN) by (nonlinear_arith)
            requires
                rest.len() + 1 == o.len(),
        ;
    }
}

impl Proposal {
    /// The record fits the space reserved for it.
    pub open spec fn within_capacity(&self) -> bool {
        &&& byte_len(&self.title) <= MAX_DATA_LEN
        &&& byte_len(&self.description) <= MAX_DATA_LEN
        &&& self.data@.len() <= MAX_DATA_LEN
        &&& self.options@.len() <= MAX_OPTIONS
        &&& labels_fit(self.options@)
        &&& self.voters@.len() <= MAX_APPROVERS
    }

    /// Serialized size of the record: keys, length-prefixed texts and
    /// sequences, times, the flag and the optional outcome.
    pub open spec fn encoded_len(&self) -> nat {
        (KEY_BYTES + KEY_BYTES + (PREFIX_BYTES + byte_len(&self.title)) + (PREFIX_BYTES + byte_len(
            &self.description,
        )) + KEY_BYTES + (PREFIX_BYTES + self.data@.len()) + (PREFIX_BYTES + options_len(
            self.options@,
        )) + (PREFIX_BYTES + KEY_BYTES * self.voters@.len()) + 8 + 8 + 1 + (if self.winner_index
            is Some {
            2nat
        } else {
            1nat
        })) as nat
    }

    /// Whether the record fits the space reserved for it.
    pub fn fits_capacity(&self) -> (r: bool)
        ensures
            r == self.within_capacity(),
    {
        text_len(&self.title) <= MAX_DATA_LEN && text_len(&self.description) <= MAX_DATA_LEN
            && self.data.len() <= MAX_DATA_LEN && self.options.len() <= MAX_OPTIONS
            && labels_within(&self.options) && self.voters.len() <= MAX_APPROVERS
    }

    /// Serialized size of a record that fits its reserved space.
    pub fn serialized_len(&self) -> (r: usize)
        requires
            self.within_capacity(),
        ensures
            r == self.encoded_len(),
            r <= PROPOSAL_LEN,
    {
        let mut opts: usize = 0;
        let mut i: usize = 0;
        while i < self.options.len()
            invariant
                self.within_capacity(),
                0 <= i <= self.options@.len(),
                opts == options_len(self.options@.subrange(0, i as int)),
                opts <= i * OPTION_LEN,
            decreases self.options@.len() - i,
        {
            let ghost prefix = self.options@.subrange(0, i as int + 1);
            assert(prefix.drop_last() =~= self.options@.subrange(0, i as int));
            assert(byte_len(&self.options@[i as int].text) <= MAX_DATA_LEN);
            assert(i * OPTION_LEN <= MAX_OPTIONS * OPTION_LEN && (i + 1) * OPTION_LEN == i
                * OPTION_LEN + OPTION_LEN) by (nonlinear_arith)
                requires
                    i < MAX_OPTIONS,
            ;
            opts = opts + PREFIX_BYTES + text_len(&self.options[i].text) + 8;
            i = i + 1;
        }
        assert(self.options@.subrange(0, i as int) =~= self.options@);
        proof {
            lemma_options_len_bound(self.options@);
            assert(self.voters@.len() * KEY_BYTES <= MAX_APPROVERS * KEY_BYTES) by (nonlinear_arith)
                requires
                    self.voters@.len() <= MAX_APPROVERS,
            ;
            assert(self.options@.len() * OPTION_LEN <= MAX_OPTIONS * OPTION_LEN) by (nonlinear_arith)
                requires
                    self.options@.len() <= MAX_OPTIONS,
            ;
        }
        let outcome: usize = if self.winner_index.is_some() {
            2
        } else {
            1
        };
        KEY_BYTES + KEY_BYTES + (PREFIX_BYTES + text_len(&self.title)) + (PREFIX_BYTES + text_len(
            &self.description,
        )) + KEY_BYTES + (PREFIX_BYTES + self.data.len()) + (PREFIX_BYTES + opts) + (PREFIX_BYTES
            + KEY_BYTES * self.voters.len()) + 8 + 8 + 1 + outcome
    }
}

} // verus!
