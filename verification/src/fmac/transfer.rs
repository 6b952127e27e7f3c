//! The polling protocol that moves one sample into or out of a running
//! filter.
//!
//! A [`Transfer`] is a small state machine. In each state it asks for one
//! register access ([`Transfer::action`]); the owner of the register block
//! performs it and hands the reply back ([`Transfer::advance`]). The
//! machine never touches hardware itself, so what it may ask for, and
//! when, is proved here once for every reply the hardware can give.

use vstd::prelude::*;
use crate::fmac::sample::Sample;

verus! {

/// The condition a non-blocking write reports instead of storing a sample.
#[derive(Clone, Copy, Debug, PartialEq, Eq, Structural)]
pub enum FmacError {
    /// The input buffer has no free slot.
    X1Full,
}

/// The status flags the protocol consumes.
#[derive(Clone, Copy, Debug, PartialEq, Eq, Structural)]
pub struct Status {
    /// The input buffer cannot take another sample.
    pub x1_full: bool,
    /// The output buffer holds no result.
    pub y_empty: bool,
}

/// How a transfer ended.
#[derive(Clone, Copy, Debug, PartialEq, Eq, Structural)]
pub enum Outcome {
    /// A non-blocking read found no result.
    Empty,
    /// A read took this result.
    Sample(Sample),
    /// A write stored its sample.
    Written,
    /// A non-blocking write was refused.
    Refused(FmacError),
}

/// The register access a transfer asks for next.
#[derive(Clone, Copy, Debug, PartialEq, Eq, Structural)]
pub enum Action {
    /// Read the status register and reply with [`Reply::Status`].
    ReadStatus,
    /// Write this word to the write-data register, once, and reply with
    /// [`Reply::Written`].
    WriteData(u16),
    /// Read the read-data register, once, and reply with [`Reply::Data`].
    ReadData,
    /// Nothing more to do: the transfer ended with this outcome.
    Done(Outcome),
}

/// What the hardware answered to an [`Action`].
#[derive(Clone, Copy, Debug, PartialEq, Eq, Structural)]
pub enum Reply {
    /// The flags read from the status register.
    Status(Status),
    /// The write-data register has been written.
    Written,
    /// The word read from the read-data register.
    Data(u16),
}

/// One transfer in progress.
#[derive(Clone, Copy, Debug, PartialEq, Eq, Structural)]
pub enum Transfer {
    /// Waiting to learn whether the input buffer has room for `word`.
    /// A `blocking` transfer polls until it has; a `compute` transfer
    /// goes on to wait for the result once the word is stored.
    AwaitSpace { word: u16, blocking: bool, compute: bool },
    /// The input buffer has room: `word` is to be stored.
    Store { word: u16, compute: bool },
    /// Waiting to learn whether the output buffer holds a result. A
    /// `blocking` transfer polls until it does.
    AwaitResult { blocking: bool },
    /// The output buffer holds a result: it is to be taken.
    Fetch,
    /// The transfer is over.
    Finished(Outcome),
}

impl Transfer {
    /// A non-blocking read.
    pub open spec fn spec_read() -> Transfer {
        Transfer::AwaitResult { blocking: false }
    }

    /// A read that polls until a result is there.
    pub open spec fn spec_read_blocking() -> Transfer {
        Transfer::AwaitResult { blocking: true }
    }

    /// A non-blocking write of `value`.
    pub open spec fn spec_write(value: Sample) -> Transfer {
        Transfer::AwaitSpace { word: value.word(), blocking: false, compute: false }
    }

    /// A write of `value` that polls until the input buffer has room.
    pub open spec fn spec_write_blocking(value: Sample) -> Transfer {
        Transfer::AwaitSpace { word: value.word(), blocking: true, compute: false }
    }

    /// A blocking write of `value` followed by a blocking read.
    pub open spec fn spec_compute_blocking(value: Sample) -> Transfer {
        Transfer::AwaitSpace { word: value.word(), blocking: true, compute: true }
    }

    /// The access the transfer asks for in this state.
    pub open spec fn spec_action(&self) -> Action {
        match *self {
            Transfer::AwaitSpace { .. } => Action::ReadStatus,
            Transfer::Store { word, .. } => Action::WriteData(word),
            Transfer::AwaitResult { .. } => Action::ReadStatus,
            Transfer::Fetch => Action::ReadData,
            Transfer::Finished(outcome) => Action::Done(outcome),
        }
    }

    /// Whether `reply` is an answer to the access this state asks for.
    pub open spec fn expects(self, reply: Reply) -> bool {
        match self.spec_action() {
            Action::ReadStatus => reply is Status,
            Action::WriteData(_) => reply is Written,
            Action::ReadData => reply is Data,
            Action::Done(_) => false,
        }
    }

    /// The state after `reply`. A reply that does not answer the pending
    /// access leaves the state as it is.
    pub open spec fn spec_next(self, reply: Reply) -> Transfer {
        match (self, reply) {
            (Transfer::AwaitSpace { word, blocking, compute }, Reply::Status(status)) => {
                if !status.x1_full {
                    Transfer::Store { word, compute }
                } else if blocking {
                    self
                } else {
                    Transfer::Finished(Outcome::Refused(FmacError::X1Full))
                }
            },
            (Transfer::Store { compute, .. }, Reply::Written) => {
                if compute {
                    Transfer::AwaitResult { blocking: true }
                } else {
                    Transfer::Finished(Outcome::Written)
                }
            },
            (Transfer::AwaitResult { blocking }, Reply::Status(status)) => {
                if !status.y_empty {
                    Transfer::Fetch
                } else if blocking {
                    self
                } else {
                    Transfer::Finished(Outcome::Empty)
                }
            },
            (Transfer::Fetch, Reply::Data(word)) => Transfer::Finished(
                Outcome::Sample(Sample::spec_from_word(word)),
            ),
            _ => self,
        }
    }

    /// The access the transfer asks for next.
    #[verifier::when_used_as_spec(spec_action)]
    pub fn action(&self) -> (a: Action)
        ensures
            a == self.spec_action(),
    {
        match self {
            Transfer::AwaitSpace { .. } => Action::ReadStatus,
            Transfer::Store { word, .. } => Action::WriteData(*word),
            Transfer::AwaitResult { .. } => Action::ReadStatus,
            Transfer::Fetch => Action::ReadData,
            Transfer::Finished(outcome) => Action::Done(*outcome),
        }
    }

    /// Takes the hardware's reply to the pending access and moves on.
    pub fn advance(&mut self, reply: Reply)
        ensures
            *final(self) == old(self).spec_next(reply),
    {
        let next = match (*self, reply) {
            (Transfer::AwaitSpace { word, blocking, compute }, Reply::Status(status)) => {
                if !status.x1_full {
                    Transfer::Store { word, compute }
                } else if blocking {
                    *self
                } else {
                    Transfer::Finished(Outcome::Refused(FmacError::X1Full))
                }
            },
            (Transfer::Store { compute, .. }, Reply::Written) => {
                if compute {
                    Transfer::AwaitResult { blocking: true }
                } else {
                    Transfer::Finished(Outcome::Written)
                }
            },
            (Transfer::AwaitResult { blocking }, Reply::Status(status)) => {
                if !status.y_empty {
                    Transfer::Fetch
                } else if blocking {
                    *self
                } else {
                    Transfer::Finished(Outcome::Empty)
                }
            },
            (Transfer::Fetch, Reply::Data(word)) => Transfer::Finished(
                Outcome::Sample(Sample::from_word(word)),
            ),
            _ => *self,
        };
        *self = next;
    }

    /// The outcome, once the transfer is over.
    pub fn outcome(&self) -> (o: Option<Outcome>)
        ensures
            o == match *self {
                Transfer::Finished(outcome) => Some(outcome),
                _ => None,
            },
    {
        match self {
            Transfer::Finished(outcome) => Some(*outcome),
            _ => None,
        }
    }
}

impl Transfer {
    /// The state after the replies of `replies`, taken one by one.
    pub open spec fn run(self, replies: Seq<Reply>) -> Transfer
        decreases replies.len(),
    {
        if replies.len() == 0 {
            self
        } else {
            self.spec_next(replies[0]).run(replies.drop_first())
        }
    }

    /// Whether each reply of `replies` answers the access that is pending
    /// when it comes.
    pub open spec fn answered_by(self, replies: Seq<Reply>) -> bool
        decreases replies.len(),
    {
        replies.len() == 0 || (self.expects(replies[0]) && self.spec_next(replies[0]).answered_by(
            replies.drop_first(),
        ))
    }

    /// The accesses asked for while `replies` come in: the access pending
    /// before each reply.
    pub open spec fn accesses(self, replies: Seq<Reply>) -> Seq<Action>
        decreases replies.len(),
    {
        if replies.len() == 0 {
            Seq::<Action>::empty()
        } else {
            seq![self.spec_action()] + self.spec_next(replies[0]).accesses(replies.drop_first())
        }
    }

    /// How many writes of the data register are still to come, at most.
    pub open spec fn writes_pending(self) -> nat {
        match self {
            Transfer::AwaitSpace { .. } | Transfer::Store { .. } => 1,
            _ => 0,
        }
    }

    /// How many reads of the data register are still to come, at most.
    pub open spec fn reads_pending(self) -> nat {
        match self {
            Transfer::AwaitSpace { compute, .. } | Transfer::Store { compute, .. } => if compute {
                1
            } else {
                0
            },
            Transfer::AwaitResult { .. } | Transfer::Fetch => 1,
            Transfer::Finished(_) => 0,
        }
    }

    /// Whether the transfer can end with `outcome` from this state.
    pub open spec fn may_end_with(self, outcome: Outcome) -> bool {
        match self {
            Transfer::AwaitSpace { blocking, compute, .. } => {
                ||| !blocking && outcome == Outcome::Refused(FmacError::X1Full)
                ||| compute && outcome is Sample
                ||| !compute && outcome is Written
            },
            Transfer::Store { compute, .. } => if compute {
                outcome is Sample
            } else {
                outcome is Written
            },
            Transfer::AwaitResult { blocking } => {
                ||| !blocking && outcome is Empty
                ||| outcome is Sample
            },
            Transfer::Fetch => outcome is Sample,
            Transfer::Finished(o) => outcome == o,
        }
    }
}

/// Number of data-register writes among `actions`.
pub open spec fn count_writes(actions: Seq<Action>) -> nat
    decreases actions.len(),
{
    if actions.len() == 0 {
        0
    } else {
        (if actions[0] is WriteData {
            1nat
        } else {
            0nat
        }) + count_writes(actions.drop_first())
    }
}

/// Number of data-register reads among `actions`.
pub open spec fn count_reads(actions: Seq<Action>) -> nat
    decreases actions.len(),
{
    if actions.len() == 0 {
        0
    } else {
        (if actions[0] is ReadData {
            1nat
        } else {
            0nat
        }) + count_reads(actions.drop_first())
    }
}

/// A read that finds the output buffer empty ends at once without a
/// result, and the status read is the only access it asks for.
pub proof fn lemma_read_when_empty(status: Status)
    requires
        status.y_empty,
    ensures
        Transfer::spec_read().spec_action() == Action::ReadStatus,
        Transfer::spec_read().spec_next(Reply::Status(status)) == Transfer::Finished(
            Outcome::Empty,
        ),
        Transfer::spec_read().accesses(seq![Reply::Status(status)]) == seq![Action::ReadStatus],
{
    let replies = seq![Reply::Status(status)];
    let t = Transfer::spec_read();
    assert(t.spec_next(replies[0]).accesses(replies.drop_first()) == Seq::<Action>::empty());
}

/// A read that finds a result takes exactly the word in the data register
/// and ends with the sample that word carries.
pub proof fn lemma_read_when_ready(status: Status, word: u16)
    requires
        !status.y_empty,
    ensures
        Transfer::spec_read().run(seq![Reply::Status(status), Reply::Data(word)])
            == Transfer::Finished(Outcome::Sample(Sample::spec_from_word(word))),
        Transfer::spec_read().accesses(seq![Reply::Status(status), Reply::Data(word)]) == seq![
            Action::ReadStatus,
            Action::ReadData,
        ],
{
    let replies = seq![Reply::Status(status), Reply::Data(word)];
    let rest = replies.drop_first();
    assert(Transfer::Fetch.run(rest) == Transfer::Fetch.spec_next(rest[0]).run(rest.drop_first()));
    assert(Transfer::Fetch.spec_next(rest[0]).accesses(rest.drop_first()) == Seq::<
        Action,
    >::empty());
    assert(Transfer::Fetch.accesses(rest) =~= seq![Action::ReadData]);
}

/// A write that finds the input buffer full is refused at once, and the
/// status read is the only access it asks for: the data register is not
/// written.
pub proof fn lemma_write_when_full(value: Sample, status: Status)
    requires
        status.x1_full,
    ensures
        Transfer::spec_write(value).spec_action() == Action::ReadStatus,
        Transfer::spec_write(value).spec_next(Reply::Status(status)) == Transfer::Finished(
            Outcome::Refused(FmacError::X1Full),
        ),
        Transfer::spec_write(value).accesses(seq![Reply::Status(status)]) == seq![
            Action::ReadStatus,
        ],
{
    let replies = seq![Reply::Status(status)];
    let t = Transfer::spec_write(value);
    assert(t.spec_next(replies[0]).accesses(replies.drop_first()) == Seq::<Action>::empty());
}

/// A write that finds room stores the sample's word with one write of
/// the data register and ends.
pub proof fn lemma_write_when_room(value: Sample, status: Status)
    requires
        !status.x1_full,
    ensures
        Transfer::spec_write(value).run(seq![Reply::Status(status), Reply::Written])
            == Transfer::Finished(Outcome::Written),
        Transfer::spec_write(value).accesses(seq![Reply::Status(status), Reply::Written]) == seq![
            Action::ReadStatus,
            Action::WriteData(value.word()),
        ],
{
    let replies = seq![Reply::Status(status), Reply::Written];
    let rest = replies.drop_first();
    let stored = Transfer::Store { word: value.word(), compute: false };
    assert(stored.run(rest) == stored.spec_next(rest[0]).run(rest.drop_first()));
    assert(stored.spec_next(rest[0]).accesses(rest.drop_first()) == Seq::<Action>::empty());
    assert(stored.accesses(rest) =~= seq![Action::WriteData(value.word())]);
}

/// However the hardware answers, a transfer writes the data register at
/// most once and reads it at most once; a transfer that only reads never
/// writes it, and one that only writes never reads it.
pub proof fn lemma_data_register_touched_once(t: Transfer, replies: Seq<Reply>)
    requires
        t.answered_by(replies),
    ensures
        count_writes(t.accesses(replies)) + t.run(replies).writes_pending() <= t.writes_pending(),
        count_reads(t.accesses(replies)) + t.run(replies).reads_pending() <= t.reads_pending(),
    decreases replies.len(),
{
    if replies.len() > 0 {
        let next = t.spec_next(replies[0]);
        let rest = replies.drop_first();
        lemma_data_register_touched_once(next, rest);
        assert(t.accesses(replies).drop_first() =~= next.accesses(rest));
    }
}

/// A data-register write only ever follows a status reply that shows
/// room in the input buffer, and a data-register read only ever follows
/// one that shows a result in the output buffer.
pub proof fn lemma_data_access_follows_status(t: Transfer, reply: Reply)
    ensures
        t.spec_next(reply) is Store && !(t is Store) ==> (reply matches Reply::Status(s)
            && !s.x1_full),
        t.spec_next(reply) is Fetch && !(t is Fetch) ==> (reply matches Reply::Status(s)
            && !s.y_empty),
{
}

/// A transfer ends only with an outcome its request allows: a blocking
/// read with a sample, a non-blocking read with a sample or empty-handed,
/// a blocking write with its sample stored, a non-blocking write stored
/// or refused, and a computation with a sample.
pub proof fn lemma_outcome_allowed(t: Transfer, replies: Seq<Reply>, outcome: Outcome)
    requires
        t.run(replies) == Transfer::Finished(outcome),
    ensures
        t.may_end_with(outcome),
    decreases replies.len(),
{
    if replies.len() == 0 {
    } else {
        lemma_outcome_allowed(t.spec_next(replies[0]), replies.drop_first(), outcome);
    }
}

/// Once over, a transfer stays over and keeps its outcome.
pub proof fn lemma_finished_is_final(outcome: Outcome, replies: Seq<Reply>)
    ensures
        Transfer::Finished(outcome).run(replies) == Transfer::Finished(outcome),
    decreases replies.len(),
{
    if replies.len() > 0 {
        lemma_finished_is_final(outcome, replies.drop_first());
    }
}

} // verus!
