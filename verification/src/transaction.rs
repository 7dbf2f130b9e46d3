//! Carrying out a list of transfers, one step at a time.
//!
//! A [`Transaction`] holds the transfers of one display operation and decides what
//! happens next. The caller owns the hardware: it asks for the current transfer,
//! performs it, and reports how that went. The transaction moves on, stays where
//! it is while the controller is busy, or gives up after a bus error.

use vstd::prelude::*;
use crate::driver::{line_says_busy, GDEW0213I5F};
use crate::transfer::{Transfer, TransferView};

verus! {

/// What the transport has to say about the current transfer.
#[derive(Debug, PartialEq, Eq)]
pub enum Outcome<E> {
    /// The reset pulse is over, or the write went through.
    Completed,
    /// The bus refused the write.
    Failed(E),
    /// The busy line was sampled and read this level: `true` is high.
    BusyLine(bool),
}

/// The transfers left once the current one of `remaining` has gone through.
///
/// A wait is not done by saying so, only by a sample of the busy line; and
/// where nothing is left nothing changes.
pub open spec fn after_completed(remaining: Seq<TransferView>) -> Seq<TransferView> {
    if remaining.len() > 0 && remaining[0] !is WaitUntilIdle {
        remaining.skip(1)
    } else {
        remaining
    }
}

/// The transfers left once the busy line has been sampled at `line_high`.
///
/// A wait is over when the sample says idle. A sample counts for nothing while
/// the controller is busy, or when the current transfer is no wait.
pub open spec fn after_sample(remaining: Seq<TransferView>, line_high: bool) -> Seq<
    TransferView,
> {
    if remaining.len() > 0 && remaining[0] is WaitUntilIdle && !line_says_busy(line_high) {
        remaining.skip(1)
    } else {
        remaining
    }
}

/// The transfers left once `outcome` has been reported. After a failure none
/// is: the controller's state is unknown, and only a new start helps.
pub open spec fn after<E>(remaining: Seq<TransferView>, outcome: Outcome<E>) -> Seq<TransferView> {
    match outcome {
        Outcome::Completed => after_completed(remaining),
        Outcome::Failed(_) => Seq::empty(),
        Outcome::BusyLine(line_high) => after_sample(remaining, line_high),
    }
}

/// The transfers left once the busy line has been sampled at each of `levels`,
/// one after the other.
pub open spec fn after_samples(remaining: Seq<TransferView>, levels: Seq<bool>) -> Seq<
    TransferView,
>
    decreases levels.len(),
{
    if levels.len() == 0 {
        remaining
    } else {
        after_sample(after_samples(remaining, levels.drop_last()), levels.last())
    }
}

/// One display operation under way.
pub struct Transaction {
    steps: Vec<Transfer>,
    position: usize,
}

impl View for Transaction {
    type V = Seq<TransferView>;

    /// The transfers that are still to be carried out, the current one first.
    closed spec fn view(&self) -> Seq<TransferView> {
        self.steps.deep_view().skip(self.position as int)
    }
}

impl Transaction {
    #[verifier::type_invariant]
    spec fn position_in_bounds(&self) -> bool {
        self.position <= self.steps.len()
    }

    /// Starts on `steps`, with all of them still to do.
    pub fn new(steps: Vec<Transfer>) -> (transaction: Transaction)
        ensures
            transaction@ == steps.deep_view(),
    {
        let transaction = Transaction { steps, position: 0 };
        assert(transaction@ =~= steps.deep_view());
        transaction
    }

    /// The transfer to carry out now, or `None` when nothing is left to do.
    pub fn current(&self) -> (r: Option<&Transfer>)
        ensures
            match r {
                Some(transfer) => self@.len() > 0 && transfer@ == self@[0],
                None => self@.len() == 0,
            },
    {
        proof {
            use_type_invariant(self);
        }
        if self.position < self.steps.len() {
            Some(&self.steps[self.position])
        } else {
            None
        }
    }

    /// Takes the transport's word on the current transfer and moves on
    /// accordingly. A bus error ends the transaction and is handed back as it
    /// came.
    pub fn report<E>(&mut self, outcome: Outcome<E>) -> (r: Result<(), E>)
        ensures
            final(self)@ == after(old(self)@, outcome),
            r == match outcome {
                Outcome::Failed(error) => Err::<(), E>(error),
                _ => Ok::<(), E>(()),
            },
    {
        proof {
            use_type_invariant(&*self);
        }
        let ghost before = self@;
        match outcome {
            Outcome::Failed(error) => {
                self.position = self.steps.len();
                assert(self@ =~= Seq::<TransferView>::empty());
                Err(error)
            },
            Outcome::Completed => {
                if self.position < self.steps.len() {
                    match &self.steps[self.position] {
                        Transfer::WaitUntilIdle => {},
                        _ => {
                            self.position = self.position + 1;
                            assert(self@ =~= before.skip(1));
                        },
                    }
                }
                Ok(())
            },
            Outcome::BusyLine(line_high) => {
                if self.position < self.steps.len() && !GDEW0213I5F::is_busy(line_high) {
                    match &self.steps[self.position] {
                        Transfer::WaitUntilIdle => {
                            self.position = self.position + 1;
                            assert(self@ =~= before.skip(1));
                        },
                        _ => {},
                    }
                }
                Ok(())
            },
        }
    }
}

/// The transfers go out in the order of the list and each at most once: a report
/// leaves the list as it is, takes the current transfer off it, or, after a
/// failure, ends it. Nothing but a failure drops a transfer that was not
/// current.
pub proof fn lemma_report_keeps_the_order<E>(remaining: Seq<TransferView>, outcome: Outcome<E>)
    ensures
        outcome is Failed ==> after(remaining, outcome).len() == 0,
        !(outcome is Failed) ==> after(remaining, outcome) == remaining || (remaining.len() > 0
            && after(remaining, outcome) == remaining.skip(1)),
{
}

/// Good news about the current transfer moves on by exactly that transfer: a
/// completed reset or write, or an idle sample during a wait.
pub proof fn lemma_good_news_moves_one_step<E>(remaining: Seq<TransferView>, outcome: Outcome<E>)
    requires
        remaining.len() > 0,
        outcome is Completed ==> remaining[0] !is WaitUntilIdle,
        outcome matches Outcome::BusyLine(line_high) ==> remaining[0] is WaitUntilIdle
            && !line_says_busy(line_high),
        !(outcome is Failed),
    ensures
        after(remaining, outcome) == remaining.skip(1),
{
}

/// Samples that say busy move nothing, however many there are.
pub proof fn lemma_busy_samples_change_nothing(remaining: Seq<TransferView>, busy: Seq<bool>)
    requires
        forall|i: int| 0 <= i < busy.len() ==> line_says_busy(#[trigger] busy[i]),
    ensures
        after_samples(remaining, busy) == remaining,
    decreases busy.len(),
{
    if busy.len() > 0 {
        lemma_busy_samples_change_nothing(remaining, busy.drop_last());
    }
}

/// A wait ends with the first sample that says idle and not before: while every
/// sample says busy the wait stays current, and the idle sample that follows
/// them takes the wait, and only the wait, off the list.
pub proof fn lemma_wait_ends_at_first_idle_sample(
    remaining: Seq<TransferView>,
    busy: Seq<bool>,
    idle: bool,
)
    requires
        remaining.len() > 0,
        remaining[0] is WaitUntilIdle,
        forall|i: int| 0 <= i < busy.len() ==> line_says_busy(#[trigger] busy[i]),
        !line_says_busy(idle),
    ensures
        after_samples(remaining, busy) == remaining,
        after_samples(remaining, busy.push(idle)) == remaining.skip(1),
{
    lemma_busy_samples_change_nothing(remaining, busy);
    assert(busy.push(idle).drop_last() =~= busy);
}

} // verus!
