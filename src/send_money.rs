use crate::account::Account;
use crate::activity::{current_timestamp, AccountId, Timestamp};
use crate::money::Money;
use crate::persistence::unsaved;
use vstd::prelude::*;

verus! {

/// Largest amount of one transfer where none is configured.
pub const DEFAULT_MAXIMUM_TRANSFER: i128 = 1_000_000;

/// Days of activity that a transfer loads with each account.
pub const ACTIVITY_WINDOW_DAYS: i64 = 10;

/// Microseconds in a day of the naive clock, which has no daylight saving.
pub const MICROS_PER_DAY: i64 = 86_400_000_000;

/// The start of the activity window for a transfer made at `now`:
/// `ACTIVITY_WINDOW_DAYS` days earlier, or `None` where that instant cannot be
/// represented.
pub fn baseline_date_at(now: Timestamp) -> (r: Option<Timestamp>)
    ensures
        r == (if now.0 - ACTIVITY_WINDOW_DAYS * MICROS_PER_DAY >= i64::MIN {
            Some(Timestamp((now.0 - ACTIVITY_WINDOW_DAYS * MICROS_PER_DAY) as i64))
        } else {
            None::<Timestamp>
        }),
{
    let span: i64 = ACTIVITY_WINDOW_DAYS * MICROS_PER_DAY;
    if now.0 >= i64::MIN + span {
        Some(Timestamp(now.0 - span))
    } else {
        None
    }
}

/// The start of the activity window for a transfer made now.
pub fn baseline_date() -> (r: Option<Timestamp>)
    ensures
        r matches Some(start) ==> start.0 + ACTIVITY_WINDOW_DAYS * MICROS_PER_DAY <= i64::MAX,
{
    baseline_date_at(current_timestamp())
}

/// A request to move `money` from one account to another.
#[derive(Debug)]
pub struct SendMoneyCommand {
    pub source_account_id: AccountId,
    pub target_account_id: AccountId,
    pub money: Money,
}

impl SendMoneyCommand {
    pub fn new(source_account_id: AccountId, target_account_id: AccountId, money: Money) -> (r:
        SendMoneyCommand)
        ensures
            r == (SendMoneyCommand { source_account_id, target_account_id, money }),
    {
        SendMoneyCommand { source_account_id, target_account_id, money }
    }
}

/// Why a transfer was aborted rather than refused for want of funds.
#[derive(Clone, Copy, PartialEq, Eq, Structural, Debug)]
pub enum TransferError {
    ThresholdExceeded,
    MissingSourceAccountId,
    MissingTargetAccountId,
}

/// Configuration of the transfer use case.
#[derive(Debug)]
pub struct MoneyTransferProperties {
    pub maximum_transfer_threshold: Money,
}

impl MoneyTransferProperties {
    /// Uses the given threshold, or `DEFAULT_MAXIMUM_TRANSFER` where none is given.
    pub fn new(maximum_transfer_threshold: Option<Money>) -> (r: MoneyTransferProperties)
        ensures
            r.maximum_transfer_threshold@ == match maximum_transfer_threshold {
                Some(m) => m@,
                None => DEFAULT_MAXIMUM_TRANSFER as int,
            },
    {
        let threshold = match maximum_transfer_threshold {
            Some(m) => m,
            None => Money::of(DEFAULT_MAXIMUM_TRANSFER),
        };
        MoneyTransferProperties { maximum_transfer_threshold: threshold }
    }

    /// A command over the threshold is a configuration violation.
    pub fn check_threshold(&self, command: &SendMoneyCommand) -> (r: Result<(), TransferError>)
        ensures
            r == (if command.money@ > self.maximum_transfer_threshold@ {
                Err(TransferError::ThresholdExceeded)
            } else {
                Ok(())
            }),
    {
        if command.money.is_greater_than(&self.maximum_transfer_threshold) {
            Err(TransferError::ThresholdExceeded)
        } else {
            Ok(())
        }
    }
}

/// What the transfer asks of its surroundings next.
#[derive(Clone, Copy, PartialEq, Eq, Structural, Debug)]
pub enum TransferAction {
    LockAccount(AccountId),
    ReleaseAccount(AccountId),
    /// Store the new activities of the source account.
    UpdateSourceAccount,
    /// Store the new activities of the target account.
    UpdateTargetAccount,
    /// The transfer is over; `true` where the money moved.
    Finish(bool),
}

/// The actions of a whole transfer. With enough funds: lock the source, lock
/// the target, store both, release both in the same order. Without: lock and
/// release the source only, and store nothing.
pub open spec fn transfer_script(source: AccountId, target: AccountId, funded: bool) -> Seq<
    TransferAction,
> {
    if funded {
        seq![
            TransferAction::LockAccount(source),
            TransferAction::LockAccount(target),
            TransferAction::UpdateSourceAccount,
            TransferAction::UpdateTargetAccount,
            TransferAction::ReleaseAccount(source),
            TransferAction::ReleaseAccount(target),
            TransferAction::Finish(true),
        ]
    } else {
        seq![
            TransferAction::LockAccount(source),
            TransferAction::ReleaseAccount(source),
            TransferAction::Finish(false),
        ]
    }
}

enum Phase {
    Start,
    SourceLocked,
    TargetLocked,
    DepositRefused,
    Rejected,
    SourceUpdated,
    TargetUpdated,
    SourceReleased,
    Completed,
    Done(bool),
}

/// One transfer between two loaded accounts, driven step by step: each call
/// of `next_action` does the in-memory work that is due and names the
/// outside work (a lock, a release, a store) that the caller performs before
/// the next call.
pub struct MoneyTransfer {
    source_account: Account,
    target_account: Account,
    source_account_id: AccountId,
    target_account_id: AccountId,
    money: Money,
    phase: Phase,
    initial_source: Ghost<Account>,
    initial_target: Ghost<Account>,
    performed: Ghost<Seq<TransferAction>>,
}

impl MoneyTransfer {
    /// The source account as it was loaded.
    pub closed spec fn initial_source(&self) -> Account {
        self.initial_source@
    }

    /// The target account as it was loaded.
    pub closed spec fn initial_target(&self) -> Account {
        self.initial_target@
    }

    pub closed spec fn source(&self) -> Account {
        self.source_account
    }

    pub closed spec fn target(&self) -> Account {
        self.target_account
    }

    pub closed spec fn source_id(&self) -> AccountId {
        self.source_account_id
    }

    pub closed spec fn target_id(&self) -> AccountId {
        self.target_account_id
    }

    pub closed spec fn amount(&self) -> int {
        self.money@
    }

    /// The actions handed out so far.
    pub closed spec fn actions(&self) -> Seq<TransferAction> {
        self.performed@
    }

    /// Whether the source can pay the amount.
    pub open spec fn funded(&self) -> bool {
        self.initial_source().balance() - self.amount() >= 0
    }

    pub open spec fn script(&self) -> Seq<TransferAction> {
        transfer_script(self.source_id(), self.target_id(), self.funded())
    }

    /// The source after the withdrawal.
    pub open spec fn withdrawn(&self) -> bool {
        &&& Account::appended(
            self.initial_source(),
            self.source(),
            self.source_id(),
            self.target_id(),
            self.amount(),
        )
        &&& self.source_id() != self.target_id() ==> self.source().balance()
            == self.initial_source().balance() - self.amount()
    }

    /// Both accounts after the withdrawal and the deposit.
    pub open spec fn moved(&self) -> bool {
        &&& self.withdrawn()
        &&& Account::appended(
            self.initial_target(),
            self.target(),
            self.source_id(),
            self.target_id(),
            self.amount(),
        )
        &&& self.source_id() != self.target_id() ==> self.target().balance()
            == self.initial_target().balance() + self.amount()
    }

    pub open spec fn untouched(&self) -> bool {
        self.source() == self.initial_source() && self.target() == self.initial_target()
    }

    pub closed spec fn wf(&self) -> bool {
        let n = self.performed@.len();
        &&& self.initial_source@.id_spec() == Some(self.source_account_id)
        &&& self.initial_target@.id_spec() == Some(self.target_account_id)
        &&& n <= self.script().len()
        &&& self.performed@ == self.script().take(n as int)
        &&& match self.phase {
            Phase::Start => n == 0 && self.untouched(),
            Phase::SourceLocked => n == 1 && self.untouched(),
            Phase::Rejected => n == 2 && !self.funded() && self.untouched(),
            Phase::DepositRefused => false,
            Phase::TargetLocked => n == 2 && self.funded() && self.withdrawn() && self.target()
                == self.initial_target(),
            Phase::SourceUpdated => n == 3 && self.funded() && self.moved(),
            Phase::TargetUpdated => n == 4 && self.funded() && self.moved(),
            Phase::SourceReleased => n == 5 && self.funded() && self.moved(),
            Phase::Completed => n == 6 && self.funded() && self.moved(),
            Phase::Done(b) => n == self.script().len() && b == self.funded() && if b {
                self.moved()
            } else {
                self.untouched()
            },
        }
    }

    /// Starts a transfer of `command.money` between two loaded accounts,
    /// which must both carry an id.
    pub fn new(command: SendMoneyCommand, source_account: Account, target_account: Account) -> (r:
        Result<MoneyTransfer, TransferError>)
        ensures
            source_account.id_spec() is None ==> r == Err::<MoneyTransfer, TransferError>(
                TransferError::MissingSourceAccountId,
            ),
            source_account.id_spec() is Some && target_account.id_spec() is None ==> r == Err::<
                MoneyTransfer,
                TransferError,
            >(TransferError::MissingTargetAccountId),
            source_account.id_spec() is Some && target_account.id_spec() is Some ==> r is Ok,
            r matches Ok(t) ==> {
                &&& t.wf()
                &&& t.actions().len() == 0
                &&& t.initial_source() == source_account
                &&& t.initial_target() == target_account
                &&& t.source() == source_account
                &&& t.target() == target_account
                &&& Some(t.source_id()) == source_account.id_spec()
                &&& Some(t.target_id()) == target_account.id_spec()
                &&& t.amount() == command.money@
            },
    {
        let source_account_id = match source_account.get_id() {
            Some(id) => id,
            None => {
                return Err(TransferError::MissingSourceAccountId);
            },
        };
        let target_account_id = match target_account.get_id() {
            Some(id) => id,
            None => {
                return Err(TransferError::MissingTargetAccountId);
            },
        };
        let ghost initial_source = source_account;
        let ghost initial_target = target_account;
        let transfer = MoneyTransfer {
            source_account,
            target_account,
            source_account_id,
            target_account_id,
            money: command.money,
            phase: Phase::Start,
            initial_source: Ghost(initial_source),
            initial_target: Ghost(initial_target),
            performed: Ghost(Seq::empty()),
        };
        assert(transfer.performed@ =~= transfer.script().take(0));
        Ok(transfer)
    }

    /// A transfer that has finished with success has taken the amount from
    /// the source and given it to the target, relative to the accounts as
    /// they were loaded (where they are two different accounts), and each
    /// account has exactly one activity more to store.
    pub proof fn lemma_success_moves_money(self)
        requires
            self.wf(),
            self.actions().len() > 0,
            self.actions().last() == TransferAction::Finish(true),
        ensures
            self.funded(),
            self.actions() == self.script(),
            self.source_id() != self.target_id() ==> self.source().balance()
                == self.initial_source().balance() - self.amount(),
            self.source_id() != self.target_id() ==> self.target().balance()
                == self.initial_target().balance() + self.amount(),
            unsaved(self.source().activities()) == unsaved(self.initial_source().activities()).push(
                self.source().activities().last(),
            ),
            unsaved(self.target().activities()) == unsaved(self.initial_target().activities()).push(
                self.target().activities().last(),
            ),
    {
        assert(self.source().activities().drop_last() == self.initial_source().activities());
        assert(self.target().activities().drop_last() == self.initial_target().activities());
    }

    /// A transfer that has finished without success was refused for want of
    /// funds: neither account changed, nothing is to be stored, and the only
    /// lock taken and released was the source's.
    pub proof fn lemma_refusal_changes_nothing(self)
        requires
            self.wf(),
            self.actions().len() > 0,
            self.actions().last() == TransferAction::Finish(false),
        ensures
            !self.funded(),
            self.untouched(),
            self.actions() == seq![
                TransferAction::LockAccount(self.source_id()),
                TransferAction::ReleaseAccount(self.source_id()),
                TransferAction::Finish(false),
            ],
    {
    }

    pub fn source_account(&self) -> (r: &Account)
        ensures
            *r == self.source(),
    {
        &self.source_account
    }

    pub fn target_account(&self) -> (r: &Account)
        ensures
            *r == self.target(),
    {
        &self.target_account
    }

    /// Does the in-memory work that is due (the withdrawal once the source
    /// is locked, the deposit once the target is locked) and returns the next
    /// action. Once `Finish` has been returned it is returned again.
    pub fn next_action(&mut self) -> (r: TransferAction)
        requires
            old(self).wf(),
        ensures
            final(self).wf(),
            final(self).initial_source() == old(self).initial_source(),
            final(self).initial_target() == old(self).initial_target(),
            final(self).source_id() == old(self).source_id(),
            final(self).target_id() == old(self).target_id(),
            final(self).amount() == old(self).amount(),
            old(self).actions().len() < old(self).script().len() ==> r == old(self).script()[old(
                self,
            ).actions().len() as int],
            old(self).actions().len() < old(self).script().len() ==> final(self).actions() == old(
                self,
            ).actions().push(r),
            old(self).actions().len() == old(self).script().len() ==> final(self).actions() == old(
                self,
            ).actions() && r == old(self).script().last(),
            final(self).actions() == final(self).script().take(final(self).actions().len() as int),
            r == TransferAction::UpdateSourceAccount ==> final(self).withdrawn(),
            r == TransferAction::UpdateTargetAccount ==> final(self).moved(),
            r == TransferAction::Finish(true) ==> final(self).moved() && final(self).funded(),
            r == TransferAction::Finish(false) ==> {
                &&& !final(self).funded()
                &&& final(self).untouched()
                &&& final(self).actions() == seq![
                    TransferAction::LockAccount(final(self).source_id()),
                    TransferAction::ReleaseAccount(final(self).source_id()),
                    TransferAction::Finish(false),
                ]
            },
    {
        let source_id = self.source_account_id;
        let target_id = self.target_account_id;
        let ghost n: int = self.performed@.len() as int;
        let (action, phase) = match self.phase {
            Phase::Start => (TransferAction::LockAccount(source_id), Phase::SourceLocked),
            Phase::SourceLocked => {
                let money = self.money.clone();
                if self.source_account.withdraw(money, target_id) {
                    (TransferAction::LockAccount(target_id), Phase::TargetLocked)
                } else {
                    (TransferAction::ReleaseAccount(source_id), Phase::Rejected)
                }
            },
            Phase::TargetLocked => {
                let money = self.money.clone();
                if self.target_account.deposit(money, source_id) {
                    (TransferAction::UpdateSourceAccount, Phase::SourceUpdated)
                } else {
                    // a deposit is never refused today; should that change,
                    // both locks are released and nothing is stored
                    (TransferAction::ReleaseAccount(source_id), Phase::DepositRefused)
                }
            },
            Phase::DepositRefused => (TransferAction::ReleaseAccount(target_id), Phase::Rejected),
            Phase::Rejected => (TransferAction::Finish(false), Phase::Done(false)),
            Phase::SourceUpdated => (TransferAction::UpdateTargetAccount, Phase::TargetUpdated),
            Phase::TargetUpdated => (TransferAction::ReleaseAccount(source_id), Phase::SourceReleased),
            Phase::SourceReleased => (TransferAction::ReleaseAccount(target_id), Phase::Completed),
            Phase::Completed => (TransferAction::Finish(true), Phase::Done(true)),
            Phase::Done(success) => {
                return TransferAction::Finish(success);
            },
        };
        self.phase = phase;
        self.performed = Ghost(self.performed@.push(action));
        assert(self.script().take(n + 1) =~= self.script().take(n).push(action));
        action
    }
}

} // verus!
