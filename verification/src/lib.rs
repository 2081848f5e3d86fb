//! A single-asset position ledger. A `Wallet` holds one integer balance and
//! is mutated only through `execute`, which applies an ordered batch of buy
//! and sell transactions atomically: every transaction succeeds and the new
//! balance is committed, or the first failure rolls the whole batch back and
//! the balance is exactly what it was before the call.

use vstd::prelude::*;

verus! {

/// The signed accumulator for a wallet's balance. It is much wider than the
/// `u16` transaction amounts, so overflow is only possible near the very top
/// of the range, where a buy is rejected explicitly.
pub type Quantity = i32;

/// A single buy or sell instruction carrying a non-negative amount.
#[derive(Clone, Copy, Debug, PartialEq, Eq, Structural)]
pub enum Transaction {
    Buy { quantity: u16 },
    Sell { quantity: u16 },
}

/// An ordered batch of transactions, applied left to right as one atomic
/// unit.
#[derive(Clone, Debug)]
pub struct Operation(pub Vec<Transaction>);

impl View for Operation {
    type V = Seq<Transaction>;

    open spec fn view(&self) -> Seq<Transaction> {
        self.0@
    }
}

/// Why an `execute` call was rolled back.
#[derive(Clone, Copy, Debug, PartialEq, Eq, Structural)]
pub enum WalletError {
    /// A sell asked for more than the wallet held at that point of the batch.
    InsufficientStock,
    /// A buy would have pushed the balance past `Quantity::MAX`.
    QuantityOverflow,
}

impl WalletError {
    /// The description that `message` returns for this error.
    pub open spec fn spec_message(&self) -> Seq<char> {
        match self {
            WalletError::InsufficientStock => "Not enough stock to sell"@,
            WalletError::QuantityOverflow => "Quantity limit exceeded"@,
        }
    }

    /// A human-readable description of the error.
    pub fn message(&self) -> (r: &'static str)
        ensures
            r@ == self.spec_message(),
    {
        match self {
            WalletError::InsufficientStock => "Not enough stock to sell",
            WalletError::QuantityOverflow => "Quantity limit exceeded",
        }
    }
}

/// The outcome of one buy of `amount` on balance `q`: the increased balance,
/// unless it would exceed `Quantity::MAX`.
pub open spec fn spec_buy(q: int, amount: u16) -> Result<int, WalletError> {
    if q + amount as int <= Quantity::MAX as int {
        Ok(q + amount as int)
    } else {
        Err(WalletError::QuantityOverflow)
    }
}

/// The outcome of one sell of `amount` on balance `q`: the decreased balance,
/// unless the sell would drive the balance negative.
pub open spec fn spec_sell(q: int, amount: u16) -> Result<int, WalletError> {
    if amount as int <= q {
        Ok(q - amount as int)
    } else {
        Err(WalletError::InsufficientStock)
    }
}

/// The outcome of one transaction on balance `q`.
pub open spec fn spec_step(q: int, t: Transaction) -> Result<int, WalletError> {
    match t {
        Transaction::Buy { quantity } => spec_buy(q, quantity),
        Transaction::Sell { quantity } => spec_sell(q, quantity),
    }
}

/// The outcome of applying `txs` in order, starting from balance `q`: the
/// final balance if every transaction succeeds, otherwise the error of the
/// first failing transaction.
pub open spec fn spec_execute(q: int, txs: Seq<Transaction>) -> Result<int, WalletError>
    decreases txs.len(),
{
    if txs.len() == 0 {
        Ok(q)
    } else {
        match spec_step(q, txs[0]) {
            Ok(q2) => spec_execute(q2, txs.skip(1)),
            Err(e) => Err(e),
        }
    }
}

/// The sum of the buy amounts in `txs`.
pub open spec fn buy_total(txs: Seq<Transaction>) -> int
    decreases txs.len(),
{
    if txs.len() == 0 {
        0
    } else {
        (match txs[0] {
            Transaction::Buy { quantity } => quantity as int,
            Transaction::Sell { .. } => 0,
        }) + buy_total(txs.skip(1))
    }
}

/// The sum of the sell amounts in `txs`.
pub open spec fn sell_total(txs: Seq<Transaction>) -> int
    decreases txs.len(),
{
    if txs.len() == 0 {
        0
    } else {
        (match txs[0] {
            Transaction::Sell { quantity } => quantity as int,
            Transaction::Buy { .. } => 0,
        }) + sell_total(txs.skip(1))
    }
}

/// Idempotence of the empty operation: an empty batch never fails and never
/// changes the balance.
pub proof fn lemma_execute_empty(q: int)
    ensures
        spec_execute(q, Seq::<Transaction>::empty()) == Ok::<int, WalletError>(q),
{
}

/// Additivity: a batch in which every transaction succeeds ends at the
/// initial balance plus the sum of its buys minus the sum of its sells,
/// applied in transaction order.
pub proof fn lemma_execute_additivity(q: int, txs: Seq<Transaction>)
    requires
        spec_execute(q, txs) is Ok,
    ensures
        spec_execute(q, txs) == Ok::<int, WalletError>(q + buy_total(txs) - sell_total(txs)),
    decreases txs.len(),
{
    if txs.len() > 0 {
        match spec_step(q, txs[0]) {
            Ok(q2) => {
                lemma_execute_additivity(q2, txs.skip(1));
            }
            Err(_) => {}
        }
    }
}

/// Non-negativity: a batch committed from a non-negative balance ends at a
/// non-negative balance.
pub proof fn lemma_execute_nonnegative(q: int, txs: Seq<Transaction>, q2: int)
    requires
        q >= 0,
        spec_execute(q, txs) == Ok::<int, WalletError>(q2),
    ensures
        q2 >= 0,
    decreases txs.len(),
{
    if txs.len() > 0 {
        match spec_step(q, txs[0]) {
            Ok(q1) => {
                lemma_execute_nonnegative(q1, txs.skip(1), q2);
            }
            Err(_) => {}
        }
    }
}

/// The stateful holder of a single balance. Created at zero and mutated only
/// through `execute`.
#[derive(Clone, Debug)]
pub struct Wallet {
    quantity: Quantity,
}

impl Wallet {
    /// The wallet's committed balance, as a mathematical integer.
    pub closed spec fn spec_quantity(&self) -> int {
        self.quantity as int
    }

    /// The wallet invariant: a committed balance is never negative.
    pub open spec fn wf(&self) -> bool {
        self.spec_quantity() >= 0
    }

    /// A fresh wallet holds nothing.
    pub fn new() -> (w: Wallet)
        ensures
            w.wf(),
            w.spec_quantity() == 0,
    {
        Wallet { quantity: 0 }
    }

    /// The committed balance.
    pub fn quantity(&self) -> (q: Quantity)
        ensures
            q as int == self.spec_quantity(),
    {
        self.quantity
    }

    /// Add `quantity` to the balance; reject a buy that would overflow the
    /// accumulator, leaving the balance untouched.
    fn buy(&mut self, quantity: u16) -> (r: Result<(), WalletError>)
        ensures
            match r {
                Ok(_) => spec_buy(old(self).spec_quantity(), quantity)
                    == Ok::<int, WalletError>(final(self).spec_quantity()),
                Err(e) => spec_buy(old(self).spec_quantity(), quantity)
                    == Err::<int, WalletError>(e)
                    && final(self).spec_quantity() == old(self).spec_quantity(),
            },
    {
        if self.quantity <= Quantity::MAX - quantity as Quantity {
            self.quantity = self.quantity + quantity as Quantity;
            Ok(())
        } else {
            Err(WalletError::QuantityOverflow)
        }
    }

    /// Subtract `quantity` from the balance; reject a sell that exceeds the
    /// current balance, leaving the balance untouched.
    fn sell(&mut self, quantity: u16) -> (r: Result<(), WalletError>)
        ensures
            match r {
                Ok(_) => spec_sell(old(self).spec_quantity(), quantity)
                    == Ok::<int, WalletError>(final(self).spec_quantity()),
                Err(e) => spec_sell(old(self).spec_quantity(), quantity)
                    == Err::<int, WalletError>(e)
                    && final(self).spec_quantity() == old(self).spec_quantity(),
            },
    {
        if quantity as Quantity > self.quantity {
            Err(WalletError::InsufficientStock)
        } else {
            self.quantity = self.quantity - quantity as Quantity;
            Ok(())
        }
    }

    /// Apply an operation's transactions in order, as one atomic unit.
    ///
    /// On success the final balance is committed and returned; it equals
    /// `spec_execute` of the old balance and the batch. On the first failing
    /// transaction its error is returned and the balance is exactly what it
    /// was before the call, however many transactions preceded the failure.
    /// Either way the balance stays non-negative.
    #[verifier::loop_isolation(false)]
    pub fn execute(&mut self, operation: &Operation) -> (r: Result<Quantity, WalletError>)
        requires
            old(self).wf(),
        ensures
            final(self).wf(),
            match r {
                Ok(q) => spec_execute(old(self).spec_quantity(), operation@)
                    == Ok::<int, WalletError>(q as int)
                    && final(self).spec_quantity() == q as int,
                Err(e) => spec_execute(old(self).spec_quantity(), operation@)
                    == Err::<int, WalletError>(e)
                    && final(self).spec_quantity() == old(self).spec_quantity(),
            },
            operation@.len() == 0 ==> r is Ok
                && final(self).spec_quantity() == old(self).spec_quantity(),
    {
        let initial_quantity: Quantity = self.quantity;
        let n: usize = operation.0.len();
        let mut i: usize = 0;
        proof {
            assert(operation@.skip(0) =~= operation@);
        }
        while i < n
            invariant
                i <= n,
                self.quantity >= 0,
                spec_execute(initial_quantity as int, operation@)
                    == spec_execute(self.quantity as int, operation@.skip(i as int)),
            decreases n - i,
        {
            let ghost prev: int = self.quantity as int;
            let t = operation.0[i];
            let step = match t {
                Transaction::Buy { quantity } => self.buy(quantity),
                Transaction::Sell { quantity } => self.sell(quantity),
            };
            match step {
                Ok(_) => {
                    proof {
                        assert(operation@.skip(i as int)[0] == operation@[i as int]);
                        assert(spec_step(prev, t)
                            == Ok::<int, WalletError>(self.quantity as int));
                        assert(operation@.skip(i as int).skip(1)
                            =~= operation@.skip(i as int + 1));
                    }
                    i = i + 1;
                }
                Err(e) => {
                    proof {
                        assert(operation@.skip(i as int)[0] == operation@[i as int]);
                        assert(spec_execute(prev, operation@.skip(i as int))
                            == Err::<int, WalletError>(e));
                    }
                    self.quantity = initial_quantity;
                    return Err(e);
                }
            }
        }
        proof {
            assert(operation@.skip(n as int) =~= Seq::<Transaction>::empty());
        }
        Ok(self.quantity)
    }
}

} // verus!
