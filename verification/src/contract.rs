use vstd::prelude::*;
use crate::math::{
    amount_out, lemma_swap_keeps_product, quote_deposit, spec_amount_out, spec_quote_deposit,
};
use crate::storage::{
    has_token_a, read_reserve_a, read_reserve_b, write_reserve_a, write_reserve_b, write_token_a,
    write_token_b, Storage,
};
use crate::interface::LiquidityPoolTrait;
use crate::types::{DataKey, Error};

verus! {

/// The pool engine. It holds no state of its own: every operation works on
/// the [`Storage`] it is handed.
pub struct LiquidityPool;

/// The transfers that an accepted deposit asks for: `amount_a` of asset A and
/// `amount_b` of asset B, from `from` to the pool. `from` is also the
/// identity under which the deposit is announced.
pub struct Deposit<A> {
    pub from: A,
    pub amount_a: i128,
    pub amount_b: i128,
}

/// A swap that has been priced and now waits for its settlement callback.
///
/// The callback at `callback` is to be invoked with the input asset, `amount`
/// and `from`; it is expected to bring `amount` of the input asset to the
/// pool, whose balance of that asset was `in_before` when the swap was priced.
pub struct PendingSwap<A> {
    pub from: Option<A>,
    pub callback: A,
    pub nft_dest: A,
    pub buys_a: bool,
    pub amount: i128,
    pub in_before: i128,
    pub amount_out: i128,
}

/// The reserve of the asset that a swap in the given direction takes in.
pub open spec fn reserve_in<A>(env: Storage<A>, buys_a: bool) -> i128 {
    if buys_a {
        env.amount_b()
    } else {
        env.amount_a()
    }
}

/// The reserve of the asset that a swap in the given direction pays out.
pub open spec fn reserve_out<A>(env: Storage<A>, buys_a: bool) -> i128 {
    if buys_a {
        env.amount_a()
    } else {
        env.amount_b()
    }
}

/// A deposit with these amounts can be decided on this pool: the pool is not
/// initialized, so that the deposit is refused at once, or every product,
/// quotient and sum that the decision forms stays within 128 bits.
pub open spec fn deposit_defined<A>(
    env: Storage<A>,
    desired_a: i128,
    min_a: i128,
    desired_b: i128,
    min_b: i128,
) -> bool {
    env.initialized() ==> spec_quote_deposit(
        env.amount_a(),
        env.amount_b(),
        desired_a,
        min_a,
        desired_b,
        min_b,
    ).is_some()
}

/// A swap of `amount` in the given direction can be priced on this pool: it
/// is refused before any pricing, or its payout can be formed in 128 bits.
pub open spec fn swap_defined<A>(env: Storage<A>, buys_a: bool, amount: i128) -> bool {
    env.initialized() && amount > 0 ==> spec_amount_out(
        reserve_in(env, buys_a),
        reserve_out(env, buys_a),
        amount,
    ).is_some()
}

impl LiquidityPool {
    /// Tests the precondition of `deposit_liquidity` for these arguments.
    pub fn can_deposit<A>(
        env: &Storage<A>,
        desired_a: i128,
        min_a: i128,
        desired_b: i128,
        min_b: i128,
    ) -> (ok: bool)
        ensures
            ok == deposit_defined(*env, desired_a, min_a, desired_b, min_b),
    {
        !has_token_a(env) || quote_deposit(
            read_reserve_a(env),
            read_reserve_b(env),
            desired_a,
            min_a,
            desired_b,
            min_b,
        ).is_some()
    }

    /// Tests the precondition of `swap` for these arguments.
    pub fn can_swap<A>(env: &Storage<A>, buys_a: bool, amount: i128) -> (ok: bool)
        ensures
            ok == swap_defined(*env, buys_a, amount),
    {
        if !has_token_a(env) || amount <= 0 {
            return true;
        }
        if buys_a {
            amount_out(read_reserve_b(env), read_reserve_a(env), amount).is_some()
        } else {
            amount_out(read_reserve_a(env), read_reserve_b(env), amount).is_some()
        }
    }
}

impl LiquidityPoolTrait for LiquidityPool {
    fn initialize<A>(env: &mut Storage<A>, token_a: A, token_b: A) -> (r: Result<(), Error>) {
        if has_token_a(env) {
            return Err(Error::AlreadyInitialized);
        }
        write_token_a(env, token_a);
        write_token_b(env, token_b);
        Ok(())
    }

    fn deposit_liquidity<A>(
        env: &mut Storage<A>,
        addr: A,
        desired_a: i128,
        min_a: i128,
        desired_b: i128,
        min_b: i128,
    ) -> (r: Result<Deposit<A>, Error>) {
        if !has_token_a(env) {
            return Err(Error::NotInitialized);
        }
        let reserve_a: i128 = read_reserve_a(env);
        let reserve_b: i128 = read_reserve_b(env);
        let quote = quote_deposit(reserve_a, reserve_b, desired_a, min_a, desired_b, min_b);
        match quote.unwrap() {
            Err(e) => Err(e),
            Ok(q) => {
                proof {
                    if old(env).balanced() && desired_a >= 0 && desired_b >= 0 {
                        lemma_deposit_stays_balanced(
                            reserve_a,
                            reserve_b,
                            desired_a,
                            min_a,
                            desired_b,
                            min_b,
                        );
                    }
                }
                write_reserve_a(env, q.reserve_a);
                write_reserve_b(env, q.reserve_b);
                Ok(Deposit { from: addr, amount_a: q.amount_a, amount_b: q.amount_b })
            },
        }
    }

    fn swap<A>(
        env: &Storage<A>,
        from: Option<A>,
        callback: A,
        buys_a: bool,
        amount: i128,
        nft_dest: A,
        in_before: i128,
    ) -> (r: Result<PendingSwap<A>, Error>) {
        if !has_token_a(env) {
            return Err(Error::NotInitialized);
        }
        let (r_in, r_out) = if buys_a {
            (read_reserve_b(env), read_reserve_a(env))
        } else {
            (read_reserve_a(env), read_reserve_b(env))
        };
        if amount <= 0 {
            return Err(Error::InvalidAmount);
        }
        let out: i128 = amount_out(r_in, r_out, amount).unwrap();
        Ok(PendingSwap { from, callback, nft_dest, buys_a, amount, in_before, amount_out: out })
    }

    fn get_reserves<A>(env: &Storage<A>) -> (r: Result<(i128, i128), Error>) {
        if !has_token_a(env) {
            return Err(Error::NotInitialized);
        }
        Ok((read_reserve_a(env), read_reserve_b(env)))
    }
}

impl<A> PendingSwap<A> {
    /// The slot that names the asset the swap takes in.
    pub open spec fn spec_asset_in(&self) -> DataKey {
        if self.buys_a {
            DataKey::TokenB
        } else {
            DataKey::TokenA
        }
    }

    #[verifier::when_used_as_spec(spec_asset_in)]
    pub fn asset_in(&self) -> (k: DataKey)
        ensures
            k == self.spec_asset_in(),
    {
        if self.buys_a {
            DataKey::TokenB
        } else {
            DataKey::TokenA
        }
    }

    /// The slot that names the asset the swap pays out.
    pub open spec fn spec_asset_out(&self) -> DataKey {
        if self.buys_a {
            DataKey::TokenA
        } else {
            DataKey::TokenB
        }
    }

    #[verifier::when_used_as_spec(spec_asset_out)]
    pub fn asset_out(&self) -> (k: DataKey)
        ensures
            k == self.spec_asset_out(),
    {
        if self.buys_a {
            DataKey::TokenA
        } else {
            DataKey::TokenB
        }
    }

    /// At least `amount` of the input asset has arrived since the swap was
    /// priced.
    pub open spec fn settled(&self, in_after: i128) -> bool {
        in_after >= self.in_before + self.amount
    }

    /// Judges the callback by the pool's balance of the input asset after it
    /// returned. A settled swap owes `amount_out` of the output asset to the
    /// callback; one that delivered less than `amount` is refused.
    ///
    /// The direction of the comparison matters: refusing only a balance
    /// above `in_before + amount` would turn away over-payment and let a
    /// callback that sends nothing through. Here every balance below
    /// `in_before + amount` is refused and every other one accepted, and the
    /// sum is never formed in 128 bits, so a large snapshot cannot wrap it.
    pub fn settle(&self, in_after: i128) -> (r: Result<i128, Error>)
        ensures
            r == if self.settled(in_after) {
                Ok::<i128, Error>(self.amount_out)
            } else {
                Err::<i128, Error>(Error::InNotSent)
            },
    {
        let enough: bool = match self.in_before.checked_add(self.amount) {
            Some(due) => in_after >= due,
            None => self.amount < 0,
        };
        if enough {
            Ok(self.amount_out)
        } else {
            Err(Error::InNotSent)
        }
    }

    /// Records the reserves of a settled swap from the pool's live balances
    /// of the input and the output asset, read after the payout.
    pub fn complete(&self, env: &mut Storage<A>, balance_in: i128, balance_out: i128)
        ensures
            final(env).token_a == old(env).token_a,
            final(env).token_b == old(env).token_b,
            reserve_in(*final(env), self.buys_a) == balance_in,
            reserve_out(*final(env), self.buys_a) == balance_out,
            final(env).reserve_a.is_some(),
            final(env).reserve_b.is_some(),
    {
        if self.buys_a {
            write_reserve_a(env, balance_out);
            write_reserve_b(env, balance_in);
        } else {
            write_reserve_b(env, balance_out);
            write_reserve_a(env, balance_in);
        }
    }
}

/// A deposit of non-negative desired amounts into a pool that is empty on
/// both sides or funded on both takes non-negative amounts and leaves the
/// pool funded on both sides.
pub proof fn lemma_deposit_stays_balanced(
    reserve_a: i128,
    reserve_b: i128,
    desired_a: i128,
    min_a: i128,
    desired_b: i128,
    min_b: i128,
)
    requires
        reserve_a >= 0,
        reserve_b >= 0,
        reserve_a == 0 <==> reserve_b == 0,
        desired_a >= 0,
        desired_b >= 0,
    ensures
        match spec_quote_deposit(reserve_a, reserve_b, desired_a, min_a, desired_b, min_b) {
            Some(Ok(q)) => q.amount_a >= 0 && q.amount_b >= 0 && q.reserve_a > 0 && q.reserve_b
                > 0,
            _ => true,
        },
{
    if reserve_a != 0 {
        assert(reserve_b * desired_a >= 0) by (nonlinear_arith)
            requires
                reserve_b >= 0,
                desired_a >= 0,
        ;
        assert(reserve_a * desired_b >= 0) by (nonlinear_arith)
            requires
                reserve_a >= 0,
                desired_b >= 0,
        ;
        assert((reserve_b * desired_a) / (reserve_a as int) >= 0) by (nonlinear_arith)
            requires
                reserve_b * desired_a >= 0,
                reserve_a > 0,
        ;
        assert((reserve_a * desired_b) / (reserve_b as int) >= 0) by (nonlinear_arith)
            requires
                reserve_a * desired_b >= 0,
                reserve_b > 0,
        ;
    }
}

/// The product of the reserves never falls across a swap. Take a pool that
/// is funded on both sides and holds exactly what its reserves record, a swap
/// priced on it, a callback that delivered at least the swap's amount, and the
/// reserves recorded from the balances after the payout: their product is at
/// least the product before, and the pool is still funded on both sides.
pub proof fn lemma_swap_never_lowers_product<A>(
    before: Storage<A>,
    pending: PendingSwap<A>,
    in_after: i128,
    after: Storage<A>,
)
    requires
        before.balanced(),
        before.amount_a() > 0,
        pending.amount > 0,
        pending.in_before == reserve_in(before, pending.buys_a),
        spec_amount_out(
            reserve_in(before, pending.buys_a),
            reserve_out(before, pending.buys_a),
            pending.amount,
        ) == Some(pending.amount_out),
        pending.settled(in_after),
        reserve_in(after, pending.buys_a) == in_after,
        reserve_out(after, pending.buys_a) == reserve_out(before, pending.buys_a)
            - pending.amount_out,
    ensures
        after.amount_a() * after.amount_b() >= before.amount_a() * before.amount_b(),
        after.balanced(),
        after.amount_a() > 0,
{
    let r_in = reserve_in(before, pending.buys_a);
    let r_out = reserve_out(before, pending.buys_a);
    let delivered: int = in_after - r_in;
    lemma_swap_keeps_product(r_in, r_out, pending.amount, delivered);
    assert(r_in + delivered == in_after);
    let new_in: int = reserve_in(after, pending.buys_a) as int;
    let new_out: int = reserve_out(after, pending.buys_a) as int;
    assert(new_in * new_out >= r_in * r_out);
    assert(new_in * new_out == new_out * new_in) by (nonlinear_arith);
    assert(r_in * r_out == r_out * r_in) by (nonlinear_arith);
}

} // verus!
