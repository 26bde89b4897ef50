use vstd::prelude::*;
use crate::contract::{
    deposit_defined, reserve_in, reserve_out, swap_defined, Deposit, PendingSwap,
};
use crate::math::{spec_amount_out, spec_quote_deposit};
use crate::storage::Storage;
use crate::types::Error;

verus! {

/// The operations of the pool engine and what each of them owes its caller.
pub trait LiquidityPoolTrait {
    /// Sets the asset pair, once. A second call is refused and changes
    /// nothing.
    fn initialize<A>(env: &mut Storage<A>, token_a: A, token_b: A) -> (r: Result<(), Error>)
        ensures
            old(env).initialized() ==> r == Err::<(), Error>(Error::AlreadyInitialized),
            old(env).initialized() ==> *final(env) == *old(env),
            !old(env).initialized() ==> r.is_ok(),
            !old(env).initialized() ==> final(env).token_a == Some(token_a),
            !old(env).initialized() ==> final(env).token_b == Some(token_b),
            final(env).initialized(),
            final(env).reserve_a == old(env).reserve_a,
            final(env).reserve_b == old(env).reserve_b,
    ;

    /// Takes liquidity from `addr`, at the pool's current ratio and within
    /// the caller's bounds, and records the grown reserves.
    ///
    /// On success the returned [`Deposit`] names the amounts to move from the
    /// depositor to the pool. A refusal leaves the store as it was. The
    /// precondition leaves out only the inputs on which the amounts cannot be
    /// formed in 128-bit arithmetic; `LiquidityPool::can_deposit` tests it.
    fn deposit_liquidity<A>(
        env: &mut Storage<A>,
        addr: A,
        desired_a: i128,
        min_a: i128,
        desired_b: i128,
        min_b: i128,
    ) -> (r: Result<Deposit<A>, Error>)
        requires
            deposit_defined(*old(env), desired_a, min_a, desired_b, min_b),
        ensures
            final(env).token_a == old(env).token_a,
            final(env).token_b == old(env).token_b,
            !old(env).initialized() ==> r == Err::<Deposit<A>, Error>(Error::NotInitialized),
            old(env).initialized() ==> match spec_quote_deposit(
                old(env).amount_a(),
                old(env).amount_b(),
                desired_a,
                min_a,
                desired_b,
                min_b,
            ).unwrap() {
                Err(e) => r == Err::<Deposit<A>, Error>(e),
                Ok(q) => r == Ok::<Deposit<A>, Error>(
                    (Deposit { from: addr, amount_a: q.amount_a, amount_b: q.amount_b }),
                ) && final(env).reserve_a == Some(q.reserve_a) && final(env).reserve_b == Some(
                    q.reserve_b,
                ),
            },
            r.is_err() ==> *final(env) == *old(env),
            old(env).initialized() && old(env).amount_a() == 0 && (desired_a <= 1 || desired_b
                <= 1) ==> r == Err::<Deposit<A>, Error>(Error::InvalidAmount),
            old(env).initialized() && old(env).amount_a() == 0 && desired_a > 1 && desired_b > 1
                ==> r.is_ok() && final(env).amount_a() == desired_a && final(env).amount_b()
                == desired_b,
            old(env).balanced() && desired_a >= 0 && desired_b >= 0 && r.is_ok() ==> final(
                env
            ).balanced(),
    ;

    /// Prices a swap of `amount` of the input asset: asset B where `buys_a`,
    /// asset A otherwise. `in_before` is the pool's balance of the input asset
    /// as read just before the call.
    ///
    /// Nothing is stored. The swap goes on with the callback, then
    /// [`PendingSwap::settle`] and [`PendingSwap::complete`]. The precondition
    /// leaves out only the inputs on which the payout cannot be formed in
    /// 128-bit arithmetic; `LiquidityPool::can_swap` tests it.
    fn swap<A>(
        env: &Storage<A>,
        from: Option<A>,
        callback: A,
        buys_a: bool,
        amount: i128,
        nft_dest: A,
        in_before: i128,
    ) -> (r: Result<PendingSwap<A>, Error>)
        requires
            swap_defined(*env, buys_a, amount),
        ensures
            !env.initialized() ==> r == Err::<PendingSwap<A>, Error>(Error::NotInitialized),
            env.initialized() && amount <= 0 ==> r == Err::<PendingSwap<A>, Error>(
                Error::InvalidAmount,
            ),
            env.initialized() && amount > 0 ==> r == Ok::<PendingSwap<A>, Error>(
                (PendingSwap {
                    from,
                    callback,
                    nft_dest,
                    buys_a,
                    amount,
                    in_before,
                    amount_out: spec_amount_out(
                        reserve_in(*env, buys_a),
                        reserve_out(*env, buys_a),
                        amount,
                    ).unwrap(),
                }),
            ),
    ;

    /// The recorded reserves of asset A and asset B.
    fn get_reserves<A>(env: &Storage<A>) -> (r: Result<(i128, i128), Error>)
        ensures
            r == if env.initialized() {
                Ok::<(i128, i128), Error>((env.amount_a(), env.amount_b()))
            } else {
                Err::<(i128, i128), Error>(Error::NotInitialized)
            },
    ;
}

} // verus!
