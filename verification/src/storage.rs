use vstd::prelude::*;
use crate::types::DataKey;

verus! {

/// The pool's persisted state: one slot per [`DataKey`], each empty until it
/// is first written. `A` is the type of an asset identifier, which the pool
/// stores and hands back without looking inside.
pub struct Storage<A> {
    pub token_a: Option<A>,
    pub token_b: Option<A>,
    pub reserve_a: Option<i128>,
    pub reserve_b: Option<i128>,
}

impl<A> Storage<A> {
    /// A store in which nothing has been written.
    pub fn new() -> (s: Self)
        ensures
            s.token_a.is_none(),
            s.token_b.is_none(),
            s.reserve_a.is_none(),
            s.reserve_b.is_none(),
    {
        Storage { token_a: None, token_b: None, reserve_a: None, reserve_b: None }
    }

    /// Whether the slot under `key` holds a value.
    pub open spec fn spec_has(&self, key: DataKey) -> bool {
        match key {
            DataKey::TokenA => self.token_a.is_some(),
            DataKey::TokenB => self.token_b.is_some(),
            DataKey::ReserveA => self.reserve_a.is_some(),
            DataKey::ReserveB => self.reserve_b.is_some(),
        }
    }

    #[verifier::when_used_as_spec(spec_has)]
    pub fn has(&self, key: DataKey) -> (r: bool)
        ensures
            r == self.spec_has(key),
    {
        match key {
            DataKey::TokenA => self.token_a.is_some(),
            DataKey::TokenB => self.token_b.is_some(),
            DataKey::ReserveA => self.reserve_a.is_some(),
            DataKey::ReserveB => self.reserve_b.is_some(),
        }
    }

    /// The pool has its asset pair.
    pub open spec fn initialized(self) -> bool {
        self.token_a.is_some()
    }

    /// The reserve of asset A, an unwritten slot counting as zero.
    pub open spec fn amount_a(self) -> i128 {
        match self.reserve_a {
            Some(v) => v,
            None => 0,
        }
    }

    /// The reserve of asset B, an unwritten slot counting as zero.
    pub open spec fn amount_b(self) -> i128 {
        match self.reserve_b {
            Some(v) => v,
            None => 0,
        }
    }

    /// Neither reserve is negative, and the pool is empty on both sides or
    /// funded on both.
    pub open spec fn balanced(self) -> bool {
        &&& self.amount_a() >= 0
        &&& self.amount_b() >= 0
        &&& (self.amount_a() == 0 <==> self.amount_b() == 0)
    }
}

pub fn has_token_a<A>(env: &Storage<A>) -> (r: bool)
    ensures
        r == env.initialized(),
{
    env.token_a.is_some()
}

/// The identifier of asset A. The caller has checked that it was written.
pub fn read_token_a<A>(env: &Storage<A>) -> (a: &A)
    requires
        env.token_a.is_some(),
    ensures
        env.token_a == Some(*a),
{
    env.token_a.as_ref().unwrap()
}

/// The identifier of asset B. The caller has checked that it was written.
pub fn read_token_b<A>(env: &Storage<A>) -> (b: &A)
    requires
        env.token_b.is_some(),
    ensures
        env.token_b == Some(*b),
{
    env.token_b.as_ref().unwrap()
}

pub fn write_token_a<A>(env: &mut Storage<A>, a: A)
    ensures
        final(env).token_a == Some(a),
        final(env).token_b == old(env).token_b,
        final(env).reserve_a == old(env).reserve_a,
        final(env).reserve_b == old(env).reserve_b,
{
    env.token_a = Some(a);
}

pub fn write_token_b<A>(env: &mut Storage<A>, b: A)
    ensures
        final(env).token_b == Some(b),
        final(env).token_a == old(env).token_a,
        final(env).reserve_a == old(env).reserve_a,
        final(env).reserve_b == old(env).reserve_b,
{
    env.token_b = Some(b);
}

/// The stored reserve of asset A, or zero where none was ever written.
pub fn read_reserve_a<A>(env: &Storage<A>) -> (r: i128)
    ensures
        r == env.amount_a(),
{
    match env.reserve_a {
        Some(v) => v,
        None => 0,
    }
}

/// The stored reserve of asset B, or zero where none was ever written.
pub fn read_reserve_b<A>(env: &Storage<A>) -> (r: i128)
    ensures
        r == env.amount_b(),
{
    match env.reserve_b {
        Some(v) => v,
        None => 0,
    }
}

pub fn write_reserve_a<A>(env: &mut Storage<A>, reserve: i128)
    ensures
        final(env).reserve_a == Some(reserve),
        final(env).token_a == old(env).token_a,
        final(env).token_b == old(env).token_b,
        final(env).reserve_b == old(env).reserve_b,
{
    env.reserve_a = Some(reserve);
}

pub fn write_reserve_b<A>(env: &mut Storage<A>, reserve: i128)
    ensures
        final(env).reserve_b == Some(reserve),
        final(env).token_a == old(env).token_a,
        final(env).token_b == old(env).token_b,
        final(env).reserve_a == old(env).reserve_a,
{
    env.reserve_b = Some(reserve);
}

} // verus!
