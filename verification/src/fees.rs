//! The fee arithmetic: the termination fee, the normalized per-team and
//! per-player entry costs, and the per-player winnings. Every step is
//! overflow-checked; `None` stands for the computation failing rather than
//! wrapping, and each function's contract says exactly which inputs fail.

use vstd::prelude::*;

verus! {

/// Ten to the `e`-th power, as an unbounded natural.
pub open spec fn spec_pow10(e: nat) -> nat
    decreases e,
{
    if e == 0 {
        1
    } else {
        10 * spec_pow10((e - 1) as nat)
    }
}

/// `spec_pow10` never shrinks as the exponent grows.
pub proof fn lemma_pow10_increases(a: nat, b: nat)
    requires
        a <= b,
    ensures
        spec_pow10(a) <= spec_pow10(b),
    decreases b,
{
    if a < b {
        lemma_pow10_increases(a, (b - 1) as nat);
        assert(spec_pow10(b) == 10 * spec_pow10((b - 1) as nat));
    }
}

/// Ten to the `e`-th power when it fits in 64 bits, `None` when it does not.
pub fn pow10(e: u32) -> (r: Option<u64>)
    ensures
        r == (if spec_pow10(e as nat) <= u64::MAX {
            Some(spec_pow10(e as nat) as u64)
        } else {
            None::<u64>
        }),
{
    let mut acc: u64 = 1;
    let mut i: u32 = 0;
    while i < e
        invariant
            i <= e,
            acc == spec_pow10(i as nat),
        decreases e - i,
    {
        if acc > u64::MAX / 10 {
            proof {
                lemma_pow10_increases((i + 1) as nat, e as nat);
            }
            return None;
        }
        acc = acc * 10;
        i += 1;
    }
    Some(acc)
}

/// The checked product of `a` and `b`: the exact value when it fits in 64
/// bits, `None` when it does not.
pub open spec fn spec_checked_mul(a: u64, b: u64) -> Option<u64> {
    if a * b <= u64::MAX {
        Some((a * b) as u64)
    } else {
        None
    }
}

/// The termination fee withheld from the pool at closure:
/// `cost_per_team * 10^(decimals - 4) * amount_of_teams * fee_basis_points`,
/// each multiplication checked in turn. It fails when the asset keeps fewer
/// than 4 decimals (the basis-point adjustment would be meaningless), when
/// the power itself leaves 64 bits, or when any partial product does.
pub open spec fn spec_termination_fee(
    cost_per_team: u64,
    decimals: u8,
    amount_of_teams: u64,
    fee_basis_points: u64,
) -> Option<u64> {
    if decimals < 4 {
        None
    } else if spec_pow10((decimals - 4) as nat) > u64::MAX {
        None
    } else {
        let p = spec_pow10((decimals - 4) as nat) as u64;
        match spec_checked_mul(cost_per_team, p) {
            None => None,
            Some(m1) => match spec_checked_mul(m1, amount_of_teams) {
                None => None,
                Some(m2) => spec_checked_mul(m2, fee_basis_points),
            },
        }
    }
}

/// Computes the termination fee; `None` exactly where
/// [`spec_termination_fee`] fails.
pub fn termination_fee(
    cost_per_team: u64,
    decimals: u8,
    amount_of_teams: u64,
    fee_basis_points: u64,
) -> (r: Option<u64>)
    ensures
        r == spec_termination_fee(cost_per_team, decimals, amount_of_teams, fee_basis_points),
{
    if decimals < 4 {
        return None;
    }
    let p = match pow10((decimals - 4) as u32) {
        None => {
            return None;
        },
        Some(p) => p,
    };
    let m1 = match cost_per_team.checked_mul(p) {
        None => {
            return None;
        },
        Some(m) => m,
    };
    let m2 = match m1.checked_mul(amount_of_teams) {
        None => {
            return None;
        },
        Some(m) => m,
    };
    m2.checked_mul(fee_basis_points)
}

/// A team's entry cost normalized to base units of the asset:
/// `cost_per_team * 10^decimals`, checked. It fails when the power leaves 64
/// bits or the product does.
pub open spec fn spec_normalized_cost_per_team(cost_per_team: u64, decimals: u8) -> Option<u64> {
    if spec_pow10(decimals as nat) > u64::MAX {
        None
    } else {
        spec_checked_mul(cost_per_team, spec_pow10(decimals as nat) as u64)
    }
}

/// Computes the normalized per-team entry cost; `None` exactly where
/// [`spec_normalized_cost_per_team`] fails.
pub fn normalized_cost_per_team(cost_per_team: u64, decimals: u8) -> (r: Option<u64>)
    ensures
        r == spec_normalized_cost_per_team(cost_per_team, decimals),
{
    let p = match pow10(decimals as u32) {
        None => {
            return None;
        },
        Some(p) => p,
    };
    cost_per_team.checked_mul(p)
}

/// One player's normalized entry cost: the normalized team cost divided by
/// the first team's size, truncating. It fails where the normalization fails
/// or the team is empty.
pub open spec fn spec_cost_per_player(
    cost_per_team: u64,
    decimals: u8,
    first_team_size: u64,
) -> Option<u64> {
    match spec_normalized_cost_per_team(cost_per_team, decimals) {
        None => None,
        Some(n) => if first_team_size == 0 {
            None
        } else {
            Some((n as int / first_team_size as int) as u64)
        },
    }
}

/// Computes the per-player entry cost; `None` exactly where
/// [`spec_cost_per_player`] fails.
pub fn cost_per_player(cost_per_team: u64, decimals: u8, first_team_size: u64) -> (r: Option<
    u64,
>)
    ensures
        r == spec_cost_per_player(cost_per_team, decimals, first_team_size),
{
    let n = match normalized_cost_per_team(cost_per_team, decimals) {
        None => {
            return None;
        },
        Some(n) => n,
    };
    n.checked_div(first_team_size)
}

/// One player's winnings at payout: the whole pool
/// (`normalized_cost_per_team * amount_of_teams`) less the termination fee,
/// split over one team's players, each step checked. It fails when the pool
/// leaves 64 bits, when the fee exceeds the pool, or when the team size is
/// zero.
pub open spec fn spec_winnings_per_player(
    normalized_cost_per_team: u64,
    amount_of_teams: u64,
    termination_fee: u64,
    players_per_team: u64,
) -> Option<u64> {
    match spec_checked_mul(normalized_cost_per_team, amount_of_teams) {
        None => None,
        Some(pool) => if termination_fee > pool {
            None
        } else if players_per_team == 0 {
            None
        } else {
            Some(((pool - termination_fee) as int / players_per_team as int) as u64)
        },
    }
}

/// Computes the per-player winnings; `None` exactly where
/// [`spec_winnings_per_player`] fails.
pub fn winnings_per_player(
    normalized_cost_per_team: u64,
    amount_of_teams: u64,
    termination_fee: u64,
    players_per_team: u64,
) -> (r: Option<u64>)
    ensures
        r == spec_winnings_per_player(
            normalized_cost_per_team,
            amount_of_teams,
            termination_fee,
            players_per_team,
        ),
{
    let pool = match normalized_cost_per_team.checked_mul(amount_of_teams) {
        None => {
            return None;
        },
        Some(p) => p,
    };
    let kept = match pool.checked_sub(termination_fee) {
        None => {
            return None;
        },
        Some(k) => k,
    };
    kept.checked_div(players_per_team)
}

} // verus!
