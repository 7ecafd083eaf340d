use vstd::prelude::*;
use crate::key::Pubkey;

verus! {

/// The stages of an escrow, stored in `Escrow::status` by their codes.
#[derive(Clone, Copy, Debug, PartialEq, Eq, Structural)]
pub enum EscrowStatus {
    Active,
    Released,
    Refunded,
    Disputed,
}

impl EscrowStatus {
    /// The code under which the status is stored.
    pub open spec fn code(self) -> u8 {
        match self {
            EscrowStatus::Active => 0,
            EscrowStatus::Released => 1,
            EscrowStatus::Refunded => 2,
            EscrowStatus::Disputed => 3,
        }
    }

    /// The status that a stored code stands for, if any.
    pub open spec fn of_code(c: u8) -> Option<EscrowStatus> {
        if c == 0 {
            Some(EscrowStatus::Active)
        } else if c == 1 {
            Some(EscrowStatus::Released)
        } else if c == 2 {
            Some(EscrowStatus::Refunded)
        } else if c == 3 {
            Some(EscrowStatus::Disputed)
        } else {
            None
        }
    }

    /// Returns the code under which the status is stored.
    pub fn to_u8(self) -> (c: u8)
        ensures
            c == self.code(),
    {
        match self {
            EscrowStatus::Active => 0,
            EscrowStatus::Released => 1,
            EscrowStatus::Refunded => 2,
            EscrowStatus::Disputed => 3,
        }
    }

    /// Reads a stored code; `None` for a code that names no status.
    pub fn from_u8(c: u8) -> (s: Option<EscrowStatus>)
        ensures
            s == EscrowStatus::of_code(c),
    {
        if c == 0 {
            Some(EscrowStatus::Active)
        } else if c == 1 {
            Some(EscrowStatus::Released)
        } else if c == 2 {
            Some(EscrowStatus::Refunded)
        } else if c == 3 {
            Some(EscrowStatus::Disputed)
        } else {
            None
        }
    }
}

/// Each status has a code, and that code reads back as the same status; a code that
/// reads as a status is that status's code.
pub proof fn law_escrow_status_codes(s: EscrowStatus, c: u8)
    ensures
        EscrowStatus::of_code(s.code()) == Some(s),
        EscrowStatus::of_code(c) == Some(s) ==> s.code() == c,
        EscrowStatus::of_code(c) is None <==> c > 3,
{
}

/// Stored codes of the escrow stages, as `spec` shorthands for contracts.
pub open spec fn active() -> u8 { EscrowStatus::Active.code() }
pub open spec fn released() -> u8 { EscrowStatus::Released.code() }
pub open spec fn refunded() -> u8 { EscrowStatus::Refunded.code() }
pub open spec fn disputed() -> u8 { EscrowStatus::Disputed.code() }

/// The stored codes of the escrow stages: active 0, released 1, refunded 2, disputed 3.
pub proof fn law_escrow_stage_codes()
    ensures
        active() == 0 && EscrowStatus::Active.code() == 0,
        released() == 1 && EscrowStatus::Released.code() == 1,
        refunded() == 2 && EscrowStatus::Refunded.code() == 2,
        disputed() == 3 && EscrowStatus::Disputed.code() == 3,
{
}

/// One of the milestones at which an escrow pays the seller.
#[derive(Clone, Copy, Debug, Default, PartialEq, Eq)]
pub struct Milestone {
    /// The milestone's name (such as "production_started").
    pub name: [u8; 32],
    /// The share of the total amount released at this milestone, in basis points.
    pub release_bps: u16,
    /// Whether the milestone has been released.
    pub completed: bool,
    /// Unix timestamp of the release.
    pub completed_at: i64,
}

/// Funds of a vehicle reservation, locked for the seller and released milestone by milestone.
#[derive(Clone, Copy, Debug)]
pub struct Escrow {
    /// The buyer who deposits the funds.
    pub buyer: Pubkey,
    /// The seller (OEM treasury).
    pub seller: Pubkey,
    /// The total purchase amount.
    pub total_amount: u64,
    /// The amount deposited so far.
    pub deposited_amount: u64,
    /// The amount already released to the seller.
    pub released_amount: u64,
    /// The mint of the deposited currency.
    pub token_mint: Pubkey,
    /// The milestones of the purchase.
    pub milestones: [Milestone; 5],
    /// The oracle that signs off milestones.
    pub oracle_signer: Pubkey,
    /// The arbitrator that resolves disputes.
    pub arbitrator: Pubkey,
    /// The stage of the escrow, as an `EscrowStatus` code.
    pub status: u8,
    /// Bump seed of the escrow's program address.
    pub bump: [u8; 1],
    /// Unix timestamp of the escrow's creation.
    pub created_at: i64,
}

impl Escrow {
    /// Bytes of the stored account: discriminator, keys, amounts, five milestones,
    /// status, bump and timestamp.
    pub const SPACE: usize = 8 + 32 + 32 + 8 + 8 + 8 + 32 + (5 * (32 + 2 + 1 + 8)) + 32 + 32 + 1 + 1 + 8;
}

/// Whether every milestone of the array has been released.
pub open spec fn all_completed(ms: [Milestone; 5]) -> bool {
    forall|i: int| 0 <= i < 5 ==> #[trigger] ms@[i].completed
}

/// Whether some milestone of the array has been released.
pub open spec fn any_completed(ms: [Milestone; 5]) -> bool {
    exists|i: int| 0 <= i < 5 && #[trigger] ms@[i].completed
}

/// The amount paid out at a milestone of `bps` basis points of `total`:
/// the product divided by 10000, rounded down, taken modulo 2^64.
pub open spec fn release_amount(total: u64, bps: u16) -> u64 {
    (total as int * bps as int / 10000) as u64
}

/// The funds that an escrow still holds for release: deposits less releases, or
/// nothing where releases exceed deposits.
pub open spec fn available(e: Escrow) -> int {
    if e.deposited_amount >= e.released_amount {
        e.deposited_amount - e.released_amount
    } else {
        0
    }
}

/// The sum of the milestones' basis points.
pub open spec fn bps_total(ms: Seq<Milestone>) -> int
    decreases ms.len(),
{
    if ms.len() == 0 {
        0
    } else {
        bps_total(ms.drop_last()) + ms.last().release_bps
    }
}

/// A longer prefix of the milestones sums to at least as many basis points.
pub proof fn lemma_bps_total_prefix(ms: Seq<Milestone>, i: int, j: int)
    requires
        0 <= i <= j <= ms.len(),
    ensures
        bps_total(ms.take(i)) <= bps_total(ms.take(j)),
    decreases j - i,
{
    if i < j {
        lemma_bps_total_prefix(ms, i, j - 1);
        assert(ms.take(j).drop_last() =~= ms.take(j - 1));
    }
}

/// What a milestone of `bps` basis points pays out of `total`, rounded down.
pub open spec fn share(total: u64, bps: u16) -> int {
    total as int * bps as int / 10000
}

/// What the completed milestones have paid out of `total`.
pub open spec fn paid_out(ms: Seq<Milestone>, total: u64) -> int
    decreases ms.len(),
{
    if ms.len() == 0 {
        0
    } else {
        paid_out(ms.drop_last(), total) + if ms.last().completed {
            share(total, ms.last().release_bps)
        } else {
            0
        }
    }
}

/// What no instruction changes in an escrow once it exists: its parties, amount,
/// currency, oracle, arbitrator, bump, creation time and the milestones' names and shares;
/// and neither the deposited nor the released amount ever shrinks.
pub open spec fn escrow_keeps_terms(old: Escrow, new: Escrow) -> bool {
    &&& new.buyer == old.buyer
    &&& new.seller == old.seller
    &&& new.total_amount == old.total_amount
    &&& new.token_mint == old.token_mint
    &&& new.oracle_signer == old.oracle_signer
    &&& new.arbitrator == old.arbitrator
    &&& new.bump == old.bump
    &&& new.created_at == old.created_at
    &&& forall|i: int| 0 <= i < 5 ==> (#[trigger] new.milestones@[i]).name == old.milestones@[i].name
        && new.milestones@[i].release_bps == old.milestones@[i].release_bps
    &&& new.deposited_amount >= old.deposited_amount
    &&& new.released_amount >= old.released_amount
}

/// The invariant that every escrow keeps: no more released than deposited, milestones
/// that share out exactly the whole amount, a released amount that is what the completed
/// milestones paid, and a released status exactly when every milestone is completed.
pub open spec fn escrow_wf(e: Escrow) -> bool {
    &&& e.released_amount <= e.deposited_amount
    &&& bps_total(e.milestones@) == 10000
    &&& e.released_amount == paid_out(e.milestones@, e.total_amount)
    &&& (e.status == released() <==> all_completed(e.milestones))
}

/// No milestone's basis points exceed the sum of all of them.
pub proof fn lemma_bps_le_total(ms: Seq<Milestone>, i: int)
    requires
        0 <= i < ms.len(),
    ensures
        ms[i].release_bps <= bps_total(ms),
    decreases ms.len(),
{
    if i < ms.len() - 1 {
        lemma_bps_le_total(ms.drop_last(), i);
    }
    lemma_bps_total_nonneg(ms.drop_last());
}

/// A sum of basis points is never negative.
pub proof fn lemma_bps_total_nonneg(ms: Seq<Milestone>)
    ensures
        bps_total(ms) >= 0,
    decreases ms.len(),
{
    if ms.len() > 0 {
        lemma_bps_total_nonneg(ms.drop_last());
    }
}

/// Replacing a milestone by one of the same basis points keeps their sum.
pub proof fn lemma_bps_total_update(ms: Seq<Milestone>, i: int, m: Milestone)
    requires
        0 <= i < ms.len(),
        m.release_bps == ms[i].release_bps,
    ensures
        bps_total(ms.update(i, m)) == bps_total(ms),
    decreases ms.len(),
{
    if i == ms.len() - 1 {
        assert(ms.update(i, m).drop_last() =~= ms.drop_last());
    } else {
        lemma_bps_total_update(ms.drop_last(), i, m);
        assert(ms.update(i, m).drop_last() =~= ms.drop_last().update(i, m));
    }
}

/// Completing an uncompleted milestone adds its share to what has been paid out.
pub proof fn lemma_paid_out_update(ms: Seq<Milestone>, i: int, m: Milestone, total: u64)
    requires
        0 <= i < ms.len(),
        m.release_bps == ms[i].release_bps,
        !ms[i].completed,
        m.completed,
    ensures
        paid_out(ms.update(i, m), total) == paid_out(ms, total) + share(total, m.release_bps),
    decreases ms.len(),
{
    if i == ms.len() - 1 {
        assert(ms.update(i, m).drop_last() =~= ms.drop_last());
    } else {
        lemma_paid_out_update(ms.drop_last(), i, m, total);
        assert(ms.update(i, m).drop_last() =~= ms.drop_last().update(i, m));
    }
}

/// Nothing is paid out while no milestone is completed.
pub proof fn lemma_paid_out_none_completed(ms: Seq<Milestone>, total: u64)
    requires
        forall|i: int| 0 <= i < ms.len() ==> !(#[trigger] ms[i]).completed,
    ensures
        paid_out(ms, total) == 0,
    decreases ms.len(),
{
    if ms.len() > 0 {
        lemma_paid_out_none_completed(ms.drop_last(), total);
    }
}

/// A share is at most its part of the total: ten thousand times the share is at most
/// `total * bps`.
pub proof fn lemma_share_bound(total: u64, bps: u16)
    ensures
        0 <= share(total, bps),
        share(total, bps) * 10000 <= total as int * bps as int,
{
    let p: int = total as int * bps as int;
    assert(p >= 0) by (nonlinear_arith)
        requires
            p == total as int * bps as int,
    ;
    assert(p / 10000 * 10000 <= p && p / 10000 >= 0) by (nonlinear_arith)
        requires
            p >= 0,
    ;
}

/// What has been paid out, times ten thousand, is at most `total` times the sum of the
/// milestones' basis points.
pub proof fn lemma_paid_out_bound(ms: Seq<Milestone>, total: u64)
    ensures
        0 <= paid_out(ms, total),
        paid_out(ms, total) * 10000 <= total as int * bps_total(ms),
    decreases ms.len(),
{
    if ms.len() > 0 {
        let d = ms.drop_last();
        let b = ms.last().release_bps;
        lemma_paid_out_bound(d, total);
        lemma_share_bound(total, b);
        lemma_bps_total_nonneg(d);
        let t: int = total as int;
        let bd: int = bps_total(d);
        assert(t * (bd + b as int) == t * bd + t * (b as int)) by (nonlinear_arith);
        assert(t * b as int >= 0) by (nonlinear_arith)
            requires
                t >= 0,
                b >= 0,
        ;
    }
}

/// Where a milestone's basis points are at most 10000, its share is at most the total and
/// is what `release_amount` pays, untruncated.
pub proof fn lemma_share_fits(total: u64, bps: u16)
    requires
        bps <= 10000,
    ensures
        share(total, bps) <= total,
        release_amount(total, bps) == share(total, bps),
{
    let t: int = total as int;
    let b: int = bps as int;
    assert(t * b <= t * 10000) by (nonlinear_arith)
        requires
            0 <= t,
            0 <= b <= 10000,
    ;
    assert(t * b / 10000 <= t * 10000 / 10000) by (nonlinear_arith)
        requires
            t * b <= t * 10000,
            0 <= t * b,
    ;
    assert(t * 10000 / 10000 == t) by (nonlinear_arith);
    lemma_share_bound(total, bps);
}

/// A well-formed escrow never has released more than its total amount, nor more than was
/// deposited into it.
pub proof fn law_escrow_pays_at_most_total(e: Escrow)
    requires
        escrow_wf(e),
    ensures
        e.released_amount <= e.total_amount,
        e.released_amount <= e.deposited_amount,
{
    lemma_paid_out_bound(e.milestones@, e.total_amount);
    let t: int = e.total_amount as int;
    let r: int = e.released_amount as int;
    assert(r <= t) by (nonlinear_arith)
        requires
            r * 10000 <= t * 10000,
    ;
}

/// The funds held for release are the deposits less the releases, and nothing where the
/// releases exceed the deposits.
pub proof fn law_available_is_deposits_less_releases(e: Escrow)
    ensures
        e.released_amount <= e.deposited_amount ==> available(e) + e.released_amount == e.deposited_amount,
        e.released_amount > e.deposited_amount ==> available(e) == 0,
        0 <= available(e) <= e.deposited_amount,
{
}

/// A milestone of at most 10000 basis points pays its share of the total rounded down:
/// ten thousand times the amount is at most `total * bps`, and ten thousand times one more
/// than the amount exceeds it.
pub proof fn law_release_amount_is_the_share_rounded_down(total: u64, bps: u16)
    requires
        bps <= 10000,
    ensures
        release_amount(total, bps) as int * 10000 <= total as int * bps as int,
        (total as int * bps as int) < release_amount(total, bps) as int * 10000 + 10000,
        release_amount(total, bps) <= total,
{
    lemma_share_fits(total, bps);
    let p: int = total as int * bps as int;
    assert(p >= 0) by (nonlinear_arith)
        requires
            p == total as int * bps as int,
    ;
    assert(p / 10000 * 10000 <= p && p < p / 10000 * 10000 + 10000) by (nonlinear_arith)
        requires
            p >= 0,
    ;
}

/// Returns whether every milestone of the array has been released.
pub fn all_milestones_completed(ms: &[Milestone; 5]) -> (b: bool)
    ensures
        b <==> (forall|i: int| 0 <= i < 5 ==> #[trigger] ms@[i].completed),
{
    let mut i: usize = 0;
    while i < 5
        invariant
            0 <= i <= 5,
            forall|j: int| 0 <= j < i ==> #[trigger] ms@[j].completed,
        decreases 5 - i,
    {
        if !ms[i].completed {
            return false;
        }
        i = i + 1;
    }
    true
}

/// Returns whether some milestone of the array has been released.
pub fn any_milestone_completed(ms: &[Milestone; 5]) -> (b: bool)
    ensures
        b <==> (exists|i: int| 0 <= i < 5 && #[trigger] ms@[i].completed),
{
    let mut i: usize = 0;
    while i < 5
        invariant
            0 <= i <= 5,
            forall|j: int| 0 <= j < i ==> !(#[trigger] ms@[j].completed),
        decreases 5 - i,
    {
        if ms[i].completed {
            return true;
        }
        i = i + 1;
    }
    false
}

/// Computes the amount paid out at a milestone: `total * bps / 10000`, in 128-bit
/// arithmetic, cut to 64 bits.
pub fn milestone_release_amount(total: u64, bps: u16) -> (a: u64)
    ensures
        a == release_amount(total, bps),
{
    let t: u128 = total as u128;
    let b: u128 = bps as u128;
    assert(t * b <= 0xffff_ffff_ffff_ffff * 0xffff) by (nonlinear_arith)
        requires
            t <= 0xffff_ffff_ffff_ffff,
            b <= 0xffff,
    ;
    let prod: u128 = t * b;
    let q: u128 = prod / 10000;
    q as u64
}

} // verus!
