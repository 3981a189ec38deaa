use vstd::prelude::*;

use crate::address::Address;
use crate::error::ErrorCode;
use crate::fee::MAX_FEE_BASIS_POINTS;

verus! {

/// The marketplace ledger: one per deployment. It names the platform
/// operator, its fee rate and the cumulative statistics of completed sales.
#[derive(Clone, Copy, Debug, PartialEq, Eq)]
pub struct Marketplace {
    pub authority: Address,
    pub fee_basis_points: u16,
    pub total_volume: u64,
    pub total_sales: u64,
}

/// The ledger that a successful initialisation stores: zeroed counters.
pub open spec fn fresh_marketplace(authority: Address, fee_basis_points: u16) -> Marketplace {
    Marketplace { authority, fee_basis_points, total_volume: 0, total_sales: 0 }
}

/// What initialising the singleton `slot` gives: the new ledger, or the
/// first refusal in the order `AlreadyInitialized`, `InvalidFee`.
pub open spec fn initialize_outcome(slot: Option<Marketplace>, authority: Address, fee_basis_points: u16)
    -> Result<Marketplace, ErrorCode>
{
    if slot is Some {
        Err(ErrorCode::AlreadyInitialized)
    } else if fee_basis_points > MAX_FEE_BASIS_POINTS {
        Err(ErrorCode::InvalidFee)
    } else {
        Ok(fresh_marketplace(authority, fee_basis_points))
    }
}

/// Creates the marketplace ledger in the empty singleton slot. On refusal the
/// slot is left as it was.
pub fn initialize_marketplace(slot: &mut Option<Marketplace>, authority: Address, fee_basis_points: u16)
    -> (r: Result<(), ErrorCode>)
    ensures
        match initialize_outcome(*old(slot), authority, fee_basis_points) {
            Ok(m) => r is Ok && *final(slot) == Some(m),
            Err(e) => r == Err::<(), ErrorCode>(e) && *final(slot) == *old(slot),
        },
        r is Ok ==> (*final(slot))->Some_0.wf(),
{
    if slot.is_some() {
        return Err(ErrorCode::AlreadyInitialized);
    }
    if fee_basis_points > MAX_FEE_BASIS_POINTS {
        return Err(ErrorCode::InvalidFee);
    }
    *slot = Some(Marketplace { authority, fee_basis_points, total_volume: 0, total_sales: 0 });
    Ok(())
}

impl Marketplace {
    /// A ledger charges a fee rate of at most the whole price.
    pub open spec fn wf(&self) -> bool {
        self.fee_basis_points <= MAX_FEE_BASIS_POINTS
    }

    /// The ledger after one more sale at `price`, or `VolumeOverflow` where a
    /// counter would leave the range of `u64`.
    pub open spec fn after_sale(self, price: u64) -> Result<Marketplace, ErrorCode> {
        if self.total_volume + price > u64::MAX || self.total_sales + 1 > u64::MAX {
            Err(ErrorCode::VolumeOverflow)
        } else {
            Ok(
                Marketplace {
                    total_volume: (self.total_volume + price) as u64,
                    total_sales: (self.total_sales + 1) as u64,
                    ..self
                },
            )
        }
    }

    /// Counts one completed sale at `price`. The counters never wrap: on
    /// overflow the ledger is left as it was and `VolumeOverflow` is returned.
    pub fn record_sale(&mut self, price: u64) -> (r: Result<(), ErrorCode>)
        ensures
            match old(self).after_sale(price) {
                Ok(m) => r is Ok && *final(self) == m,
                Err(e) => r == Err::<(), ErrorCode>(e) && *final(self) == *old(self),
            },
            old(self).wf() ==> final(self).wf(),
    {
        let volume = match self.total_volume.checked_add(price) {
            Some(v) => v,
            None => return Err(ErrorCode::VolumeOverflow),
        };
        let sales = match self.total_sales.checked_add(1) {
            Some(s) => s,
            None => return Err(ErrorCode::VolumeOverflow),
        };
        self.total_volume = volume;
        self.total_sales = sales;
        Ok(())
    }
}

/// The sum of a sequence of prices.
pub open spec fn sum_of(prices: Seq<u64>) -> int
    decreases prices.len(),
{
    if prices.len() == 0 {
        0
    } else {
        sum_of(prices.drop_last()) + prices.last()
    }
}

/// The ledger after a sale at each of `prices` in turn, or the first refusal.
pub open spec fn after_sales(m: Marketplace, prices: Seq<u64>) -> Result<Marketplace, ErrorCode>
    decreases prices.len(),
{
    if prices.len() == 0 {
        Ok(m)
    } else {
        match after_sales(m, prices.drop_last()) {
            Ok(before) => before.after_sale(prices.last()),
            Err(e) => Err(e),
        }
    }
}

/// A second initialisation of the same marketplace is refused with
/// `AlreadyInitialized`, and the ledger of the first stays as it was.
pub proof fn lemma_initialize_twice(
    first_authority: Address,
    first_fee: u16,
    authority: Address,
    fee_basis_points: u16,
)
    requires
        initialize_outcome(None, first_authority, first_fee) is Ok,
    ensures
        initialize_outcome(
            Some(initialize_outcome(None, first_authority, first_fee)->Ok_0),
            authority,
            fee_basis_points,
        ) == Err::<Marketplace, ErrorCode>(ErrorCode::AlreadyInitialized),
        initialize_outcome(None, first_authority, first_fee)->Ok_0 == fresh_marketplace(
            first_authority,
            first_fee,
        ),
{
}

/// After a sale at each of `prices` on a ledger, the volume has grown by
/// exactly the sum of the prices and the count by exactly their number; the
/// authority and the fee rate are unchanged. The sales all succeed whenever
/// those totals fit in `u64`. On a fresh ledger the volume is the sum of the
/// prices and the count is their number.
pub proof fn lemma_sales_statistics(m: Marketplace, prices: Seq<u64>)
    ensures
        after_sales(m, prices) is Ok ==> {
            let n = after_sales(m, prices)->Ok_0;
            &&& n.total_volume == m.total_volume + sum_of(prices)
            &&& n.total_sales == m.total_sales + prices.len()
            &&& n.authority == m.authority
            &&& n.fee_basis_points == m.fee_basis_points
        },
        m.total_volume + sum_of(prices) <= u64::MAX && m.total_sales + prices.len() <= u64::MAX
            ==> after_sales(m, prices) is Ok,
    decreases prices.len(),
{
    if prices.len() > 0 {
        lemma_sum_of_nonnegative(prices.drop_last());
        lemma_sales_statistics(m, prices.drop_last());
    }
}

proof fn lemma_sum_of_nonnegative(prices: Seq<u64>)
    ensures
        sum_of(prices) >= 0,
    decreases prices.len(),
{
    if prices.len() > 0 {
        lemma_sum_of_nonnegative(prices.drop_last());
    }
}

proof fn lemma_sum_of_concat(xs: Seq<u64>, ys: Seq<u64>)
    ensures
        sum_of(xs + ys) == sum_of(xs) + sum_of(ys),
    decreases ys.len(),
{
    if ys.len() == 0 {
        assert(xs + ys =~= xs);
    } else {
        lemma_sum_of_concat(xs, ys.drop_last());
        assert((xs + ys).drop_last() =~= xs + ys.drop_last());
    }
}

/// Sales on different listings may be counted in any interleaving: two
/// batches of sales leave the same ledger whichever batch is counted first.
pub proof fn lemma_sales_commute(m: Marketplace, xs: Seq<u64>, ys: Seq<u64>)
    requires
        after_sales(m, xs + ys) is Ok,
    ensures
        after_sales(m, ys + xs) == after_sales(m, xs + ys),
{
    lemma_sum_of_concat(xs, ys);
    lemma_sum_of_concat(ys, xs);
    lemma_sales_statistics(m, xs + ys);
    lemma_sales_statistics(m, ys + xs);
}

} // verus!
