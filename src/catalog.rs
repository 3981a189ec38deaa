use vstd::prelude::*;

use crate::address::Address;
use crate::error::ErrorCode;

verus! {

/// A publisher's collection of tradable items.
#[derive(Debug, PartialEq, Eq)]
pub struct Game {
    pub authority: Address,
    pub name: String,
    pub symbol: String,
    pub description: String,
    pub total_items: u64,
    pub verified: bool,
}

/// Registers the collection of `authority` in its empty slot, with no items
/// yet and not verified. A publisher registers once: an occupied slot is
/// refused with `AlreadyInitialized` and left as it was.
pub fn register_game(
    slot: &mut Option<Game>,
    authority: Address,
    name: String,
    symbol: String,
    description: String,
) -> (r: Result<(), ErrorCode>)
    ensures
        (*old(slot)) is Some ==> r == Err::<(), ErrorCode>(ErrorCode::AlreadyInitialized)
            && *final(slot) == *old(slot),
        (*old(slot)) is None ==> r is Ok && (*final(slot)) is Some && {
            let g = (*final(slot))->Some_0;
            &&& g.authority == authority
            &&& g.name@ == name@
            &&& g.symbol@ == symbol@
            &&& g.description@ == description@
            &&& g.total_items == 0
            &&& !g.verified
        },
{
    if slot.is_some() {
        return Err(ErrorCode::AlreadyInitialized);
    }
    *slot = Some(Game { authority, name, symbol, description, total_items: 0, verified: false });
    Ok(())
}

} // verus!
