//! The order of ticket identifiers: the order of their numbers, which is
//! creation order.
use vstd::prelude::*;
use core::cmp::Ordering;
use vstd::std_specs::cmp::PartialOrdSpec;
use vstd::std_specs::cmp::PartialOrdSpecImpl;
use crate::data::TicketId;

verus! {

impl PartialOrd for TicketId {
    fn partial_cmp(&self, other: &TicketId) -> (r: Option<Ordering>) {
        if self.0 < other.0 {
            Some(Ordering::Less)
        } else if self.0 == other.0 {
            Some(Ordering::Equal)
        } else {
            Some(Ordering::Greater)
        }
    }
}

impl PartialOrdSpecImpl for TicketId {
    open spec fn obeys_partial_cmp_spec() -> bool {
        true
    }

    open spec fn partial_cmp_spec(&self, other: &TicketId) -> Option<Ordering> {
        if self.0 < other.0 {
            Some(Ordering::Less)
        } else if self.0 == other.0 {
            Some(Ordering::Equal)
        } else {
            Some(Ordering::Greater)
        }
    }
}

/// Law: identifiers compare as their numbers do. `TicketId::from(a) <
/// TicketId::from(b)` exactly when `a < b` (the `<` of `PartialOrd` answers by
/// `partial_cmp_spec`), and they are equal exactly when the numbers are.
pub proof fn lemma_ticket_id_order(a: u128, b: u128)
    ensures
        (PartialOrdSpec::partial_cmp_spec(&TicketId(a), &TicketId(b)) == Some(Ordering::Less)) == (a < b),
        (PartialOrdSpec::partial_cmp_spec(&TicketId(a), &TicketId(b)) == Some(Ordering::Equal)) == (a == b),
        (PartialOrdSpec::partial_cmp_spec(&TicketId(a), &TicketId(b)) == Some(Ordering::Greater)) == (a > b),
        (TicketId(a) == TicketId(b)) == (a == b),
{
}

} // verus!
