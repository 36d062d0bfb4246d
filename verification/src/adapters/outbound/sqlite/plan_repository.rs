use vstd::prelude::*;
use vstd::std_specs::convert::FromSpecImpl;

use crate::domain::{Plan, PlanId};

verus! {

/// A row of the `plans` table as the database hands it out.
#[derive(Debug)]
pub struct PlanRow {
    pub id: String,
    pub name: String,
    pub max_seats: i64,
    pub requires_card_on_file: bool,
}

/// The seat limit of a plan whose row holds `stored`: the low 32 bits of the
/// stored number.
pub open spec fn seat_limit(stored: i64) -> u32 {
    (stored as int % 0x1_0000_0000) as u32
}

impl From<PlanRow> for Plan {
    fn from(row: PlanRow) -> (plan: Plan) {
        let stored = row.max_seats;
        let max_seats = #[verifier::truncate]
        (stored as u32);
        assert(max_seats == seat_limit(stored)) by (bit_vector)
            requires
                max_seats == stored as u32,
        ;
        Plan {
            id: PlanId::new(row.id),
            name: row.name,
            max_seats,
            requires_card_on_file: row.requires_card_on_file,
        }
    }
}

impl FromSpecImpl<PlanRow> for Plan {
    open spec fn obeys_from_spec() -> bool {
        true
    }

    open spec fn from_spec(row: PlanRow) -> Plan {
        Plan {
            id: PlanId(row.id),
            name: row.name,
            max_seats: seat_limit(row.max_seats),
            requires_card_on_file: row.requires_card_on_file,
        }
    }
}

} // verus!
