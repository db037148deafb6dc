//! The record of categorized item counts stored in a single locker.

use vstd::prelude::*;
use vstd::string::StringExecFns;

use crate::decimal::{decimal_string, spec_decimal};

verus! {

/// Specifies items to be stored in the cloakroom: four independent category
/// counts. A pure value type with no invariant of its own; the containing
/// locker bounds the total.
#[derive(Clone, Copy, Debug)]
pub struct CloakroomItems {
    pub num_coats: u8,
    pub num_backpacks: u8,
    pub num_umbrellas: u8,
    pub num_other_items: u8,
}

impl CloakroomItems {
    /// The sum of the four category counts.
    pub open spec fn spec_total(self) -> int {
        self.num_coats + self.num_backpacks + self.num_umbrellas + self.num_other_items
    }

    /// All four category counts are zero.
    pub open spec fn all_zero(self) -> bool {
        self.num_coats == 0 && self.num_backpacks == 0 && self.num_umbrellas == 0
            && self.num_other_items == 0
    }

    /// Creates an empty record: every category count is zero.
    pub fn new() -> (r: CloakroomItems)
        ensures
            r.all_zero(),
    {
        CloakroomItems { num_coats: 0, num_backpacks: 0, num_umbrellas: 0, num_other_items: 0 }
    }

    /// The total number of items over all four categories.
    pub fn get_total_num_items(&self) -> (r: u16)
        ensures
            r == self.spec_total(),
    {
        self.num_coats as u16 + self.num_backpacks as u16 + self.num_umbrellas as u16
            + self.num_other_items as u16
    }

    /// The canonical display string: the four counts in the fixed field
    /// order coats, backpacks, umbrellas, other.
    pub open spec fn spec_format(self) -> Seq<char> {
        "num coats: "@ + spec_decimal(self.num_coats as nat) + ", num backpacks: "@
            + spec_decimal(self.num_backpacks as nat) + ", num umbrellas: "@ + spec_decimal(
            self.num_umbrellas as nat,
        ) + ", num other items: "@ + spec_decimal(self.num_other_items as nat)
    }

    /// Renders the canonical display string for this record.
    pub fn format(&self) -> (s: String)
        ensures
            s@ == self.spec_format(),
    {
        let mut s = "num coats: ".to_owned();
        s.append(decimal_string(self.num_coats).as_str());
        s.append(", num backpacks: ");
        s.append(decimal_string(self.num_backpacks).as_str());
        s.append(", num umbrellas: ");
        s.append(decimal_string(self.num_umbrellas).as_str());
        s.append(", num other items: ");
        s.append(decimal_string(self.num_other_items).as_str());
        assert(s@ =~= self.spec_format());
        s
    }
}

} // verus!
