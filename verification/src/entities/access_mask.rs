//! Access levels of users, as bit masks. Each level holds the bits of the
//! levels below it: a librarian can do what a user can, an admin what a
//! librarian can.
use vstd::prelude::*;

verus! {

/// Borrow books.
pub const USER: i32 = 0x001;

/// Manage books, and what `USER` grants.
pub const LIBRARIAN: i32 = 0x011;

/// Everything.
pub const ADMIN: i32 = 0x111;

/// A mask grants a required level when it holds every bit of that level.
pub open spec fn spec_grants(mask: i32, required: i32) -> bool {
    mask & required == required
}

pub fn grants(mask: i32, required: i32) -> (r: bool)
    ensures
        r == spec_grants(mask, required),
{
    mask & required == required
}

/// Every mask grants itself.
pub proof fn lemma_grants_reflexive(mask: i32)
    ensures
        spec_grants(mask, mask),
{
    assert(mask & mask == mask) by (bit_vector);
}

/// Granting is transitive: a mask that grants a level grants whatever that level grants.
pub proof fn lemma_grants_transitive(a: i32, b: i32, c: i32)
    requires
        spec_grants(a, b),
        spec_grants(b, c),
    ensures
        spec_grants(a, c),
{
    assert((a & b == b && b & c == c) ==> a & c == c) by (bit_vector);
}

/// The levels are ordered: admin grants librarian, librarian grants user,
/// and no lower level grants a higher one.
pub proof fn lemma_levels_ordered()
    ensures
        spec_grants(ADMIN, LIBRARIAN),
        spec_grants(ADMIN, USER),
        spec_grants(LIBRARIAN, USER),
        !spec_grants(USER, LIBRARIAN),
        !spec_grants(USER, ADMIN),
        !spec_grants(LIBRARIAN, ADMIN),
{
    assert(0x111i32 & 0x011i32 == 0x011i32) by (bit_vector);
    assert(0x111i32 & 0x001i32 == 0x001i32) by (bit_vector);
    assert(0x011i32 & 0x001i32 == 0x001i32) by (bit_vector);
    assert(0x001i32 & 0x011i32 != 0x011i32) by (bit_vector);
    assert(0x001i32 & 0x111i32 != 0x111i32) by (bit_vector);
    assert(0x011i32 & 0x111i32 != 0x111i32) by (bit_vector);
}

} // verus!
