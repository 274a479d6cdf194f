use vstd::prelude::*;

verus! {

/// The identities in a list, as strings.
pub open spec fn listed(list: Seq<String>) -> Seq<Seq<char>> {
    list.map_values(|s: String| s@)
}

/// A request must be paid for unless its identity is on the exemption list.
pub fn payment_required(whitelist: &Vec<String>, pubkey: String) -> (r: bool)
    ensures
        r == !listed(whitelist@).contains(pubkey@),
{
    let mut i: usize = 0;
    while i < whitelist.len()
        invariant
            0 <= i <= whitelist@.len(),
            forall|j: int| 0 <= j < i ==> whitelist@[j]@ != pubkey@,
        decreases whitelist@.len() - i,
    {
        if whitelist[i] == pubkey {
            assert(listed(whitelist@)[i as int] == pubkey@);
            return false;
        }
        i = i + 1;
    }
    assert forall|j: int| 0 <= j < listed(whitelist@).len() implies listed(whitelist@)[j]
        != pubkey@ by {
        assert(whitelist@[j]@ != pubkey@);
    }
    true
}

} // verus!
