//! Dropping every Linux capability set before an MCP subprocess runs.

use vstd::prelude::*;
use crate::text::concat4;

verus! {

/// The five Linux capability sets.
#[derive(Debug, Clone, Copy, PartialEq, Eq)]
pub enum CapabilitySet {
    Effective,
    Permitted,
    Inheritable,
    Bounding,
    Ambient,
}

/// `Debug` name of a capability set.
pub open spec fn cap_set_name(s: CapabilitySet) -> Seq<char> {
    match s {
        CapabilitySet::Effective => "Effective"@,
        CapabilitySet::Permitted => "Permitted"@,
        CapabilitySet::Inheritable => "Inheritable"@,
        CapabilitySet::Bounding => "Bounding"@,
        CapabilitySet::Ambient => "Ambient"@,
    }
}

fn cap_set_name_str(s: CapabilitySet) -> (r: &'static str)
    ensures
        r@ == cap_set_name(s),
{
    match s {
        CapabilitySet::Effective => "Effective",
        CapabilitySet::Permitted => "Permitted",
        CapabilitySet::Inheritable => "Inheritable",
        CapabilitySet::Bounding => "Bounding",
        CapabilitySet::Ambient => "Ambient",
    }
}

/// `caps::clear(None, set)`: clears one capability set of the calling
/// thread; the error is handed back as its `Display` text. Whether it
/// succeeds depends on the process's privileges, so nothing is promised.
#[verifier::external_body]
fn clear_capability_set(set: CapabilitySet) -> Result<(), String> {
    let s = match set {
        CapabilitySet::Effective => caps::CapSet::Effective,
        CapabilitySet::Permitted => caps::CapSet::Permitted,
        CapabilitySet::Inheritable => caps::CapSet::Inheritable,
        CapabilitySet::Bounding => caps::CapSet::Bounding,
        CapabilitySet::Ambient => caps::CapSet::Ambient,
    };
    caps::clear(None, s).map_err(|e| e.to_string())
}

/// The error message for a failed clear of `set` with error text `e`.
pub open spec fn cap_drop_message(set: CapabilitySet, e: Seq<char>) -> Seq<char> {
    "cap_drop("@ + cap_set_name(set) + "): "@ + e
}

fn clear_one(set: CapabilitySet) -> (r: Result<(), String>)
    ensures
        r matches Err(m) ==> exists|e: Seq<char>| m@ == cap_drop_message(set, e),
{
    match clear_capability_set(set) {
        Ok(()) => Ok(()),
        Err(e) => {
            let m = concat4("cap_drop(", cap_set_name_str(set), "): ", e.as_str());
            assert(m@ == cap_drop_message(set, e@));
            Err(m)
        },
    }
}

/// The order in which the sets are cleared.
pub open spec fn cap_order() -> Seq<CapabilitySet> {
    seq![
        CapabilitySet::Effective,
        CapabilitySet::Permitted,
        CapabilitySet::Inheritable,
        CapabilitySet::Bounding,
        CapabilitySet::Ambient,
    ]
}

/// The set to clear once `done` sets were cleared, if any is left.
pub fn next_cap_set(done: usize) -> (r: Option<CapabilitySet>)
    ensures
        r == (if done < cap_order().len() { Some(cap_order()[done as int]) } else { None::<CapabilitySet> }),
{
    if done == 0 {
        Some(CapabilitySet::Effective)
    } else if done == 1 {
        Some(CapabilitySet::Permitted)
    } else if done == 2 {
        Some(CapabilitySet::Inheritable)
    } else if done == 3 {
        Some(CapabilitySet::Bounding)
    } else if done == 4 {
        Some(CapabilitySet::Ambient)
    } else {
        None
    }
}

/// Clears the sets in `cap_order`, stopping at the first failure, and
/// appends each set it tried to `attempted`: the sets tried are a prefix of
/// the order, all five when it succeeds, and an error names the last one.
pub fn clear_sets_in_order(attempted: &mut Vec<CapabilitySet>) -> (r: Result<(), String>)
    ensures
        old(attempted)@.len() < final(attempted)@.len() <= old(attempted)@.len() + cap_order().len(),
        final(attempted)@ == old(attempted)@ + cap_order().take(final(attempted)@.len() - old(attempted)@.len()),
        r is Ok ==> final(attempted)@.len() == old(attempted)@.len() + cap_order().len(),
        r matches Err(m) ==> exists|e: Seq<char>|
            m@ == #[trigger] cap_drop_message(cap_order()[final(attempted)@.len() - old(attempted)@.len() - 1], e),
{
    let ghost start = attempted@;
    let mut done: usize = 0;
    while done < 5
        invariant
            done <= 5,
            start == old(attempted)@,
            attempted@ == start + cap_order().take(done as int),
        decreases 5 - done,
    {
        let set = match next_cap_set(done) {
            Some(s) => s,
            None => CapabilitySet::Ambient,
        };
        attempted.push(set);
        proof {
            assert(cap_order().take(done + 1) =~= cap_order().take(done as int).push(set));
            assert(attempted@ =~= start + cap_order().take(done + 1));
        }
        match clear_one(set) {
            Ok(()) => {},
            Err(m) => {
                proof {
                    assert(attempted@.len() == start.len() + done + 1);
                    assert(cap_order()[done as int] == set);
                    let e = choose|e: Seq<char>| m@ == #[trigger] cap_drop_message(set, e);
                    assert(m@ == cap_drop_message(cap_order()[attempted@.len() - old(attempted)@.len() - 1], e));
                }
                return Err(m);
            },
        }
        done = done + 1;
    }
    proof {
        assert(cap_order().take(5) =~= cap_order());
    }
    Ok(())
}

/// Clears the effective, permitted, inheritable, bounding and ambient sets
/// in that order, stopping at the first failure (see
/// `clear_sets_in_order`); an error names the set that could not be cleared.
pub fn drop_all_capabilities() -> (r: Result<(), String>)
    ensures
        r matches Err(m) ==> exists|k: int, e: Seq<char>|
            0 <= k < cap_order().len() && m@ == #[trigger] cap_drop_message(cap_order()[k], e),
{
    let mut attempted: Vec<CapabilitySet> = Vec::new();
    let r = clear_sets_in_order(&mut attempted);
    proof {
        if r is Err {
            let k = attempted@.len() - 1;
            assert(0 <= k < cap_order().len());
        }
    }
    r
}

} // verus!
