use vstd::prelude::*;

verus! {

/// The 128-bit namespace of a variable, as the firmware lays it out.
#[verifier::external_type_specification]
#[verifier::external_body]
pub struct ExGuid(r_efi::efi::Guid);

/// Whether a name holds a zero code unit, which ends it.
pub open spec fn has_terminator(name: Seq<u16>) -> bool {
    exists|i: int| 0 <= i < name.len() && name[i] == 0
}

/// Looks for the zero code unit that ends a name.
pub fn contains_terminator(name: &[u16]) -> (r: bool)
    ensures
        r == has_terminator(name@),
{
    let mut i: usize = 0;
    while i < name.len()
        invariant
            i <= name@.len(),
            forall|j: int| 0 <= j < i ==> name@[j] != 0,
        decreases name@.len() - i,
    {
        if name[i] == 0 {
            return true;
        }
        i = i + 1;
    }
    false
}

/// Copies a name into a buffer of its own.
pub fn copy_name(name: &[u16]) -> (r: Vec<u16>)
    ensures
        r@ == name@,
{
    let mut r: Vec<u16> = Vec::new();
    let mut i: usize = 0;
    while i < name.len()
        invariant
            i <= name@.len(),
            r@ == name@.subrange(0, i as int),
        decreases name@.len() - i,
    {
        r.push(name[i]);
        i = i + 1;
    }
    assert(r@ =~= name@);
    r
}

} // verus!
