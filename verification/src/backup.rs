use vstd::prelude::*;

verus! {

/// The suffix appended to a file name to form its backup sibling's name.
pub open spec fn backup_suffix() -> Seq<u8> {
    seq![46u8, 98u8, 97u8, 107u8]
}

/// The name of the backup sibling of `name`: the original name with `.bak`
/// appended after any existing extension.
pub open spec fn backup_name_spec(name: Seq<u8>) -> Seq<u8> {
    name + backup_suffix()
}

/// Build the backup file name for `name` (as bytes): the same bytes with
/// `.bak` appended.
pub fn backup_name(name: &Vec<u8>) -> (r: Vec<u8>)
    ensures
        r@ == backup_name_spec(name@),
{
    let mut r = name.clone();
    r.push(46u8);
    r.push(98u8);
    r.push(97u8);
    r.push(107u8);
    proof {
        assert(r@ =~= name@ + backup_suffix());
    }
    r
}

} // verus!
