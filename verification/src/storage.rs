//! Where the local secure-storage backend keeps an object: a file named by
//! the lower-case hexadecimal form of the object's id.
use vstd::prelude::*;

use crate::digits::{digit_str, spec_digit_char};

verus! {

/// The lower-case hexadecimal form of `bytes`, two digits per byte.
pub open spec fn spec_hex_encode(bytes: Seq<u8>) -> Seq<char>
    decreases bytes.len(),
{
    if bytes.len() == 0 {
        Seq::empty()
    } else {
        spec_hex_encode(bytes.drop_last()) + seq![
            spec_digit_char((bytes.last() / 16) as int),
            spec_digit_char((bytes.last() % 16) as int),
        ]
    }
}

/// The name of the file that holds the object `obj_id`: its id in
/// lower-case hexadecimal.
pub fn storage_file_name(obj_id: &[u8]) -> (name: String)
    ensures
        name@ == spec_hex_encode(obj_id@),
{
    let mut name = String::new();
    let mut i: usize = 0;
    assert(obj_id@.take(0) =~= Seq::<u8>::empty());
    while i < obj_id.len()
        invariant
            i <= obj_id@.len(),
            name@ == spec_hex_encode(obj_id@.take(i as int)),
        decreases obj_id@.len() - i,
    {
        let b = obj_id[i];
        assert(obj_id@.take(i + 1).drop_last() =~= obj_id@.take(i as int));
        name.append(digit_str((b / 16) as u64));
        name.append(digit_str((b % 16) as u64));
        i = i + 1;
        assert(name@ =~= spec_hex_encode(obj_id@.take(i as int)));
    }
    assert(obj_id@.take(obj_id@.len() as int) =~= obj_id@);
    name
}

} // verus!
