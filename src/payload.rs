use vstd::prelude::*;
use vstd::string::*;
use vstd::utf8::*;

verus! {

/// Relies on rand::random: a value drawn from the thread-local generator.
/// Nothing is known of the value drawn.
pub assume_specification<T>[ rand::random::<T> ]() -> (r: T)
    where
        rand::distributions::Standard: rand::distributions::Distribution<T>,
;

/// Whether a write draws random bytes rather than using the supplied value.
pub open spec fn draws_random(value: Option<Seq<char>>, random_size: nat) -> bool {
    random_size > 0 || value is None
}

/// `size` random bytes.
pub fn gen_random_data(size: usize) -> (r: Vec<u8>)
    ensures
        r@.len() == size,
{
    let mut data: Vec<u8> = Vec::with_capacity(size);
    let mut i: usize = 0;
    while i < size
        invariant
            i <= size,
            data@.len() == i,
        decreases size - i,
    {
        data.push(rand::random::<u8>());
        i = i + 1;
    }
    data
}

/// The bytes a write stores: `random_size` random bytes when a random payload
/// is asked for or no value is given, otherwise the UTF-8 bytes of the value.
pub fn payload(value: &Option<String>, random_size: usize) -> (r: Vec<u8>)
    ensures
        draws_random(crate::output::text_of(*value), random_size as nat) ==> r@.len() == random_size,
        !draws_random(crate::output::text_of(*value), random_size as nat) ==> r@ == encode_utf8(
            value->0@,
        ),
{
    if random_size > 0 {
        gen_random_data(random_size)
    } else {
        match value {
            Some(v) => v.as_str().as_bytes_vec(),
            None => gen_random_data(random_size),
        }
    }
}

} // verus!
