//! The source of draws for the signal generator.

use vstd::prelude::*;

verus! {

/// Relies on `rand::random::<u32>`: one value from the thread-local
/// generator. Nothing is known of which value comes.
#[verifier::external_body]
fn draw() -> (r: u32) {
    rand::random::<u32>()
}

/// `n` fresh draws from the thread-local generator.
pub fn draws(n: usize) -> (r: Vec<u32>)
    ensures
        r@.len() == n,
{
    let mut r: Vec<u32> = Vec::with_capacity(n);
    let mut i: usize = 0;
    while i < n
        invariant
            i <= n,
            r@.len() == i,
        decreases n - i,
    {
        r.push(draw());
        i = i + 1;
    }
    r
}

} // verus!
