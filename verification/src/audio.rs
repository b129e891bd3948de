//! The hiss a snake makes when clicked.
use vstd::prelude::*;

verus! {

/// One of `items`, picked uniformly at random from the thread's generator
/// (`IndexedRandom` of `rand::seq`, its method that picks one item); `None` exactly when there is none
/// to pick. Which one comes back is not stated.
#[verifier::external_body]
fn choose_random<A>(items: &[A]) -> (r: Option<&A>)
    ensures
        r is None <==> items@.len() == 0,
        r matches Some(x) ==> items@.contains(*x),
{
    rand::seq::IndexedRandom::choose(items, &mut rand::rng())
}

/// The hiss sounds to pick from.
pub struct HissSound<A>(pub Vec<A>);

impl<A> HissSound<A> {
    /// A random one of the sounds; `None` when there are none.
    pub fn pick(&self) -> (r: Option<&A>)
        ensures
            r is None <==> self.0@.len() == 0,
            r matches Some(x) ==> self.0@.contains(*x),
    {
        choose_random(self.0.as_slice())
    }
}

} // verus!
