use crate::message::Pid;
use vstd::prelude::*;

verus! {

/// The decimal digit for a value in `[0, 9]`.
pub open spec fn spec_digit(d: int) -> char {
    if d == 0 { '0' }
    else if d == 1 { '1' }
    else if d == 2 { '2' }
    else if d == 3 { '3' }
    else if d == 4 { '4' }
    else if d == 5 { '5' }
    else if d == 6 { '6' }
    else if d == 7 { '7' }
    else if d == 8 { '8' }
    else { '9' }
}

/// The decimal digits of a number, most significant first, with no sign and
/// no padding.
pub open spec fn spec_decimal(n: nat) -> Seq<char>
    decreases n,
{
    if n < 10 {
        seq![spec_digit(n as int)]
    } else {
        spec_decimal(n / 10).push(spec_digit((n % 10) as int))
    }
}

/// Relies on the `Display` implementation of `u64`: it renders exactly the
/// decimal digits of the value.
#[verifier::external_body]
fn decimal_string(n: u64) -> (r: String)
    ensures
        r@ == spec_decimal(n as nat),
{
    n.to_string()
}

/// Relies on `uuid::Uuid::new_v4` and the `Display` implementation of
/// `Uuid`: a freshly generated random 128-bit identifier, rendered as the
/// 36-character hyphenated lowercase form. Nothing is assumed about the
/// value beyond its length: the result is random and may differ between two
/// calls on equal state.
#[verifier::external_body]
fn random_token() -> (r: String)
    ensures
        r@.len() == 36,
{
    uuid::Uuid::new_v4().to_string()
}

/// Mints new `Pid`s for one host: cheap sequential identifiers where this
/// registry instance is the sole authority over the identifier space, and
/// collision-resistant random identifiers where identity must stay unique
/// across hosts or uncoordinated clients.
pub struct IdGenerator {
    host: String,
    counter: u64,
}

impl IdGenerator {
    /// The host name stamped into every minted `Pid`.
    pub closed spec fn spec_host(&self) -> Seq<char> {
        self.host@
    }

    /// The monotonically increasing sequence counter: it never decreases,
    /// and a value once issued is never issued again.
    pub closed spec fn spec_counter(&self) -> nat {
        self.counter as nat
    }

    pub fn new(host: String) -> (g: IdGenerator)
        ensures
            g.spec_host() == host@,
            g.spec_counter() == 0,
    {
        IdGenerator { host, counter: 0 }
    }

    /// The next sequential local identifier. Valid only while this registry
    /// instance is the sole authority over the identifier space.
    pub fn next_local(&mut self) -> (p: Pid)
        requires
            old(self).spec_counter() < u64::MAX,
        ensures
            final(self).spec_host() == old(self).spec_host(),
            final(self).spec_counter() == old(self).spec_counter() + 1,
            p@ == (old(self).spec_host(), spec_decimal(old(self).spec_counter())),
    {
        let id = decimal_string(self.counter);
        self.counter = self.counter + 1;
        Pid::new(self.host.clone(), id)
    }

    /// A randomly generated 128-bit identifier, chosen independently of the
    /// sequence counter, for any process whose identity must remain unique
    /// when multiple hosts or client-originated registrations race to create
    /// identifiers without coordination. The collision probability is treated
    /// as negligible and is not checked.
    pub fn next_global(&self) -> (p: Pid)
        ensures
            p@.0 == self.spec_host(),
            p@.1.len() == 36,
    {
        Pid::new(self.host.clone(), random_token())
    }
}

} // verus!
