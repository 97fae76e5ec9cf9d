//! Picking a browser user-agent string for the shared HTTP client: one of a
//! fixed pool of five, chosen at random once per run.

use vstd::prelude::*;

verus! {

/// How many user-agent strings the pool holds.
pub const USER_AGENT_COUNT: u64 = 5;

/// The `i`-th user-agent string of the pool.
pub open spec fn spec_user_agent(i: int) -> Seq<char> {
    if i == 0 {
        "Mozilla/5.0 (Windows NT 10.0; Win64; x64) AppleWebKit/537.36 (KHTML, like Gecko) Chrome/120.0.0.0 Safari/537.36"@
    } else if i == 1 {
        "Mozilla/5.0 (Macintosh; Intel Mac OS X 10_15_7) AppleWebKit/605.1.15 (KHTML, like Gecko) Version/17.2 Safari/605.1.15"@
    } else if i == 2 {
        "Mozilla/5.0 (X11; Linux x86_64) AppleWebKit/537.36 (KHTML, like Gecko) Chrome/119.0.0.0 Safari/537.36"@
    } else if i == 3 {
        "Mozilla/5.0 (Windows NT 10.0; Win64; x64; rv:109.0) Gecko/20100101 Firefox/121.0"@
    } else {
        "Mozilla/5.0 (Macintosh; Intel Mac OS X 10.15; rv:109.0) Gecko/20100101 Firefox/121.0"@
    }
}

/// Relies on `rand::random`: a fresh pseudo-random number, of which nothing
/// further is promised.
#[verifier::external_body]
fn random_u64() -> u64 {
    rand::random::<u64>()
}

/// The user-agent of the pool that a draw of `n` selects.
pub fn user_agent_at(n: u64) -> (r: String)
    ensures
        r@ == spec_user_agent((n % USER_AGENT_COUNT) as int),
{
    let k = n % USER_AGENT_COUNT;
    if k == 0 {
        "Mozilla/5.0 (Windows NT 10.0; Win64; x64) AppleWebKit/537.36 (KHTML, like Gecko) Chrome/120.0.0.0 Safari/537.36".to_owned()
    } else if k == 1 {
        "Mozilla/5.0 (Macintosh; Intel Mac OS X 10_15_7) AppleWebKit/605.1.15 (KHTML, like Gecko) Version/17.2 Safari/605.1.15".to_owned()
    } else if k == 2 {
        "Mozilla/5.0 (X11; Linux x86_64) AppleWebKit/537.36 (KHTML, like Gecko) Chrome/119.0.0.0 Safari/537.36".to_owned()
    } else if k == 3 {
        "Mozilla/5.0 (Windows NT 10.0; Win64; x64; rv:109.0) Gecko/20100101 Firefox/121.0".to_owned()
    } else {
        "Mozilla/5.0 (Macintosh; Intel Mac OS X 10.15; rv:109.0) Gecko/20100101 Firefox/121.0".to_owned()
    }
}

/// Picks one user-agent string of the fixed pool at random.
pub fn get_random_user_agent() -> (r: String)
    ensures
        exists|i: int| 0 <= i < USER_AGENT_COUNT && r@ == spec_user_agent(i),
{
    let n = random_u64();
    let r = user_agent_at(n);
    proof {
        assert(0 <= n % USER_AGENT_COUNT < USER_AGENT_COUNT);
    }
    r
}

} // verus!
