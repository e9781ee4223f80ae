use vstd::prelude::*;

verus! {

/// The body of every answer to the liveness probe.
pub fn health_body() -> (r: &'static str)
    ensures
        r@ == "OK"@,
{
    proof {
        reveal_strlit("OK");
    }
    "OK"
}

/// The plain-text answer to a form subscription, the same for every
/// subscriber: nothing about the subscriber is kept.
pub fn subscription_ack() -> (r: &'static str)
    ensures
        r@ == "Thank you for subscribing!"@,
{
    proof {
        reveal_strlit("Thank you for subscribing!");
    }
    "Thank you for subscribing!"
}

} // verus!
