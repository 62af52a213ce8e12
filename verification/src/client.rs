use vstd::prelude::*;

verus! {

/// Whether the test client stops sending: once more than `run_secs` seconds have passed
/// since it started, `elapsed_nanos` being the nanoseconds passed.
pub fn client_should_stop(elapsed_nanos: u128, run_secs: u64) -> (stop: bool)
    ensures
        stop == (elapsed_nanos > run_secs * 1_000_000_000),
{
    elapsed_nanos > (run_secs as u128) * 1_000_000_000
}

} // verus!
