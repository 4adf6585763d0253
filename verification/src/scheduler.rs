//! Release scheduler: after a session stops, the latched keys must be
//! synthetically released, and a single release is not reliably observed
//! by the foreground application. The schedule therefore repeats the
//! full release pass a fixed number of times with fixed delays; releases
//! are idempotent for a correctly behaved consumer, so redundancy is
//! harmless.

use vstd::prelude::*;

use crate::keys::KeyId;

verus! {

/// Delay before the first release pass, in milliseconds.
pub const INITIAL_RELEASE_DELAY_MS: u64 = 8;

/// Delay before each later release pass, in milliseconds.
pub const RETRY_RELEASE_DELAY_MS: u64 = 14;

/// How many release passes a schedule performs.
pub const RELEASE_PASS_COUNT: usize = 4;

/// One pass of the schedule: wait `delay_ms`, then issue one synthetic
/// release for every key in `keys`.
pub struct ReleasePass {
    pub delay_ms: u64,
    pub keys: Vec<KeyId>,
}

fn copy_keys(keys: &Vec<KeyId>) -> (r: Vec<KeyId>)
    ensures
        r@ == keys@,
{
    let n = keys.len();
    let mut out: Vec<KeyId> = Vec::new();
    let mut i: usize = 0;
    while i < n
        invariant
            0 <= i <= n,
            n == keys@.len(),
            out@ == keys@.subrange(0, i as int),
        decreases n - i,
    {
        out.push(keys[i]);
        i += 1;
    }
    proof {
        assert(out@ =~= keys@);
    }
    out
}

/// The release schedule for a set of keys taken from a stopped session:
/// empty input yields no work at all; otherwise exactly
/// `RELEASE_PASS_COUNT` passes, the first after the short initial delay
/// and every later one after the retry delay, each pass releasing every
/// key once, in the same order.
pub fn build_release_schedule(keys: Vec<KeyId>) -> (r: Vec<ReleasePass>)
    ensures
        keys@.len() == 0 ==> r@.len() == 0,
        keys@.len() > 0 ==> {
            &&& r@.len() == RELEASE_PASS_COUNT
            &&& forall|i: int| 0 <= i < r@.len() ==> (#[trigger] r@[i].keys)@ == keys@
            &&& r@[0].delay_ms == INITIAL_RELEASE_DELAY_MS
            &&& forall|i: int|
                1 <= i < r@.len() ==> (#[trigger] r@[i].delay_ms) == RETRY_RELEASE_DELAY_MS
        },
{
    let mut r: Vec<ReleasePass> = Vec::new();
    if keys.len() == 0 {
        return r;
    }
    let mut pass: usize = 0;
    while pass < RELEASE_PASS_COUNT
        invariant
            0 <= pass <= RELEASE_PASS_COUNT,
            r@.len() == pass,
            keys@.len() > 0,
            forall|i: int| 0 <= i < r@.len() ==> (#[trigger] r@[i].keys)@ == keys@,
            r@.len() > 0 ==> r@[0].delay_ms == INITIAL_RELEASE_DELAY_MS,
            forall|i: int|
                1 <= i < r@.len() ==> (#[trigger] r@[i].delay_ms) == RETRY_RELEASE_DELAY_MS,
        decreases RELEASE_PASS_COUNT - pass,
    {
        let delay_ms = if pass == 0 {
            INITIAL_RELEASE_DELAY_MS
        } else {
            RETRY_RELEASE_DELAY_MS
        };
        r.push(ReleasePass { delay_ms, keys: copy_keys(&keys) });
        pass += 1;
    }
    r
}

} // verus!
