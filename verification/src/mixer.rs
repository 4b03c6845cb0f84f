//! Sample-wise mixing of two mono streams of equal sample rate.

use vstd::prelude::*;

verus! {

/// The sample at index `i` of `s`, or `silence` past its end.
pub open spec fn sample_at<T>(s: Seq<T>, i: int, silence: T) -> T {
    if 0 <= i < s.len() {
        s[i]
    } else {
        silence
    }
}

/// The length of the mix of two streams: that of the longer one.
pub open spec fn mixed_len(a_len: nat, b_len: nat) -> nat {
    if a_len >= b_len {
        a_len
    } else {
        b_len
    }
}

/// `silence` leaves a sample unchanged when mixed into it, on either side.
pub open spec fn silence_is_neutral<T, F: Fn(T, T) -> T>(mix: F, silence: T) -> bool {
    forall|x: T, y: T|
        (call_ensures(mix, (x, silence), y) ==> y == x) && (call_ensures(mix, (silence, x), y)
            ==> y == x)
}

/// Mixes two sample streams of the same rate.
///
/// The shorter stream is padded with `silence`, and the samples at each index
/// are combined by `mix` (for audio, the clamped sum of the two samples).
pub fn mix_samples<T: Copy, F: Fn(T, T) -> T>(a: &[T], b: &[T], silence: T, mix: F) -> (out: Vec<T>)
    requires
        forall|x: T, y: T| call_requires(mix, (x, y)),
    ensures
        out@.len() == mixed_len(a@.len(), b@.len()),
        forall|i: int|
            0 <= i < out@.len() ==> call_ensures(
                mix,
                (sample_at(a@, i, silence), sample_at(b@, i, silence)),
                #[trigger] out@[i],
            ),
        silence_is_neutral(mix, silence) && b@.len() == 0 ==> out@ == a@,
        silence_is_neutral(mix, silence) && a@.len() == 0 ==> out@ == b@,
{
    let len: usize = if a.len() >= b.len() {
        a.len()
    } else {
        b.len()
    };
    let mut out: Vec<T> = Vec::new();
    let mut i: usize = 0;
    while i < len
        invariant
            len == mixed_len(a@.len(), b@.len()),
            i <= len,
            out@.len() == i,
            forall|x: T, y: T| call_requires(mix, (x, y)),
            forall|k: int|
                0 <= k < i ==> call_ensures(
                    mix,
                    (sample_at(a@, k, silence), sample_at(b@, k, silence)),
                    #[trigger] out@[k],
                ),
        decreases len - i,
    {
        let sa: T = if i < a.len() {
            a[i]
        } else {
            silence
        };
        let sb: T = if i < b.len() {
            b[i]
        } else {
            silence
        };
        let m: T = mix(sa, sb);
        out.push(m);
        i = i + 1;
    }
    proof {
        if silence_is_neutral(mix, silence) && b@.len() == 0 {
            assert forall|k: int| 0 <= k < out@.len() implies out@[k] == a@[k] by {
                assert(call_ensures(mix, (a@[k], silence), out@[k]));
            }
            assert(out@ =~= a@);
        }
        if silence_is_neutral(mix, silence) && a@.len() == 0 {
            assert forall|k: int| 0 <= k < out@.len() implies out@[k] == b@[k] by {
                assert(call_ensures(mix, (silence, b@[k]), out@[k]));
            }
            assert(out@ =~= b@);
        }
    }
    out
}

} // verus!
