//! Pressing a chord of keys so that every key pressed is released again.

use vstd::prelude::*;

verus! {

/// How many presses a chord of `n` keys sends when the press at `k` is the
/// first that fails (`k == n` when none fails): every press up to and
/// including the failed one.
pub open spec fn presses_sent(n: int, k: int) -> int {
    if k < n {
        k + 1
    } else {
        n
    }
}

/// The first error among some outcomes, in order, or success when none failed.
pub open spec fn first_error<E>(outcomes: Seq<Result<(), E>>) -> Result<(), E>
    decreases outcomes.len(),
{
    if outcomes.len() == 0 {
        Ok(())
    } else if outcomes[0] is Err {
        outcomes[0]
    } else {
        first_error(outcomes.drop_first())
    }
}

/// A run of a chord in which the press at `k` is the first that fails
/// (`k == n` when none fails), with the outcome of each event in the order
/// sent: the keys `0..presses_sent(n, k)` are pressed in order, then the `k`
/// keys whose press succeeded are released in reverse order. Each outcome is
/// one that the sender may return for its event.
pub open spec fn chord_run<E, F: FnMut(&str, bool) -> Result<(), E>>(
    send_key: F,
    codes: Seq<&str>,
    k: int,
    outcomes: Seq<Result<(), E>>,
) -> bool {
    let n = codes.len() as int;
    let p = presses_sent(n, k);
    &&& 0 <= k <= n
    &&& outcomes.len() == p + k
    &&& forall|i: int| 0 <= i < p ==> #[trigger] call_ensures(send_key, (codes[i], true), outcomes[i])
    &&& forall|i: int| 0 <= i < k ==> #[trigger] outcomes[i] is Ok
    &&& k < n ==> outcomes[k] is Err
    &&& forall|j: int| 0 <= j < k ==> #[trigger] call_ensures(send_key, (codes[k - 1 - j], false), outcomes[p + j])
}

/// The result of a chord run: the failed press's error, or else the first
/// failed release.
pub open spec fn chord_result<E>(n: int, k: int, outcomes: Seq<Result<(), E>>) -> Result<(), E> {
    if k < n {
        outcomes[k]
    } else {
        first_error(outcomes.skip(n))
    }
}

/// The first error of some outcomes followed by one more.
proof fn first_error_push<E>(s: Seq<Result<(), E>>, x: Result<(), E>)
    ensures
        first_error(s.push(x)) == (if first_error(s) is Err { first_error(s) } else if x is Err { x } else {
            Ok(())
        }),
    decreases s.len(),
{
    assert(first_error(Seq::<Result<(), E>>::empty()) == Ok::<(), E>(()));
    if s.len() > 0 {
        assert(s.push(x).drop_first() =~= s.drop_first().push(x));
        first_error_push(s.drop_first(), x);
    } else {
        assert(s.push(x).drop_first() =~= Seq::<Result<(), E>>::empty());
    }
}

/// Success among outcomes is plain success.
proof fn first_error_ok<E>(s: Seq<Result<(), E>>)
    ensures
        first_error(s) is Ok ==> first_error(s) == Ok::<(), E>(()),
    decreases s.len(),
{
    if s.len() > 0 {
        first_error_ok(s.drop_first());
    }
}

/// Presses the keys of a chord in order and then releases, in reverse order,
/// every key whose press succeeded; a failed press stops the presses. The
/// result is the error of the failed press, or else the first failed release.
pub fn chord_sequence<E, F>(code_names: &[&str], mut send_key: F) -> (r: Result<(), E>)
    where
        F: FnMut(&str, bool) -> Result<(), E>,
    requires
        forall|code: &str, down: bool| call_requires(send_key, (code, down)),
    ensures
        exists|k: int, outcomes: Seq<Result<(), E>>|
            chord_run(send_key, code_names@, k, outcomes) && r == chord_result(code_names@.len() as int, k, outcomes),
{
    broadcast use vstd::function::group_function_axioms;
    let ghost f0 = send_key;
    let ghost codes = code_names@;
    let ghost n = code_names@.len() as int;
    let ghost mut outs: Seq<Result<(), E>> = Seq::empty();
    let mut pressed: Vec<&str> = Vec::new();
    let mut result: Result<(), E> = Ok(());
    let mut i: usize = 0;
    while i < code_names.len()
        invariant_except_break
            result == Ok::<(), E>(()),
            outs.len() == i,
        invariant
            i <= code_names.len(),
            codes == code_names@,
            n == codes.len(),
            send_key == f0,
            forall|code: &str, down: bool| call_requires(send_key, (code, down)),
            pressed@ == codes.take(i as int),
            forall|j: int| 0 <= j < i ==> #[trigger] call_ensures(send_key, (codes[j], true), outs[j]),
            forall|j: int| 0 <= j < i ==> #[trigger] outs[j] is Ok,
        ensures
            i <= n,
            pressed@ == codes.take(i as int),
            result is Ok ==> i == n && outs.len() == n && result == Ok::<(), E>(()),
            result is Err ==> i < n && outs.len() == i + 1 && outs[i as int] is Err && result == outs[i as int],
            forall|j: int| 0 <= j < outs.len() ==> #[trigger] call_ensures(send_key, (codes[j], true), outs[j]),
            forall|j: int| 0 <= j < i ==> #[trigger] outs[j] is Ok,
        decreases code_names.len() - i,
    {
        let code = code_names[i];
        let sent = send_key(code, true);
        proof {
            assert(call_ensures(send_key, (code, true), sent));
            outs = outs.push(sent);
        }
        match sent {
            Err(error) => {
                result = Err(error);
                break;
            },
            Ok(()) => {},
        }
        pressed.push(code);
        i = i + 1;
        assert(pressed@ =~= codes.take(i as int));
    }
    let ghost k = i as int;
    let ghost p = presses_sent(n, k);
    assert(outs.len() == p);
    proof {
        if k == n {
            assert(outs.skip(n) =~= Seq::<Result<(), E>>::empty());
            assert(first_error(Seq::<Result<(), E>>::empty()) == Ok::<(), E>(()));
        }
    }
    let mut left: usize = pressed.len();
    while left > 0
        invariant
            left <= pressed.len(),
            pressed.len() == k,
            pressed@ == codes.take(k),
            0 <= k <= n,
            n == codes.len(),
            p == presses_sent(n, k),
            send_key == f0,
            forall|code: &str, down: bool| call_requires(send_key, (code, down)),
            outs.len() == p + (k - left),
            forall|j: int| 0 <= j < p ==> #[trigger] call_ensures(send_key, (codes[j], true), outs[j]),
            forall|j: int| 0 <= j < k ==> #[trigger] outs[j] is Ok,
            k < n ==> outs[k] is Err,
            forall|j: int| 0 <= j < k - left ==> #[trigger] call_ensures(send_key, (codes[k - 1 - j], false), outs[p + j]),
            result == chord_result(n, k, outs),
        decreases left,
    {
        left = left - 1;
        let sent = send_key(pressed[left], false);
        proof {
            let before = outs;
            assert(call_ensures(send_key, (pressed@[left as int], false), sent));
            assert(pressed@[left as int] == codes[left as int]);
            outs = outs.push(sent);
            assert forall|j: int| 0 <= j < k - left implies #[trigger] call_ensures(send_key, (codes[k - 1 - j], false), outs[p + j]) by {
                if j < k - left - 1 {
                    assert(outs[p + j] == before[p + j]);
                } else {
                    assert(k - 1 - j == left);
                    assert(outs[p + j] == sent);
                }
            }
            assert forall|j: int| 0 <= j < p implies #[trigger] call_ensures(send_key, (codes[j], true), outs[j]) by {
                assert(outs[j] == before[j]);
            }
            assert forall|j: int| 0 <= j < k implies #[trigger] outs[j] is Ok by {
                assert(outs[j] == before[j]);
            }
            if k < n {
                assert(outs[k] == before[k]);
            } else {
                assert(before.skip(n).push(sent) =~= outs.skip(n));
                first_error_push(before.skip(n), sent);
                first_error_ok(before.skip(n));
            }
        }
        let ghost sent_value = sent;
        match sent {
            Err(error) => {
                if result.is_ok() {
                    result = Err(error);
                    assert(result == sent_value);
                }
            },
            Ok(()) => {},
        }
    }
    assert(chord_run(send_key, code_names@, k, outs));
    result
}

} // verus!
