//! The rule by which interrupt numbers are handed out, over plain values.
//!
//! Numbers go out in ascending order from a cursor, each at most once. The
//! cursor only moves when a device that can signal has been registered with
//! the hypervisor, and nothing is handed out once it has passed the last
//! number of the range.

use crate::error::SysBusError;
use vmm_sys_util::eventfd::EventFd;
use vstd::prelude::*;

verus! {

/// What a device brings to an allocation.
#[derive(Clone, Copy, Debug, PartialEq, Eq, Structural)]
pub enum IrqSignal {
    /// The device has no interrupt signal.
    Absent,
    /// The device has one, and the hypervisor took it.
    Registered,
    /// The device has one, and the hypervisor refused it.
    Refused,
}

/// The outcome of one allocation: where the cursor stands afterwards, and
/// what the device is told.
pub struct IrqStep {
    pub cursor: i32,
    pub result: Result<i32, SysBusError>,
}

/// One allocation with the cursor at `cursor`, in a range that ends at `hi`.
pub open spec fn irq_step(cursor: i32, hi: i32, signal: IrqSignal) -> IrqStep {
    if cursor > hi {
        IrqStep { cursor, result: Err(SysBusError::InterruptExhausted) }
    } else {
        match signal {
            IrqSignal::Absent => IrqStep { cursor, result: Ok(-1i32) },
            IrqSignal::Refused => IrqStep {
                cursor,
                result: Err(SysBusError::AccelerationRegistrationFailure),
            },
            IrqSignal::Registered => IrqStep { cursor: (cursor + 1) as i32, result: Ok(cursor) },
        }
    }
}

/// Where the cursor stands after one allocation for each of `signals`, in
/// order.
pub open spec fn cursor_after(cursor: i32, hi: i32, signals: Seq<IrqSignal>) -> i32
    decreases signals.len(),
{
    if signals.len() == 0 {
        cursor
    } else {
        irq_step(cursor_after(cursor, hi, signals.drop_last()), hi, signals.last()).cursor
    }
}

/// `signal` is what a device whose interrupt signal is `evt` brings to an
/// allocation with the cursor at `cursor`, where `register` speaks for the
/// hypervisor. A device without a signal brings none. For one with a signal
/// and a cursor in the range, `register` is given that signal and the number
/// at the cursor, and its answer decides. With the range used up the device
/// gets no number either way.
pub open spec fn brings<F: FnOnce(&EventFd, i32) -> bool>(
    register: F,
    evt: Option<&EventFd>,
    cursor: i32,
    hi: i32,
    signal: IrqSignal,
) -> bool {
    match evt {
        None => signal == IrqSignal::Absent,
        Some(e) => signal != IrqSignal::Absent && (cursor <= hi ==> call_ensures(
            register,
            (e, cursor),
            signal == IrqSignal::Registered,
        )),
    }
}

/// What the device at position `i` of `signals` is told.
pub open spec fn irq_at(cursor: i32, hi: i32, signals: Seq<IrqSignal>, i: int) -> Result<
    i32,
    SysBusError,
> {
    irq_step(cursor_after(cursor, hi, signals.take(i)), hi, signals[i]).result
}

/// How many of `signals` are registered.
pub open spec fn granted(signals: Seq<IrqSignal>) -> nat
    decreases signals.len(),
{
    if signals.len() == 0 {
        0
    } else if signals.last() == IrqSignal::Registered {
        granted(signals.drop_last()) + 1
    } else {
        granted(signals.drop_last())
    }
}

/// A prefix holds no more registered devices than the whole.
pub proof fn lemma_granted_prefix(signals: Seq<IrqSignal>, i: int)
    requires
        0 <= i <= signals.len(),
    ensures
        granted(signals.take(i)) <= granted(signals),
    decreases signals.len(),
{
    if i == signals.len() {
        assert(signals.take(i) == signals);
    } else {
        assert(signals.drop_last().take(i) == signals.take(i));
        lemma_granted_prefix(signals.drop_last(), i);
    }
}

/// The cursor never moves back, and it never passes the number after the
/// last of the range unless it stood beyond it from the start.
pub proof fn lemma_cursor_monotonic(cursor: i32, hi: i32, signals: Seq<IrqSignal>)
    requires
        hi < i32::MAX,
    ensures
        cursor <= cursor_after(cursor, hi, signals),
        cursor_after(cursor, hi, signals) <= hi + 1 || cursor_after(cursor, hi, signals) == cursor,
    decreases signals.len(),
{
    if signals.len() > 0 {
        lemma_cursor_monotonic(cursor, hi, signals.drop_last());
    }
}

/// While no registration is refused and the range lasts, the cursor has
/// moved by the number of registered devices.
pub proof fn lemma_cursor_counts(cursor: i32, hi: i32, signals: Seq<IrqSignal>)
    requires
        hi < i32::MAX,
        forall|i: int| 0 <= i < signals.len() ==> signals[i] != IrqSignal::Refused,
        cursor + granted(signals) <= hi + 1,
    ensures
        cursor_after(cursor, hi, signals) == cursor + granted(signals),
    decreases signals.len(),
{
    if signals.len() > 0 {
        lemma_cursor_counts(cursor, hi, signals.drop_last());
    }
}

/// Devices of which none is refused, served in order while the range lasts:
/// one without a signal is told -1, and one with a signal gets the first
/// number of the run plus the count of the devices with a signal before it.
pub proof fn lemma_irqs_in_order(cursor: i32, hi: i32, signals: Seq<IrqSignal>)
    requires
        hi < i32::MAX,
        forall|i: int| 0 <= i < signals.len() ==> signals[i] != IrqSignal::Refused,
        cursor + granted(signals) <= hi + 1,
    ensures
        forall|i: int|
            0 <= i < signals.len() && signals[i] == IrqSignal::Registered ==> #[trigger] irq_at(
                cursor,
                hi,
                signals,
                i,
            ) == Ok::<i32, SysBusError>((cursor + granted(signals.take(i))) as i32),
        forall|i: int|
            0 <= i < signals.len() && signals[i] == IrqSignal::Absent && cursor + granted(
                signals.take(i),
            ) <= hi ==> #[trigger] irq_at(cursor, hi, signals, i) == Ok::<i32, SysBusError>(-1i32),
        forall|i: int|
            0 <= i < signals.len() && signals[i] == IrqSignal::Absent ==> cursor_after(
                cursor,
                hi,
                #[trigger] signals.take(i + 1),
            ) == cursor_after(cursor, hi, signals.take(i)),
{
    assert forall|i: int| 0 <= i < signals.len() implies cursor_after(
        cursor,
        hi,
        #[trigger] signals.take(i),
    ) == cursor + granted(signals.take(i)) && (signals[i] == IrqSignal::Registered ==> cursor
        + granted(signals.take(i)) <= hi) by {
        lemma_granted_prefix(signals, i);
        lemma_granted_prefix(signals, i + 1);
        assert(signals.take(i + 1).drop_last() == signals.take(i));
        assert(signals.take(i + 1).last() == signals[i]);
        assert forall|j: int| 0 <= j < signals.take(i).len() implies signals.take(i)[j]
            != IrqSignal::Refused by {
            assert(signals.take(i)[j] == signals[j]);
        }
        lemma_cursor_counts(cursor, hi, signals.take(i));
    }
    assert forall|i: int|
        0 <= i < signals.len() && signals[i] == IrqSignal::Absent implies cursor_after(
        cursor,
        hi,
        #[trigger] signals.take(i + 1),
    ) == cursor_after(cursor, hi, signals.take(i)) by {
        assert(signals.take(i + 1).drop_last() == signals.take(i));
        assert(signals.take(i + 1).last() == signals[i]);
    }
}

/// `n` devices that each have a signal, all registered, with the cursor at
/// `cursor` and `n` numbers left in the range: they get `cursor`,
/// `cursor + 1`, and so on to `cursor + n - 1`, in order, and the cursor ends
/// at `cursor + n`.
pub proof fn lemma_consecutive_irqs(cursor: i32, hi: i32, signals: Seq<IrqSignal>)
    requires
        hi < i32::MAX,
        forall|i: int| 0 <= i < signals.len() ==> signals[i] == IrqSignal::Registered,
        cursor + signals.len() <= hi + 1,
    ensures
        forall|i: int|
            0 <= i < signals.len() ==> #[trigger] irq_at(cursor, hi, signals, i) == Ok::<
                i32,
                SysBusError,
            >((cursor + i) as i32),
        cursor_after(cursor, hi, signals) == cursor + signals.len(),
{
    lemma_all_granted(signals);
    lemma_cursor_counts(cursor, hi, signals);
    lemma_irqs_in_order(cursor, hi, signals);
    assert forall|i: int| 0 <= i < signals.len() implies #[trigger] irq_at(cursor, hi, signals, i)
        == Ok::<i32, SysBusError>((cursor + i) as i32) by {
        assert forall|j: int| 0 <= j < signals.take(i).len() implies signals.take(i)[j]
            == IrqSignal::Registered by {
            assert(signals.take(i)[j] == signals[j]);
        }
        lemma_all_granted(signals.take(i));
    }
}

/// Where every device is registered, as many are granted as there are.
pub proof fn lemma_all_granted(signals: Seq<IrqSignal>)
    requires
        forall|i: int| 0 <= i < signals.len() ==> signals[i] == IrqSignal::Registered,
    ensures
        granted(signals) == signals.len(),
    decreases signals.len(),
{
    if signals.len() > 0 {
        lemma_all_granted(signals.drop_last());
    }
}

/// Once the cursor has passed the last number of the range, every further
/// allocation fails as exhausted, whatever the device brings, and the cursor
/// stays where it is.
pub proof fn lemma_exhausted_stays(cursor: i32, hi: i32, signals: Seq<IrqSignal>)
    requires
        cursor > hi,
    ensures
        cursor_after(cursor, hi, signals) == cursor,
        forall|i: int|
            0 <= i < signals.len() ==> #[trigger] irq_at(cursor, hi, signals, i) == Err::<
                i32,
                SysBusError,
            >(SysBusError::InterruptExhausted),
    decreases signals.len(),
{
    if signals.len() > 0 {
        lemma_exhausted_stays(cursor, hi, signals.drop_last());
    }
    assert forall|i: int| 0 <= i < signals.len() implies #[trigger] irq_at(cursor, hi, signals, i)
        == Err::<i32, SysBusError>(SysBusError::InterruptExhausted) by {
        lemma_exhausted_stays(cursor, hi, signals.take(i));
    }
}

} // verus!
