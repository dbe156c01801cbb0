//! The order in which device interrupts are served.

use vstd::prelude::*;

verus! {

/// One step of serving a device interrupt.
#[derive(Clone, Copy, Debug, PartialEq, Eq, Structural)]
pub enum IrqStep {
    /// The line has been claimed: its callbacks are run now.
    Dispatch(usize),
    /// The callbacks of the line have run: the controller is told that the
    /// line has been served.
    Complete(usize),
}

/// What serving the device interrupts gave.
#[derive(Debug)]
pub struct Service {
    /// The lines served, in order.
    pub lines: Vec<usize>,
    /// The steps taken, in order: each line is dispatched, then completed.
    pub steps: Vec<IrqStep>,
}

/// The steps that serve `lines`: each line is dispatched and then
/// completed, and the next line is taken up only after that.
pub open spec fn protocol(lines: Seq<usize>) -> Seq<IrqStep> {
    Seq::new(
        2 * lines.len(),
        |j: int|
            if j % 2 == 0 {
                IrqStep::Dispatch(lines[j / 2])
            } else {
                IrqStep::Complete(lines[j / 2])
            },
    )
}

/// Serving one more line adds its two steps at the end.
pub proof fn lemma_protocol_push(lines: Seq<usize>, line: usize)
    ensures
        protocol(lines.push(line)) == protocol(lines).push(IrqStep::Dispatch(line)).push(
            IrqStep::Complete(line),
        ),
{
    assert(protocol(lines.push(line)) =~= protocol(lines).push(IrqStep::Dispatch(line)).push(
        IrqStep::Complete(line),
    ));
}

/// The steps that serve one run of lines after another are the steps of
/// the first followed by the steps of the second.
pub proof fn lemma_protocol_concat(first: Seq<usize>, second: Seq<usize>)
    ensures
        protocol(first + second) == protocol(first) + protocol(second),
{
    assert forall|j: int| 0 <= j < 2 * (first.len() + second.len()) implies protocol(
        first + second,
    )[j] == (protocol(first) + protocol(second))[j] by {
        if j >= 2 * first.len() {
            assert((j - 2 * first.len()) / 2 == j / 2 - first.len());
            assert((j - 2 * first.len()) % 2 == j % 2);
        }
    }
    assert(protocol(first + second) =~= protocol(first) + protocol(second));
}

/// In the steps that serve `lines`, line `i` is dispatched at step `2 i`
/// and completed at the step after it: every line is dispatched once and
/// completed once, after its dispatch and before the next line.
pub proof fn lemma_protocol_order(lines: Seq<usize>, i: int)
    requires
        0 <= i < lines.len(),
    ensures
        protocol(lines).len() == 2 * lines.len(),
        protocol(lines)[2 * i] == IrqStep::Dispatch(lines[i]),
        protocol(lines)[2 * i + 1] == IrqStep::Complete(lines[i]),
{
}

/// Appends the items of `src` to `dst`.
pub fn extend<T: Copy>(dst: &mut Vec<T>, src: &Vec<T>)
    ensures
        final(dst)@ == old(dst)@ + src@,
{
    let mut k: usize = 0;
    while k < src.len()
        invariant
            k <= src@.len(),
            dst@ == old(dst)@ + src@.take(k as int),
        decreases src@.len() - k,
    {
        dst.push(src[k]);
        assert(src@.take(k + 1) == src@.take(k as int).push(src@[k as int]));
        k += 1;
    }
    assert(src@.take(src@.len() as int) == src@);
}

} // verus!
