//! What holds of the operations, whatever requests arrive.

use crate::config::Config;
use crate::entry::WindowEntry;
use crate::handler::after_reset;
use crate::handler::after_submit;
use crate::submit::Submission;
use crate::submit::SubmitError;
use crate::submit::MAX_BODY_BYTES;
use crate::window::filled;
use vstd::prelude::*;

verus! {

/// One request, with the clock reading at which a submit is handled.
pub enum Operation {
    Submit { request: Submission, elapsed: Option<u64> },
    Reset,
    GetData,
}

/// The window after one operation.
pub open spec fn step(w: Seq<WindowEntry>, config: Config, op: Operation) -> Seq<WindowEntry> {
    match op {
        Operation::Submit { request, elapsed } => after_submit(w, request, elapsed),
        Operation::Reset => after_reset(w, config),
        Operation::GetData => w,
    }
}

/// The window after the operations `ops`, carried out one after another.
pub open spec fn run(w: Seq<WindowEntry>, config: Config, ops: Seq<Operation>) -> Seq<WindowEntry>
    decreases ops.len(),
{
    if ops.len() == 0 {
        w
    } else {
        step(run(w, config, ops.drop_last()), config, ops.last())
    }
}

/// No operation changes the length of a window.
pub proof fn lemma_step_keeps_length(w: Seq<WindowEntry>, config: Config, op: Operation)
    ensures
        step(w, config, op).len() == w.len(),
{
}

/// Every window that a service can reach from its start has as many entries
/// as the settings name.
pub proof fn lemma_length_is_constant(config: Config, ops: Seq<Operation>)
    ensures
        run(filled(config.value_count as nat, config.value_default), config, ops).len()
            == config.value_count,
    decreases ops.len(),
{
    if ops.len() > 0 {
        lemma_length_is_constant(config, ops.drop_last());
        lemma_step_keeps_length(
            run(
                filled(config.value_count as nat, config.value_default),
                config,
                ops.drop_last(),
            ),
            config,
            ops.last(),
        );
    }
}

/// A submit that is taken with the reading `value` at the second `second`
/// removes the front entry of a window and appends the reading with that
/// second at the back. Where the clock gives no second, the entry carries
/// zero.
pub proof fn lemma_submit_is_fifo(
    w: Seq<WindowEntry>,
    request: Submission,
    value: u32,
    second: u64,
)
    requires
        w.len() >= 1,
        request.spec_check() == Ok::<u32, SubmitError>(value),
    ensures
        after_submit(w, request, Some(second)) == w.drop_first().push(
            WindowEntry { value, timestamp: second },
        ),
        after_submit(w, request, None) == w.drop_first().push(
            WindowEntry { value, timestamp: 0 },
        ),
{
}

/// A reset leaves the placeholder for the configured default in every slot,
/// and a second reset changes nothing.
pub proof fn lemma_reset_is_idempotent(w: Seq<WindowEntry>, config: Config)
    ensures
        after_reset(after_reset(w, config), config) == after_reset(w, config),
        after_reset(w, config).len() == w.len(),
        forall|i: int|
            0 <= i < w.len() ==> after_reset(w, config)[i] == (WindowEntry {
                value: config.value_default,
                timestamp: 0,
            }),
{
}

/// A window of one slot holds exactly the latest reading that was taken.
pub proof fn lemma_single_slot_holds_latest(
    w: Seq<WindowEntry>,
    request: Submission,
    value: u32,
    second: u64,
)
    requires
        w.len() == 1,
        request.spec_check() == Ok::<u32, SubmitError>(value),
    ensures
        after_submit(w, request, Some(second)) == seq![WindowEntry { value, timestamp: second }],
{
}

/// A submit whose declared body is over the limit is turned away, whatever
/// its body holds, and leaves the window as it was.
pub proof fn lemma_oversized_submit_changes_nothing(
    w: Seq<WindowEntry>,
    request: Submission,
    elapsed: Option<u64>,
)
    requires
        request.content_length matches Some(n) && n > MAX_BODY_BYTES,
    ensures
        request.spec_check() == Err::<u32, SubmitError>(SubmitError::PayloadTooLarge),
        after_submit(w, request, elapsed) == w,
{
}

} // verus!
