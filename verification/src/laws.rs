//! What holds of the operations taken together.

use crate::context::{ContextView, Event};
use crate::error::ErrorView;
use crate::labels::LabelScanView;
use crate::marshal::{first_terminator, is_first_terminator, marshaled, terminator_free};
use crate::output::{invalid_label_text, label_outcome, label_text};
use crate::parameter::text_parameter;
use vstd::prelude::*;

verus! {

/// The state of `context` after the events of `trace`, taken in turn.
pub open spec fn after_all<H, R>(context: ContextView<H, R>, trace: Seq<Event<R>>) -> ContextView<
    H,
    R,
>
    decreases trace.len(),
{
    if trace.len() == 0 {
        context
    } else {
        after_all(context, trace.drop_last()).after(trace.last())
    }
}

/// The handles that were handed out for release along `trace`, in order.
pub open spec fn released_along<H, R>(context: ContextView<H, R>, trace: Seq<Event<R>>) -> Seq<H>
    decreases trace.len(),
{
    if trace.len() == 0 {
        Seq::empty()
    } else {
        let before = released_along(context, trace.drop_last());
        match after_all(context, trace.drop_last()).handed_out(trace.last()) {
            Some(handle) => before.push(handle),
            None => before,
        }
    }
}

/// `trace` holds a release.
pub open spec fn has_release<R>(trace: Seq<Event<R>>) -> bool {
    exists|i: int| 0 <= i < trace.len() && trace[i] is Release
}

/// The handle of a context is handed out for release exactly once, by the
/// first release, whatever happened before it and whether or not the engine
/// refused any of it; a context that was never released still holds its handle.
pub proof fn lemma_release_exactly_once<H, R>(context: ContextView<H, R>, trace: Seq<Event<R>>)
    requires
        context.live(),
    ensures
        has_release(trace) ==> released_along(context, trace) == seq![context.handle->0]
            && !after_all(context, trace).live(),
        !has_release(trace) ==> released_along(context, trace) == Seq::<H>::empty() && after_all(
            context,
            trace,
        ).handle == context.handle,
    decreases trace.len(),
{
    if trace.len() > 0 {
        let head = trace.drop_last();
        lemma_release_exactly_once(context, head);
        if has_release(head) {
            let i = choose|i: int| 0 <= i < head.len() && head[i] is Release;
            assert(trace[i] is Release);
        } else if trace.last() is Release {
            assert(trace[trace.len() - 1] is Release);
            assert(Seq::<H>::empty().push(context.handle->0) =~= seq![context.handle->0]);
        } else {
            assert forall|i: int| 0 <= i < trace.len() implies !(trace[i] is Release) by {
                if i < head.len() {
                    assert(head[i] == trace[i]);
                }
            }
        }
    }
}

/// Release is final: once the handle has been handed out, no event changes the
/// record, and none hands out a handle again.
pub proof fn lemma_release_is_final<H, R>(context: ContextView<H, R>, event: Event<R>)
    requires
        !context.live(),
    ensures
        context.after(event) == context,
        context.handed_out(event) is None,
{
}

/// A text with a terminator in it is refused wherever a name is taken: as the
/// name of a device, a file or an array parameter, and as the name or the value
/// of a text parameter. The refusal is an error of the boundary, and there is
/// no marshaled string to make a call with.
pub proof fn lemma_terminator_is_refused(text: Seq<u8>, other: Seq<u8>)
    requires
        !terminator_free(text),
    ensures
        marshaled(text) matches Err(ErrorView::Wrapper(_)),
        text_parameter(text, other) matches Err(ErrorView::Wrapper(_)),
        text_parameter(other, text) matches Err(ErrorView::Wrapper(_)),
{
}

/// The error for a text with a terminator names the place of the first one.
pub proof fn lemma_first_terminator(text: Seq<u8>)
    requires
        !terminator_free(text),
    ensures
        is_first_terminator(text, first_terminator(text)),
    decreases text.len(),
{
    let i = choose|i: int| 0 <= i < text.len() && text[i] == 0u8;
    if terminator_free(text.take(i)) {
        assert(is_first_terminator(text, i));
    } else {
        lemma_first_terminator(text.take(i));
        let p = first_terminator(text.take(i));
        assert(text.take(i).take(p) =~= text.take(p));
        assert(is_first_terminator(text, p));
    }
}

/// A null pointer, an empty string and bytes that are not text cannot be told
/// apart by the caller of `label`: each gives the error of an invalid index.
pub proof fn lemma_absent_labels_alike(bytes: Seq<u8>)
    requires
        label_text(Some(bytes)) is None,
    ensures
        label_outcome(None) == Err::<Seq<char>, ErrorView>(
            ErrorView::Wrapper(invalid_label_text()),
        ),
        label_outcome(Some(Seq::<u8>::empty())) == label_outcome(None),
        label_outcome(Some(bytes)) == label_outcome(None),
{
}

/// On a table of the engine's answers with labels at the indices below `k` and
/// none at `k`, the walk asks for the indices 0 to `k` in turn and then ends,
/// with exactly the `k` labels, in the order of their indices. With `k` zero
/// the table has no label, and the walk ends with none.
pub proof fn lemma_walk_collects_leading_labels(table: Seq<Option<Seq<u8>>>, k: int)
    requires
        0 <= k < table.len(),
        k <= i32::MAX,
        forall|i: int| 0 <= i < k ==> label_text(#[trigger] table[i]) is Some,
        label_text(table[k]) is None,
    ensures
        forall|j: int|
            0 <= j <= k ==> (#[trigger] LabelScanView::run(table.take(j))).index() == Some(j),
        LabelScanView::run(table.take(k + 1)).index() is None,
        LabelScanView::run(table.take(k + 1)).labels.len() == k,
        forall|i: int|
            0 <= i < k ==> Some(#[trigger] LabelScanView::run(table.take(k + 1)).labels[i])
                == label_text(table[i]),
{
    lemma_walk_prefix(table, k, k);
    assert(table.take(k + 1).drop_last() =~= table.take(k));
    assert forall|j: int| 0 <= j <= k implies (#[trigger] LabelScanView::run(
        table.take(j),
    )).index() == Some(j) by {
        lemma_walk_prefix(table, k, j);
    }
}

/// While the walk is among the leading labels it has collected each of them
/// and goes on.
proof fn lemma_walk_prefix(table: Seq<Option<Seq<u8>>>, k: int, j: int)
    requires
        0 <= j <= k < table.len(),
        k <= i32::MAX,
        forall|i: int| 0 <= i < k ==> label_text(#[trigger] table[i]) is Some,
    ensures
        !LabelScanView::run(table.take(j)).done,
        LabelScanView::run(table.take(j)).labels.len() == j,
        forall|i: int|
            0 <= i < j ==> Some(#[trigger] LabelScanView::run(table.take(j)).labels[i])
                == label_text(table[i]),
    decreases j,
{
    if j > 0 {
        lemma_walk_prefix(table, k, j - 1);
        assert(table.take(j).drop_last() =~= table.take(j - 1));
        assert(table.take(j).last() == table[j - 1]);
    }
}

/// Unloading drops the bytes of the model. After a model was loaded, run and
/// unloaded, each with the engine's consent, the record is as it was before the
/// load but for the model, of which it holds no byte.
pub proof fn lemma_unload_drops_model<H, R>(context: ContextView<H, R>, memory: Seq<u8>)
    requires
        context.live(),
    ensures
        context.after(Event::LoadModel { memory, accepted: true }).model == memory,
        context.after(Event::LoadModel { memory, accepted: true }).after(Event::Call).after(
            Event::UnloadModel { accepted: true },
        ) == (ContextView { model: Seq::empty(), ..context }),
{
}

} // verus!
