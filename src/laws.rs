use vstd::prelude::*;

use crate::reply::{render_body, render_status, STATUS_INTERNAL_ERROR};

verus! {

/// The log's contents after `items` are appended to `start` one at a time,
/// each append adding its item at the end as `ItemLog::append` states.
pub open spec fn after_appends(start: Seq<Seq<char>>, items: Seq<Seq<char>>) -> Seq<Seq<char>>
    decreases items.len(),
{
    if items.len() == 0 {
        start
    } else {
        after_appends(start, items.drop_last()).push(items.last())
    }
}

/// Appending a sequence of items one by one adds exactly those items, in the
/// order the appends ran, after what was there.
pub proof fn lemma_after_appends(start: Seq<Seq<char>>, items: Seq<Seq<char>>)
    ensures
        after_appends(start, items) == start + items,
    decreases items.len(),
{
    if items.len() > 0 {
        lemma_after_appends(start, items.drop_last());
        assert(start + items =~= (start + items.drop_last()).push(items.last()));
    }
}

/// However N appends of distinct texts are serialized, the log that started
/// empty then holds exactly N items, each text once, in the order in which the
/// appends ran; the last append returns that same sequence.
pub proof fn lemma_append_visibility(items: Seq<Seq<char>>)
    requires
        items.no_duplicates(),
    ensures
        after_appends(Seq::empty(), items).len() == items.len(),
        after_appends(Seq::empty(), items).no_duplicates(),
        forall|k: int|
            0 <= k < items.len() ==> #[trigger] after_appends(Seq::empty(), items)[k] == items[k],
{
    lemma_after_appends(Seq::empty(), items);
    assert(Seq::<Seq<char>>::empty() + items =~= items);
}

/// When the append of `a` completes before the append of `b` begins, `a`
/// stands before `b` in the log, whatever was appended in between.
pub proof fn lemma_sequential_order(
    start: Seq<Seq<char>>,
    a: Seq<char>,
    between: Seq<Seq<char>>,
    b: Seq<char>,
)
    ensures
        ({
            let r = after_appends(start.push(a), between).push(b);
            &&& start.len() < r.len() - 1
            &&& r[start.len() as int] == a
            &&& r[r.len() - 1] == b
        }),
{
    lemma_after_appends(start.push(a), between);
    let r = after_appends(start.push(a), between).push(b);
    assert(r[start.len() as int] == (start.push(a) + between)[start.len() as int]);
}

/// Two snapshots of one log with no append between them hold the same
/// sequence.
pub proof fn lemma_snapshot_repeatable(log: Seq<Seq<char>>, first: Seq<Seq<char>>, second: Seq<Seq<char>>)
    requires
        first == log,
        second == log,
    ensures
        first == second,
{
}

/// A render failure after an append changes only the reply: it carries the
/// failure status and the renderer's description, while the appended item
/// stays in the log, at the place it was given, through every later append.
pub proof fn lemma_render_isolation(
    before: Seq<Seq<char>>,
    item: Seq<char>,
    description: Seq<char>,
    later: Seq<Seq<char>>,
)
    ensures
        render_status(Err(description)) == STATUS_INTERNAL_ERROR,
        render_body(Err(description)) == "Failed to render template. Error: "@ + description,
        after_appends(before.push(item), later).len() == before.len() + 1 + later.len(),
        after_appends(before.push(item), later)[before.len() as int] == item,
{
    lemma_after_appends(before.push(item), later);
    assert(after_appends(before.push(item), later)[before.len() as int] == (before.push(item)
        + later)[before.len() as int]);
}

} // verus!
