use vstd::prelude::*;

verus! {

/// The window after one more item arrives.
///
/// The test comes before the item is added: a window that already holds more
/// than `limit` items gives up its oldest one, then the new item goes to the
/// end. A window therefore settles at `limit + 1` items, not at `limit`.
pub open spec fn slide<A>(window: Seq<A>, limit: nat, item: A) -> Seq<A> {
    if window.len() > limit {
        window.drop_first().push(item)
    } else {
        window.push(item)
    }
}

/// The window after `items` arrive one by one, the first of them first.
pub open spec fn slide_all<A>(window: Seq<A>, limit: nat, items: Seq<A>) -> Seq<A>
    decreases items.len(),
{
    if items.len() == 0 {
        window
    } else {
        slide(slide_all(window, limit, items.drop_last()), limit, items.last())
    }
}

/// Whether a window is no longer than a limit lets it grow.
pub open spec fn within<A>(window: Seq<A>, limit: nat) -> bool {
    window.len() <= limit + 1
}

/// How many of the oldest items have left once `arrived` items in all have
/// been offered to a window of the given limit.
pub open spec fn evicted(arrived: nat, limit: nat) -> nat {
    if arrived > limit + 1 {
        (arrived - (limit + 1)) as nat
    } else {
        0
    }
}

/// One arrival keeps a window within its limit, gives up at most the oldest
/// item, and keeps every other item in its place before the new one.
pub proof fn lemma_slide_is_fifo<A>(window: Seq<A>, limit: nat, item: A)
    requires
        within(window, limit),
    ensures
        within(slide(window, limit, item), limit),
        slide(window, limit, item) == (window.push(item)).skip(
            evicted(window.len() + 1, limit) as int,
        ),
        slide(window, limit, item).last() == item,
        window.len() > limit && limit > 0 ==> slide(window, limit, item).first() == window[1],
        window.len() <= limit && window.len() > 0 ==> slide(window, limit, item).first()
            == window.first(),
{
    assert(slide(window, limit, item) =~= (window.push(item)).skip(
        evicted(window.len() + 1, limit) as int,
    ));
}

/// However many items arrive, a window that was within its limit stays within
/// it, and what it holds is the most recent stretch of everything it was ever
/// offered: the items leave oldest first, and none is reordered or lost from
/// the middle.
pub proof fn lemma_slide_all_is_recent_suffix<A>(window: Seq<A>, limit: nat, items: Seq<A>)
    requires
        within(window, limit),
    ensures
        within(slide_all(window, limit, items), limit),
        slide_all(window, limit, items) == (window + items).skip(
            evicted(window.len() + items.len(), limit) as int,
        ),
    decreases items.len(),
{
    if items.len() == 0 {
        assert(window + items =~= window);
        assert(window.skip(0) =~= window);
    } else {
        let earlier = items.drop_last();
        let before = slide_all(window, limit, earlier);
        lemma_slide_all_is_recent_suffix(window, limit, earlier);
        lemma_slide_is_fifo(before, limit, items.last());
        assert((window + earlier).push(items.last()) =~= window + items);
        assert(slide(before, limit, items.last()) =~= (window + items).skip(
            evicted(window.len() + items.len(), limit) as int,
        ));
    }
}

/// A window never grows by more than the one item that arrived, and never
/// shrinks, whatever its length was.
pub proof fn lemma_slide_len<A>(window: Seq<A>, limit: nat, item: A)
    ensures
        slide(window, limit, item).len() == if window.len() > limit {
            window.len()
        } else {
            window.len() + 1
        },
{
}

} // verus!
