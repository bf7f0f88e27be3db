//! What a run of mirroring does, item by item and as a whole.

use crate::entry::EntryStepView;
use crate::entry::Request;
use crate::error::RSyncError;
use crate::laws::Answers;
use crate::mirror::ExtraStepView;
use crate::mirror::Listed;
use crate::mirror::MirrorPhase;
use crate::mirror::MirrorStepView;
use crate::mirror_laws::ExtraAnswers;
use crate::mirror_laws::Store;
use crate::rsync::RSync;
use crate::storage::SizeAndMt;
use vstd::prelude::*;

verus! {

/// A run has one item for each item that the two listings give, those of the source
/// first. For a name that the source lists, the item is the start of synchronising
/// that name, which asks the destination for time and size. For a name that the
/// destination lists, it is the start of checking that name, which asks the source
/// whether it has it. A failure of a listing is passed on in its place.
pub proof fn law_items_of_a_run(source: Seq<Listed>, dest: Seq<Listed>)
    ensures
        ({
            let items = crate::mirror_laws::mirror_run(MirrorPhase::Syncing, source, dest);
            &&& items.len() == source.len() + dest.len()
            &&& forall|i: int|
                0 <= i < source.len() ==> match #[trigger] source[i] {
                    Ok(name) => {
                        &&& items[i] matches Ok(MirrorStepView::Sync(EntryStepView::Pending(task)))
                        &&& task.path == name
                        &&& task.state is DestStat
                        &&& task.request() == Request::DestSizeAndMt
                        &&& items[i] == Ok::<MirrorStepView, RSyncError>(
                            MirrorStepView::Sync(crate::entry::first_step(name)),
                        )
                    },
                    Err(e) => items[i] == Err::<MirrorStepView, RSyncError>(e),
                }
            &&& forall|j: int|
                0 <= j < dest.len() ==> match #[trigger] dest[j] {
                    Ok(name) => {
                        &&& items[source.len() + j] matches Ok(
                            MirrorStepView::Extra(ExtraStepView::Pending(task)),
                        )
                        &&& task.path == name
                        &&& task.request is SourceExists
                        &&& items[source.len() + j] == Ok::<MirrorStepView, RSyncError>(
                            MirrorStepView::Extra(crate::mirror::first_extra_step(name)),
                        )
                    },
                    Err(e) => items[source.len() + j] == Err::<MirrorStepView, RSyncError>(e),
                }
        }),
{
    crate::mirror_laws::law_mirror_order(source, dest);
}

/// An item of a listing never ends a phase, only the end of the listing does; and
/// mirroring, once finished, starts nothing more.
pub proof fn law_only_the_end_of_a_listing_ends_a_phase(listed: Listed)
    ensures
        crate::mirror::next_mirror(MirrorPhase::Syncing, Some(listed)).0 is Syncing,
        crate::mirror::next_mirror(MirrorPhase::Syncing, Some(listed)).1 is Some,
        crate::mirror::next_mirror(MirrorPhase::Syncing, None) == (
            MirrorPhase::Deleting,
            None::<Result<MirrorStepView, RSyncError>>,
        ),
        crate::mirror::next_mirror(MirrorPhase::Deleting, Some(listed)).0 is Deleting,
        crate::mirror::next_mirror(MirrorPhase::Deleting, Some(listed)).1 is Some,
        crate::mirror::next_mirror(MirrorPhase::Deleting, None) == (
            MirrorPhase::Finished,
            None::<Result<MirrorStepView, RSyncError>>,
        ),
        crate::mirror::next_mirror(MirrorPhase::Finished, Some(listed)) == (
            MirrorPhase::Finished,
            None::<Result<MirrorStepView, RSyncError>>,
        ),
        crate::mirror::next_mirror(MirrorPhase::Finished, None) == (
            MirrorPhase::Finished,
            None::<Result<MirrorStepView, RSyncError>>,
        ),
{
}

/// Within a run, a deletion is only ever asked for of a name that the destination
/// lists, and only after the source, asked about that very name, answered that it
/// does not have it.
pub proof fn law_deletion_only_after_absence(
    source: Seq<Listed>,
    dest: Seq<Listed>,
    answers: ExtraAnswers,
    i: int,
    k: int,
)
    requires
        ({
            let items = crate::mirror_laws::mirror_run(MirrorPhase::Syncing, source, dest);
            &&& 0 <= i < items.len()
            &&& items[i] matches Ok(MirrorStepView::Extra(step))
            &&& 0 <= k < crate::mirror_laws::extra_course(step, answers).requests.len()
            &&& crate::mirror_laws::extra_course(step, answers).requests[k].request is DestDelete
        }),
    ensures
        ({
            let items = crate::mirror_laws::mirror_run(MirrorPhase::Syncing, source, dest);
            let step = items[i]->Ok_0->Extra_0;
            let asked = crate::mirror_laws::extra_course(step, answers).requests;
            &&& source.len() <= i
            &&& dest[i - source.len()] == Ok::<Seq<char>, RSyncError>(asked[k].path)
            &&& answers.exists == Ok::<bool, RSyncError>(false)
            &&& k == 1
            &&& asked[0].path == asked[k].path
            &&& asked[0].request is SourceExists
        }),
{
    law_items_of_a_run(source, dest);
    let items = crate::mirror_laws::mirror_run(MirrorPhase::Syncing, source, dest);
    if i < source.len() {
        assert(items[i] is Ok ==> source[i] is Ok);
    } else {
        let j = i - source.len();
        assert(items[source.len() + j] is Ok ==> dest[j] is Ok);
        crate::mirror_laws::law_extra_course(dest[j]->Ok_0, answers);
    }
}

/// What the operations of one item of a run come to, where they are asked for.
pub struct ItemAnswers {
    pub entry: Answers,
    pub check: ExtraAnswers,
}

/// What the destination holds once the operations that an item leads to were
/// performed.
pub open spec fn after_item<T>(
    rsync: RSync<T>,
    source: Store,
    before: Store,
    item: Result<MirrorStepView, RSyncError>,
    answers: ItemAnswers,
) -> Store {
    match item {
        Ok(MirrorStepView::Sync(step)) => crate::mirror_laws::performed(
            source,
            before,
            crate::laws::course(rsync.writer(), step, answers.entry).requests,
            answers.entry,
        ),
        Ok(MirrorStepView::Extra(step)) => crate::mirror_laws::performed_check(
            before,
            crate::mirror_laws::extra_course(step, answers.check).requests,
            answers.check,
        ),
        Err(_) => before,
    }
}

/// What the destination holds once the operations that the first `n` items lead to
/// were performed, item by item.
pub open spec fn after_items<T>(
    rsync: RSync<T>,
    source: Store,
    dest: Store,
    items: Seq<Result<MirrorStepView, RSyncError>>,
    answers: Seq<ItemAnswers>,
    n: nat,
) -> Store
    decreases n,
{
    if n == 0 {
        dest
    } else {
        let before = after_items(rsync, source, dest, items, answers, (n - 1) as nat);
        after_item(rsync, source, before, items[n - 1], answers[n - 1])
    }
}

/// A listing that gives these names and does not fail.
pub open spec fn listing(names: Seq<Seq<char>>) -> Seq<Listed> {
    Seq::new(names.len(), |i: int| Ok(names[i]))
}

/// No operation on the entry fails, and the destination knows a time or a size of
/// the entry if and only if it holds the entry.
pub open spec fn answers_hold(before: Store, name: Seq<char>, answers: Answers) -> bool {
    &&& answers.dest_stat is Ok
    &&& answers.dest_stat == Ok::<SizeAndMt, RSyncError>((None, None)) <==> !before.contains_key(
        name,
    )
    &&& answers.source_stat is Ok
    &&& answers.dest_crc32c is Ok
    &&& answers.source_crc32c is Ok
    &&& answers.written is Ok
}

/// The two ends tell the same checksum of the entry or, where an end tells none, the
/// same seconds and size.
pub open spec fn tell_the_same(answers: Answers) -> bool {
    match (answers.dest_crc32c, answers.source_crc32c) {
        (Ok(Some(d)), Ok(Some(s))) => d.path == s.path && d.crc32c == s.crc32c,
        _ => match (answers.dest_stat, answers.source_stat) {
            (Ok((Some(dm), Some(ds))), Ok((Some(sm), Some(ss)))) => dm.secs == sm.secs && ds == ss,
            _ => false,
        },
    }
}

proof fn lemma_synced_item<T>(
    rsync: RSync<T>,
    source: Store,
    before: Store,
    name: Seq<char>,
    answers: ItemAnswers,
)
    requires
        answers_hold(before, name, answers.entry),
    ensures
        ({
            let item = Ok::<MirrorStepView, RSyncError>(
                MirrorStepView::Sync(crate::entry::first_step(name)),
            );
            after_item(rsync, source, before, item, answers) == (if before.contains_key(name)
                && tell_the_same(answers.entry) {
                before
            } else {
                before.insert(name, source[name])
            })
        }),
{
    crate::mirror_laws::law_sync_changes_its_entry_only(
        rsync.writer(),
        source,
        before,
        name,
        answers.entry,
    );
    crate::laws::law_reported_as_copied_iff_copied(rsync.writer(), name, answers.entry);
    if before.contains_key(name) {
        crate::sync_laws::law_entry_that_the_destination_has(rsync, name, answers.entry);
    } else {
        crate::sync_laws::law_entry_that_the_destination_lacks(rsync, name, answers.entry);
    }
}

proof fn lemma_synced_items<T>(
    rsync: RSync<T>,
    source: Store,
    dest: Store,
    source_names: Seq<Seq<char>>,
    dest_names: Seq<Seq<char>>,
    answers: Seq<ItemAnswers>,
    n: nat,
)
    requires
        n <= source_names.len(),
        ({
            let items = crate::mirror_laws::mirror_run(
                MirrorPhase::Syncing,
                listing(source_names),
                listing(dest_names),
            );
            forall|i: int|
                0 <= i < source_names.len() ==> answers_hold(
                    after_items(rsync, source, dest, items, answers, i as nat),
                    #[trigger] source_names[i],
                    answers[i].entry,
                )
        }),
    ensures
        ({
            let items = crate::mirror_laws::mirror_run(
                MirrorPhase::Syncing,
                listing(source_names),
                listing(dest_names),
            );
            let after = after_items(rsync, source, dest, items, answers, n);
            &&& forall|x: Seq<char>| #[trigger]
                after.contains_key(x) <==> dest.contains_key(x) || source_names.take(
                    n as int,
                ).contains(x)
            &&& forall|x: Seq<char>|
                dest.contains_key(x) && !source_names.take(n as int).contains(x)
                    ==> #[trigger] after[x] == dest[x]
            &&& (forall|i: int|
                0 <= i < source_names.len() && tell_the_same(answers[i].entry) ==> after_items(
                    rsync,
                    source,
                    dest,
                    items,
                    answers,
                    i as nat,
                )[#[trigger] source_names[i]] == source[source_names[i]]) ==> forall|x: Seq<char>|
                source_names.take(n as int).contains(x) ==> #[trigger] after[x] == source[x]
        }),
    decreases n,
{
    let items = crate::mirror_laws::mirror_run(
        MirrorPhase::Syncing,
        listing(source_names),
        listing(dest_names),
    );
    if n > 0 {
        let m = (n - 1) as nat;
        lemma_synced_items(rsync, source, dest, source_names, dest_names, answers, m);
        law_items_of_a_run(listing(source_names), listing(dest_names));
        let before = after_items(rsync, source, dest, items, answers, m);
        let name = source_names[m as int];
        assert(listing(source_names)[m as int] == Ok::<Seq<char>, RSyncError>(name));
        lemma_synced_item(rsync, source, before, name, answers[m as int]);
        let taken = source_names.take(n as int);
        assert(taken.drop_last() =~= source_names.take(m as int));
        assert(taken.last() == name);
        crate::mirror_laws::lemma_contains_drop_last(taken);
        let after = after_items(rsync, source, dest, items, answers, n);
        assert forall|x: Seq<char>| #[trigger]
            after.contains_key(x) <==> dest.contains_key(x) || taken.contains(x) by {
            assert(before.contains_key(x) <==> dest.contains_key(x) || taken.drop_last().contains(
                x,
            ));
            assert(taken.contains(x) <==> taken.drop_last().contains(x) || x == name);
        }
        assert forall|x: Seq<char>| dest.contains_key(x) && !taken.contains(
            x,
        ) implies #[trigger] after[x] == dest[x] by {
            assert(taken.contains(x) <==> taken.drop_last().contains(x) || x == name);
            assert(before[x] == dest[x]);
        }
        if forall|i: int|
            0 <= i < source_names.len() && tell_the_same(answers[i].entry) ==> after_items(
                rsync,
                source,
                dest,
                items,
                answers,
                i as nat,
            )[#[trigger] source_names[i]] == source[source_names[i]] {
            assert forall|x: Seq<char>| taken.contains(x) implies #[trigger] after[x]
                == source[x] by {
                assert(taken.contains(x) <==> taken.drop_last().contains(x) || x == name);
                if x != name {
                    assert(before[x] == source[x]);
                }
            }
        }
    } else {
        assert(source_names.take(0) =~= Seq::empty());
    }
}

proof fn lemma_checked_items<T>(
    rsync: RSync<T>,
    source: Store,
    dest: Store,
    source_names: Seq<Seq<char>>,
    dest_names: Seq<Seq<char>>,
    answers: Seq<ItemAnswers>,
    n: nat,
)
    requires
        n <= dest_names.len(),
        forall|j: int|
            0 <= j < dest_names.len() ==> answers[source_names.len() + j].check.exists == Ok::<
                bool,
                RSyncError,
            >(source.contains_key(#[trigger] dest_names[j])) && answers[source_names.len()
                + j].check.deleted is Ok,
    ensures
        ({
            let items = crate::mirror_laws::mirror_run(
                MirrorPhase::Syncing,
                listing(source_names),
                listing(dest_names),
            );
            let synced = after_items(rsync, source, dest, items, answers, source_names.len());
            let after = after_items(rsync, source, dest, items, answers, source_names.len() + n);
            &&& forall|x: Seq<char>| #[trigger]
                after.contains_key(x) <==> synced.contains_key(x) && (source.contains_key(x)
                    || !dest_names.take(n as int).contains(x))
            &&& forall|x: Seq<char>| #[trigger] after.contains_key(x) ==> after[x] == synced[x]
        }),
    decreases n,
{
    let items = crate::mirror_laws::mirror_run(
        MirrorPhase::Syncing,
        listing(source_names),
        listing(dest_names),
    );
    let synced = after_items(rsync, source, dest, items, answers, source_names.len());
    let after = after_items(rsync, source, dest, items, answers, source_names.len() + n);
    if n > 0 {
        let m = (n - 1) as nat;
        lemma_checked_items(rsync, source, dest, source_names, dest_names, answers, m);
        law_items_of_a_run(listing(source_names), listing(dest_names));
        let before = after_items(rsync, source, dest, items, answers, source_names.len() + m);
        let name = dest_names[m as int];
        assert(listing(dest_names)[m as int] == Ok::<Seq<char>, RSyncError>(name));
        let told = answers[source_names.len() + m as int].check;
        crate::mirror_laws::law_check_changes_its_entry_only(before, name, told);
        crate::mirror_laws::law_deleted_iff_extra(name, told);
        let taken = dest_names.take(n as int);
        assert(taken.drop_last() =~= dest_names.take(m as int));
        assert(taken.last() == name);
        crate::mirror_laws::lemma_contains_drop_last(taken);
        assert(after == (if source.contains_key(name) {
            before
        } else {
            before.remove(name)
        }));
        assert forall|x: Seq<char>| #[trigger]
            after.contains_key(x) <==> synced.contains_key(x) && (source.contains_key(x)
                || !taken.contains(x)) by {
            assert(taken.contains(x) <==> taken.drop_last().contains(x) || x == name);
            assert(before.contains_key(x) <==> synced.contains_key(x) && (source.contains_key(x)
                || !taken.drop_last().contains(x)));
        }
        assert forall|x: Seq<char>| #[trigger] after.contains_key(x) implies after[x]
            == synced[x] by {
            assert(before.contains_key(x));
        }
    } else {
        assert(dest_names.take(0) =~= Seq::empty());
    }
}

/// A run of mirroring makes the destination hold the entries of the source and no
/// others, whatever the filters are, when the source lists what it holds, the
/// destination lists what it held, no operation fails, and each end tells truly
/// which entries it holds. Where an entry of which the two ends tell the same is the
/// same, the two then hold the same.
pub proof fn law_run_of_mirroring<T>(
    rsync: RSync<T>,
    source: Store,
    dest: Store,
    source_names: Seq<Seq<char>>,
    dest_names: Seq<Seq<char>>,
    answers: Seq<ItemAnswers>,
)
    requires
        forall|x: Seq<char>| #[trigger] source_names.contains(x) <==> source.contains_key(x),
        forall|x: Seq<char>| #[trigger] dest.contains_key(x) ==> dest_names.contains(x),
        ({
            let items = crate::mirror_laws::mirror_run(
                MirrorPhase::Syncing,
                listing(source_names),
                listing(dest_names),
            );
            forall|i: int|
                0 <= i < source_names.len() ==> answers_hold(
                    after_items(rsync, source, dest, items, answers, i as nat),
                    #[trigger] source_names[i],
                    answers[i].entry,
                )
        }),
        forall|j: int|
            0 <= j < dest_names.len() ==> answers[source_names.len() + j].check.exists == Ok::<
                bool,
                RSyncError,
            >(source.contains_key(#[trigger] dest_names[j])) && answers[source_names.len()
                + j].check.deleted is Ok,
    ensures
        ({
            let items = crate::mirror_laws::mirror_run(
                MirrorPhase::Syncing,
                listing(source_names),
                listing(dest_names),
            );
            let after = after_items(rsync, source, dest, items, answers, items.len());
            &&& forall|x: Seq<char>| #[trigger] after.contains_key(x) <==> source.contains_key(x)
            &&& (forall|i: int|
                0 <= i < source_names.len() && tell_the_same(answers[i].entry) ==> after_items(
                    rsync,
                    source,
                    dest,
                    items,
                    answers,
                    i as nat,
                )[#[trigger] source_names[i]] == source[source_names[i]]) ==> after == source
        }),
{
    let items = crate::mirror_laws::mirror_run(
        MirrorPhase::Syncing,
        listing(source_names),
        listing(dest_names),
    );
    let s = source_names.len();
    let d = dest_names.len();
    law_items_of_a_run(listing(source_names), listing(dest_names));
    lemma_synced_items(rsync, source, dest, source_names, dest_names, answers, s);
    lemma_checked_items(rsync, source, dest, source_names, dest_names, answers, d);
    assert(source_names.take(s as int) =~= source_names);
    assert(dest_names.take(d as int) =~= dest_names);
    let synced = after_items(rsync, source, dest, items, answers, s);
    let after = after_items(rsync, source, dest, items, answers, items.len());
    assert forall|x: Seq<char>| #[trigger] after.contains_key(x) <==> source.contains_key(x) by {
        assert(synced.contains_key(x) <==> dest.contains_key(x) || source_names.contains(x));
    }
    if forall|i: int|
        0 <= i < source_names.len() && tell_the_same(answers[i].entry) ==> after_items(
            rsync,
            source,
            dest,
            items,
            answers,
            i as nat,
        )[#[trigger] source_names[i]] == source[source_names[i]] {
        assert forall|x: Seq<char>| #[trigger] after.contains_key(x) implies after[x]
            == source[x] by {
            assert(source_names.contains(x));
            assert(synced[x] == source[x]);
        }
        assert(after =~= source);
    }
}

/// However much of a run fails, an entry that both ends hold is never lost, as long
/// as the source, where it answers whether it holds an entry, answers truly.
pub proof fn law_run_keeps_what_the_source_holds<T>(
    rsync: RSync<T>,
    source: Store,
    dest: Store,
    source_listing: Seq<Listed>,
    dest_listing: Seq<Listed>,
    answers: Seq<ItemAnswers>,
    n: nat,
)
    requires
        n <= source_listing.len() + dest_listing.len(),
        forall|j: int|
            0 <= j < dest_listing.len() ==> (#[trigger] dest_listing[j] matches Ok(name) ==> (
            answers[source_listing.len() + j].check.exists matches Ok(exists) ==> exists
                == source.contains_key(name))),
    ensures
        ({
            let items = crate::mirror_laws::mirror_run(
                MirrorPhase::Syncing,
                source_listing,
                dest_listing,
            );
            let after = after_items(rsync, source, dest, items, answers, n);
            forall|x: Seq<char>| #[trigger]
                dest.contains_key(x) && source.contains_key(x) ==> after.contains_key(x) && (
                after[x] == dest[x] || after[x] == source[x])
        }),
    decreases n,
{
    if n > 0 {
        let m = (n - 1) as nat;
        law_run_keeps_what_the_source_holds(
            rsync,
            source,
            dest,
            source_listing,
            dest_listing,
            answers,
            m,
        );
        law_items_of_a_run(source_listing, dest_listing);
        let items = crate::mirror_laws::mirror_run(
            MirrorPhase::Syncing,
            source_listing,
            dest_listing,
        );
        let before = after_items(rsync, source, dest, items, answers, m);
        if m < source_listing.len() {
            if let Ok(name) = source_listing[m as int] {
                crate::mirror_laws::law_sync_changes_its_entry_only(
                    rsync.writer(),
                    source,
                    before,
                    name,
                    answers[m as int].entry,
                );
            }
        } else {
            let j = m - source_listing.len();
            if let Ok(name) = dest_listing[j] {
                assert(answers[m as int] == answers[source_listing.len() + j]);
                crate::mirror_laws::law_check_changes_its_entry_only(
                    before,
                    name,
                    answers[m as int].check,
                );
                crate::mirror_laws::law_deleted_iff_extra(name, answers[m as int].check);
            }
        }
    }
}

} // verus!
