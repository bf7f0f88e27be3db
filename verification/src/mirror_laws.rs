//! What holds of a whole mirroring.

use crate::entry::Writer;
use crate::error::RSyncError;
use crate::laws::Answers;
use crate::laws::Asked;
use crate::mirror::ExtraReply;
use crate::mirror::ExtraRequest;
use crate::mirror::ExtraStepView;
use crate::mirror::ExtraTaskView;
use crate::mirror::Listed;
use crate::mirror::MirrorPhase;
use crate::mirror::MirrorStepView;
use crate::status::RMirrorStatusView;
use vstd::prelude::*;

verus! {

/// What each operation on one entry of the destination comes to, where it is
/// asked for.
pub struct ExtraAnswers {
    pub exists: Result<bool, RSyncError>,
    pub deleted: Result<(), RSyncError>,
}

impl ExtraAnswers {
    /// The reply to a request.
    pub open spec fn reply(self, request: ExtraRequest) -> ExtraReply {
        match request {
            ExtraRequest::SourceExists => ExtraReply::Exists(self.exists),
            ExtraRequest::DestDelete => ExtraReply::Deleted(self.deleted),
        }
    }
}

/// An operation that a check asks for, and the name of the entry that it is on.
pub struct ExtraAsked {
    pub path: Seq<char>,
    pub request: ExtraRequest,
}

/// The course of checking an entry of the destination: the operations, each on an
/// entry, in the order in which they are asked for, and what it all comes to.
pub struct ExtraCourse {
    pub requests: Seq<ExtraAsked>,
    pub result: Result<RMirrorStatusView, RSyncError>,
}

/// A bound on the operations that are still to come.
pub open spec fn extra_steps_left(step: ExtraStepView) -> nat {
    match step {
        ExtraStepView::Done(_) => 0,
        ExtraStepView::Pending(task) => match task.request {
            ExtraRequest::DestDelete => 1,
            ExtraRequest::SourceExists => 2,
        },
    }
}

/// The course from a step on, each request getting its answer.
pub open spec fn extra_course(step: ExtraStepView, answers: ExtraAnswers) -> ExtraCourse
    decreases extra_steps_left(step),
{
    match step {
        ExtraStepView::Done(result) => ExtraCourse { requests: Seq::empty(), result },
        ExtraStepView::Pending(task) => {
            let rest = extra_course(
                crate::mirror::next_extra_step(task, answers.reply(task.request)),
                answers,
            );
            ExtraCourse {
                requests: seq![ExtraAsked { path: task.path, request: task.request }]
                    + rest.requests,
                result: rest.result,
            }
        },
    }
}

/// The source is asked first. An entry that it has is kept; one that it does not
/// have is deleted; and one of which it cannot tell is left alone. Every operation
/// is on the entry that was listed.
pub proof fn law_extra_course(path: Seq<char>, answers: ExtraAnswers)
    ensures
        ({
            let asks = ExtraAsked { path, request: ExtraRequest::SourceExists };
            let deletion = ExtraAsked { path, request: ExtraRequest::DestDelete };
            extra_course(crate::mirror::first_extra_step(path), answers) == (match answers.exists {
                Err(e) => ExtraCourse { requests: seq![asks], result: Err(e) },
                Ok(true) => ExtraCourse {
                    requests: seq![asks],
                    result: Ok(RMirrorStatusView::NotDeleted(path)),
                },
                Ok(false) => ExtraCourse {
                    requests: seq![asks, deletion],
                    result: match answers.deleted {
                        Ok(_) => Ok(RMirrorStatusView::Deleted(path)),
                        Err(e) => Err(e),
                    },
                },
            })
        }),
{
    reveal_with_fuel(extra_course, 4);
    let c = extra_course(crate::mirror::first_extra_step(path), answers);
    let asks = ExtraAsked { path, request: ExtraRequest::SourceExists };
    let deletion = ExtraAsked { path, request: ExtraRequest::DestDelete };
    if answers.exists == Ok::<bool, RSyncError>(false) {
        assert(c.requests =~= seq![asks, deletion]);
    } else {
        assert(c.requests =~= seq![asks]);
    }
}

/// A reply never takes a check to another entry, every report names the entry that
/// is checked, and a reply to another operation changes nothing.
pub proof fn law_check_stays_on_its_entry(task: ExtraTaskView, reply: ExtraReply)
    ensures
        match crate::mirror::next_extra_step(task, reply) {
            ExtraStepView::Pending(t) => t.path == task.path,
            ExtraStepView::Done(Ok(status)) => status == RMirrorStatusView::Deleted(task.path)
                || status == RMirrorStatusView::NotDeleted(task.path),
            ExtraStepView::Done(Err(_)) => true,
        },
        (task.request is SourceExists <==> reply is Deleted)
            ==> crate::mirror::next_extra_step(task, reply) == ExtraStepView::Pending(task),
{
}

/// Whether the course deletes an entry: it asks for that, and it does not fail.
pub open spec fn deletes(c: ExtraCourse, answers: ExtraAnswers) -> bool {
    answers.deleted is Ok && exists|i: int|
        0 <= i < c.requests.len() && (#[trigger] c.requests[i]).request is DestDelete
}

/// An entry is deleted if and only if the source answers that it does not have
/// it and the deletion does not fail, and if and only if it is reported so.
pub proof fn law_deleted_iff_extra(path: Seq<char>, answers: ExtraAnswers)
    ensures
        ({
            let c = extra_course(crate::mirror::first_extra_step(path), answers);
            &&& deletes(c, answers) <==> answers.exists == Ok::<bool, RSyncError>(false)
                && answers.deleted is Ok
            &&& deletes(c, answers) <==> c.result == Ok::<RMirrorStatusView, RSyncError>(
                RMirrorStatusView::Deleted(path),
            )
        }),
{
    law_extra_course(path, answers);
    let c = extra_course(crate::mirror::first_extra_step(path), answers);
    if answers.exists == Ok::<bool, RSyncError>(false) {
        assert(c.requests[1].request is DestDelete);
    }
}

/// What one item of a listing starts, if anything.
pub open spec fn started(item: Option<Result<MirrorStepView, RSyncError>>) -> Seq<
    Result<MirrorStepView, RSyncError>,
> {
    match item {
        Some(i) => seq![i],
        None => Seq::empty(),
    }
}

/// What mirroring starts, in order, from a phase on, while `source` and `dest`
/// are what the two listings still give.
pub open spec fn mirror_run(phase: MirrorPhase, source: Seq<Listed>, dest: Seq<Listed>) -> Seq<
    Result<MirrorStepView, RSyncError>,
>
    decreases
            (match phase {
                MirrorPhase::Syncing => 2nat,
                MirrorPhase::Deleting => 1nat,
                MirrorPhase::Finished => 0nat,
            }),
            source.len() + dest.len(),
{
    match phase {
        MirrorPhase::Finished => Seq::empty(),
        MirrorPhase::Syncing => if source.len() > 0 {
            let (next, item) = crate::mirror::next_mirror(phase, Some(source[0]));
            started(item) + mirror_run(next, source.drop_first(), dest)
        } else {
            mirror_run(crate::mirror::next_mirror(phase, None).0, source, dest)
        },
        MirrorPhase::Deleting => if dest.len() > 0 {
            let (next, item) = crate::mirror::next_mirror(phase, Some(dest[0]));
            started(item) + mirror_run(next, source, dest.drop_first())
        } else {
            mirror_run(crate::mirror::next_mirror(phase, None).0, source, dest)
        },
    }
}

/// Mirroring starts with every item that the source lists, in order, and goes on
/// with every item that the destination lists, in order. Filters play no part.
pub proof fn law_mirror_order(source: Seq<Listed>, dest: Seq<Listed>)
    ensures
        mirror_run(MirrorPhase::Syncing, source, dest) == source.map_values(
            |l: Listed| crate::mirror::source_item(l),
        ) + dest.map_values(|l: Listed| crate::mirror::dest_item(l)),
    decreases source.len(),
{
    let starts = |l: Listed| crate::mirror::source_item(l);
    let checks = |l: Listed| crate::mirror::dest_item(l);
    if source.len() > 0 {
        law_mirror_order(source.drop_first(), dest);
        assert(source.map_values(starts) =~= seq![crate::mirror::source_item(source[0])]
            + source.drop_first().map_values(starts));
        assert(mirror_run(MirrorPhase::Syncing, source, dest) =~= source.map_values(starts)
            + dest.map_values(checks));
    } else {
        lemma_deleting_order(source, dest);
        assert(source.map_values(starts) + dest.map_values(checks) =~= dest.map_values(checks));
    }
}

proof fn lemma_deleting_order(source: Seq<Listed>, dest: Seq<Listed>)
    ensures
        mirror_run(MirrorPhase::Deleting, source, dest) == dest.map_values(
            |l: Listed| crate::mirror::dest_item(l),
        ),
    decreases dest.len(),
{
    let checks = |l: Listed| crate::mirror::dest_item(l);
    if dest.len() > 0 {
        lemma_deleting_order(source, dest.drop_first());
        assert(dest.map_values(checks) =~= seq![crate::mirror::dest_item(dest[0])]
            + dest.drop_first().map_values(checks));
    } else {
        reveal_with_fuel(mirror_run, 2);
        assert(dest.map_values(checks) =~= Seq::empty());
    }
}

/// What a storage holds: the bytes of each entry, under its name.
pub type Store = Map<Seq<char>, Seq<u8>>;

/// The course of one entry of the source.
pub open spec fn sync_course(writer: Writer, name: Seq<char>, answers: Answers) -> crate::laws::Course {
    crate::laws::course(writer, crate::entry::first_step(name), answers)
}

/// What the destination holds once the operations of a course were performed, one
/// after another. A write that does not fail puts what the source holds of the entry
/// that it is on in the place of that entry; nothing else changes anything.
pub open spec fn performed(
    source: Store,
    dest: Store,
    asked: Seq<Asked>,
    answers: Answers,
) -> Store
    decreases asked.len(),
{
    if asked.len() == 0 {
        dest
    } else {
        let before = performed(source, dest, asked.drop_last(), answers);
        if asked.last().request is Write && answers.written is Ok {
            before.insert(asked.last().path, source[asked.last().path])
        } else {
            before
        }
    }
}

/// What the destination holds once the operations of a check were performed, one
/// after another. A deletion that does not fail takes the entry that it is on away;
/// nothing else changes anything.
pub open spec fn performed_check(
    dest: Store,
    asked: Seq<ExtraAsked>,
    answers: ExtraAnswers,
) -> Store
    decreases asked.len(),
{
    if asked.len() == 0 {
        dest
    } else {
        let before = performed_check(dest, asked.drop_last(), answers);
        if asked.last().request is DestDelete && answers.deleted is Ok {
            before.remove(asked.last().path)
        } else {
            before
        }
    }
}

proof fn lemma_performed_without_write(
    source: Store,
    dest: Store,
    asked: Seq<Asked>,
    answers: Answers,
)
    requires
        forall|i: int| 0 <= i < asked.len() ==> !((#[trigger] asked[i]).request is Write),
    ensures
        performed(source, dest, asked, answers) == dest,
    decreases asked.len(),
{
    if asked.len() > 0 {
        assert forall|i: int| 0 <= i < asked.drop_last().len() implies !((
        #[trigger] asked.drop_last()[i]).request is Write) by {
            assert(asked[i] == asked.drop_last()[i]);
        }
        lemma_performed_without_write(source, dest, asked.drop_last(), answers);
        assert(asked[asked.len() - 1] == asked.last());
    }
}

/// Synchronising an entry changes that entry and no other: it becomes what the
/// source holds of it if it is copied, and stays what it is if not.
pub proof fn law_sync_changes_its_entry_only(
    writer: Writer,
    source: Store,
    dest: Store,
    name: Seq<char>,
    answers: Answers,
)
    ensures
        ({
            let c = sync_course(writer, name, answers);
            performed(source, dest, c.requests, answers) == (if crate::laws::copies(c, answers) {
                dest.insert(name, source[name])
            } else {
                dest
            })
        }),
{
    let c = sync_course(writer, name, answers);
    crate::laws::law_reported_as_copied_iff_copied(writer, name, answers);
    crate::laws::law_failure_ends_the_course(writer, name, answers);
    crate::laws::law_entry_course(writer, name, answers);
    let asked = c.requests;
    assert forall|i: int| 0 <= i < asked.drop_last().len() implies !((
    #[trigger] asked.drop_last()[i]).request is Write) by {
        assert(asked[i] == asked.drop_last()[i]);
    }
    lemma_performed_without_write(source, dest, asked.drop_last(), answers);
    assert(asked[asked.len() - 1] == asked.last());
}

/// Checking an entry changes that entry and no other: it is gone if it is deleted,
/// and stays what it is if not.
pub proof fn law_check_changes_its_entry_only(dest: Store, name: Seq<char>, answers: ExtraAnswers)
    ensures
        ({
            let c = extra_course(crate::mirror::first_extra_step(name), answers);
            performed_check(dest, c.requests, answers) == (if deletes(c, answers) {
                dest.remove(name)
            } else {
                dest
            })
        }),
{
    reveal_with_fuel(performed_check, 4);
    law_extra_course(name, answers);
    law_deleted_iff_extra(name, answers);
    let c = extra_course(crate::mirror::first_extra_step(name), answers);
    if answers.exists == Ok::<bool, RSyncError>(false) {
        let asks = ExtraAsked { path: name, request: ExtraRequest::SourceExists };
        assert(c.requests.drop_last() =~= seq![asks]);
        assert(seq![asks].drop_last() =~= Seq::empty());
    } else {
        assert(c.requests.drop_last() =~= Seq::empty());
    }
}

/// What the destination holds once entries were synchronised one after another.
pub open spec fn after_sync(
    writer: Writer,
    source: Store,
    dest: Store,
    names: Seq<Seq<char>>,
    answers: Seq<Answers>,
) -> Store
    decreases names.len(),
{
    if names.len() == 0 {
        dest
    } else {
        let before = after_sync(writer, source, dest, names.drop_last(), answers.drop_last());
        let c = sync_course(writer, names.last(), answers.last());
        performed(source, before, c.requests, answers.last())
    }
}

/// No entry failed, and an entry that the destination did not hold was not taken
/// for one that it holds already.
pub open spec fn sync_succeeds(
    writer: Writer,
    source: Store,
    dest: Store,
    names: Seq<Seq<char>>,
    answers: Seq<Answers>,
) -> bool
    decreases names.len(),
{
    &&& names.len() == answers.len()
    &&& names.len() > 0 ==> {
        let before = after_sync(writer, source, dest, names.drop_last(), answers.drop_last());
        &&& sync_succeeds(writer, source, dest, names.drop_last(), answers.drop_last())
        &&& sync_course(writer, names.last(), answers.last()).result is Ok
        &&& before.contains_key(names.last()) || crate::laws::copies(
            sync_course(writer, names.last(), answers.last()),
            answers.last(),
        )
    }
}

/// Each entry that was left as it is was the same at both ends: what the same
/// time and size, or the same checksum, stand for.
pub open spec fn left_entries_are_same(
    writer: Writer,
    source: Store,
    dest: Store,
    names: Seq<Seq<char>>,
    answers: Seq<Answers>,
) -> bool
    decreases names.len(),
{
    names.len() > 0 ==> {
        let before = after_sync(writer, source, dest, names.drop_last(), answers.drop_last());
        let name = names.last();
        &&& left_entries_are_same(writer, source, dest, names.drop_last(), answers.drop_last())
        &&& crate::laws::copies(sync_course(writer, name, answers.last()), answers.last())
            || before[name] == source[name]
    }
}

/// After a synchronisation the destination holds every entry that the source
/// listed, and what it held else is untouched. An entry that was copied, or that
/// the destination did not hold, is what the source holds of it.
pub proof fn law_sync_brings_every_entry(
    writer: Writer,
    source: Store,
    dest: Store,
    names: Seq<Seq<char>>,
    answers: Seq<Answers>,
)
    requires
        sync_succeeds(writer, source, dest, names, answers),
    ensures
        ({
            let after = after_sync(writer, source, dest, names, answers);
            &&& forall|n: Seq<char>| #[trigger]
                after.contains_key(n) <==> names.contains(n) || dest.contains_key(n)
            &&& forall|n: Seq<char>|
                !names.contains(n) && #[trigger] dest.contains_key(n) ==> after[n] == dest[n]
            &&& forall|n: Seq<char>|
                names.contains(n) && !(#[trigger] dest.contains_key(n)) ==> after[n] == source[n]
            &&& forall|i: int|
                0 <= i < names.len() && crate::laws::copies(
                    sync_course(writer, #[trigger] names[i], answers[i]),
                    answers[i],
                ) ==> after[names[i]] == source[names[i]]
        }),
    decreases names.len(),
{
    if names.len() > 0 {
        let names0 = names.drop_last();
        let answers0 = answers.drop_last();
        let before = after_sync(writer, source, dest, names0, answers0);
        let after = after_sync(writer, source, dest, names, answers);
        let last = names.last();
        law_sync_brings_every_entry(writer, source, dest, names0, answers0);
        law_sync_changes_its_entry_only(writer, source, before, last, answers.last());
        lemma_contains_drop_last(names);
        assert(names.contains(last)) by {
            assert(names[names.len() - 1] == last);
        }
        assert forall|i: int|
            0 <= i < names.len() && crate::laws::copies(
                sync_course(writer, #[trigger] names[i], answers[i]),
                answers[i],
            ) implies after[names[i]] == source[names[i]] by {
            if i < names0.len() {
                assert(names0[i] == names[i]);
                assert(answers0[i] == answers[i]);
            }
        }
    }
}

pub(crate) proof fn lemma_contains_drop_last(names: Seq<Seq<char>>)
    requires
        names.len() > 0,
    ensures
        forall|n: Seq<char>| #[trigger]
            names.contains(n) <==> names.drop_last().contains(n) || n == names.last(),
{
    assert forall|n: Seq<char>| names.contains(n) implies names.drop_last().contains(n) || n
        == names.last() by {
        let i = choose|i: int| 0 <= i < names.len() && names[i] == n;
        if i < names.len() - 1 {
            assert(names.drop_last()[i] == n);
        }
    }
    assert forall|n: Seq<char>| names.drop_last().contains(n) || n == names.last() implies (
    #[trigger] names.contains(n)) by {
        if names.drop_last().contains(n) {
            let i = choose|i: int| 0 <= i < names.drop_last().len() && names.drop_last()[i] == n;
            assert(names[i] == n);
        } else {
            assert(names[names.len() - 1] == n);
        }
    }
}

/// After a synchronisation in which an entry was left as it is only where it was
/// the same at both ends, the destination holds what the source holds of every
/// entry that the source listed.
pub proof fn law_sync_makes_entries_equal(
    writer: Writer,
    source: Store,
    dest: Store,
    names: Seq<Seq<char>>,
    answers: Seq<Answers>,
)
    requires
        sync_succeeds(writer, source, dest, names, answers),
        left_entries_are_same(writer, source, dest, names, answers),
    ensures
        ({
            let after = after_sync(writer, source, dest, names, answers);
            forall|n: Seq<char>| #[trigger]
                names.contains(n) ==> after.contains_key(n) && after[n] == source[n]
        }),
    decreases names.len(),
{
    law_sync_brings_every_entry(writer, source, dest, names, answers);
    if names.len() > 0 {
        law_sync_makes_entries_equal(
            writer,
            source,
            dest,
            names.drop_last(),
            answers.drop_last(),
        );
        law_sync_changes_its_entry_only(
            writer,
            source,
            after_sync(writer, source, dest, names.drop_last(), answers.drop_last()),
            names.last(),
            answers.last(),
        );
        lemma_contains_drop_last(names);
    }
}

/// What the destination holds once entries that it listed were checked one after
/// another.
pub open spec fn after_extras(
    dest: Store,
    names: Seq<Seq<char>>,
    answers: Seq<ExtraAnswers>,
) -> Store
    decreases names.len(),
{
    if names.len() == 0 {
        dest
    } else {
        let before = after_extras(dest, names.drop_last(), answers.drop_last());
        let c = extra_course(crate::mirror::first_extra_step(names.last()), answers.last());
        performed_check(before, c.requests, answers.last())
    }
}

/// No check failed, and the source told whether it holds each entry.
pub open spec fn extras_succeed(
    source: Store,
    names: Seq<Seq<char>>,
    answers: Seq<ExtraAnswers>,
) -> bool {
    &&& names.len() == answers.len()
    &&& forall|i: int|
        0 <= i < names.len() ==> (#[trigger] answers[i]).exists == Ok::<bool, RSyncError>(
            source.contains_key(names[i]),
        ) && answers[i].deleted is Ok
}

/// Of the entries that the destination lists, those that the source does not hold
/// are taken away; every other entry is untouched.
pub proof fn law_extras_are_deleted(
    source: Store,
    dest: Store,
    names: Seq<Seq<char>>,
    answers: Seq<ExtraAnswers>,
)
    requires
        extras_succeed(source, names, answers),
    ensures
        ({
            let after = after_extras(dest, names, answers);
            &&& forall|n: Seq<char>| #[trigger]
                after.contains_key(n) <==> dest.contains_key(n) && !(names.contains(n)
                    && !source.contains_key(n))
            &&& forall|n: Seq<char>| #[trigger] after.contains_key(n) ==> after[n] == dest[n]
        }),
    decreases names.len(),
{
    if names.len() > 0 {
        let names0 = names.drop_last();
        let answers0 = answers.drop_last();
        assert forall|i: int| 0 <= i < names0.len() implies (#[trigger] answers0[i]).exists == Ok::<
            bool,
            RSyncError,
        >(source.contains_key(names0[i])) && answers0[i].deleted is Ok by {
            assert(answers[i] == answers0[i]);
        }
        law_extras_are_deleted(source, dest, names0, answers0);
        assert(answers[names.len() - 1] == answers.last());
        law_deleted_iff_extra(names.last(), answers.last());
        lemma_contains_drop_last(names);
        let before = after_extras(dest, names0, answers0);
        law_check_changes_its_entry_only(before, names.last(), answers.last());
        let after = after_extras(dest, names, answers);
        assert forall|n: Seq<char>| #[trigger]
            after.contains_key(n) <==> dest.contains_key(n) && !(names.contains(n)
                && !source.contains_key(n)) by {
            assert(names.contains(n) <==> names0.contains(n) || n == names.last());
            assert(before.contains_key(n) <==> dest.contains_key(n) && !(names0.contains(n)
                && !source.contains_key(n)));
        }
        assert forall|n: Seq<char>| #[trigger] after.contains_key(n) implies after[n] == dest[n] by {
            assert(before.contains_key(n));
        }
    }
}

/// Mirroring makes the destination hold the entries of the source and no others,
/// when the source lists what it holds, the destination lists what it held, nothing
/// fails, and no entry that the destination lacks is taken for one that it has.
/// Where an entry was left as it is only if it was the same at both ends, the two
/// then hold the same.
pub proof fn law_mirror(
    writer: Writer,
    source: Store,
    dest: Store,
    source_names: Seq<Seq<char>>,
    answers: Seq<Answers>,
    dest_names: Seq<Seq<char>>,
    extra_answers: Seq<ExtraAnswers>,
)
    requires
        forall|n: Seq<char>| #[trigger] source_names.contains(n) <==> source.contains_key(n),
        forall|n: Seq<char>| #[trigger] dest.contains_key(n) ==> dest_names.contains(n),
        sync_succeeds(writer, source, dest, source_names, answers),
        extras_succeed(source, dest_names, extra_answers),
    ensures
        ({
            let synced = after_sync(writer, source, dest, source_names, answers);
            let after = after_extras(synced, dest_names, extra_answers);
            &&& forall|n: Seq<char>| #[trigger] after.contains_key(n) <==> source.contains_key(n)
            &&& left_entries_are_same(writer, source, dest, source_names, answers) ==> after
                == source
        }),
{
    let synced = after_sync(writer, source, dest, source_names, answers);
    let after = after_extras(synced, dest_names, extra_answers);
    law_sync_brings_every_entry(writer, source, dest, source_names, answers);
    law_extras_are_deleted(source, synced, dest_names, extra_answers);
    assert forall|n: Seq<char>| #[trigger] after.contains_key(n) <==> source.contains_key(n) by {
        assert(synced.contains_key(n) <==> source_names.contains(n) || dest.contains_key(n));
    }
    if left_entries_are_same(writer, source, dest, source_names, answers) {
        law_sync_makes_entries_equal(writer, source, dest, source_names, answers);
        assert forall|n: Seq<char>| #[trigger] after.contains_key(n) implies after[n]
            == source[n] by {
            assert(source_names.contains(n));
        }
        assert(after =~= source);
    }
}

} // verus!
