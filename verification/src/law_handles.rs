//! What a conversation opens it closes, and it uses nothing that is not open.
use vstd::multiset::Multiset;
use vstd::prelude::*;

use crate::dump::{Dump, Stage};
use crate::protocol::{DumpRequestView, Reply, Request};
use crate::run::{complete, conforms, lemma_log_at, log, run, starts, Exchange};
use crate::winnt::Handle;

verus! {

/// The handle that a call brought, if it brought one. The handle of the own
/// process counts, though closing it has no effect.
pub open spec fn acquired_by(exchange: Exchange) -> Multiset<Handle> {
    match (exchange.request, exchange.reply) {
        (
            Request::OpenThread { .. } | Request::OpenProcess { .. },
            Reply::Handle(handle),
        ) => if handle.is_null() {
            Multiset::empty()
        } else {
            Multiset::singleton(handle)
        },
        (Request::CurrentProcess, Reply::Handle(handle)) => Multiset::singleton(handle),
        _ => Multiset::empty(),
    }
}

/// The handle that a call gave back, if it gave one back.
pub open spec fn released_by(exchange: Exchange) -> Multiset<Handle> {
    match exchange.request {
        Request::CloseHandle { handle } => Multiset::singleton(handle),
        _ => Multiset::empty(),
    }
}

/// The handles that the calls of `log` brought.
pub open spec fn acquired(log: Seq<Exchange>) -> Multiset<Handle>
    decreases log.len(),
{
    if log.len() == 0 {
        Multiset::empty()
    } else {
        acquired_by(log[0]).add(acquired(log.drop_first()))
    }
}

/// The handles that the calls of `log` gave back.
pub open spec fn released(log: Seq<Exchange>) -> Multiset<Handle>
    decreases log.len(),
{
    if log.len() == 0 {
        Multiset::empty()
    } else {
        released_by(log[0]).add(released(log.drop_first()))
    }
}

/// The handle that a call works on, if it works on one.
pub open spec fn used_by(request: Request<DumpRequestView>) -> Option<Handle> {
    match request {
        Request::SuspendThread { thread } => Some(thread),
        Request::GetThreadContext { thread, .. } => Some(thread),
        Request::ResumeThread { thread } => Some(thread),
        Request::WriteDump(dump) => Some(dump.process),
        Request::CloseHandle { handle } => Some(handle),
        _ => None,
    }
}

/// The handles that are open at a stage.
spec fn held(stage: Stage) -> Multiset<Handle> {
    match stage {
        Stage::SuspendThread { thread, .. } => Multiset::singleton(thread),
        Stage::GetContext { thread, .. } => Multiset::singleton(thread),
        Stage::ResumeAfterFailure { thread } => Multiset::singleton(thread),
        Stage::ResumeThread { thread, .. } => Multiset::singleton(thread),
        Stage::CloseThread { thread, .. } => Multiset::singleton(thread),
        Stage::AskRequester { writer } => Multiset::singleton(writer.crashing_process),
        Stage::WriteDump { writer, .. } => Multiset::singleton(writer.crashing_process),
        Stage::ReadError { held: Some(handle), .. } => Multiset::singleton(handle),
        Stage::CloseHandle { handle, .. } => Multiset::singleton(handle),
        _ => Multiset::empty(),
    }
}

/// Once a dump has ended, every handle that it opened has been closed, each as
/// often as it was opened, and nothing else has.
pub proof fn law_handles_closed(dump: Dump, replies: Seq<Reply>)
    requires
        starts(dump),
        complete(dump, replies),
    ensures
        released(log(dump, replies)) == acquired(log(dump, replies)),
{
    lemma_balance(dump, replies);
    let exchanges = log(dump, replies);
    assert(held(dump.stage).add(acquired(exchanges)) =~= acquired(exchanges));
    assert(released(exchanges).add(held(run(dump, replies).stage)) =~= released(exchanges));
}

/// At every point of a conversation, a call that works on a handle works on
/// one that is open: it was opened more often than it was closed before.
pub proof fn law_handles_open_when_used(dump: Dump, replies: Seq<Reply>, i: int, handle: Handle)
    requires
        starts(dump),
        conforms(dump, replies),
        0 <= i < replies.len(),
        used_by(log(dump, replies)[i].request) == Some(handle),
    ensures
        released(log(dump, replies).take(i)).count(handle) < acquired(
            log(dump, replies).take(i),
        ).count(handle),
{
    lemma_log_at(dump, replies, i);
    let before = replies.take(i);
    lemma_balance(dump, before);
    let stage = run(dump, before).stage;
    assert(held(stage).count(handle) == 1);
    assert(held(dump.stage).add(acquired(log(dump, before))).count(handle) == released(
        log(dump, before),
    ).add(held(stage)).count(handle));
    assert(held(dump.stage) == Multiset::<Handle>::empty());
}

/// What is open at the end is what was open at the start and what was opened,
/// less what was closed.
proof fn lemma_balance(dump: Dump, replies: Seq<Reply>)
    requires
        conforms(dump, replies),
    ensures
        held(dump.stage).add(acquired(log(dump, replies))) == released(log(dump, replies)).add(
            held(run(dump, replies).stage),
        ),
    decreases replies.len(),
{
    let exchanges = log(dump, replies);
    if replies.len() == 0 {
        assert(held(dump.stage).add(acquired(exchanges)) =~= released(exchanges).add(
            held(dump.stage),
        ));
    } else {
        let next = dump.next(replies[0]);
        let rest = log(next, replies.drop_first());
        lemma_balance(next, replies.drop_first());
        assert(exchanges.drop_first() =~= rest);
        assert(held(dump.stage).add(acquired_by(exchanges[0])) =~= released_by(exchanges[0]).add(
            held(next.stage),
        ));
        assert(held(dump.stage).add(acquired(exchanges)) =~= released_by(exchanges[0]).add(
            held(next.stage).add(acquired(rest)),
        ));
        assert(released(exchanges).add(held(run(dump, replies).stage)) =~= released_by(
            exchanges[0],
        ).add(released(rest).add(held(run(dump, replies).stage))));
    }
}

} // verus!
