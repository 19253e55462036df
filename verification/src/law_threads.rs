//! A conversation leaves every thread running and never suspends its own.
use vstd::multiset::Multiset;
use vstd::prelude::*;

use crate::crash_context::CrashContext;
use crate::dump::{Dump, Stage};
use crate::law_outcome::open_thread;
use crate::protocol::{DumpRequestView, Reply, Request};
use crate::run::{
    complete, conforms, lemma_log_at, lemma_rest, log, run, starts, starts_crash, starts_local,
    Exchange,
};
use crate::winnt::{Handle, SUSPEND_FAILED};

verus! {

/// The thread that a call suspended, if it did.
pub open spec fn suspended_by(exchange: Exchange) -> Multiset<Handle> {
    match (exchange.request, exchange.reply) {
        (
            Request::SuspendThread { thread },
            Reply::SuspendCount(count),
        ) if count != SUSPEND_FAILED => Multiset::singleton(thread),
        _ => Multiset::empty(),
    }
}

/// The thread that a call was to resume, if it was to resume one.
pub open spec fn resumed_by(exchange: Exchange) -> Multiset<Handle> {
    match exchange.request {
        Request::ResumeThread { thread } => Multiset::singleton(thread),
        _ => Multiset::empty(),
    }
}

/// The threads that the calls of `log` suspended.
pub open spec fn suspended(log: Seq<Exchange>) -> Multiset<Handle>
    decreases log.len(),
{
    if log.len() == 0 {
        Multiset::empty()
    } else {
        suspended_by(log[0]).add(suspended(log.drop_first()))
    }
}

/// The threads that the calls of `log` were to resume.
pub open spec fn resumed(log: Seq<Exchange>) -> Multiset<Handle>
    decreases log.len(),
{
    if log.len() == 0 {
        Multiset::empty()
    } else {
        resumed_by(log[0]).add(resumed(log.drop_first()))
    }
}

/// The thread that is suspended at a stage, if one is.
spec fn stopped(stage: Stage) -> Multiset<Handle> {
    match stage {
        Stage::GetContext { thread, .. } => Multiset::singleton(thread),
        Stage::ResumeAfterFailure { thread } => Multiset::singleton(thread),
        Stage::ResumeThread { thread, .. } => Multiset::singleton(thread),
        _ => Multiset::empty(),
    }
}

/// Once a dump has ended, every thread that it suspended has been told to
/// resume, once for each time it was suspended, and no other thread has.
pub proof fn law_threads_resumed(dump: Dump, replies: Seq<Reply>)
    requires
        starts(dump),
        complete(dump, replies),
    ensures
        resumed(log(dump, replies)) == suspended(log(dump, replies)),
{
    lemma_stopped(dump, replies);
    let exchanges = log(dump, replies);
    assert(stopped(dump.stage).add(suspended(exchanges)) =~= suspended(exchanges));
    assert(resumed(exchanges).add(stopped(run(dump, replies).stage)) =~= resumed(exchanges));
}

/// While a thread is suspended, nothing is done but to read its context and to
/// resume it, and these are done to a suspended thread only. So no handle is
/// closed and no dump is written with a thread suspended.
pub proof fn law_nothing_else_while_suspended(dump: Dump, replies: Seq<Reply>, i: int)
    requires
        starts(dump),
        conforms(dump, replies),
        0 <= i < replies.len(),
    ensures
        match log(dump, replies)[i].request {
            Request::GetThreadContext { thread, .. } | Request::ResumeThread { thread } => suspended(
                log(dump, replies).take(i),
            ) == resumed(log(dump, replies).take(i)).insert(thread),
            _ => suspended(log(dump, replies).take(i)) == resumed(log(dump, replies).take(i)),
        },
{
    lemma_log_at(dump, replies, i);
    let before = replies.take(i);
    lemma_stopped(dump, before);
    let suspended_before = suspended(log(dump, before));
    let resumed_before = resumed(log(dump, before));
    let now = stopped(run(dump, before).stage);
    assert(stopped(dump.stage).add(suspended_before) =~= suspended_before);
    match log(dump, replies)[i].request {
        Request::GetThreadContext { thread, .. } | Request::ResumeThread { thread } => {
            assert(resumed_before.add(now) =~= resumed_before.insert(thread));
        },
        _ => {
            assert(resumed_before.add(now) =~= resumed_before);
        },
    }
}

/// What is suspended at the end is what was suspended at the start and what
/// was suspended since, less what was resumed.
proof fn lemma_stopped(dump: Dump, replies: Seq<Reply>)
    requires
        conforms(dump, replies),
    ensures
        stopped(dump.stage).add(suspended(log(dump, replies))) == resumed(log(dump, replies)).add(
            stopped(run(dump, replies).stage),
        ),
    decreases replies.len(),
{
    let exchanges = log(dump, replies);
    if replies.len() == 0 {
        assert(stopped(dump.stage).add(suspended(exchanges)) =~= resumed(exchanges).add(
            stopped(dump.stage),
        ));
    } else {
        let next = dump.next(replies[0]);
        let rest = log(next, replies.drop_first());
        lemma_stopped(next, replies.drop_first());
        assert(exchanges.drop_first() =~= rest);
        assert(stopped(dump.stage).add(suspended_by(exchanges[0])) =~= resumed_by(
            exchanges[0],
        ).add(stopped(next.stage)));
        assert(stopped(dump.stage).add(suspended(exchanges)) =~= resumed_by(exchanges[0]).add(
            stopped(next.stage).add(suspended(rest)),
        ));
        assert(resumed(exchanges).add(stopped(run(dump, replies).stage)) =~= resumed_by(
            exchanges[0],
        ).add(resumed(rest).add(stopped(run(dump, replies).stage))));
    }
}

/// Whether no thread can be suspended from this stage on.
spec fn suspends_no_more(stage: Stage) -> bool {
    !(stage is AskThread || stage is OpenThread || stage is SuspendThread)
}

/// A dump of the own process suspends no thread but the named one, and that
/// only after it has learnt that another thread runs: the thread to suspend is
/// what opening the named one brought, and the thread that runs was asked for
/// before and is another one.
pub proof fn law_only_other_thread_suspended(
    dump: Dump,
    exception_code: Option<i32>,
    thread_id: Option<u32>,
    replies: Seq<Reply>,
    i: int,
    thread: Handle,
)
    requires
        starts_local(dump, exception_code, thread_id),
        conforms(dump, replies),
        0 <= i < replies.len(),
        log(dump, replies)[i].request == (Request::<DumpRequestView>::SuspendThread { thread }),
    ensures
        i == 2,
        log(dump, replies)[0].request == Request::<DumpRequestView>::CurrentThreadId,
        log(dump, replies)[0].reply matches Reply::ThreadId(current) && thread_id matches Some(
            named,
        ) && {
            &&& named != current
            &&& log(dump, replies)[1] == (Exchange {
                request: open_thread(named),
                reply: Reply::Handle(thread),
            })
        },
{
    lemma_log_at(dump, replies, i);
    lemma_log_at(dump, replies, 0);
    assert(replies.take(0) =~= seq![]);
    if thread_id is None {
        lemma_suspends_no_more(dump, replies.take(i));
    } else {
        if i > 0 {
            lemma_log_at(dump, replies, 1);
        }
        if i > 2 {
            lemma_log_at(dump, replies, 2);
            let third = run(dump, replies.take(3));
            lemma_rest(dump, replies, 3, i);
            lemma_suspends_no_more(third, replies.subrange(3, i));
        }
    }
}

/// A dump of a described crash suspends no thread.
pub proof fn law_crash_suspends_nothing(
    dump: Dump,
    crash_context: CrashContext,
    replies: Seq<Reply>,
    i: int,
)
    requires
        starts_crash(dump, crash_context),
        conforms(dump, replies),
        0 <= i < replies.len(),
    ensures
        !(log(dump, replies)[i].request is SuspendThread),
{
    lemma_log_at(dump, replies, i);
    lemma_suspends_no_more(dump, replies.take(i));
}

/// From a stage at which no thread can be suspended any more, none is.
proof fn lemma_suspends_no_more(dump: Dump, replies: Seq<Reply>)
    requires
        suspends_no_more(dump.stage),
    ensures
        suspends_no_more(run(dump, replies).stage),
    decreases replies.len(),
{
    if replies.len() > 0 {
        lemma_suspends_no_more(dump.next(replies[0]), replies.drop_first());
    }
}

} // verus!
