//! Whole conversations: a dump and the replies that it got, one for each call.
use vstd::prelude::*;

use crate::crash_context::CrashContext;
use crate::dump::{Dump, Stage};
use crate::protocol::{answers, DumpRequestView, Reply, Request};

verus! {

/// A call and what it returned.
pub struct Exchange {
    pub request: Request<DumpRequestView>,
    pub reply: Reply,
}

/// Whether `reply` is one that the pending call can have.
pub open spec fn accepts(dump: Dump, reply: Reply) -> bool {
    dump.pending() matches Some(request) && answers(request, reply)
}

/// Whether each of `replies` is one that the call it answers can have, when
/// `dump` goes on with one after the other.
pub open spec fn conforms(dump: Dump, replies: Seq<Reply>) -> bool
    decreases replies.len(),
{
    replies.len() > 0 ==> {
        &&& accepts(dump, replies[0])
        &&& conforms(dump.next(replies[0]), replies.drop_first())
    }
}

/// Where `dump` gets to with `replies`.
pub open spec fn run(dump: Dump, replies: Seq<Reply>) -> Dump
    decreases replies.len(),
{
    if replies.len() == 0 {
        dump
    } else {
        run(dump.next(replies[0]), replies.drop_first())
    }
}

/// The calls that `dump` makes on the way, each with its reply.
pub open spec fn log(dump: Dump, replies: Seq<Reply>) -> Seq<Exchange>
    decreases replies.len(),
{
    if replies.len() == 0 {
        seq![]
    } else {
        seq![Exchange { request: dump.pending()->0, reply: replies[0] }] + log(
            dump.next(replies[0]),
            replies.drop_first(),
        )
    }
}

/// The calls that `dump` makes on the way.
pub open spec fn requests(dump: Dump, replies: Seq<Reply>) -> Seq<Request<DumpRequestView>> {
    log(dump, replies).map_values(|exchange: Exchange| exchange.request)
}

/// Whether `replies` take `dump` to its end.
pub open spec fn complete(dump: Dump, replies: Seq<Reply>) -> bool {
    conforms(dump, replies) && run(dump, replies).outcome() is Some
}

/// Whether `dump` is a dump of the own process that was just started.
pub open spec fn starts_local(
    dump: Dump,
    exception_code: Option<i32>,
    thread_id: Option<u32>,
) -> bool {
    dump.stage == Stage::local(exception_code, thread_id)
}

/// Whether `dump` is a dump of a described crash that was just started.
pub open spec fn starts_crash(dump: Dump, crash_context: CrashContext) -> bool {
    dump.stage == Stage::crash(crash_context)
}

/// Whether `dump` was just started, in either way.
pub open spec fn starts(dump: Dump) -> bool {
    ||| exists|code: Option<i32>, thread_id: Option<u32>| starts_local(dump, code, thread_id)
    ||| exists|crash_context: CrashContext| starts_crash(dump, crash_context)
}

/// One call more, at the front.
pub(crate) proof fn lemma_first(dump: Dump, replies: Seq<Reply>)
    requires
        replies.len() > 0,
        conforms(dump, replies),
    ensures
        accepts(dump, replies[0]),
        conforms(dump.next(replies[0]), replies.drop_first()),
        run(dump, replies) == run(dump.next(replies[0]), replies.drop_first()),
        requests(dump, replies) == seq![dump.pending()->0] + requests(
            dump.next(replies[0]),
            replies.drop_first(),
        ),
{
    let rest = log(dump.next(replies[0]), replies.drop_first());
    assert(log(dump, replies) == seq![
        Exchange { request: dump.pending()->0, reply: replies[0] },
    ] + rest);
    assert(requests(dump, replies) =~= seq![dump.pending()->0] + requests(
        dump.next(replies[0]),
        replies.drop_first(),
    ));
}

/// A conversation that has not ended needs a reply.
pub(crate) proof fn lemma_goes_on(dump: Dump, replies: Seq<Reply>)
    requires
        complete(dump, replies),
        dump.outcome() is None,
    ensures
        replies.len() > 0,
        complete(dump.next(replies[0]), replies.drop_first()),
{
    if replies.len() == 0 {
        assert(run(dump, replies) == dump);
    }
    lemma_first(dump, replies);
}

/// A conversation that has ended takes no reply.
pub(crate) proof fn lemma_ended(dump: Dump, replies: Seq<Reply>)
    requires
        conforms(dump, replies),
        dump.outcome() is Some,
    ensures
        replies.len() == 0,
        run(dump, replies) == dump,
        requests(dump, replies) == Seq::<Request<DumpRequestView>>::empty(),
{
    if replies.len() > 0 {
        assert(accepts(dump, replies[0]));
    }
    assert(requests(dump, replies) =~= Seq::<Request<DumpRequestView>>::empty());
}

/// What stands at place `i` of the log: the call that was pending after the
/// first `i` replies, with the reply at place `i`. What stands before it is the
/// log of those replies.
pub(crate) proof fn lemma_log_at(dump: Dump, replies: Seq<Reply>, i: int)
    requires
        conforms(dump, replies),
        0 <= i < replies.len(),
    ensures
        log(dump, replies).len() == replies.len(),
        conforms(dump, replies.take(i)),
        accepts(run(dump, replies.take(i)), replies[i]),
        run(dump, replies.take(i + 1)) == run(dump, replies.take(i)).next(replies[i]),
        log(dump, replies)[i] == (Exchange {
            request: run(dump, replies.take(i)).pending()->0,
            reply: replies[i],
        }),
        log(dump, replies).take(i) == log(dump, replies.take(i)),
    decreases replies.len(),
{
    let next = dump.next(replies[0]);
    let rest = replies.drop_first();
    let first = Exchange { request: dump.pending()->0, reply: replies[0] };
    assert(log(dump, replies) == seq![first] + log(next, rest));
    lemma_log_len(next, rest);
    if i == 0 {
        assert(replies.take(0) =~= seq![]);
        assert(log(dump, replies).take(0) =~= seq![]);
        assert(replies.take(1).drop_first() =~= seq![]);
        assert(run(dump, replies.take(1)) == run(next, replies.take(1).drop_first()));
    } else {
        lemma_log_at(next, rest, i - 1);
        assert(replies.take(i).drop_first() =~= rest.take(i - 1));
        assert(replies.take(i + 1).drop_first() =~= rest.take(i));
        assert(log(dump, replies).take(i) =~= seq![first] + log(next, rest).take(i - 1));
    }
}

/// There is one exchange for each reply.
pub(crate) proof fn lemma_log_len(dump: Dump, replies: Seq<Reply>)
    ensures
        log(dump, replies).len() == replies.len(),
    decreases replies.len(),
{
    if replies.len() > 0 {
        lemma_log_len(dump.next(replies[0]), replies.drop_first());
    }
}

/// Going on with the first `end` replies is going on with the first `start`
/// and then with those between.
pub(crate) proof fn lemma_rest(dump: Dump, replies: Seq<Reply>, start: int, end: int)
    requires
        0 <= start <= end <= replies.len(),
    ensures
        run(dump, replies.take(end)) == run(
            run(dump, replies.take(start)),
            replies.subrange(start, end),
        ),
    decreases start,
{
    if start == 0 {
        assert(replies.take(0) =~= seq![]);
        assert(replies.subrange(0, end) =~= replies.take(end));
    } else {
        let rest = replies.drop_first();
        lemma_rest(dump.next(replies[0]), rest, start - 1, end - 1);
        assert(replies.take(start).drop_first() =~= rest.take(start - 1));
        assert(replies.take(end).drop_first() =~= rest.take(end - 1));
        assert(rest.subrange(start - 1, end - 1) =~= replies.subrange(start, end));
    }
}

/// A conversation falls into what came of the first `at` replies and a
/// conversation that starts there.
pub(crate) proof fn lemma_split(dump: Dump, replies: Seq<Reply>, at: int)
    requires
        conforms(dump, replies),
        0 <= at <= replies.len(),
    ensures
        conforms(run(dump, replies.take(at)), replies.skip(at)),
        run(dump, replies) == run(run(dump, replies.take(at)), replies.skip(at)),
        log(dump, replies) == log(dump, replies.take(at)) + log(
            run(dump, replies.take(at)),
            replies.skip(at),
        ),
        run(dump, replies.take(at)).little_endian == dump.little_endian,
    decreases at,
{
    let there = run(dump, replies.take(at));
    if at == 0 {
        assert(replies.take(0) =~= seq![]);
        assert(replies.skip(0) =~= replies);
        assert(log(dump, replies) =~= log(dump, replies.take(0)) + log(there, replies.skip(0)));
    } else {
        let next = dump.next(replies[0]);
        let rest = replies.drop_first();
        lemma_split(next, rest, at - 1);
        assert(replies.take(at).drop_first() =~= rest.take(at - 1));
        assert(rest.skip(at - 1) =~= replies.skip(at));
        assert(log(dump, replies) =~= log(dump, replies.take(at)) + log(there, replies.skip(at)));
    }
}

/// The number of calls that are still to come at most.
spec fn calls_left(stage: Stage) -> nat {
    match stage {
        Stage::AskThread { .. } => 14,
        Stage::OpenThread { .. } => 13,
        Stage::SuspendThread { .. } => 12,
        Stage::GetContext { .. } => 11,
        Stage::ResumeAfterFailure { .. } => 3,
        Stage::ResumeThread { .. } => 10,
        Stage::CloseThread { .. } => 9,
        Stage::CaptureContext { named, .. } => if named is None {
            10
        } else {
            9
        },
        Stage::StoreException { named, .. } => if named is None {
            9
        } else {
            8
        },
        Stage::AskOwnProcess { named, .. } => if named is None {
            8
        } else {
            7
        },
        Stage::AskOwnThread { .. } => 7,
        Stage::AskProcess { .. } => 6,
        Stage::OpenProcess { .. } => 4,
        Stage::UseOwnProcess { .. } => 5,
        Stage::AskRequester { .. } => 4,
        Stage::WriteDump { .. } => 3,
        Stage::ReadError { .. } => 2,
        Stage::CloseHandle { .. } => 1,
        Stage::Finished { .. } => 0,
    }
}

proof fn lemma_calls_left(dump: Dump, replies: Seq<Reply>)
    requires
        conforms(dump, replies),
    ensures
        replies.len() + calls_left(run(dump, replies).stage) <= calls_left(dump.stage),
    decreases replies.len(),
{
    if replies.len() > 0 {
        lemma_calls_left(dump.next(replies[0]), replies.drop_first());
    }
}

/// A dump of a described crash ends after at most six calls.
pub proof fn law_crash_ends(dump: Dump, crash_context: CrashContext, replies: Seq<Reply>)
    requires
        starts_crash(dump, crash_context),
        conforms(dump, replies),
    ensures
        replies.len() <= 6,
        replies.len() == 6 ==> run(dump, replies).outcome() is Some,
{
    lemma_calls_left(dump, replies);
}

/// A dump of the own process ends after at most ten calls, or fourteen where a
/// thread was named.
pub proof fn law_local_ends(
    dump: Dump,
    exception_code: Option<i32>,
    thread_id: Option<u32>,
    replies: Seq<Reply>,
)
    requires
        starts_local(dump, exception_code, thread_id),
        conforms(dump, replies),
    ensures
        replies.len() <= 14,
        thread_id is None ==> replies.len() <= 10,
        replies.len() == 14 || (thread_id is None && replies.len() == 10) ==> run(
            dump,
            replies,
        ).outcome() is Some,
{
    lemma_calls_left(dump, replies);
}

} // verus!
