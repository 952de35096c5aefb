//! What a session does over a whole conversation.
//!
//! [`run`] is what an observer at the host sees of a session that is given
//! a sequence of answers: the calls it asks for, in order, and the outcome
//! once it is over. [`replay`] computes it from answers that were recorded,
//! [`drive`] holds the conversation with a host. The lemmas of this module
//! describe every run of every session; those about the sessions of this
//! compositor are in [`crate::guarantees`].

use vstd::prelude::*;
use crate::command::{Command, Reply};
use crate::error::{outcome_view, Error, ErrorView};
use crate::session::{
    accepted, diagnosis, diagnostic, failure, Progress, ProgressView, Session, SessionView,
};

verus! {

/// What is observable of a session after some answers.
pub struct Run<'a> {
    /// The calls the host was asked to perform, in order. The last of them
    /// is still unanswered unless the session is over.
    pub issued: Seq<Command<'a>>,
    /// The outcome, once the session is over.
    pub outcome: Option<Result<(), ErrorView>>,
}

/// The run of `session` on the answers `replies`, the first of which
/// answers the command at hand. Answers that arrive after the session is
/// over are not looked at.
pub open spec fn run<'a>(session: SessionView<'a>, replies: Seq<Reply>) -> Run<'a>
    decreases replies.len(),
{
    if replies.len() == 0 {
        Run { issued: seq![session.command()], outcome: None }
    } else {
        match session.next(replies[0]) {
            ProgressView::Continue(later) => {
                let rest = run(later, replies.drop_first());
                Run { issued: seq![session.command()] + rest.issued, outcome: rest.outcome }
            },
            ProgressView::Finished(outcome) => Run {
                issued: seq![session.command()],
                outcome: Some(outcome),
            },
        }
    }
}

/// What [`replay`] has observed; its view is a [`Run`].
pub struct Record<'a> {
    /// The calls the session asked for, in order.
    pub issued: Vec<Command<'a>>,
    /// The outcome, if the answers took the session to its end.
    pub outcome: Option<Result<(), Error>>,
}

impl<'a> View for Record<'a> {
    type V = Run<'a>;

    open spec fn view(&self) -> Run<'a> {
        Run {
            issued: self.issued@,
            outcome: match self.outcome {
                Some(outcome) => Some(outcome_view(outcome)),
                None => None,
            },
        }
    }
}

/// Replays a conversation that has been recorded at a host: feeds
/// `replies` to `session`, in order, and notes every call the session asks
/// for and the outcome it comes to.
pub fn replay<'a>(session: Session<'a>, replies: Vec<Reply>) -> (record: Record<'a>)
    ensures
        record@ == run(session@, replies@),
{
    let ghost start = session@;
    let ghost answers = replies@;
    let mut current = session;
    let mut issued: Vec<Command<'a>> = Vec::new();
    issued.push(current.command());
    assert(answers.skip(0) =~= answers);
    assert(issued@.drop_last() + run(start, answers).issued =~= run(start, answers).issued);
    for reply in answer: replies
        invariant
            start == session@,
            answers == replies@,
            answer.seq() == answers,
            current@.wf(),
            issued@.len() >= 1,
            issued@.last() == current@.command(),
            run(start, answers).issued == issued@.drop_last() + run(
                current@,
                answers.skip(answer.index() as int),
            ).issued,
            run(start, answers).outcome == run(
                current@,
                answers.skip(answer.index() as int),
            ).outcome,
    {
        let ghost rest = answers.skip(answer.index() as int);
        let ghost before = issued@;
        assert(rest[0] == reply && rest.drop_first() =~= answers.skip(answer.index() + 1));
        match current.advance(reply) {
            Progress::Continue(next) => {
                issued.push(next.command());
                assert(issued@.drop_last() =~= before.drop_last() + seq![before.last()]);
                assert(issued@.drop_last() + run(next@, rest.drop_first()).issued
                    =~= before.drop_last() + run(current@, rest).issued);
                current = next;
            },
            Progress::Finished(outcome) => {
                assert(run(current@, rest).issued =~= seq![before.last()]);
                assert(before.drop_last() + seq![before.last()] =~= before);
                assert(run(current@, rest).outcome == Some(outcome_view(outcome)));
                return Record { issued, outcome: Some(outcome) };
            },
        }
    }
    assert(issued@.drop_last() + run(current@, answers.skip(answers.len() as int)).issued
        =~= issued@);
    Record { issued, outcome: None }
}

/// Whether `replies` are answers that `host` may give to the calls of
/// `session`, one to each call, and take the session to its end.
pub open spec fn answers_of<'a, H: Fn(Command<'a>) -> Reply>(
    host: &H,
    session: SessionView<'a>,
    replies: Seq<Reply>,
) -> bool {
    &&& run(session, replies).outcome is Some
    &&& run(session, replies).issued.len() == replies.len()
    &&& forall|place: int|
        0 <= place < replies.len() ==> call_ensures(
            *host,
            (run(session, replies).issued[place],),
            #[trigger] replies[place],
        )
}

/// How many answers a session can still take, at most.
pub open spec fn patience(session: SessionView) -> int {
    2 * (session.script.len() - session.cursor) - if session.diagnosing {
        1int
    } else {
        0int
    }
}

/// Holds the whole conversation: has `host` perform the call at hand, takes
/// its answer, and so on until the session is over. The outcome is that of
/// the run on the answers that the host gave.
pub fn drive<'a, H: Fn(Command<'a>) -> Reply>(session: Session<'a>, host: &H) -> (outcome: Result<
    (),
    Error,
>)
    requires
        forall|command: Command<'a>| call_requires(*host, (command,)),
    ensures
        exists|replies: Seq<Reply>|
            #[trigger] answers_of(host, session@, replies) && run(session@, replies).outcome
                == Some(outcome_view(outcome)),
    decreases patience(session@),
{
    let ghost start = session@;
    let command = session.command();
    let reply = host(command);
    let ghost given = reply;
    match session.advance(reply) {
        Progress::Continue(next) => {
            let outcome = drive(next, host);
            proof {
                let rest = choose|rest: Seq<Reply>|
                    #[trigger] answers_of(host, next@, rest) && run(next@, rest).outcome == Some(
                        outcome_view(outcome),
                    );
                let replies = seq![given] + rest;
                assert(replies[0] == given && replies.drop_first() =~= rest);
                assert(run(start, replies).issued =~= seq![command] + run(next@, rest).issued);
                assert forall|place: int| 0 <= place < replies.len() implies call_ensures(
                    *host,
                    (run(start, replies).issued[place],),
                    #[trigger] replies[place],
                ) by {
                    if place > 0 {
                        assert(replies[place] == rest[place - 1]);
                    }
                }
                assert(answers_of(host, start, replies));
            }
            outcome
        },
        Progress::Finished(outcome) => {
            proof {
                let replies = seq![given];
                assert(run(start, replies).issued =~= seq![command]);
                assert(answers_of(host, start, replies));
            }
            outcome
        },
    }
}

/// Whether each of the first `count` answers lets the session move past the
/// script command it answers, counted from the command at hand.
pub open spec fn accepted_through(session: SessionView, replies: Seq<Reply>, count: int) -> bool {
    forall|j: int|
        0 <= j < count ==> accepted(session.script[session.cursor + j], #[trigger] replies[j])
}

/// The session one script command further on.
spec fn step<'a>(session: SessionView<'a>) -> SessionView<'a> {
    SessionView { cursor: session.cursor + 1, ..session }
}

/// What is accepted from a command on is accepted from the next command on,
/// by the answers after the first.
proof fn lemma_accepted_through_step(session: SessionView, replies: Seq<Reply>, count: int)
    requires
        1 <= count <= replies.len(),
        accepted_through(session, replies, count),
    ensures
        accepted_through(step(session), replies.drop_first(), count - 1),
{
    let rest = replies.drop_first();
    assert forall|j: int| 0 <= j < count - 1 implies accepted(
        step(session).script[step(session).cursor + j],
        #[trigger] rest[j],
    ) by {
        assert(accepted(session.script[session.cursor + (j + 1)], replies[j + 1]));
        assert(rest[j] == replies[j + 1]);
    }
}

/// What is accepted by the first answer, and from the next command on by
/// the answers after it, is accepted from the command at hand on.
proof fn lemma_accepted_through_unstep(session: SessionView, replies: Seq<Reply>, count: int)
    requires
        0 <= count < replies.len(),
        accepted(session.script[session.cursor], replies[0]),
        accepted_through(step(session), replies.drop_first(), count),
    ensures
        accepted_through(session, replies, count + 1),
{
    let rest = replies.drop_first();
    assert forall|j: int| 0 <= j < count + 1 implies accepted(
        session.script[session.cursor + j],
        #[trigger] replies[j],
    ) by {
        if j > 0 {
            assert(accepted(step(session).script[step(session).cursor + (j - 1)], rest[j - 1]));
            assert(rest[j - 1] == replies[j]);
        }
    }
}

/// A session whose answers are all accepted, but run out before the script
/// does, has issued the script up to the first unanswered command and is
/// not over.
pub proof fn lemma_run_in_progress(session: SessionView, replies: Seq<Reply>)
    requires
        session.wf(),
        !session.diagnosing,
        session.cursor + replies.len() < session.script.len(),
        accepted_through(session, replies, replies.len() as int),
    ensures
        run(session, replies).issued == session.script.subrange(
            session.cursor,
            session.cursor + replies.len() + 1,
        ),
        run(session, replies).outcome is None,
    decreases replies.len(),
{
    let here = session.cursor;
    if replies.len() == 0 {
        assert(run(session, replies).issued =~= session.script.subrange(here, here + 1));
    } else {
        assert(accepted(session.script[here + 0], replies[0]));
        lemma_accepted_through_step(session, replies, replies.len() as int);
        lemma_run_in_progress(step(session), replies.drop_first());
        assert(run(session, replies).issued =~= session.script.subrange(
            here,
            here + replies.len() + 1,
        ));
    }
}

/// A session whose answers are accepted down to the end of the script has
/// issued the whole rest of the script, nothing else, and has succeeded.
pub proof fn lemma_run_completes(session: SessionView, replies: Seq<Reply>)
    requires
        session.wf(),
        !session.diagnosing,
        session.cursor + replies.len() >= session.script.len(),
        accepted_through(session, replies, session.script.len() - session.cursor),
    ensures
        run(session, replies).issued == session.script.skip(session.cursor),
        run(session, replies).outcome == Some(Ok::<(), ErrorView>(())),
    decreases replies.len(),
{
    let here = session.cursor;
    assert(accepted(session.script[here + 0], replies[0]));
    if here + 1 < session.script.len() {
        lemma_accepted_through_step(session, replies, session.script.len() - here);
        lemma_run_completes(step(session), replies.drop_first());
        assert(run(session, replies).issued =~= session.script.skip(here));
    } else {
        assert(run(session, replies).issued =~= session.script.skip(here));
    }
}

/// A session stops at the first answer that is not accepted, say the one to
/// the script command `count` places after the command at hand. Up to that
/// command it has issued the script. If the command asked for an object,
/// the session is over with that command's error and nothing more was
/// issued. If it queried a status, exactly one more call was issued, the
/// one that reads the log, and its answer makes the error.
pub proof fn lemma_run_stops(session: SessionView, replies: Seq<Reply>, count: int)
    requires
        session.wf(),
        !session.diagnosing,
        0 <= count < replies.len(),
        session.cursor + count < session.script.len(),
        accepted_through(session, replies, count),
        !accepted(session.script[session.cursor + count], replies[count]),
    ensures
        ({
            let rejected = session.script[session.cursor + count];
            let walked = session.script.subrange(session.cursor, session.cursor + count + 1);
            let seen = run(session, replies);
            if failure(rejected) is Some {
                &&& seen.issued == walked
                &&& seen.outcome == Some(Err::<(), ErrorView>(failure(rejected)->0))
            } else {
                &&& diagnostic(rejected) is Some
                &&& seen.issued == walked.push(diagnostic(rejected)->0)
                &&& seen.outcome == if count + 1 < replies.len() {
                    Some(Err::<(), ErrorView>(diagnosis(rejected, replies[count + 1])->0))
                } else {
                    None
                }
            }
        }),
    decreases count,
{
    let here = session.cursor;
    let rejected = session.script[here + count];
    let walked = session.script.subrange(here, here + count + 1);
    if count == 0 {
        if failure(rejected) is Some {
            assert(run(session, replies).issued =~= walked);
        } else {
            let reading = SessionView { diagnosing: true, ..session };
            let rest = replies.drop_first();
            assert(session.next(replies[0]) == ProgressView::Continue(reading));
            if rest.len() > 0 {
                assert(rest[0] == replies[1]);
            }
            assert(run(reading, rest).issued =~= seq![diagnostic(rejected)->0]);
            assert(run(session, replies).issued =~= walked.push(diagnostic(rejected)->0));
        }
    } else {
        assert(accepted(session.script[here + 0], replies[0]));
        lemma_accepted_through_step(session, replies, count);
        let rest = replies.drop_first();
        assert(rest[count - 1] == replies[count]);
        if count < rest.len() {
            assert(rest[count] == replies[count + 1]);
        }
        lemma_run_stops(step(session), rest, count - 1);
        let later = step(session).script.subrange(here + 1, here + count + 1);
        assert(seq![session.script[here]] + later =~= walked);
        if failure(rejected) is None {
            assert(seq![session.script[here]] + later.push(diagnostic(rejected)->0)
                =~= walked.push(diagnostic(rejected)->0));
        }
    }
}

/// Every call a session issues is in its place: it is the script command
/// of that place, and every answer before it was accepted; or it is the
/// last call issued, the one that reads the log, and it follows a status
/// query whose answer was the first not to be accepted.
pub proof fn lemma_issued_in_order(session: SessionView, replies: Seq<Reply>, place: int)
    requires
        session.wf(),
        !session.diagnosing,
        0 <= place < run(session, replies).issued.len(),
    ensures
        place <= replies.len(),
        ({
            let seen = run(session, replies).issued;
            ||| {
                &&& session.cursor + place < session.script.len()
                &&& seen[place] == session.script[session.cursor + place]
                &&& accepted_through(session, replies, place)
            }
            ||| {
                &&& place >= 1
                &&& place + 1 == seen.len()
                &&& session.cursor + place - 1 < session.script.len()
                &&& diagnostic(session.script[session.cursor + place - 1]) == Some(seen[place])
                &&& accepted_through(session, replies, place - 1)
                &&& !accepted(session.script[session.cursor + place - 1], replies[place - 1])
            }
        }),
    decreases replies.len(),
{
    let here = session.cursor;
    if place > 0 {
        let rest = replies.drop_first();
        if accepted(session.script[here], replies[0]) {
            lemma_issued_in_order(step(session), rest, place - 1);
            let seen = run(step(session), rest).issued;
            if seen[place - 1] == session.script[here + place] && accepted_through(
                step(session),
                rest,
                place - 1,
            ) {
                lemma_accepted_through_unstep(session, replies, place - 1);
            } else {
                assert(rest[place - 2] == replies[place - 1]);
                lemma_accepted_through_unstep(session, replies, place - 2);
            }
        } else {
            let reading = SessionView { diagnosing: true, ..session };
            assert(session.next(replies[0]) == ProgressView::Continue(reading));
            assert(run(reading, rest).issued =~= seq![diagnostic(session.script[here])->0]);
        }
    }
}

/// A session that has succeeded has issued the whole rest of its script,
/// nothing else, and every answer down to the end of the script was
/// accepted.
pub proof fn lemma_success_takes_whole_script(session: SessionView, replies: Seq<Reply>)
    requires
        session.wf(),
        !session.diagnosing,
        run(session, replies).outcome == Some(Ok::<(), ErrorView>(())),
    ensures
        replies.len() >= session.script.len() - session.cursor,
        accepted_through(session, replies, session.script.len() - session.cursor),
        run(session, replies).issued == session.script.skip(session.cursor),
    decreases replies.len(),
{
    let here = session.cursor;
    let rest = replies.drop_first();
    if replies.len() == 0 {
    } else if accepted(session.script[here], replies[0]) {
        if here + 1 < session.script.len() {
            lemma_success_takes_whole_script(step(session), rest);
            lemma_accepted_through_unstep(session, replies, session.script.len() - here - 1);
        } else {
            assert(accepted_through(session, replies, 1)) by {
                assert(accepted(session.script[here + 0], replies[0]));
            }
        }
        assert(run(session, replies).issued =~= session.script.skip(here));
    } else if failure(session.script[here]) is None {
        let reading = SessionView { diagnosing: true, ..session };
        assert(session.next(replies[0]) == ProgressView::Continue(reading));
        assert(run(reading, rest).outcome != Some(Ok::<(), ErrorView>(())));
    }
}

/// No session goes on for ever: once the host has given one answer more
/// than the script has commands left, the session is over.
pub proof fn lemma_run_ends(session: SessionView, replies: Seq<Reply>)
    requires
        session.wf(),
        !session.diagnosing,
        replies.len() > session.script.len() - session.cursor,
    ensures
        run(session, replies).outcome is Some,
    decreases replies.len(),
{
    let here = session.cursor;
    let rest = replies.drop_first();
    if accepted(session.script[here], replies[0]) {
        if here + 1 < session.script.len() {
            lemma_run_ends(step(session), rest);
        }
    } else if failure(session.script[here]) is None {
        let reading = SessionView { diagnosing: true, ..session };
        assert(session.next(replies[0]) == ProgressView::Continue(reading));
        assert(run(reading, rest).outcome is Some);
    }
}

} // verus!
