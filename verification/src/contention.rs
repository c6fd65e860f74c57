//! Many callers around one store.
//!
//! A model of any number of callers running the refresh protocol against the
//! same store, one move at a time, and the guarantees that hold of every
//! interleaving: a valid token is served without the issuer, a stale one is
//! refreshed by exactly one caller, and whoever comes after the refresh is
//! served what it stored.
//!
//! A look under the shared lock is one move: nothing changes the store while
//! a reader holds the lock, so taking the lock, looking and letting go can be
//! placed at a single point in time. A caller that has to ask the issuer
//! keeps the exclusive lock across two moves, and no other caller can look at
//! the store in between.

use crate::admin_token::{
    exclusive_decision, kept_after_reply, outcome_after_reply, shared_decision,
    ExclusiveStepView, SharedStepView,
};
use crate::reconciler::Error;
use crate::time::Timestamp;
use crate::token::{bearer_header, kept_form, valid_at, TokenView};
use vstd::prelude::*;

verus! {

/// Where one caller stands in the protocol.
pub enum Phase {
    /// Has not looked at the store yet.
    Start,
    /// Found the token stale under the shared lock and waits for the
    /// exclusive lock.
    AwaitingExclusive,
    /// Holds the exclusive lock and waits for the issuer.
    AwaitingIssuer,
    /// Has returned with this outcome.
    Done(Result<Seq<char>, Error>),
}

/// The callers, the store they share, who holds the exclusive lock, and how
/// often the issuer has been asked.
pub struct System {
    pub username: Seq<char>,
    pub password: Seq<char>,
    pub kept: Option<TokenView>,
    pub phases: Seq<Phase>,
    pub holder: Option<int>,
    pub issuer_calls: nat,
}

/// One move of one caller.
pub enum Move {
    /// The caller takes the shared lock, reads `now` off the clock, decides
    /// and lets the lock go.
    LookShared { caller: int, now: Timestamp },
    /// The caller takes the exclusive lock, reads `now` off the clock and
    /// decides; it lets the lock go unless it has to ask the issuer.
    LookExclusive { caller: int, now: Timestamp },
    /// The issuer answers the caller that holds the exclusive lock, which
    /// takes the reply and lets the lock go.
    Reply { caller: int, reply: Result<TokenView, Error> },
}

/// `callers` callers that have not started, around a store holding `kept`.
pub open spec fn initial(
    username: Seq<char>,
    password: Seq<char>,
    kept: Option<TokenView>,
    callers: nat,
) -> System {
    System {
        username,
        password,
        kept,
        phases: Seq::new(callers, |c: int| Phase::Start),
        holder: None,
        issuer_calls: 0,
    }
}

/// Whether the locks and the caller's own progress allow the move.
pub open spec fn enabled(sys: System, mv: Move) -> bool {
    match mv {
        Move::LookShared { caller, .. } => {
            &&& 0 <= caller < sys.phases.len()
            &&& sys.phases[caller] is Start
            &&& sys.holder is None
        },
        Move::LookExclusive { caller, .. } => {
            &&& 0 <= caller < sys.phases.len()
            &&& sys.phases[caller] is AwaitingExclusive
            &&& sys.holder is None
        },
        Move::Reply { caller, .. } => {
            &&& 0 <= caller < sys.phases.len()
            &&& sys.phases[caller] is AwaitingIssuer
            &&& sys.holder == Some(caller)
        },
    }
}

/// The system after a move. A move that is not enabled changes nothing.
pub open spec fn apply(sys: System, mv: Move) -> System {
    if !enabled(sys, mv) {
        sys
    } else {
        match mv {
            Move::LookShared { caller, now } => match shared_decision(sys.kept, now) {
                SharedStepView::Serve(header) => System {
                    phases: sys.phases.update(caller, Phase::Done(Ok(header))),
                    ..sys
                },
                SharedStepView::AcquireExclusive => System {
                    phases: sys.phases.update(caller, Phase::AwaitingExclusive),
                    ..sys
                },
            },
            Move::LookExclusive { caller, now } => match exclusive_decision(
                sys.kept,
                now,
                sys.username,
                sys.password,
            ) {
                ExclusiveStepView::Serve(header) => System {
                    phases: sys.phases.update(caller, Phase::Done(Ok(header))),
                    ..sys
                },
                ExclusiveStepView::Issue { .. } => System {
                    phases: sys.phases.update(caller, Phase::AwaitingIssuer),
                    holder: Some(caller),
                    issuer_calls: sys.issuer_calls + 1,
                    ..sys
                },
            },
            Move::Reply { caller, reply } => System {
                kept: kept_after_reply(sys.kept, reply),
                phases: sys.phases.update(caller, Phase::Done(outcome_after_reply(reply))),
                holder: None,
                ..sys
            },
        }
    }
}

/// The system after a sequence of moves.
pub open spec fn run(sys: System, moves: Seq<Move>) -> System
    decreases moves.len(),
{
    if moves.len() == 0 {
        sys
    } else {
        apply(run(sys, moves.drop_last()), moves.last())
    }
}

/// The clock reading a move is made with, if it looks at the store.
pub open spec fn reading(mv: Move) -> Option<Timestamp> {
    match mv {
        Move::LookShared { now, .. } => Some(now),
        Move::LookExclusive { now, .. } => Some(now),
        Move::Reply { .. } => None,
    }
}

/// Whether a caller has yet to be served: it has not started or waits for
/// the exclusive lock.
pub open spec fn waiting(phase: Phase) -> bool {
    phase is Start || phase is AwaitingExclusive
}

/// At most one caller waits for the issuer, and it is the one that holds the
/// exclusive lock.
pub open spec fn one_refresh_in_flight(sys: System) -> bool {
    &&& sys.holder matches Some(h) ==> 0 <= h < sys.phases.len()
    &&& forall|c: int|
        0 <= c < sys.phases.len() ==> ((#[trigger] sys.phases[c]) is AwaitingIssuer <==> sys.holder
            == Some(c))
}

/// At most one refresh is in flight at any time: whatever the moves and
/// whatever the issuer replies, the only caller that can be waiting for the
/// issuer is the holder of the exclusive lock.
pub proof fn lemma_one_refresh_in_flight(
    username: Seq<char>,
    password: Seq<char>,
    kept: Option<TokenView>,
    callers: nat,
    moves: Seq<Move>,
)
    ensures
        one_refresh_in_flight(run(initial(username, password, kept, callers), moves)),
    decreases moves.len(),
{
    let start = initial(username, password, kept, callers);
    if moves.len() > 0 {
        lemma_one_refresh_in_flight(username, password, kept, callers, moves.drop_last());
        let before = run(start, moves.drop_last());
        let after = apply(before, moves.last());
        assert(one_refresh_in_flight(after));
    }
}

/// A valid token is served without the issuer: a caller that looks under the
/// shared lock while the kept token is valid returns its header at once, and
/// neither the store nor the number of issuer calls changes.
pub proof fn lemma_valid_token_is_served(sys: System, caller: int, now: Timestamp)
    requires
        enabled(sys, Move::LookShared { caller, now }),
        valid_at(sys.kept, now),
    ensures
        ({
            let after = apply(sys, Move::LookShared { caller, now });
            &&& after.phases[caller] == Phase::Done(
                Ok(bearer_header(sys.kept.unwrap().access_token)),
            )
            &&& after.kept == sys.kept
            &&& after.issuer_calls == sys.issuer_calls
        }),
{
}

/// A stale token costs exactly one issuer call: a lone caller that finds the
/// token stale under both locks asks the issuer once, and returns what the
/// reply amounts to.
pub proof fn lemma_stale_token_is_refreshed(
    username: Seq<char>,
    password: Seq<char>,
    kept: Option<TokenView>,
    first_look: Timestamp,
    second_look: Timestamp,
    reply: Result<TokenView, Error>,
)
    requires
        !valid_at(kept, first_look),
        !valid_at(kept, second_look),
    ensures
        ({
            let moves = seq![
                Move::LookShared { caller: 0, now: first_look },
                Move::LookExclusive { caller: 0, now: second_look },
                Move::Reply { caller: 0, reply },
            ];
            let asked = run(initial(username, password, kept, 1), moves.drop_last());
            let end = run(initial(username, password, kept, 1), moves);
            &&& asked.phases[0] is AwaitingIssuer
            &&& asked.issuer_calls == 1
            &&& end.issuer_calls == 1
            &&& end.phases[0] == Phase::Done(outcome_after_reply(reply))
            &&& end.kept == kept_after_reply(kept, reply)
        }),
{
    let start = initial(username, password, kept, 1);
    let m0 = Move::LookShared { caller: 0, now: first_look };
    let m1 = Move::LookExclusive { caller: 0, now: second_look };
    let m2 = Move::Reply { caller: 0, reply };
    let moves = seq![m0, m1, m2];
    assert(moves.drop_last() == seq![m0, m1]);
    assert(seq![m0, m1].drop_last() == seq![m0]);
    assert(seq![m0].drop_last() == Seq::<Move>::empty());
    assert(run(start, Seq::<Move>::empty()) == start);
    let s1 = apply(start, m0);
    assert(run(start, seq![m0]) == s1);
    let s2 = apply(s1, m1);
    assert(run(start, seq![m0, m1]) == s2);
    let s3 = apply(s2, m2);
    assert(run(start, moves) == s3);
}

/// The caller that loses the race for the exclusive lock sees what the
/// winner stored: once the winner has taken the issuer's token, a caller
/// that was waiting for the exclusive lock is served that token's header and
/// the issuer is not asked again.
pub proof fn lemma_loser_is_served_the_winners_token(
    sys: System,
    winner: int,
    loser: int,
    issued: TokenView,
    now: Timestamp,
)
    requires
        enabled(sys, Move::Reply { caller: winner, reply: Ok(issued) }),
        0 <= loser < sys.phases.len(),
        sys.phases[loser] is AwaitingExclusive,
        valid_at(Some(kept_form(issued)), now),
    ensures
        ({
            let refreshed = apply(sys, Move::Reply { caller: winner, reply: Ok(issued) });
            let after = apply(refreshed, Move::LookExclusive { caller: loser, now });
            &&& after.phases[loser] == Phase::Done(Ok(bearer_header(issued.access_token)))
            &&& after.phases[winner] == Phase::Done(Ok(bearer_header(issued.access_token)))
            &&& after.kept == Some(kept_form(issued))
            &&& after.issuer_calls == sys.issuer_calls
        }),
{
}

/// What holds of every state reached from a stale store when the issuer
/// answers with `issued` and that token stays valid throughout.
spec fn refreshed_at_most_once(start: System, issued: TokenView, sys: System) -> bool {
    let served = Phase::Done(Ok(bearer_header(issued.access_token)));
    &&& sys.phases.len() == start.phases.len()
    &&& sys.username == start.username
    &&& sys.password == start.password
    &&& {
        ||| {
            &&& sys.issuer_calls == 0
            &&& sys.holder is None
            &&& sys.kept == start.kept
            &&& forall|c: int| 0 <= c < sys.phases.len() ==> waiting(#[trigger] sys.phases[c])
        }
        ||| {
            &&& sys.issuer_calls == 1
            &&& sys.holder matches Some(h)
            &&& 0 <= h < sys.phases.len()
            &&& sys.phases[h] is AwaitingIssuer
            &&& sys.kept == start.kept
            &&& forall|c: int|
                0 <= c < sys.phases.len() && c != h ==> waiting(#[trigger] sys.phases[c])
        }
        ||| {
            &&& sys.issuer_calls == 1
            &&& sys.holder is None
            &&& sys.kept == Some(kept_form(issued))
            &&& forall|c: int|
                0 <= c < sys.phases.len() ==> waiting(#[trigger] sys.phases[c]) || sys.phases[c]
                    == served
        }
    }
}

/// The moves of a burst of callers against a stale store: every look finds
/// the token that was kept at the start stale and the token the issuer hands
/// out valid, and the issuer answers with `issued`.
pub open spec fn burst(kept: Option<TokenView>, issued: TokenView, moves: Seq<Move>) -> bool {
    forall|i: int|
        0 <= i < moves.len() ==> match #[trigger] moves[i] {
            Move::LookShared { now, .. } => !valid_at(kept, now) && valid_at(
                Some(kept_form(issued)),
                now,
            ),
            Move::LookExclusive { now, .. } => !valid_at(kept, now) && valid_at(
                Some(kept_form(issued)),
                now,
            ),
            Move::Reply { reply, .. } => reply == Ok::<TokenView, Error>(issued),
        }
}

proof fn lemma_burst_step(start: System, issued: TokenView, sys: System, mv: Move)
    requires
        refreshed_at_most_once(start, issued, sys),
        match mv {
            Move::LookShared { now, .. } => !valid_at(start.kept, now) && valid_at(
                Some(kept_form(issued)),
                now,
            ),
            Move::LookExclusive { now, .. } => !valid_at(start.kept, now) && valid_at(
                Some(kept_form(issued)),
                now,
            ),
            Move::Reply { reply, .. } => reply == Ok::<TokenView, Error>(issued),
        },
    ensures
        refreshed_at_most_once(start, issued, apply(sys, mv)),
{
    let after = apply(sys, mv);
    if enabled(sys, mv) {
        match mv {
            Move::LookShared { caller, now } => {
                assert(forall|c: int|
                    0 <= c < sys.phases.len() && c != caller ==> after.phases[c]
                        == sys.phases[c]);
            },
            Move::LookExclusive { caller, now } => {
                assert(forall|c: int|
                    0 <= c < sys.phases.len() && c != caller ==> after.phases[c]
                        == sys.phases[c]);
            },
            Move::Reply { caller, reply } => {
                assert(forall|c: int|
                    0 <= c < sys.phases.len() && c != caller ==> after.phases[c]
                        == sys.phases[c]);
            },
        }
    }
}

proof fn lemma_burst_run(
    username: Seq<char>,
    password: Seq<char>,
    kept: Option<TokenView>,
    callers: nat,
    issued: TokenView,
    moves: Seq<Move>,
)
    requires
        burst(kept, issued, moves),
    ensures
        refreshed_at_most_once(
            initial(username, password, kept, callers),
            issued,
            run(initial(username, password, kept, callers), moves),
        ),
    decreases moves.len(),
{
    let start = initial(username, password, kept, callers);
    if moves.len() > 0 {
        let earlier = moves.drop_last();
        assert(forall|i: int| 0 <= i < earlier.len() ==> earlier[i] == moves[i]);
        lemma_burst_run(username, password, kept, callers, issued, earlier);
        assert(moves.last() == moves[moves.len() - 1]);
        lemma_burst_step(start, issued, run(start, earlier), moves.last());
    }
}

/// No stampede: however many callers find the token stale and however their
/// moves interleave, the issuer is asked at most once, and every caller that
/// has returned was served the header of the one token it issued.
pub proof fn lemma_burst_refreshes_once(
    username: Seq<char>,
    password: Seq<char>,
    kept: Option<TokenView>,
    callers: nat,
    issued: TokenView,
    moves: Seq<Move>,
)
    requires
        burst(kept, issued, moves),
    ensures
        ({
            let end = run(initial(username, password, kept, callers), moves);
            &&& end.phases.len() == callers
            &&& end.issuer_calls <= 1
            &&& forall|c: int|
                0 <= c < callers && (#[trigger] end.phases[c]) is Done ==> {
                    &&& end.issuer_calls == 1
                    &&& end.phases[c] == Phase::Done(Ok(bearer_header(issued.access_token)))
                }
        }),
{
    lemma_burst_run(username, password, kept, callers, issued, moves);
}

} // verus!
