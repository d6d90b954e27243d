//! How the operations of the database run.

use vstd::prelude::*;

use crate::request::{Action, Reply, Request};

verus! {

/// An operation of the database, at a point where it waits for a reply.
pub trait Operation<T>: Sized {
    /// What holds of the operation wherever it waits.
    spec fn ready(&self) -> bool;

    /// How the operation goes on after a reply. None if the reply does not answer the request
    /// that was made, or is one that only a corrupt database can give.
    spec fn next(self, reply: Reply) -> Option<(Self, Action<T>)>;

    /// How many more replies the operation can take.
    spec fn rank(&self) -> nat;

    /// Every reply leaves the operation ready for the next, and brings it closer to its end.
    proof fn lemma_goes_on(self, reply: Reply)
        requires
            self.ready(),
        ensures
            self.next(reply) matches Some((operation, _)) ==> operation.ready() && operation.rank()
                < self.rank(),
    ;

    /// Takes the reply to the last request, and tells what to do next.
    fn step(self, reply: Reply) -> (outcome: Option<(Self, Action<T>)>)
        requires
            self.ready(),
        ensures
            outcome == self.next(reply),
            outcome matches Some((operation, _)) ==> operation.ready() && operation.rank()
                < self.rank(),
    ;
}

/// A model of a storage: what it may answer, and what a request makes of it.
pub trait StorageModel: Sized {
    /// Whether the storage may give this reply to this request.
    spec fn answers(self, request: Request, reply: Reply) -> bool;

    /// The storage after it has performed the request.
    spec fn performed(self, request: Request) -> Self;
}

/// Where an operation and its storage are after some replies, if the storage may give them and
/// the operation goes on after each of them.
///
/// A run that is cut short anywhere is a run with fewer replies.
pub open spec fn run<T, M: Operation<T>, S: StorageModel>(
    storage: S,
    operation: M,
    action: Action<T>,
    replies: Seq<Reply>,
) -> Option<(S, M, Action<T>)>
    decreases replies.len(),
{
    if replies.len() == 0 {
        Some((storage, operation, action))
    } else {
        match action {
            Action::Perform(request) => if storage.answers(request, replies[0]) {
                match operation.next(replies[0]) {
                    Some((operation2, action2)) => run(
                        after(storage, request, replies[0]),
                        operation2,
                        action2,
                        replies.skip(1),
                    ),
                    None => None,
                }
            } else {
                None
            },
            Action::Finished(_) => None,
        }
    }
}

/// The storage after a reply: as it was if the request failed, and otherwise with the request
/// performed.
///
/// A request that fails after it was performed leaves what a run leaves that ends with the request
/// performed.
pub open spec fn after<S: StorageModel>(storage: S, request: Request, reply: Reply) -> S {
    if reply is Failed {
        storage
    } else {
        storage.performed(request)
    }
}

/// What holds where an operation starts, and is kept by every reply, holds wherever it gets to.
pub proof fn lemma_run_keeps<T, M: Operation<T>, S: StorageModel>(
    kept: spec_fn(S, M, Action<T>) -> bool,
    storage: S,
    operation: M,
    action: Action<T>,
    replies: Seq<Reply>,
)
    requires
        kept(storage, operation, action),
        forall|s: S, m: M, request: Request, reply: Reply|
            kept(s, m, Action::Perform(request)) && #[trigger] s.answers(request, reply) && (
            #[trigger] m.next(reply)) is Some ==> kept(
                after(s, request, reply),
                (m.next(reply)->0).0,
                (m.next(reply)->0).1,
            ),
    ensures
        run(storage, operation, action, replies) matches Some((s, m, a)) ==> kept(s, m, a),
    decreases replies.len(),
{
    if replies.len() > 0 {
        match action {
            Action::Perform(request) => {
                let reply = replies[0];
                if storage.answers(request, reply) {
                    match operation.next(reply) {
                        Some((operation2, action2)) => {
                            lemma_run_keeps(
                                kept,
                                after(storage, request, reply),
                                operation2,
                                action2,
                                replies.skip(1),
                            );
                        },
                        None => {},
                    }
                }
            },
            Action::Finished(_) => {},
        }
    }
}

/// No request fails.
pub open spec fn none_failed(replies: Seq<Reply>) -> bool {
    forall|i: int| 0 <= i < replies.len() ==> !(#[trigger] replies[i] is Failed)
}

/// What holds where an operation starts, and is kept by every reply but a failure, holds wherever
/// it gets to without one.
pub proof fn lemma_reliable_run_keeps<T, M: Operation<T>, S: StorageModel>(
    kept: spec_fn(S, M, Action<T>) -> bool,
    storage: S,
    operation: M,
    action: Action<T>,
    replies: Seq<Reply>,
)
    requires
        kept(storage, operation, action),
        none_failed(replies),
        forall|s: S, m: M, request: Request, reply: Reply|
            kept(s, m, Action::Perform(request)) && #[trigger] s.answers(request, reply) && (
            #[trigger] m.next(reply)) is Some && !(reply is Failed) ==> kept(
                s.performed(request),
                (m.next(reply)->0).0,
                (m.next(reply)->0).1,
            ),
    ensures
        run(storage, operation, action, replies) matches Some((s, m, a)) ==> kept(s, m, a),
    decreases replies.len(),
{
    if replies.len() > 0 {
        match action {
            Action::Perform(request) => {
                let reply = replies[0];
                let rest = replies.skip(1);
                assert(none_failed(rest)) by {
                    assert forall|i: int| 0 <= i < rest.len() implies !(
                    #[trigger] rest[i] is Failed) by {
                        assert(rest[i] == replies[i + 1]);
                    }
                }
                if storage.answers(request, reply) {
                    match operation.next(reply) {
                        Some((operation2, action2)) => {
                            lemma_reliable_run_keeps(
                                kept,
                                storage.performed(request),
                                operation2,
                                action2,
                                rest,
                            );
                        },
                        None => {},
                    }
                }
            },
            Action::Finished(_) => {},
        }
    }
}

/// Every operation ends: it can take only so many replies.
pub proof fn lemma_run_ends<T, M: Operation<T>, S: StorageModel>(
    storage: S,
    operation: M,
    action: Action<T>,
    replies: Seq<Reply>,
)
    requires
        operation.ready(),
    ensures
        run(storage, operation, action, replies) is Some ==> replies.len() <= operation.rank(),
    decreases replies.len(),
{
    if replies.len() > 0 {
        match action {
            Action::Perform(request) => {
                let reply = replies[0];
                operation.lemma_goes_on(reply);
                if storage.answers(request, reply) {
                    match operation.next(reply) {
                        Some((operation2, action2)) => {
                            lemma_run_ends(
                                after(storage, request, reply),
                                operation2,
                                action2,
                                replies.skip(1),
                            );
                        },
                        None => {},
                    }
                }
            },
            Action::Finished(_) => {},
        }
    }
}

} // verus!
