use vstd::prelude::*;

verus! {

/// What one attempt to accept a connection produced.
#[derive(Clone, Copy, Debug, PartialEq, Eq, Structural)]
pub enum AcceptOutcome {
    /// A connection was accepted.
    Accepted,
    /// This attempt failed; the endpoint keeps accepting.
    Failed,
}

/// What the listener does with an accept outcome.
#[derive(Clone, Copy, Debug, PartialEq, Eq, Structural)]
pub enum ListenerAction {
    /// Hand the new connection to a handler of its own under this identity.
    Dispatch(u64),
    /// Log the failed attempt and keep accepting.
    LogFailure,
    /// Every identity has been issued: the connection cannot be numbered.
    Exhausted,
}

/// The count of identities issued after one more outcome.
pub open spec fn accept_next(issued: nat, o: AcceptOutcome) -> nat {
    match o {
        AcceptOutcome::Accepted => if issued < u64::MAX {
            issued + 1
        } else {
            issued
        },
        AcceptOutcome::Failed => issued,
    }
}

/// The action taken on an outcome when `issued` identities were handed out before.
pub open spec fn accept_action(issued: nat, o: AcceptOutcome) -> ListenerAction {
    match o {
        AcceptOutcome::Accepted => if issued < u64::MAX {
            ListenerAction::Dispatch((issued + 1) as u64)
        } else {
            ListenerAction::Exhausted
        },
        AcceptOutcome::Failed => ListenerAction::LogFailure,
    }
}

/// The count of identities issued after a run of outcomes, from `issued`.
pub open spec fn issued_after(issued: nat, outcomes: Seq<AcceptOutcome>) -> nat
    decreases outcomes.len(),
{
    if outcomes.len() == 0 {
        issued
    } else {
        accept_next(issued_after(issued, outcomes.drop_last()), outcomes.last())
    }
}

/// The actions taken over a run of outcomes, from `issued`, one per outcome.
pub open spec fn actions_of(issued: nat, outcomes: Seq<AcceptOutcome>) -> Seq<ListenerAction>
    decreases outcomes.len(),
{
    if outcomes.len() == 0 {
        Seq::empty()
    } else {
        actions_of(issued, outcomes.drop_last()).push(
            accept_action(issued_after(issued, outcomes.drop_last()), outcomes.last()),
        )
    }
}

/// The identities handed to handlers, in order, among a run of actions.
pub open spec fn dispatched(actions: Seq<ListenerAction>) -> Seq<nat>
    decreases actions.len(),
{
    if actions.len() == 0 {
        Seq::empty()
    } else {
        let earlier = dispatched(actions.drop_last());
        match actions.last() {
            ListenerAction::Dispatch(id) => earlier.push(id as nat),
            _ => earlier,
        }
    }
}

/// How many outcomes of a run are accepted connections.
pub open spec fn accepted_count(outcomes: Seq<AcceptOutcome>) -> nat
    decreases outcomes.len(),
{
    if outcomes.len() == 0 {
        0
    } else {
        accepted_count(outcomes.drop_last()) + if outcomes.last() == AcceptOutcome::Accepted {
            1nat
        } else {
            0nat
        }
    }
}

/// Numbers accepted connections in acceptance order, starting at 1.
pub struct Listener {
    issued: u64,
}

impl View for Listener {
    type V = nat;

    /// How many identities have been issued; the last one issued is this number.
    closed spec fn view(&self) -> nat {
        self.issued as nat
    }
}

impl Listener {
    /// A listener that has issued no identity yet.
    pub fn new() -> (r: Listener)
        ensures
            r@ == 0,
    {
        Listener { issued: 0 }
    }

    /// How many identities have been issued so far.
    pub fn issued(&self) -> (r: u64)
        ensures
            r as nat == self@,
    {
        self.issued
    }

    /// Decides what to do with one accept outcome: an accepted connection gets
    /// the next identity, a failed attempt is only logged.
    pub fn on_accept(&mut self, outcome: AcceptOutcome) -> (a: ListenerAction)
        ensures
            final(self)@ == accept_next(old(self)@, outcome),
            a == accept_action(old(self)@, outcome),
            outcome == AcceptOutcome::Accepted && old(self)@ < u64::MAX ==> a
                == ListenerAction::Dispatch((old(self)@ + 1) as u64) && final(self)@ == old(
                self,
            )@ + 1,
            outcome == AcceptOutcome::Failed ==> a == ListenerAction::LogFailure && final(self)@
                == old(self)@,
    {
        match outcome {
            AcceptOutcome::Accepted => {
                if self.issued < u64::MAX {
                    self.issued = self.issued + 1;
                    ListenerAction::Dispatch(self.issued)
                } else {
                    ListenerAction::Exhausted
                }
            },
            AcceptOutcome::Failed => ListenerAction::LogFailure,
        }
    }
}

/// Over any run of accept outcomes in one server run, the identities handed to
/// handlers are exactly 1, 2, ..., N in acceptance order, where N is the number
/// of accepted connections: each one once, none skipped, none repeated.
pub proof fn lemma_identities_in_acceptance_order(outcomes: Seq<AcceptOutcome>)
    requires
        accepted_count(outcomes) <= u64::MAX,
    ensures
        issued_after(0, outcomes) == accepted_count(outcomes),
        dispatched(actions_of(0, outcomes)) == Seq::new(
            accepted_count(outcomes),
            |i: int| (i + 1) as nat,
        ),
        !actions_of(0, outcomes).contains(ListenerAction::Exhausted),
    decreases outcomes.len(),
{
    if outcomes.len() > 0 {
        let prefix = outcomes.drop_last();
        assert(accepted_count(prefix) <= accepted_count(outcomes));
        lemma_identities_in_acceptance_order(prefix);
        let acts = actions_of(0, outcomes);
        let last = accept_action(issued_after(0, prefix), outcomes.last());
        assert(acts.drop_last() =~= actions_of(0, prefix));
        assert(acts.last() == last);
        assert(dispatched(acts) =~= Seq::new(accepted_count(outcomes), |i: int| (i + 1) as nat));
        assert forall|k: int| 0 <= k < acts.len() implies acts[k] != ListenerAction::Exhausted by {
            if k < acts.len() - 1 {
                assert(acts[k] == actions_of(0, prefix)[k]);
            }
        }
    }
}

} // verus!
