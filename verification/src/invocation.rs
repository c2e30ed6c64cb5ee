//! What the host tells a contract about one invocation, and what the contract
//! publishes in it.

use vstd::prelude::*;

use crate::address::Address;

verus! {

/// An event of one of the three contracts.
pub enum Event {
    Token(crate::token::Event),
    Campaign(crate::campaign::Event),
    Rewards(crate::rewards::Event),
}

/// An event, with the contract that published it.
pub struct Published {
    pub contract: Address,
    pub event: Event,
}

/// One invocation of a contract.
pub struct Invocation {
    /// The host in which the contract runs.
    pub host: soroban_sdk::Env,
    /// The contract that is invoked.
    pub contract: Address,
    /// The timestamp of the ledger, in seconds.
    pub now: u64,
    /// The accounts and contracts that authorized the invocation and what it
    /// invokes in turn.
    pub signers: Vec<Address>,
    /// What was published so far.
    pub events: Vec<Published>,
}

/// What a contract can learn of its invocation.
pub ghost struct Context {
    pub contract: Address,
    pub now: u64,
    pub signers: Set<Address>,
}

impl Context {
    /// Whether `who` authorized the invocation.
    pub open spec fn authorizes(self, who: Address) -> bool {
        self.signers.contains(who)
    }

    /// What `callee` can learn when the invoked contract invokes it: the
    /// invoked contract vouches for itself.
    pub open spec fn calling(self, callee: Address) -> Context {
        Context { contract: callee, now: self.now, signers: self.signers.insert(self.contract) }
    }
}

impl Invocation {
    /// What a contract can learn of this invocation.
    pub open spec fn context(self) -> Context {
        Context { contract: self.contract, now: self.now, signers: self.signers@.to_set() }
    }

    /// The same invocation as `other`, up to what was published.
    pub open spec fn continues(self, other: Invocation) -> bool {
        &&& self.host == other.host
        &&& self.contract == other.contract
        &&& self.now == other.now
        &&& self.signers@ == other.signers@
    }

    /// What was published once `event`, if it is one, has been published too.
    pub open spec fn events_with(self, event: Option<Event>) -> Seq<Published> {
        match event {
            Some(event) => self.events@.push(Published { contract: self.contract, event }),
            None => self.events@,
        }
    }

    /// An invocation in which nothing was published yet.
    pub fn new(
        host: soroban_sdk::Env,
        contract: Address,
        now: u64,
        signers: Vec<Address>,
    ) -> (invocation: Self)
        ensures
            invocation.host == host,
            invocation.contract == contract,
            invocation.now == now,
            invocation.signers == signers,
            invocation.events@ == Seq::<Published>::empty(),
    {
        Invocation { host, contract, now, signers, events: Vec::new() }
    }

    /// Whether `who` authorized the invocation.
    pub fn is_authorized(&self, who: Address) -> (r: bool)
        ensures
            r == self.context().authorizes(who),
    {
        let mut i: usize = 0;
        while i < self.signers.len()
            invariant
                i <= self.signers.len(),
                forall|j: int| 0 <= j < i ==> self.signers@[j] != who,
            decreases self.signers.len() - i,
        {
            if self.signers[i] == who {
                assert(self.signers@.contains(who));
                return true;
            }
            i += 1;
        }
        assert(!self.signers@.contains(who));
        false
    }

    /// Publishes `event` on behalf of the invoked contract.
    pub fn publish(&mut self, event: Event)
        ensures
            final(self).continues(*old(self)),
            final(self).events@ == old(self).events_with(Some(event)),
    {
        let published = Published { contract: self.contract, event };
        self.events.push(published);
    }

    /// Goes on as the invocation of `callee` by the invoked contract, whose
    /// address is returned.
    pub(crate) fn enter(&mut self, callee: Address) -> (caller: Address)
        ensures
            caller == old(self).contract,
            final(self).host == old(self).host,
            final(self).contract == callee,
            final(self).now == old(self).now,
            final(self).signers@ == old(self).signers@.push(caller),
            final(self).events@ == old(self).events@,
            final(self).context() == old(self).context().calling(callee),
    {
        let caller = self.contract;
        self.signers.push(caller);
        self.contract = callee;
        proof {
            lemma_one_more_signer(old(self).signers@, caller);
        }
        caller
    }

    /// Goes on as the invocation of `caller`, once what it invoked has ended.
    pub(crate) fn leave(&mut self, caller: Address)
        ensures
            final(self).host == old(self).host,
            final(self).contract == caller,
            final(self).now == old(self).now,
            old(self).signers@.len() > 0 ==> final(self).signers@
                == old(self).signers@.drop_last(),
            final(self).events@ == old(self).events@,
    {
        let _ = self.signers.pop();
        self.contract = caller;
    }
}

proof fn lemma_one_more_signer(signers: Seq<Address>, last: Address)
    ensures
        signers.push(last).to_set() == signers.to_set().insert(last),
{
    let longer = signers.push(last);
    assert forall|who: Address| longer.to_set().contains(who) == signers.to_set().insert(
        last,
    ).contains(who) by {
        if signers.contains(who) {
            let i = choose|i: int| 0 <= i < signers.len() && signers[i] == who;
            assert(longer[i] == who);
        }
        assert(longer[signers.len() as int] == last);
    }
    assert(longer.to_set() =~= signers.to_set().insert(last));
}

/// Exactly those authorized an invocation whose signature it carries; what a
/// contract learns of it besides is its own address and the time.
pub proof fn law_signers_authorize(invocation: Invocation, who: Address)
    ensures
        invocation.context().authorizes(who) <==> invocation.signers@.contains(who),
        invocation.context().signers.contains(who) <==> invocation.signers@.contains(who),
        invocation.context().contract == invocation.contract,
        invocation.context().now == invocation.now,
{
}

/// A contract that invokes another one lends it its own authorization and hands
/// on those that it was given, and no others; the time does not change.
pub proof fn law_callers_vouch_for_themselves(context: Context, callee: Address, who: Address)
    ensures
        context.authorizes(who) <==> context.signers.contains(who),
        context.calling(callee).authorizes(who) <==> context.authorizes(who) || who
            == context.contract,
        context.calling(callee).contract == callee,
        context.calling(callee).now == context.now,
{
}

/// Publishing adds one event behind all others, in the name of the invoked
/// contract; an invocation that goes on is the same but for its events.
pub proof fn law_events_are_added_last(invocation: Invocation, other: Invocation, event: Event)
    ensures
        invocation.events_with(Some(event)) == invocation.events@.push(
            Published { contract: invocation.contract, event },
        ),
        invocation.events_with(None) == invocation.events@,
        invocation.continues(other) <==> {
            &&& invocation.host == other.host
            &&& invocation.contract == other.contract
            &&& invocation.now == other.now
            &&& invocation.signers@ == other.signers@
        },
{
}

} // verus!
