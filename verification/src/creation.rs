//! Keeping a program to one event loop.
use vstd::prelude::*;

verus! {

/// Whether the program has set out to create its event loop.
pub ghost struct Creation {
    /// An event loop has been created, or its creation was tried and failed.
    pub created: bool,
    /// The number by which the next event loop and its proxies know each other.
    pub next_id: u64,
}

impl Creation {
    /// An event loop may be created.
    pub open spec fn may_create(self) -> bool {
        !self.created
    }

    /// After the program has asked to create an event loop. Whether it may or
    /// not, it has used up its one attempt.
    pub open spec fn after_claim(self) -> Creation {
        if self.may_create() {
            Creation {
                created: true,
                next_id: crate::serial::after_request(self.next_id as int) as u64,
            }
        } else {
            self
        }
    }

    /// After the program was allowed to create an event loop once more.
    pub open spec fn after_recreation_allowed(self) -> Creation {
        Creation { created: false, next_id: self.next_id }
    }
}

/// After `times` event loops have been created, with another one allowed after
/// each.
pub open spec fn after_creations(creation: Creation, times: nat) -> Creation
    decreases times,
{
    if times == 0 {
        creation
    } else {
        after_creations(creation, (times - 1) as nat).after_claim().after_recreation_allowed()
    }
}

/// The program creates one event loop: once it has asked to, it may not create
/// another, however often it asks, until it was allowed to. What became of the
/// first attempt makes no difference.
pub proof fn law_one_event_loop(creation: Creation)
    ensures
        !creation.after_claim().may_create(),
        creation.after_claim().after_claim() == creation.after_claim(),
        creation.after_recreation_allowed().may_create(),
{
}

/// No two of `u64::MAX + 1` event loops in a row have the same number.
pub proof fn law_loop_numbers_are_unique(creation: Creation, first: nat, second: nat)
    requires
        creation.may_create(),
        first < second < first + crate::serial::serial_period(),
    ensures
        after_creations(creation, first).next_id != after_creations(creation, second).next_id,
{
    lemma_loop_numbers(creation, first);
    lemma_loop_numbers(creation, second);
    crate::serial::law_serials_are_unique(creation.next_id as int, first, second);
}

proof fn lemma_loop_numbers(creation: Creation, times: nat)
    requires
        creation.may_create(),
    ensures
        after_creations(creation, times).may_create(),
        after_creations(creation, times).next_id == crate::serial::after_requests(
            creation.next_id as int,
            times,
        ),
    decreases times,
{
    if times > 0 {
        lemma_loop_numbers(creation, (times - 1) as nat);
    }
}

/// Remembers whether the program has set out to create its event loop. A
/// program holds one of these.
#[derive(Debug)]
pub struct EventLoopCreated {
    created: bool,
    next_id: u64,
}

impl View for EventLoopCreated {
    type V = Creation;

    closed spec fn view(&self) -> Creation {
        Creation { created: self.created, next_id: self.next_id }
    }
}

/// The right to create one event loop. Whoever drops it has used it up.
#[derive(Debug)]
pub struct LoopClaim {
    id: u64,
}

impl View for LoopClaim {
    type V = u64;

    /// The number of the event loop.
    closed spec fn view(&self) -> u64 {
        self.id
    }
}

impl LoopClaim {
    /// The number of the event loop.
    pub(crate) fn id(&self) -> (id: u64)
        ensures
            id == self@,
    {
        self.id
    }
}

impl EventLoopCreated {
    /// No event loop has been created.
    pub fn new() -> (flag: Self)
        ensures
            flag@ == (Creation { created: false, next_id: 0 }),
    {
        EventLoopCreated { created: false, next_id: 0 }
    }

    /// Whether an event loop has been created, or its creation was tried.
    pub fn is_set(&self) -> (set: bool)
        ensures
            set == !self@.may_create(),
    {
        self.created
    }

    /// Asks for the right to create the event loop, before the window system
    /// is connected to. Where the connection then fails, the right is gone.
    pub fn claim(&mut self) -> (claim: Option<LoopClaim>)
        ensures
            claim is Some <==> old(self)@.may_create(),
            claim matches Some(claimed) ==> claimed@ == old(self)@.next_id,
            final(self)@ == old(self)@.after_claim(),
    {
        if self.created {
            None
        } else {
            let id: u64 = self.next_id;
            self.created = true;
            self.next_id = id.wrapping_add(1);
            Some(LoopClaim { id })
        }
    }

    /// Allows another event loop to be created.
    pub(crate) fn clear(&mut self)
        ensures
            final(self)@ == old(self)@.after_recreation_allowed(),
    {
        self.created = false;
    }
}

} // verus!
