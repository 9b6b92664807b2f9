use vstd::prelude::*;

verus! {

/// A counter of in-flight block processors. The process shares one of these
/// between the dispatch loop and its workers; here it is modelled as a plain
/// value, and every operation says exactly how the count moves.
pub struct Counter {
    /// How many workers currently hold a ticket.
    pub count: usize,
}

impl Counter {
    pub fn new() -> (r: Counter)
        ensures
            r.count == 0,
    {
        Counter { count: 0 }
    }

    /// A handle onto the same conceptual counter: the copy starts with the
    /// same count as the original.
    pub fn clone(&self) -> (r: Counter)
        ensures
            r.count == self.count,
    {
        Counter { count: self.count }
    }

    pub fn increase(&mut self)
        requires
            old(self).count < usize::MAX,
        ensures
            final(self).count == old(self).count + 1,
    {
        self.count = self.count + 1;
    }

    pub fn decrease(&mut self)
        requires
            old(self).count >= 1,
        ensures
            final(self).count == old(self).count - 1,
    {
        self.count = self.count - 1;
    }

    /// The decision inside the polling wait: whether the count has come down
    /// far enough for the caller to proceed.
    pub fn is_at_or_below(&self, target: usize) -> (r: bool)
        ensures
            r <==> self.count <= target,
    {
        self.count <= target
    }
}

/// The bounded ticket pool that limits how many block processors run at once.
/// Its invariant — never more tickets out than `max_in_flight` — holds after
/// every operation, and `finish` returns a ticket whatever the worker's
/// outcome, so a failed worker cannot leak capacity.
pub struct Gate {
    pub tickets: Counter,
    pub max_in_flight: usize,
}

impl Gate {
    /// Tickets outstanding never exceed the configured bound.
    pub open spec fn inv(self) -> bool {
        self.tickets.count <= self.max_in_flight && self.max_in_flight >= 1
    }

    pub fn new(max_in_flight: usize) -> (r: Gate)
        requires
            max_in_flight >= 1,
        ensures
            r.inv(),
            r.tickets.count == 0,
            r.max_in_flight == max_in_flight,
    {
        Gate { tickets: Counter::new(), max_in_flight }
    }

    /// Take a ticket if capacity remains; the caller polls until this
    /// succeeds. A ticket is handed out exactly when the count was below the
    /// bound, so the bound is never exceeded.
    pub fn try_acquire(&mut self) -> (ok: bool)
        requires
            old(self).inv(),
        ensures
            final(self).inv(),
            final(self).max_in_flight == old(self).max_in_flight,
            ok <==> old(self).tickets.count < old(self).max_in_flight,
            ok ==> *final(self) == gate_after_acquire(*old(self)),
            !ok ==> final(self).tickets.count == old(self).tickets.count,
    {
        if self.tickets.count < self.max_in_flight {
            self.tickets.increase();
            true
        } else {
            false
        }
    }

    /// Return a ticket when a worker ends. The worker's outcome is taken as
    /// an argument and the count comes down either way: release is owed on
    /// every path after a successful acquire, including worker failure.
    pub fn finish(&mut self, _worker_succeeded: bool)
        requires
            old(self).inv(),
            old(self).tickets.count >= 1,
        ensures
            final(self).inv(),
            final(self).max_in_flight == old(self).max_in_flight,
            *final(self) == gate_after_finish(*old(self)),
            final(self).tickets.count == old(self).tickets.count - 1,
    {
        self.tickets.decrease();
    }
}

/// The ticket pool after a successful acquire: one more ticket out.
pub open spec fn gate_after_acquire(g: Gate) -> Gate {
    Gate {
        tickets: Counter { count: (g.tickets.count + 1) as usize },
        max_in_flight: g.max_in_flight,
    }
}

/// The ticket pool after a worker ends, whatever its outcome: one ticket back.
pub open spec fn gate_after_finish(g: Gate) -> Gate {
    Gate {
        tickets: Counter { count: (g.tickets.count - 1) as usize },
        max_in_flight: g.max_in_flight,
    }
}

/// An acquire paired with its release — made on every exit path, worker
/// failure included — keeps the count within the bound while the ticket is
/// held and restores the pool exactly as it was.
pub proof fn lemma_acquire_release_balanced(g: Gate, worker_succeeded: bool)
    requires
        g.inv(),
        g.tickets.count < g.max_in_flight,
    ensures
        gate_after_acquire(g).inv(),
        gate_after_finish(gate_after_acquire(g)) == g,
{
}

} // verus!
