//! Interrupt-context token, handler descriptors and the phase-aware handler
//! registry shared by both controller families.
use vstd::prelude::*;

use crate::bounded::BoundedUsize;

verus! {

/// Proof of executing inside interrupt context.
///
/// Acknowledgment and completion take a reference to one. The exception
/// entry is the only place meant to create it, once per interrupt.
pub struct IRQContext {
    marker: (),
}

impl IRQContext {
    /// Mints the token; to be called by the exception entry alone.
    pub fn new() -> (r: IRQContext) {
        IRQContext { marker: () }
    }
}

/// An interrupt handler, implemented by the drivers that own a source.
pub trait IRQHandler {
    /// Services the interrupt; an error is fatal for the caller.
    fn handle(&self) -> Result<(), &'static str>;
}

/// An immutable (number, name, handler) triple.
pub struct IRQHandlerDescriptor<T, H> {
    number: T,
    name: &'static str,
    handler: H,
}

impl<T, H> IRQHandlerDescriptor<T, H> {
    /// The interrupt number.
    pub closed spec fn spec_number(&self) -> T {
        self.number
    }

    /// The human-readable name.
    pub closed spec fn spec_name(&self) -> &'static str {
        self.name
    }

    /// The handler.
    pub closed spec fn spec_handler(&self) -> H {
        self.handler
    }

    /// The descriptor made of the three parts.
    pub closed spec fn spec_new(number: T, name: &'static str, handler: H) -> Self {
        IRQHandlerDescriptor { number, name, handler }
    }
}

impl<T: Copy, H> IRQHandlerDescriptor<T, H> {
    /// Bundles the three parts.
    pub fn new(number: T, name: &'static str, handler: H) -> (r: Self)
        ensures
            r == Self::spec_new(number, name, handler),
            r.spec_number() == number,
            r.spec_name() == name,
            r.spec_handler() == handler,
    {
        IRQHandlerDescriptor { number, name, handler }
    }

    /// The interrupt number.
    pub fn number(&self) -> (r: T)
        ensures
            r == self.spec_number(),
    {
        self.number
    }

    /// The human-readable name.
    pub fn name(&self) -> (r: &'static str)
        ensures
            r == self.spec_name(),
    {
        self.name
    }

    /// The handler.
    pub fn handler(&self) -> (r: &H)
        ensures
            *r == self.spec_handler(),
    {
        &self.handler
    }

    /// Splits the descriptor into its parts.
    pub fn into_parts(self) -> (r: (T, &'static str, H))
        ensures
            r == (self.spec_number(), self.spec_name(), self.spec_handler()),
            self == Self::spec_new(r.0, r.1, r.2),
    {
        (self.number, self.name, self.handler)
    }
}

/// Why a registration was refused.
#[derive(Debug, Clone, Copy, PartialEq, Eq, Structural)]
pub enum RegisterError {
    /// The slot for that number already holds a descriptor.
    AlreadyRegistered,
    /// The initialization phase is over; the table is read-only.
    InitPhaseOver,
    /// Core-local interrupts are not implemented on this controller.
    Unimplemented,
}

/// A fatal outcome of dispatch: the caller is expected to halt.
#[derive(Debug, Clone, Copy, PartialEq, Eq, Structural)]
pub enum DispatchError {
    /// An acknowledged number has an empty registry slot.
    NoHandlerRegistered(usize),
    /// The handler of that number reported failure.
    HandlerFailed(usize),
}

/// Map from interrupt number to at most one descriptor, writable only while
/// the system is initializing and read-only after the one-way transition.
pub struct HandlerTable<const MAX: usize, H> {
    slots: Vec<Option<IRQHandlerDescriptor<BoundedUsize<MAX>, H>>>,
    initializing: bool,
}

impl<const MAX: usize, H> HandlerTable<MAX, H> {
    /// One slot per number in `0..=MAX`, each holding the descriptor of its
    /// own number.
    pub open spec fn wf(&self) -> bool {
        &&& MAX < usize::MAX
        &&& self@.len() == MAX + 1
        &&& forall|n: int|
            0 <= n <= MAX ==> (#[trigger] self@[n] matches Some(d) ==> d.spec_number().spec_get()
                == n && d.spec_number().wf())
    }

    /// The contents, slot by slot.
    pub closed spec fn view(&self) -> Seq<Option<IRQHandlerDescriptor<BoundedUsize<MAX>, H>>> {
        self.slots@
    }

    /// Whether registrations are still accepted.
    pub closed spec fn spec_is_initializing(&self) -> bool {
        self.initializing
    }

    /// Whether number `n` has a descriptor.
    pub open spec fn is_registered(&self, n: int) -> bool {
        0 <= n < self@.len() && self@[n] is Some
    }
}

/// The slots and result that registering `d` gives on `slots`, while the
/// table is initializing or not.
pub open spec fn spec_register<const MAX: usize, H>(
    slots: Seq<Option<IRQHandlerDescriptor<BoundedUsize<MAX>, H>>>,
    initializing: bool,
    d: IRQHandlerDescriptor<BoundedUsize<MAX>, H>,
) -> (Seq<Option<IRQHandlerDescriptor<BoundedUsize<MAX>, H>>>, Result<(), RegisterError>) {
    let n = d.spec_number().spec_get() as int;
    if !initializing {
        (slots, Err(RegisterError::InitPhaseOver))
    } else if slots[n] is Some {
        (slots, Err(RegisterError::AlreadyRegistered))
    } else {
        (slots.update(n, Some(d)), Ok(()))
    }
}

impl<const MAX: usize, H> HandlerTable<MAX, H> {
    /// An empty table in its initialization phase.
    pub fn new() -> (r: Self)
        requires
            MAX < usize::MAX,
        ensures
            r.wf(),
            r.spec_is_initializing(),
            forall|n: int| 0 <= n <= MAX ==> (#[trigger] r@[n]) is None,
            r@.len() == MAX + 1,
    {
        let mut slots: Vec<Option<IRQHandlerDescriptor<BoundedUsize<MAX>, H>>> = Vec::new();
        let mut i: usize = 0;
        while i <= MAX
            invariant
                MAX < usize::MAX,
                i <= MAX + 1,
                slots@.len() == i,
                forall|n: int| 0 <= n < i ==> #[trigger] slots@[n] is None,
            decreases MAX + 1 - i,
        {
            slots.push(None);
            i = i + 1;
        }
        HandlerTable { slots, initializing: true }
    }

    /// Whether registrations are still accepted.
    pub fn is_initializing(&self) -> (r: bool)
        ensures
            r == self.spec_is_initializing(),
    {
        self.initializing
    }

    /// Ends the initialization phase for good: from now on the table is
    /// read-only.
    pub fn finish_init(&mut self)
        ensures
            final(self)@ == old(self)@,
            !final(self).spec_is_initializing(),
            old(self).wf() ==> final(self).wf(),
    {
        self.initializing = false;
    }

    /// Stores `d` in the slot of its number, unless the slot is taken or the
    /// initialization phase is over; a refused registration changes nothing.
    pub fn register(&mut self, d: IRQHandlerDescriptor<BoundedUsize<MAX>, H>) -> (r: Result<
        (),
        RegisterError,
    >)
        requires
            old(self).wf(),
            d.spec_number().wf(),
        ensures
            final(self).wf(),
            final(self).spec_is_initializing() == old(self).spec_is_initializing(),
            (final(self)@, r) == spec_register(old(self)@, old(self).spec_is_initializing(), d),
    {
        let n = d.number.get();
        if !self.initializing {
            return Err(RegisterError::InitPhaseOver);
        }
        if self.slots[n].is_some() {
            return Err(RegisterError::AlreadyRegistered);
        }
        self.slots.set(n, Some(d));
        Ok(())
    }

    /// The descriptor registered for `n`, if any.
    pub fn get(&self, n: usize) -> (r: Option<&IRQHandlerDescriptor<BoundedUsize<MAX>, H>>)
        requires
            self.wf(),
            n <= MAX,
        ensures
            r is Some <==> self@[n as int] is Some,
            r matches Some(d) ==> self@[n as int] == Some(*d),
    {
        self.slots[n].as_ref()
    }

    /// Numbers and names of the registered descriptors whose number is at
    /// least `first`, in ascending order of number.
    pub fn entries(&self, first: usize) -> (r: Vec<(usize, &'static str)>)
        requires
            self.wf(),
        ensures
            listing_of(self@, first as int, r@),
    {
        let mut out: Vec<(usize, &'static str)> = Vec::new();
        let mut i: usize = first;
        if i > MAX {
            return out;
        }
        while i <= MAX
            invariant
                self.wf(),
                first <= i <= MAX + 1,
                listing_below(self@, first as int, i as int, out@),
            decreases MAX + 1 - i,
        {
            let ghost old_out = out@;
            match &self.slots[i] {
                Some(d) => {
                    out.push((i, d.name));
                    proof {
                        assert(out@[old_out.len() as int].0 == i);
                        assert forall|n: int|
                            first <= n < i + 1 && 0 <= n < self@.len() && #[trigger] self@[n] is Some
                            implies exists|k: int| 0 <= k < out@.len() && (#[trigger] out@[k]).0 == n by {
                            if n < i {
                                let k = choose|k: int| 0 <= k < old_out.len() && (#[trigger] old_out[k]).0 == n;
                                assert(out@[k] == old_out[k]);
                            }
                        }
                    }
                },
                None => {
                    assert forall|n: int|
                        first <= n < i + 1 && 0 <= n < self@.len() && #[trigger] self@[n] is Some
                        implies exists|k: int| 0 <= k < out@.len() && (#[trigger] out@[k]).0 == n by {
                        assert(n < i);
                    }
                },
            }
            i = i + 1;
        }
        out
    }
}

/// `out` lists, in ascending order and once each, the registered numbers in
/// `first..bound` of `slots`, with their names.
pub open spec fn listing_below<T, H>(
    slots: Seq<Option<IRQHandlerDescriptor<T, H>>>,
    first: int,
    bound: int,
    out: Seq<(usize, &'static str)>,
) -> bool {
    &&& forall|k: int, l: int| 0 <= k < l < out.len() ==> out[k].0 < out[l].0
    &&& forall|k: int|
        0 <= k < out.len() ==> {
            &&& first <= (#[trigger] out[k]).0 < bound
            &&& out[k].0 < slots.len()
            &&& slots[out[k].0 as int] is Some
            &&& slots[out[k].0 as int]->Some_0.spec_name() == out[k].1
        }
    &&& forall|n: int|
        first <= n < bound && 0 <= n < slots.len() && #[trigger] slots[n] is Some ==> exists|k: int|
            0 <= k < out.len() && (#[trigger] out[k]).0 == n
}

/// `out` lists every registered number from `first` on, ascending, once
/// each, with its name.
pub open spec fn listing_of<T, H>(
    slots: Seq<Option<IRQHandlerDescriptor<T, H>>>,
    first: int,
    out: Seq<(usize, &'static str)>,
) -> bool {
    listing_below(slots, first, slots.len() as int, out)
}

/// The number, name and handler of the descriptor made of three parts are
/// those parts.
pub broadcast proof fn lemma_spec_new_parts<T, H>(number: T, name: &'static str, handler: H)
    ensures
        #[trigger] IRQHandlerDescriptor::<T, H>::spec_new(number, name, handler).spec_number() == number,
        IRQHandlerDescriptor::<T, H>::spec_new(number, name, handler).spec_name() == name,
        IRQHandlerDescriptor::<T, H>::spec_new(number, name, handler).spec_handler() == handler,
{
}

/// Registering `d` into slot `n` of `old`, while initializing or not, gave
/// `new` and `r`: refused with the table unchanged after initialization or
/// when the slot is taken, else accepted with only slot `n` changed.
pub open spec fn registered_into<D>(
    old: Seq<Option<D>>,
    initializing: bool,
    n: int,
    d: D,
    new: Seq<Option<D>>,
    r: Result<(), RegisterError>,
) -> bool {
    if !initializing {
        r == Err::<(), RegisterError>(RegisterError::InitPhaseOver) && new == old
    } else if old[n] is Some {
        r == Err::<(), RegisterError>(RegisterError::AlreadyRegistered) && new == old
    } else {
        r == Ok::<(), RegisterError>(()) && new == old.update(n, Some(d))
    }
}

/// During initialization, registering a descriptor for a number whose slot
/// is empty succeeds and stores it; registering a second descriptor for the
/// same number then fails with `AlreadyRegistered` and leaves the first one
/// in place.
pub proof fn lemma_register_twice<const MAX: usize, H>(
    slots: Seq<Option<IRQHandlerDescriptor<BoundedUsize<MAX>, H>>>,
    d1: IRQHandlerDescriptor<BoundedUsize<MAX>, H>,
    d2: IRQHandlerDescriptor<BoundedUsize<MAX>, H>,
)
    requires
        slots.len() == MAX + 1,
        d1.spec_number().wf(),
        d2.spec_number().spec_get() == d1.spec_number().spec_get(),
        slots[d1.spec_number().spec_get() as int] is None,
    ensures
        ({
            let n = d1.spec_number().spec_get() as int;
            let (s1, r1) = spec_register(slots, true, d1);
            let (s2, r2) = spec_register(s1, true, d2);
            &&& r1 is Ok
            &&& s1[n] == Some(d1)
            &&& r2 == Err::<(), RegisterError>(RegisterError::AlreadyRegistered)
            &&& s2 == s1
        }),
{
}

} // verus!
