//! The table of interrupt handlers and the dispatch of an acknowledged
//! interrupt to its handler.
use vstd::prelude::*;

verus! {

/// Interrupt lines of the GIC (SGIs, PPIs and SPIs).
pub const NR_GIC_IRQS: usize = 6 * 32;
/// Interrupt lines of the GPIO banks.
pub const NR_GPIO_IRQS: usize = 5 * 32;
/// Slots of the handler table.
pub const NR_IRQS: usize = NR_GIC_IRQS + NR_GPIO_IRQS;

/// What to do with an acknowledged interrupt.
#[derive(Debug, PartialEq, Eq)]
pub enum IrqDispatch<H> {
    /// Run handler `H` for interrupt `id`.
    Handle(usize, H),
    /// Interrupt `id` is a GIC line with no handler installed.
    Unhandled(usize),
    /// `id` is not a GIC line.
    OutOfRange(usize),
}

/// What dispatching interrupt `id` does, given the table's slots.
pub open spec fn dispatch_spec<H>(slots: Seq<Option<H>>, id: usize) -> IrqDispatch<H> {
    if id < NR_GIC_IRQS {
        match slots[id as int] {
            Some(h) => IrqDispatch::Handle(id, h),
            None => IrqDispatch::Unhandled(id),
        }
    } else {
        IrqDispatch::OutOfRange(id)
    }
}

/// A handler slot for each interrupt line.
pub struct IrqHandlers<H> {
    slots: Vec<Option<H>>,
}

impl<H> IrqHandlers<H> {
    /// The table has one slot per interrupt line.
    #[verifier::type_invariant]
    spec fn wf(&self) -> bool {
        self.slots@.len() == NR_IRQS
    }
}

impl<H: Copy> IrqHandlers<H> {
    /// The handler slots, one per interrupt line.
    pub closed spec fn view(&self) -> Seq<Option<H>> {
        self.slots@
    }

    /// The table with no handler installed.
    pub fn new() -> (r: IrqHandlers<H>)
        ensures
            r@ == Seq::new(NR_IRQS as nat, |i: int| None::<H>),
    {
        let mut slots: Vec<Option<H>> = Vec::new();
        let mut i: usize = 0;
        while i < NR_IRQS
            invariant
                i <= NR_IRQS,
                slots@ == Seq::new(i as nat, |j: int| None::<H>),
            decreases NR_IRQS - i,
        {
            slots.push(None);
            i = i + 1;
            proof {
                assert(slots@ =~= Seq::new(i as nat, |j: int| None::<H>));
            }
        }
        IrqHandlers { slots }
    }

    /// Install `handler` for interrupt line `irq`, replacing any other.
    pub fn install(&mut self, irq: usize, handler: H)
        requires
            irq < NR_IRQS,
        ensures
            final(self)@ == old(self)@.update(irq as int, Some(handler)),
    {
        proof {
            use_type_invariant(&*self);
        }
        // The table is taken out whole, with an empty one of the same size
        // standing in, so that it keeps one slot per line throughout.
        let mut slots = Self::new().slots;
        std::mem::swap(&mut slots, &mut self.slots);
        slots.set(irq, Some(handler));
        self.slots = slots;
    }

    /// The handler installed for `irq`, if any.
    pub fn lookup(&self, irq: usize) -> (r: Option<H>)
        requires
            irq < NR_IRQS,
        ensures
            r == self@[irq as int],
    {
        proof {
            use_type_invariant(self);
        }
        self.slots[irq]
    }

    /// What to do with acknowledged interrupt `id`: run its handler, report
    /// that it has none, or report that it is not a GIC line.
    pub fn dispatch(&self, id: usize) -> (r: IrqDispatch<H>)
        ensures
            r == dispatch_spec(self@, id),
    {
        proof {
            use_type_invariant(self);
        }
        if id < NR_GIC_IRQS {
            match self.slots[id] {
                Some(h) => IrqDispatch::Handle(id, h),
                None => IrqDispatch::Unhandled(id),
            }
        } else {
            IrqDispatch::OutOfRange(id)
        }
    }
}

/// An interrupt dispatches to the handler last installed for its line, and
/// installing a handler changes the dispatch of no other line.
pub proof fn lemma_install_then_dispatch<H>(slots: Seq<Option<H>>, irq: usize, h: H, id: usize)
    requires
        slots.len() == NR_IRQS,
        irq < NR_IRQS,
    ensures
        irq < NR_GIC_IRQS ==> dispatch_spec(slots.update(irq as int, Some(h)), irq)
            == IrqDispatch::Handle(irq, h),
        id != irq ==> dispatch_spec(slots.update(irq as int, Some(h)), id) == dispatch_spec(slots, id),
{
}

} // verus!
