//! Machine-mode trap causes and their routing to handlers.

use vstd::prelude::*;

verus! {

/// Bit of the 32-bit `mcause` register that marks an interrupt.
pub const INTERRUPT_BIT: u32 = 0x8000_0000;

/// Mask of the exception / interrupt code field of `mcause`.
pub const CODE_MASK: u32 = 0x7fff_ffff;

/// Interrupt code of a user-level software interrupt.
pub const USER_SOFT_CODE: u32 = 0;

/// Interrupt code of a machine-level software interrupt.
pub const MACHINE_SOFT_CODE: u32 = 3;

/// Interrupt code of a machine-level external interrupt.
pub const MACHINE_EXTERNAL_CODE: u32 = 11;

/// Interrupt code of the system timer.
pub const SYSTICK_CODE: u32 = 12;

/// Interrupt code of the console USART.
pub const USART1_CODE: u32 = 53;

/// Whether a trap was raised asynchronously or by an instruction.
#[derive(Clone, Copy, Debug, PartialEq, Eq, Structural)]
pub enum TrapClass {
    Interrupt,
    Exception,
}

/// A decoded trap cause: its class and its hardware-defined code.
#[derive(Clone, Copy, Debug, PartialEq, Eq, Structural)]
pub struct Cause {
    pub class: TrapClass,
    pub code: u32,
}

/// The cause that a raw `mcause` value denotes.
pub open spec fn cause_of(raw: u32) -> Cause {
    Cause {
        class: if raw & INTERRUPT_BIT != 0 { TrapClass::Interrupt } else { TrapClass::Exception },
        code: raw & CODE_MASK,
    }
}

impl Cause {
    /// Splits a raw `mcause` value into class and code.
    pub fn decode(raw: u32) -> (r: Cause)
        ensures
            r == cause_of(raw),
    {
        let class = if raw & INTERRUPT_BIT != 0 {
            TrapClass::Interrupt
        } else {
            TrapClass::Exception
        };
        Cause { class, code: raw & CODE_MASK }
    }
}

/// The handlers that trap sources can be bound to.
#[derive(Clone, Copy, Debug, PartialEq, Eq, Structural)]
pub enum Handler {
    /// Announces a user-level software interrupt.
    UserSoft,
    /// Announces a machine-level software interrupt.
    MachineSoft,
    /// Announces a machine-level external interrupt.
    MachineExternal,
    /// Acknowledges the system timer and toggles the tick flag.
    Tick,
    /// Acknowledges received data on the console USART.
    UartRx,
    /// Reports a trap that no other handler serves.
    Diagnose,
}

/// One entry of a handler table.
#[derive(Clone, Copy, Debug, PartialEq, Eq, Structural)]
pub struct Binding {
    pub cause: Cause,
    pub handler: Handler,
}

/// The handler that a table with `routes` and `fallback` runs for `c`.
pub open spec fn route(routes: Map<Cause, Handler>, fallback: Handler, c: Cause) -> Handler {
    if routes.contains_key(c) {
        routes[c]
    } else {
        fallback
    }
}

/// Maps trap causes to handlers; causes without an entry go to a default handler.
pub struct HandlerTable {
    bindings: Vec<Binding>,
    fallback: Handler,
    routes: Ghost<Map<Cause, Handler>>,
}

impl HandlerTable {
    /// The causes that have a handler of their own, and that handler.
    pub closed spec fn routes(&self) -> Map<Cause, Handler> {
        self.routes@
    }

    /// The handler for causes without an entry.
    pub closed spec fn fallback(&self) -> Handler {
        self.fallback
    }

    /// Each cause has at most one entry, and the entries are exactly `routes`.
    pub closed spec fn wf(&self) -> bool {
        &&& forall|i: int, j: int|
            0 <= i < j < self.bindings@.len() ==> #[trigger] self.bindings@[i].cause
                != #[trigger] self.bindings@[j].cause
        &&& forall|i: int|
            0 <= i < self.bindings@.len() ==> self.routes@.contains_key(
                #[trigger] self.bindings@[i].cause,
            ) && self.routes@[self.bindings@[i].cause] == self.bindings@[i].handler
        &&& forall|c: Cause|
            #[trigger] self.routes@.contains_key(c) ==> exists|i: int|
                0 <= i < self.bindings@.len() && (#[trigger] self.bindings@[i]).cause == c
    }

    /// The index of the entry for `c`, if there is one.
    fn position(&self, c: Cause) -> (r: Option<usize>)
        requires
            self.wf(),
        ensures
            match r {
                Some(i) => i < self.bindings@.len() && self.bindings@[i as int].cause == c,
                None => !self.routes().contains_key(c),
            },
    {
        let n = self.bindings.len();
        let mut i: usize = 0;
        while i < n
            invariant
                n == self.bindings@.len(),
                i <= n,
                forall|k: int| 0 <= k < i ==> self.bindings@[k].cause != c,
            decreases n - i,
        {
            if self.bindings[i].cause == c {
                return Some(i);
            }
            i = i + 1;
        }
        None
    }

    /// A table with no entries whose default handler is `fallback`.
    pub fn new(fallback: Handler) -> (t: HandlerTable)
        ensures
            t.wf(),
            t.routes() == Map::<Cause, Handler>::empty(),
            t.fallback() == fallback,
    {
        HandlerTable { bindings: Vec::new(), fallback, routes: Ghost(Map::empty()) }
    }

    /// Makes `handler` the handler of `cause`, replacing any earlier one.
    pub fn bind(&mut self, cause: Cause, handler: Handler)
        requires
            old(self).wf(),
        ensures
            final(self).wf(),
            final(self).routes() == old(self).routes().insert(cause, handler),
            final(self).fallback() == old(self).fallback(),
    {
        let b = Binding { cause, handler };
        let ghost at: int;
        match self.position(cause) {
            Some(i) => {
                self.bindings.set(i, b);
                proof {
                    at = i as int;
                }
            },
            None => {
                self.bindings.push(b);
                proof {
                    at = self.bindings@.len() - 1;
                }
            },
        }
        self.routes = Ghost(self.routes@.insert(cause, handler));
        proof {
            let bs = self.bindings@;
            let old_bs = old(self).bindings@;
            assert(0 <= at < bs.len() && bs[at] == b);
            assert forall|c: Cause| #[trigger] self.routes@.contains_key(c) implies exists|i: int|
                0 <= i < bs.len() && (#[trigger] bs[i]).cause == c by {
                if c != cause {
                    let i = choose|i: int| 0 <= i < old_bs.len() && (#[trigger] old_bs[i]).cause == c;
                    assert(bs[i] == old_bs[i]);
                } else {
                    assert(bs[at].cause == c);
                }
            }
        }
    }

    /// Makes `handler` the handler of causes without an entry. Every handler
    /// logs the trap it runs for, so none swallows one silently; only the
    /// diagnostic handler also reports the trap's registers, which is why
    /// the firmware's table keeps it as the default.
    pub fn set_default(&mut self, handler: Handler)
        requires
            old(self).wf(),
        ensures
            final(self).wf(),
            final(self).routes() == old(self).routes(),
            final(self).fallback() == handler,
    {
        self.fallback = handler;
    }

    /// The handler that runs for a trap with cause `c`.
    pub fn dispatch(&self, c: Cause) -> (h: Handler)
        requires
            self.wf(),
        ensures
            h == route(self.routes(), self.fallback(), c),
    {
        match self.position(c) {
            Some(i) => self.bindings[i].handler,
            None => self.fallback,
        }
    }
}

/// The cause of interrupt `code`.
pub open spec fn irq(code: u32) -> Cause {
    Cause { class: TrapClass::Interrupt, code }
}

/// The routes of the firmware's table: the three standard software and
/// external interrupts announce themselves, the timer ticks, the console
/// USART acknowledges received data.
pub open spec fn system_routes() -> Map<Cause, Handler> {
    map![
        irq(USER_SOFT_CODE) => Handler::UserSoft,
        irq(MACHINE_SOFT_CODE) => Handler::MachineSoft,
        irq(MACHINE_EXTERNAL_CODE) => Handler::MachineExternal,
        irq(SYSTICK_CODE) => Handler::Tick,
        irq(USART1_CODE) => Handler::UartRx,
    ]
}

/// The firmware's table; every other cause is reported.
pub fn system_table() -> (t: HandlerTable)
    ensures
        t.wf(),
        t.routes() == system_routes(),
        t.fallback() == Handler::Diagnose,
{
    let mut t = HandlerTable::new(Handler::Diagnose);
    t.bind(Cause { class: TrapClass::Interrupt, code: USER_SOFT_CODE }, Handler::UserSoft);
    t.bind(Cause { class: TrapClass::Interrupt, code: MACHINE_SOFT_CODE }, Handler::MachineSoft);
    t.bind(
        Cause { class: TrapClass::Interrupt, code: MACHINE_EXTERNAL_CODE },
        Handler::MachineExternal,
    );
    t.bind(Cause { class: TrapClass::Interrupt, code: SYSTICK_CODE }, Handler::Tick);
    t.bind(Cause { class: TrapClass::Interrupt, code: USART1_CODE }, Handler::UartRx);
    assert(t.routes() =~= system_routes());
    t
}

/// Binding handler `a` and then handler `b` to one cause leaves `b`, and
/// only `b`, to run on the next trap with that cause.
pub proof fn lemma_last_binding_wins(
    routes: Map<Cause, Handler>,
    fallback: Handler,
    c: Cause,
    a: Handler,
    b: Handler,
)
    ensures
        route(routes.insert(c, a).insert(c, b), fallback, c) == b,
        routes.insert(c, a).insert(c, b) == routes.insert(c, b),
{
    assert(routes.insert(c, a).insert(c, b) =~= routes.insert(c, b));
}

/// Once handlers `t` and `u` are bound to two distinct causes, a trap with
/// either cause runs its own handler, and a trap with a cause that was never
/// bound runs the default handler.
pub proof fn lemma_dispatch_bound_and_unbound(
    routes: Map<Cause, Handler>,
    fallback: Handler,
    tc: Cause,
    t: Handler,
    uc: Cause,
    u: Handler,
    other: Cause,
)
    requires
        tc != uc,
        other != tc,
        other != uc,
        !routes.contains_key(other),
    ensures
        route(routes.insert(tc, t).insert(uc, u), fallback, tc) == t,
        route(routes.insert(tc, t).insert(uc, u), fallback, uc) == u,
        route(routes.insert(tc, t).insert(uc, u), fallback, other) == fallback,
{
}

} // verus!
