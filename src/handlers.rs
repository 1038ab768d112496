//! What each trap handler does, and the entry point that decodes a trap,
//! picks its handler and runs it.

use crate::text::{crlf, dec_digits, hex_digits, push_crlf, push_dec, push_hex, push_str};
use crate::trap::{cause_of, route, Cause, Handler, HandlerTable, TrapClass};
use vstd::prelude::*;
use vstd::string::StringSliceAdditionalSpecFns;

verus! {

/// The machine registers latched at trap entry.
#[derive(Clone, Copy, Debug, PartialEq, Eq, Structural)]
pub struct TrapFrame {
    /// Raw `mcause`: interrupt flag and code.
    pub mcause: u32,
    /// `mstatus` at the time of the trap.
    pub mstatus: u32,
    /// `mtval`: the faulting address or instruction, where there is one.
    pub mtval: u32,
    /// `mepc`: the address of the interrupted or faulting instruction.
    pub mepc: u32,
}

/// The name of a trap class as it appears in reports.
pub open spec fn class_name(c: TrapClass) -> Seq<u8> {
    match c {
        TrapClass::Interrupt => "interrupt".spec_bytes(),
        TrapClass::Exception => "exception".spec_bytes(),
    }
}

/// The three lines that the default handler logs for a trap with frame `f`.
pub open spec fn report(f: TrapFrame) -> Seq<u8> {
    let cause = cause_of(f.mcause);
    "Interrupt IRQ ".spec_bytes() + dec_digits(cause.code as nat) + ", status 0x".spec_bytes()
        + hex_digits(f.mstatus as nat) + " tval 0x".spec_bytes() + hex_digits(f.mtval as nat)
        + crlf() + "Interrupt code ".spec_bytes() + dec_digits(cause.code as nat)
        + " cause 0x".spec_bytes() + hex_digits(f.mcause as nat) + " type ".spec_bytes()
        + class_name(cause.class) + crlf() + "Where am I? ".spec_bytes() + dec_digits(
        f.mepc as nat,
    ) + crlf()
}

/// Renders the default handler's report for `f`.
pub fn render_report(f: TrapFrame) -> (r: Vec<u8>)
    ensures
        r@ == report(f),
{
    let cause = Cause::decode(f.mcause);
    let mut out: Vec<u8> = Vec::new();
    push_str(&mut out, "Interrupt IRQ ");
    push_dec(&mut out, cause.code);
    push_str(&mut out, ", status 0x");
    push_hex(&mut out, f.mstatus);
    push_str(&mut out, " tval 0x");
    push_hex(&mut out, f.mtval);
    push_crlf(&mut out);
    push_str(&mut out, "Interrupt code ");
    push_dec(&mut out, cause.code);
    push_str(&mut out, " cause 0x");
    push_hex(&mut out, f.mcause);
    push_str(&mut out, " type ");
    match cause.class {
        TrapClass::Interrupt => push_str(&mut out, "interrupt"),
        TrapClass::Exception => push_str(&mut out, "exception"),
    }
    push_crlf(&mut out);
    push_str(&mut out, "Where am I? ");
    push_dec(&mut out, f.mepc);
    push_crlf(&mut out);
    assert(out@ =~= report(f));
    out
}

/// The text the timer handler logs once the tick flag has become `ticking`.
pub open spec fn tick_text(ticking: bool) -> Seq<u8> {
    if ticking {
        "\r🕰️  tick".spec_bytes()
    } else {
        "\r🕰️  tock".spec_bytes()
    }
}

/// What handler `h` logs for the trap with frame `f`, with the tick flag
/// `ticking` before it ran.
pub open spec fn handler_text(h: Handler, ticking: bool, f: TrapFrame) -> Seq<u8> {
    match h {
        Handler::UserSoft => "UserSoft".spec_bytes() + crlf(),
        Handler::MachineSoft => "MachineSoft".spec_bytes() + crlf(),
        Handler::MachineExternal => "MachineExternal".spec_bytes() + crlf(),
        Handler::Tick => tick_text(!ticking),
        Handler::UartRx => "echo".spec_bytes(),
        Handler::Diagnose => report(f),
    }
}

/// What the trap entry must do on behalf of the handler that was chosen.
pub struct TrapAction {
    /// The one handler that ran.
    pub handler: Handler,
    /// Whether the system timer's compare flag is to be cleared so that it fires again.
    pub rearm_timer: bool,
    /// Whether the console USART's data-ready condition is to be cleared.
    pub clear_rx: bool,
    /// The text to log.
    pub text: Vec<u8>,
}

/// Runs handler `h` for the trap with frame `f`: updates the tick flag and
/// says what is to be cleared and logged.
pub fn run_handler(h: Handler, ticking: &mut bool, f: TrapFrame) -> (a: TrapAction)
    ensures
        a.handler == h,
        a.rearm_timer == (h == Handler::Tick),
        a.clear_rx == (h == Handler::UartRx),
        a.text@ == handler_text(h, *old(ticking), f),
        *final(ticking) == (if h == Handler::Tick {
            !*old(ticking)
        } else {
            *old(ticking)
        }),
{
    let mut text: Vec<u8> = Vec::new();
    match h {
        Handler::UserSoft => {
            push_str(&mut text, "UserSoft");
            push_crlf(&mut text);
        },
        Handler::MachineSoft => {
            push_str(&mut text, "MachineSoft");
            push_crlf(&mut text);
        },
        Handler::MachineExternal => {
            push_str(&mut text, "MachineExternal");
            push_crlf(&mut text);
        },
        Handler::Tick => {
            *ticking = !*ticking;
            if *ticking {
                push_str(&mut text, "\r🕰️  tick");
            } else {
                push_str(&mut text, "\r🕰️  tock");
            }
        },
        Handler::UartRx => push_str(&mut text, "echo"),
        Handler::Diagnose => {
            text = render_report(f);
        },
    }
    proof {
        assert(text@ =~= handler_text(h, *old(ticking), f));
    }
    TrapAction {
        handler: h,
        rearm_timer: h == Handler::Tick,
        clear_rx: h == Handler::UartRx,
        text,
    }
}

/// Decodes the trap with frame `f` and runs the one handler that `table`
/// routes its cause to; the trap then returns to the interrupted code.
pub fn handle_trap(table: &HandlerTable, ticking: &mut bool, f: TrapFrame) -> (a: TrapAction)
    requires
        table.wf(),
    ensures
        a.handler == route(table.routes(), table.fallback(), cause_of(f.mcause)),
        a.rearm_timer == (a.handler == Handler::Tick),
        a.clear_rx == (a.handler == Handler::UartRx),
        a.text@ == handler_text(a.handler, *old(ticking), f),
        *final(ticking) == (if a.handler == Handler::Tick {
            !*old(ticking)
        } else {
            *old(ticking)
        }),
{
    let h = table.dispatch(Cause::decode(f.mcause));
    run_handler(h, ticking, f)
}

/// The default handler is repeatable. A trap whose cause has no entry, in a
/// table whose default is the diagnostic handler, runs that handler, which
/// returns, leaves the tick flag as it was and logs the report of the trap
/// whatever that flag holds. So two such traps with the same registers log
/// the same text and leave the same state.
pub proof fn lemma_default_repeatable(
    routes: Map<Cause, Handler>,
    f: TrapFrame,
    ticking: bool,
    other: bool,
)
    requires
        !routes.contains_key(cause_of(f.mcause)),
    ensures
        route(routes, Handler::Diagnose, cause_of(f.mcause)) == Handler::Diagnose,
        handler_text(Handler::Diagnose, ticking, f) == report(f),
        handler_text(Handler::Diagnose, ticking, f) == handler_text(Handler::Diagnose, other, f),
{
}

} // verus!
