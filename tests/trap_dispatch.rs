use ch32_bringup::handlers::{handle_trap, render_report, TrapFrame};
use ch32_bringup::trap::{system_table, Cause, Handler, HandlerTable, TrapClass};

fn irq(code: u32) -> Cause {
    Cause { class: TrapClass::Interrupt, code }
}

#[test]
fn decode_splits_class_and_code() {
    assert_eq!(Cause::decode(0x8000_000c), irq(12));
    assert_eq!(Cause::decode(0x8000_0035), irq(53));
    assert_eq!(Cause::decode(2), Cause { class: TrapClass::Exception, code: 2 });
    assert_eq!(Cause::decode(0xffff_ffff), irq(0x7fff_ffff));
}

#[test]
fn dispatch_timer_and_unknown() {
    let mut t = HandlerTable::new(Handler::Diagnose);
    t.bind(irq(12), Handler::Tick);
    t.bind(irq(53), Handler::UartRx);
    assert_eq!(t.dispatch(irq(12)), Handler::Tick);
    assert_eq!(t.dispatch(irq(53)), Handler::UartRx);
    assert_eq!(t.dispatch(irq(999)), Handler::Diagnose);
    assert_eq!(t.dispatch(Cause { class: TrapClass::Exception, code: 12 }), Handler::Diagnose);
}

#[test]
fn last_registration_wins() {
    let mut t = HandlerTable::new(Handler::Diagnose);
    t.bind(irq(12), Handler::MachineSoft);
    t.bind(irq(12), Handler::Tick);
    assert_eq!(t.dispatch(irq(12)), Handler::Tick);
    let mut ticking = false;
    let frame = TrapFrame { mcause: 0x8000_000c, mstatus: 0, mtval: 0, mepc: 0 };
    let a = handle_trap(&t, &mut ticking, frame);
    assert_eq!(a.handler, Handler::Tick);
    assert!(ticking);
}

#[test]
fn set_default_replaces_fallback() {
    let mut t = HandlerTable::new(Handler::Diagnose);
    t.bind(irq(3), Handler::MachineSoft);
    t.set_default(Handler::UserSoft);
    assert_eq!(t.dispatch(irq(4)), Handler::UserSoft);
    assert_eq!(t.dispatch(irq(3)), Handler::MachineSoft);
}

#[test]
fn system_table_routes() {
    let t = system_table();
    assert_eq!(t.dispatch(irq(0)), Handler::UserSoft);
    assert_eq!(t.dispatch(irq(3)), Handler::MachineSoft);
    assert_eq!(t.dispatch(irq(11)), Handler::MachineExternal);
    assert_eq!(t.dispatch(irq(12)), Handler::Tick);
    assert_eq!(t.dispatch(irq(53)), Handler::UartRx);
    assert_eq!(t.dispatch(irq(7)), Handler::Diagnose);
    assert_eq!(t.dispatch(Cause { class: TrapClass::Exception, code: 3 }), Handler::Diagnose);
}

#[test]
fn default_handler_reports_and_returns() {
    let t = system_table();
    let mut ticking = false;
    let frame = TrapFrame { mcause: 0x8000_03e7, mstatus: 0x1880, mtval: 0, mepc: 0x1234 };
    let a = handle_trap(&t, &mut ticking, frame);
    assert_eq!(a.handler, Handler::Diagnose);
    assert!(!a.clear_rx);
    assert!(!ticking);
    let expected = "Interrupt IRQ 999, status 0x1880 tval 0x0\r\n\
                    Interrupt code 999 cause 0x800003e7 type interrupt\r\n\
                    Where am I? 4660\r\n";
    assert_eq!(a.text, expected.as_bytes().to_vec());
}

#[test]
fn report_names_exceptions() {
    let frame = TrapFrame { mcause: 2, mstatus: 0, mtval: 0xdead_beef, mepc: 0x8000_0100 };
    let expected = "Interrupt IRQ 2, status 0x0 tval 0xdeadbeef\r\n\
                    Interrupt code 2 cause 0x2 type exception\r\n\
                    Where am I? 2147483904\r\n";
    assert_eq!(render_report(frame), expected.as_bytes().to_vec());
}

#[test]
fn tick_handler_alternates() {
    let t = system_table();
    let mut ticking = false;
    let frame = TrapFrame { mcause: 0x8000_000c, mstatus: 0, mtval: 0, mepc: 0 };
    let a = handle_trap(&t, &mut ticking, frame);
    assert_eq!(a.text, "\r🕰️  tick".as_bytes().to_vec());
    assert!(a.rearm_timer);
    assert!(ticking);
    let b = handle_trap(&t, &mut ticking, frame);
    assert_eq!(b.text, "\r🕰️  tock".as_bytes().to_vec());
    assert!(!ticking);
}

#[test]
fn uart_handler_acknowledges_and_echoes() {
    let t = system_table();
    let mut ticking = true;
    let frame = TrapFrame { mcause: 0x8000_0035, mstatus: 0, mtval: 0, mepc: 0 };
    let a = handle_trap(&t, &mut ticking, frame);
    assert_eq!(a.handler, Handler::UartRx);
    assert!(a.clear_rx);
    assert_eq!(a.text, b"echo".to_vec());
    assert!(ticking);
}

#[test]
fn software_interrupts_announce_themselves() {
    let t = system_table();
    let mut ticking = false;
    let soft = TrapFrame { mcause: 0x8000_0003, mstatus: 0, mtval: 0, mepc: 0 };
    assert_eq!(handle_trap(&t, &mut ticking, soft).text, b"MachineSoft\r\n".to_vec());
    let ext = TrapFrame { mcause: 0x8000_000b, mstatus: 0, mtval: 0, mepc: 0 };
    assert_eq!(handle_trap(&t, &mut ticking, ext).text, b"MachineExternal\r\n".to_vec());
    let user = TrapFrame { mcause: 0x8000_0000, mstatus: 0, mtval: 0, mepc: 0 };
    assert_eq!(handle_trap(&t, &mut ticking, user).text, b"UserSoft\r\n".to_vec());
}

#[test]
fn default_handler_is_repeatable() {
    let t = system_table();
    let frame = TrapFrame { mcause: 0x8000_03e7, mstatus: 0x88, mtval: 7, mepc: 100 };
    for start in [false, true] {
        let mut ticking = start;
        let a = handle_trap(&t, &mut ticking, frame);
        let b = handle_trap(&t, &mut ticking, frame);
        assert_eq!(a.handler, Handler::Diagnose);
        assert_eq!(b.handler, Handler::Diagnose);
        assert_eq!(a.text, b.text);
        assert_eq!(a.text, render_report(frame));
        assert_eq!(ticking, start);
    }
}
