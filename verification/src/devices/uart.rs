//! Small 8250/16550 model: 8-bit register spacing, one interrupt line to the
//! PLIC, a 16-byte receive FIFO and an immediately sent transmit holding
//! register; implements THR/RBR, IER, IIR/FCR, LCR, LSR, MCR, MSR and
//! DLL/DLH. The host side (the terminal) is outside the device: `tick`
//! takes the byte that arrived and hands back the byte to send.
use std::collections::VecDeque;
use std::ops::Range;

use vstd::prelude::*;

use crate::bus::BusTxSize;
use crate::devices::plic::{Plic, PlicState};

verus! {

const UART_BASE: u64 = 0x1000_0000;

const UART_SIZE: u64 = 0x100;

/// Depth of the receive FIFO.
pub const RX_FIFO_DEPTH: usize = 16;

pub ghost struct UartState {
    pub ier: u8,
    pub lcr: u8,
    pub mcr: u8,
    pub dll: u8,
    pub dlh: u8,
    pub lsr: u8,
    pub msr: u8,
    pub rx: Seq<u8>,
    pub tx_holding: Option<u8>,
    pub irq_state: bool,
    pub silent: bool,
}

pub struct Uart {
    ier: u8,
    lcr: u8,
    mcr: u8,
    dll: u8,
    dlh: u8,
    lsr: u8,
    msr: u8,
    rx: VecDeque<u8>,
    tx_holding: Option<u8>,
    irq_state: bool,
    silent: bool,
}

impl View for Uart {
    type V = UartState;

    closed spec fn view(&self) -> UartState {
        UartState {
            ier: self.ier,
            lcr: self.lcr,
            mcr: self.mcr,
            dll: self.dll,
            dlh: self.dlh,
            lsr: self.lsr,
            msr: self.msr,
            rx: self.rx@,
            tx_holding: self.tx_holding,
            irq_state: self.irq_state,
            silent: self.silent,
        }
    }
}

pub open spec fn uart_base() -> u64 {
    0x1000_0000
}

pub const IER_RX: u8 = 0x01;

pub const IER_TX: u8 = 0x02;

pub const LSR_DR: u8 = 0x01;

pub const LSR_OE: u8 = 0x02;

pub const LSR_THRE: u8 = 0x20;

pub const LSR_TEMT: u8 = 0x40;

pub const IIR_NO_INT: u8 = 0x01;

pub const IIR_TX_EMPTY: u8 = 0x02;

pub const IIR_RX_AVAIL: u8 = 0x04;

/// The device as reset, sending its output when `silent` is false.
pub open spec fn reset_uart(silent: bool) -> UartState {
    UartState {
        ier: 0,
        lcr: 0x03,
        mcr: 0,
        dll: 0,
        dlh: 0,
        lsr: 0x20u8 | 0x40u8,
        msr: 0,
        rx: Seq::empty(),
        tx_holding: None,
        irq_state: false,
        silent,
    }
}

impl UartState {
    pub open spec fn load_ok(addr: u64, size: BusTxSize) -> bool {
        size == BusTxSize::Bits8 && uart_base() <= addr
    }

    pub open spec fn dlab(self) -> bool {
        self.lcr & 0x80 != 0
    }

    /// The interrupt identification: received data (if enabled) takes
    /// precedence over an empty transmitter (if enabled).
    pub open spec fn iir(self) -> u8 {
        if self.lsr & 0x01 != 0 && self.ier & 0x01 != 0 {
            0x04
        } else if self.lsr & 0x20 != 0 && self.ier & 0x02 != 0 {
            0x02
        } else {
            0x01
        }
    }

    /// The interrupt line after a register change: raised or lowered at the
    /// PLIC when it differs from what the device last signalled.
    pub open spec fn sync_irq(self, plic: PlicState) -> (UartState, PlicState) {
        let want = self.iir() != 0x01;
        if want && !self.irq_state {
            (UartState { irq_state: true, ..self }, PlicState { pending: true, ..plic })
        } else if !want && self.irq_state {
            (UartState { irq_state: false, ..self }, PlicState { pending: false, ..plic })
        } else {
            (self, plic)
        }
    }

    pub open spec fn load_value(self, addr: u64) -> u64 {
        let off = addr - uart_base();
        if off == 0 {
            if self.dlab() {
                self.dll as u64
            } else if self.rx.len() > 0 {
                self.rx[0] as u64
            } else {
                0
            }
        } else if off == 1 {
            if self.dlab() { self.dlh as u64 } else { self.ier as u64 }
        } else if off == 2 {
            self.iir() as u64
        } else if off == 3 {
            self.lcr as u64
        } else if off == 4 {
            self.mcr as u64
        } else if off == 5 {
            self.lsr as u64
        } else if off == 6 {
            self.msr as u64
        } else {
            0
        }
    }

    /// Registers after a read, before the interrupt line is updated: reading
    /// the receive buffer consumes a byte.
    pub open spec fn load_regs(self, addr: u64) -> UartState {
        if addr - uart_base() == 0 && !self.dlab() {
            let rx = if self.rx.len() > 0 { self.rx.drop_first() } else { self.rx };
            UartState {
                rx,
                lsr: if rx.len() == 0 { self.lsr & !0x01u8 } else { self.lsr },
                ..self
            }
        } else {
            self
        }
    }

    /// Registers after a write of the byte `b`, before the interrupt line is
    /// updated.
    pub open spec fn store_regs(self, addr: u64, b: u8) -> UartState {
        let off = addr - uart_base();
        if off == 0 {
            if self.dlab() {
                UartState { dll: b, ..self }
            } else {
                UartState { tx_holding: Some(b), lsr: self.lsr & !0x20u8, ..self }
            }
        } else if off == 1 {
            if self.dlab() { UartState { dlh: b, ..self } } else { UartState { ier: b & 0x0F, ..self } }
        } else if off == 2 {
            if b & 1 != 0 {
                UartState { rx: Seq::empty(), lsr: self.lsr & !0x01u8, ..self }
            } else {
                self
            }
        } else if off == 3 {
            UartState { lcr: b, ..self }
        } else if off == 4 {
            UartState { mcr: b, ..self }
        } else {
            self
        }
    }

    /// Registers after one host tick, before the interrupt line is updated:
    /// the held byte is sent, and an arriving byte is queued or, with the
    /// FIFO full, flagged as an overrun.
    pub open spec fn tick_regs(self, input: Option<u8>) -> UartState {
        let s = if self.tx_holding is Some {
            UartState { tx_holding: None, lsr: self.lsr | (0x20u8 | 0x40u8), ..self }
        } else {
            self
        };
        match input {
            Some(byte) => if s.rx.len() >= 16 {
                UartState { lsr: s.lsr | 0x02u8, ..s }
            } else {
                UartState { rx: s.rx.push(byte), lsr: s.lsr | 0x01u8, ..s }
            },
            None => s,
        }
    }

    /// The byte a tick hands to the host: the held byte, unless silenced.
    pub open spec fn tick_output(self) -> Option<u8> {
        if self.silent { None } else { self.tx_holding }
    }
}

impl Uart {
    pub const ADDR_RANGE: Range<u64> = 0x1000_0000..0x1000_0100;

    /// A device whose output goes to the host.
    pub fn new() -> (r: Self)
        ensures
            r@ == reset_uart(false),
    {
        let r = Self {
            ier: 0,
            lcr: 0x03,
            mcr: 0,
            dll: 0,
            dlh: 0,
            lsr: LSR_THRE | LSR_TEMT,
            msr: 0,
            rx: VecDeque::with_capacity(RX_FIFO_DEPTH),
            tx_holding: None,
            irq_state: false,
            silent: false,
        };
        proof {
            assert(r@.rx =~= Seq::<u8>::empty());
        }
        r
    }

    /// A device whose output is dropped.
    pub fn silent() -> (r: Self)
        ensures
            r@ == reset_uart(true),
    {
        let r = Self {
            ier: 0,
            lcr: 0x03,
            mcr: 0,
            dll: 0,
            dlh: 0,
            lsr: LSR_THRE | LSR_TEMT,
            msr: 0,
            rx: VecDeque::with_capacity(RX_FIFO_DEPTH),
            tx_holding: None,
            irq_state: false,
            silent: true,
        };
        proof {
            assert(r@.rx =~= Seq::<u8>::empty());
        }
        r
    }

    pub fn load(&mut self, addr: u64, size: BusTxSize, plic: &mut Plic) -> (r: u64)
        requires
            UartState::load_ok(addr, size),
        ensures
            r == old(self)@.load_value(addr),
            (final(self)@, final(plic)@) == old(self)@.load_regs(addr).sync_irq(old(plic)@),
    {
        let off = addr - UART_BASE;
        let dlab = self.lcr & 0x80 != 0;
        let val = if off == 0 {
            if dlab {
                self.dll as u64
            } else {
                let b = match self.rx.pop_front() {
                    Some(b) => b,
                    None => 0,
                };
                if self.rx.len() == 0 {
                    self.lsr = self.lsr & !LSR_DR;
                }
                b as u64
            }
        } else if off == 1 {
            if dlab { self.dlh as u64 } else { self.ier as u64 }
        } else if off == 2 {
            self.calc_iir() as u64
        } else if off == 3 {
            self.lcr as u64
        } else if off == 4 {
            self.mcr as u64
        } else if off == 5 {
            self.lsr as u64
        } else if off == 6 {
            self.msr as u64
        } else {
            0
        };
        self.update_irq(plic);
        val
    }

    pub fn store(&mut self, addr: u64, val: u64, size: BusTxSize, plic: &mut Plic)
        requires
            UartState::load_ok(addr, size),
        ensures
            (final(self)@, final(plic)@) == old(self)@.store_regs(addr, (val % 0x100) as u8).sync_irq(
                old(plic)@,
            ),
    {
        let b = (val % 0x100) as u8;
        let off = addr - UART_BASE;
        let dlab = self.lcr & 0x80 != 0;
        if off == 0 {
            if dlab {
                self.dll = b;
            } else {
                self.tx_holding = Some(b);
                self.lsr = self.lsr & !LSR_THRE;
            }
        } else if off == 1 {
            if dlab {
                self.dlh = b;
            } else {
                self.ier = b & 0x0F;
            }
        } else if off == 2 {
            if b & 1 != 0 {
                self.rx.clear();
                self.lsr = self.lsr & !LSR_DR;
            }
        } else if off == 3 {
            self.lcr = b;
        } else if off == 4 {
            self.mcr = b;
        }
        proof {
            assert(self@.rx =~= old(self)@.store_regs(addr, b).rx);
        }
        self.update_irq(plic);
    }

    /// One host tick: sends the held byte (returned to the caller unless the
    /// device is silent), queues `input` if a byte arrived, and updates the
    /// interrupt line.
    pub fn tick(&mut self, plic: &mut Plic, input: Option<u8>) -> (r: Option<u8>)
        ensures
            r == old(self)@.tick_output(),
            (final(self)@, final(plic)@) == old(self)@.tick_regs(input).sync_irq(old(plic)@),
    {
        let mut out = None;
        if let Some(ch) = self.tx_holding {
            if !self.silent {
                out = Some(ch);
            }
            self.tx_holding = None;
            self.lsr = self.lsr | (LSR_THRE | LSR_TEMT);
        }
        if let Some(byte) = input {
            if self.rx.len() >= RX_FIFO_DEPTH {
                self.lsr = self.lsr | LSR_OE;
            } else {
                self.rx.push_back(byte);
                self.lsr = self.lsr | LSR_DR;
            }
        }
        self.update_irq(plic);
        out
    }

    fn calc_iir(&self) -> (r: u8)
        ensures
            r == self@.iir(),
    {
        if self.lsr & LSR_DR != 0 && self.ier & IER_RX != 0 {
            IIR_RX_AVAIL
        } else if self.lsr & LSR_THRE != 0 && self.ier & IER_TX != 0 {
            IIR_TX_EMPTY
        } else {
            IIR_NO_INT
        }
    }

    fn update_irq(&mut self, plic: &mut Plic)
        ensures
            (final(self)@, final(plic)@) == old(self)@.sync_irq(old(plic)@),
    {
        let want_irq = self.calc_iir() != IIR_NO_INT;
        if want_irq && !self.irq_state {
            plic.raise_irq();
            self.irq_state = true;
        } else if !want_irq && self.irq_state {
            plic.clear_irq();
            self.irq_state = false;
        }
    }
}


/// Law: the receive FIFO is first in, first out. A byte that arrives while
/// there is room goes to the back of the queue, and a read of the receive
/// buffer (with the divisor latch closed) returns the oldest byte and
/// removes it.
pub proof fn lemma_rx_fifo(u: UartState, byte: u8)
    requires
        u.rx.len() < 16,
        !u.dlab(),
    ensures
        u.tick_regs(Some(byte)).rx == u.rx.push(byte),
        u.tick_regs(Some(byte)).load_value(uart_base()) == (if u.rx.len() == 0 { byte } else { u.rx[0] }) as u64,
        u.tick_regs(Some(byte)).load_regs(uart_base()).rx == u.rx.push(byte).drop_first(),
{
}

/// Law: a byte written to the transmit holding register (divisor latch
/// closed) is what the next tick hands to the host, unless the device is
/// silenced; that tick empties the holding register again.
pub proof fn lemma_tx_sent_on_tick(u: UartState, b: u8, input: Option<u8>)
    requires
        !u.dlab(),
        !u.silent,
    ensures
        u.store_regs(uart_base(), b).tick_output() == Some(b),
        u.store_regs(uart_base(), b).tick_regs(input).tx_holding is None,
{
}

} // verus!
