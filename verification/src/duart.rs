use vstd::prelude::*;

use crate::err::DuartError;

verus! {

/// Start of the address window the device occupies.
pub const DUART_START_ADDR: usize = 0x200000;

/// First address past the device's window.
pub const DUART_END_ADDR: usize = 0x200040;

/// Nanoseconds between vertical-blank interrupts (60 Hz).
pub const VERTICAL_BLANK_DELAY: u64 = 16_666_666;

/// Upper bound on every per-character delay either baud table can select.
pub const MAX_CHAR_DELAY: u64 = 200_000_000;

/// Register offsets from the start of the window.
pub const MR12A: u8 = 0x03;

pub const CSRA: u8 = 0x07;

pub const CRA: u8 = 0x0b;

pub const THRA: u8 = 0x0f;

pub const IPCR_ACR: u8 = 0x13;

pub const ISR_MASK: u8 = 0x17;

pub const MR12B: u8 = 0x23;

pub const CSRB: u8 = 0x27;

pub const CRB: u8 = 0x2b;

pub const THRB: u8 = 0x2f;

pub const IP_OPCR: u8 = 0x37;

/// Port configuration bits: transmitter and receiver enables.
pub const CNF_ETX: u8 = 0x01;

pub const CNF_ERX: u8 = 0x02;

/// Port status bits.
pub const STS_RXR: u8 = 0x01;

pub const STS_TXR: u8 = 0x04;

pub const STS_TXE: u8 = 0x08;

pub const STS_OER: u8 = 0x10;

pub const STS_PER: u8 = 0x20;

pub const STS_FER: u8 = 0x40;

/// Command bits written to a command register.
pub const CMD_ERX: u8 = 0x01;

pub const CMD_DRX: u8 = 0x02;

pub const CMD_ETX: u8 = 0x04;

pub const CMD_DTX: u8 = 0x08;

/// Interrupt status register bits.
pub const ISTS_TAI: u8 = 0x01;

pub const ISTS_RAI: u8 = 0x02;

pub const ISTS_RBI: u8 = 0x20;

pub const ISTS_IPC: u8 = 0x80;

/// Interrupt vector bits.
pub const KEYBOARD_INT: u8 = 0x04;

pub const MOUSE_BLANK_INT: u8 = 0x02;

pub const TX_INT: u8 = 0x10;

pub const RX_INT: u8 = 0x20;

/// One serial port: two mode bytes behind a pointer that advances modulo
/// two on every mode-register access, a status byte, a configuration byte,
/// latched receive and transmit bytes, the pending flags, and the
/// wall-clock deadlines (in nanoseconds) they are measured against.
#[derive(Clone, Copy, Debug, Eq, PartialEq)]
pub struct Port {
    pub mode1: u8,
    pub mode2: u8,
    pub stat: u8,
    pub conf: u8,
    pub rx_data: u8,
    pub tx_data: u8,
    pub mode_ptr: u8,
    pub rx_pending: bool,
    pub tx_pending: bool,
    pub char_delay: u64,
    pub next_rx: u64,
    pub next_tx: u64,
}

/// The dual-channel UART. Port 0 is the host serial line; port 1 is the
/// keyboard. Wall-clock time reaches the device only as the `now`
/// parameters of its methods, in nanoseconds, so the whole device is a
/// deterministic state machine; the byte that `service` would hand the
/// host's transmit callback is returned to the caller instead.
#[derive(Clone, Copy, Debug, Eq, PartialEq)]
pub struct Duart {
    pub port0: Port,
    pub port1: Port,
    pub acr: u8,
    pub ipcr: u8,
    pub inprt: u8,
    pub istat: u8,
    pub imr: u8,
    pub ivec: u8,
    pub last_vblank: u64,
}

/// Per-character delays in nanoseconds, indexed by the baud-rate nibble of
/// a clock-select register, when bit 7 of the auxiliary control register is
/// clear.
pub open spec fn spec_delay_rate_a(idx: u8) -> u64 {
    if idx == 0 {
        200000000
    } else if idx == 1 {
        90909096
    } else if idx == 2 {
        74074072
    } else if idx == 3 {
        50000000
    } else if idx == 4 {
        33333336
    } else if idx == 5 {
        16666668
    } else if idx == 6 {
        8333334
    } else if idx == 7 {
        9523810
    } else if idx == 8 {
        4166667
    } else if idx == 9 {
        2083333
    } else if idx == 10 {
        1388888
    } else if idx == 11 {
        1041666
    } else {
        260416
    }
}

/// The companion table selected when bit 7 of the auxiliary control
/// register is set.
pub open spec fn spec_delay_rate_b(idx: u8) -> u64 {
    if idx == 0 {
        133333344
    } else if idx == 1 {
        90909096
    } else if idx == 2 {
        74074072
    } else if idx == 3 {
        66666672
    } else if idx == 4 {
        33333336
    } else if idx == 5 {
        16666668
    } else if idx == 6 {
        8333334
    } else if idx == 7 {
        5000000
    } else if idx == 8 {
        4166667
    } else if idx == 9 {
        205338
    } else if idx == 10 {
        5555555
    } else if idx == 11 {
        1041666
    } else {
        520833
    }
}

/// A port as it comes out of reset.
pub open spec fn spec_initial_port() -> Port {
    Port {
        mode1: 0,
        mode2: 0,
        stat: 0,
        conf: 0,
        rx_data: 0,
        tx_data: 0,
        mode_ptr: 0,
        rx_pending: false,
        tx_pending: false,
        char_delay: 1_000_000,
        next_rx: 0,
        next_tx: 0,
    }
}

/// The device as it comes out of reset.
pub open spec fn spec_initial_duart() -> Duart {
    Duart {
        port0: spec_initial_port(),
        port1: spec_initial_port(),
        acr: 0,
        ipcr: 0x40,
        inprt: 0xb,
        istat: 0,
        imr: 0,
        ivec: 0,
        last_vblank: 0,
    }
}

impl Duart {
    /// Mode pointers stay below two and character delays stay within the
    /// range the baud tables can produce.
    pub open spec fn wf(self) -> bool {
        &&& self.port0.mode_ptr < 2
        &&& self.port1.mode_ptr < 2
        &&& self.port0.char_delay <= MAX_CHAR_DELAY
        &&& self.port1.char_delay <= MAX_CHAR_DELAY
    }
}

/// The state change of a vertical blank: the mouse/blank interrupt is
/// raised, bit 6 of the input-port change register is set, and the
/// input-change interrupt status is set; then, if bit 2 of the input port
/// is clear, bit 6 is set again (a no-op kept for fidelity with the
/// hardware's change-of-state behaviour), else input-port bit 2 is cleared.
pub open spec fn spec_vertical_blank(d: Duart) -> Duart {
    let d1 = Duart {
        ivec: d.ivec | MOUSE_BLANK_INT,
        ipcr: d.ipcr | 0x40,
        istat: d.istat | ISTS_IPC,
        ..d
    };
    if d1.inprt & 0x04 == 0 {
        Duart { ipcr: d1.ipcr | 0x40, ..d1 }
    } else {
        Duart { inprt: d1.inprt & !0x04, ..d1 }
    }
}

/// The state change of a command byte written to a port's command
/// register: transmitter disable wins over enable, receiver disable wins
/// over enable, only port 0 drives the shared transmit/receive interrupt
/// bits, port 1 receive drives the keyboard interrupt, and bits 6:4 select
/// an extra action (reset mode pointer, force receiver ready, force
/// transmitter ready, clear error flags).
pub open spec fn spec_handle_command(d: Duart, cmd: u8, port: int) -> Duart {
    if cmd == 0 {
        d
    } else {
        let p = if port == 0 {
            d.port0
        } else {
            d.port1
        };
        let (p1, istat1, ivec1) = if cmd & CMD_DTX != 0 {
            let p1 = Port { conf: p.conf & !CNF_ETX, stat: (p.stat & !STS_TXR) & !STS_TXE, ..p };
            if port == 0 {
                (p1, d.istat & !ISTS_TAI, d.ivec & !TX_INT)
            } else {
                (p1, d.istat, d.ivec)
            }
        } else if cmd & CMD_ETX != 0 {
            let p1 = Port { conf: p.conf | CNF_ETX, stat: (p.stat | STS_TXR) | STS_TXE, ..p };
            if port == 0 {
                (p1, d.istat | ISTS_TAI, d.ivec | TX_INT)
            } else {
                (p1, d.istat, d.ivec)
            }
        } else {
            (p, d.istat, d.ivec)
        };
        let (p2, istat2, ivec2) = if cmd & CMD_DRX != 0 {
            let p2 = Port { conf: p1.conf & !CNF_ERX, stat: p1.stat & !STS_RXR, ..p1 };
            if port == 0 {
                (p2, istat1 & !ISTS_RAI, ivec1 & !RX_INT)
            } else {
                (p2, istat1 & !ISTS_RBI, ivec1 & !KEYBOARD_INT)
            }
        } else if cmd & CMD_ERX != 0 {
            (Port { conf: p1.conf | CNF_ERX, stat: p1.stat | STS_RXR, ..p1 }, istat1, ivec1)
        } else {
            (p1, istat1, ivec1)
        };
        let extra = (cmd >> 4) & 7;
        let p3 = if extra == 1 {
            Port { mode_ptr: 0, ..p2 }
        } else if extra == 2 {
            Port { stat: p2.stat | STS_RXR, conf: p2.conf | CNF_ERX, ..p2 }
        } else if extra == 3 {
            Port { stat: (p2.stat | STS_TXR) | STS_TXE, conf: p2.conf & !CNF_ETX, ..p2 }
        } else if extra == 4 {
            Port { stat: p2.stat & !(STS_FER | STS_PER | STS_OER), ..p2 }
        } else {
            p2
        };
        if port == 0 {
            Duart { port0: p3, istat: istat2, ivec: ivec2, ..d }
        } else {
            Duart { port1: p3, istat: istat2, ivec: ivec2, ..d }
        }
    }
}

/// The state change and returned byte of a read from a device register.
/// Mode-register reads advance the mode pointer; transmit-holding reads
/// deliver the latched receive byte and clear the receiver-ready status and
/// interrupt; a read of the input-port change register clears its low
/// nibble, the whole interrupt vector, and the input-change status.
/// Unmapped offsets read zero.
pub open spec fn spec_duart_read(d: Duart, off: u8) -> (Duart, u8) {
    if off == MR12A {
        let v = if d.port0.mode_ptr == 0 {
            d.port0.mode1
        } else {
            d.port0.mode2
        };
        (
            Duart { port0: Port { mode_ptr: ((d.port0.mode_ptr + 1) % 2) as u8, ..d.port0 }, ..d },
            v,
        )
    } else if off == CSRA {
        (d, d.port0.stat)
    } else if off == THRA {
        (
            Duart {
                port0: Port { stat: d.port0.stat & !STS_RXR, ..d.port0 },
                istat: d.istat & !ISTS_RAI,
                ivec: d.ivec & !RX_INT,
                ..d
            },
            d.port0.rx_data,
        )
    } else if off == IPCR_ACR {
        (
            Duart { ipcr: d.ipcr & !0x0f, ivec: 0, istat: d.istat & !ISTS_IPC, ..d },
            d.ipcr,
        )
    } else if off == ISR_MASK {
        (d, d.istat)
    } else if off == MR12B {
        let v = if d.port1.mode_ptr == 0 {
            d.port1.mode1
        } else {
            d.port1.mode2
        };
        (
            Duart { port1: Port { mode_ptr: ((d.port1.mode_ptr + 1) % 2) as u8, ..d.port1 }, ..d },
            v,
        )
    } else if off == CSRB {
        (d, d.port1.stat)
    } else if off == THRB {
        (
            Duart {
                port1: Port { stat: d.port1.stat & !STS_RXR, ..d.port1 },
                istat: d.istat & !ISTS_RBI,
                ivec: d.ivec & !KEYBOARD_INT,
                ..d
            },
            d.port1.rx_data,
        )
    } else if off == IP_OPCR {
        (d, d.inprt)
    } else {
        (d, 0)
    }
}

/// The state change of a write to a device register. A clock-select write
/// picks the port-0 character delay out of the baud table chosen by bit 7
/// of the auxiliary control register; a transmit-holding write latches the
/// byte, arms the transmitter with deadline `now + char_delay`, and clears
/// the transmitter-ready state; the port-1 transmit-holding register
/// answers a keyboard status request (byte 0x02) by forcing the status to
/// receiver-ready with parity error. Unmapped offsets ignore the write.
pub open spec fn spec_duart_write(d: Duart, off: u8, val: u8, now: u64) -> Duart {
    if off == MR12A {
        let p = d.port0;
        let p1 = if p.mode_ptr == 0 {
            Port { mode1: val, ..p }
        } else {
            Port { mode2: val, ..p }
        };
        Duart { port0: Port { mode_ptr: ((p.mode_ptr + 1) % 2) as u8, ..p1 }, ..d }
    } else if off == CSRA {
        let idx = (val >> 4) & 0xf;
        let delay = if d.acr & 0x80 == 0 {
            spec_delay_rate_a(idx)
        } else {
            spec_delay_rate_b(idx)
        };
        Duart { port0: Port { char_delay: delay, ..d.port0 }, ..d }
    } else if off == CRA {
        spec_handle_command(d, val, 0)
    } else if off == THRA {
        Duart {
            port0: Port {
                tx_data: val,
                next_tx: (now + d.port0.char_delay) as u64,
                tx_pending: true,
                stat: d.port0.stat & !(STS_TXE | STS_TXR),
                ..d.port0
            },
            ivec: d.ivec & !TX_INT,
            istat: d.istat & !ISTS_TAI,
            ..d
        }
    } else if off == IPCR_ACR {
        Duart { acr: val, ..d }
    } else if off == ISR_MASK {
        Duart { imr: val, ..d }
    } else if off == MR12B {
        let p = d.port1;
        let p1 = if p.mode_ptr == 0 {
            Port { mode1: val, ..p }
        } else {
            Port { mode2: val, ..p }
        };
        Duart { port1: Port { mode_ptr: ((p.mode_ptr + 1) % 2) as u8, ..p1 }, ..d }
    } else if off == CRB {
        spec_handle_command(d, val, 1)
    } else if off == THRB {
        let p1 = Port { tx_data: val, ..d.port1 };
        let p2 = if val == 0x02 {
            Port { stat: STS_RXR | STS_PER, ..p1 }
        } else {
            p1
        };
        Duart { port1: p2, ..d }
    } else {
        d
    }
}

/// The state change and returned byte of one service call at time `now`:
/// nothing happens unless port 0 has a transmission pending whose deadline
/// has passed; then the transmitter becomes ready and empty again, the
/// transmit interrupt is raised, and the latched byte either loops back
/// into the receiver (when mode-register-2 bits 7:6 equal 2) or is returned
/// for the host to deliver.
pub open spec fn spec_service(d: Duart, now: u64) -> (Duart, Option<u8>) {
    if d.port0.tx_pending && now >= d.port0.next_tx {
        let c = d.port0.tx_data;
        let p1 = Port {
            conf: d.port0.conf | CNF_ETX,
            stat: (d.port0.stat | STS_TXR) | STS_TXE,
            tx_pending: false,
            ..d.port0
        };
        let d1 = Duart {
            port0: p1,
            istat: d.istat | ISTS_TAI,
            ivec: d.ivec | TX_INT,
            ..d
        };
        if (d.port0.mode2 >> 6) & 3 == 2 {
            (
                Duart {
                    port0: Port { rx_data: c, stat: p1.stat | STS_RXR, ..p1 },
                    istat: d1.istat | ISTS_RAI,
                    ivec: d1.ivec | RX_INT,
                    ..d1
                },
                None,
            )
        } else {
            (d1, Some(c))
        }
    } else {
        (d, None)
    }
}

/// The state change and result of one received character on port 0 at time
/// `now`. The receiver models line pacing in two phases: a character that
/// arrives with no reception pending only arms a deadline one character
/// time away and is not delivered; a character that arrives while pending
/// and past the deadline is delivered (raising receiver-ready and the
/// receive interrupt) when the receiver is enabled, else the overrun flag
/// is set.
pub open spec fn spec_rx_char(d: Duart, c: u8, now: u64) -> (Duart, Result<(), DuartError>) {
    if d.port0.rx_pending {
        if now > d.port0.next_rx {
            if d.port0.conf & CNF_ERX != 0 {
                (
                    Duart {
                        port0: Port {
                            rx_pending: false,
                            rx_data: c,
                            stat: d.port0.stat | STS_RXR,
                            ..d.port0
                        },
                        istat: d.istat | ISTS_RAI,
                        ivec: d.ivec | RX_INT,
                        ..d
                    },
                    Ok(()),
                )
            } else {
                (
                    Duart { port0: Port { stat: d.port0.stat | STS_OER, ..d.port0 }, ..d },
                    Ok(()),
                )
            }
        } else {
            (d, Err(DuartError::ReceiverNotReady))
        }
    } else {
        (
            Duart {
                port0: Port {
                    next_rx: (now + d.port0.char_delay) as u64,
                    rx_pending: true,
                    ..d.port0
                },
                ..d
            },
            Err(DuartError::ReceiverNotReady),
        )
    }
}

/// The state change of one mouse-button event. A press clears the change
/// register, restores the input-port idle bits, raises the input-change
/// status and the mouse interrupt, then records the button both as a
/// change-register bit and as a cleared input-port line; a release does the
/// same but leaves the input-port lines alone.
pub open spec fn spec_mouse(d: Duart, button: u8, down: bool) -> Duart {
    let d1 = Duart {
        ipcr: 0,
        inprt: d.inprt | 0xb,
        istat: d.istat | ISTS_IPC,
        ivec: d.ivec | MOUSE_BLANK_INT,
        ..d
    };
    if button == 0 {
        Duart {
            ipcr: d1.ipcr | 0x80,
            inprt: if down {
                d1.inprt & !0x08
            } else {
                d1.inprt
            },
            ..d1
        }
    } else if button == 1 {
        Duart {
            ipcr: d1.ipcr | 0x20,
            inprt: if down {
                d1.inprt & !0x02
            } else {
                d1.inprt
            },
            ..d1
        }
    } else if button == 2 {
        Duart {
            ipcr: d1.ipcr | 0x10,
            inprt: if down {
                d1.inprt & !0x01
            } else {
                d1.inprt
            },
            ..d1
        }
    } else {
        d1
    }
}

impl Duart {
    /// A device fresh out of reset: ports idle with a one-millisecond
    /// character delay, change register showing the vertical-blank line,
    /// input port idle, no interrupts pending.
    pub fn new() -> (d: Duart)
        ensures
            d == spec_initial_duart(),
            d.wf(),
    {
        Duart {
            port0: Port {
                mode1: 0,
                mode2: 0,
                stat: 0,
                conf: 0,
                rx_data: 0,
                tx_data: 0,
                mode_ptr: 0,
                rx_pending: false,
                tx_pending: false,
                char_delay: 1_000_000,
                next_rx: 0,
                next_tx: 0,
            },
            port1: Port {
                mode1: 0,
                mode2: 0,
                stat: 0,
                conf: 0,
                rx_data: 0,
                tx_data: 0,
                mode_ptr: 0,
                rx_pending: false,
                tx_pending: false,
                char_delay: 1_000_000,
                next_rx: 0,
                next_tx: 0,
            },
            acr: 0,
            ipcr: 0x40,
            inprt: 0xb,
            istat: 0,
            imr: 0,
            ivec: 0,
            last_vblank: 0,
        }
    }

    /// Runs the vertical blank if one is due at `now` (recording `now` as
    /// the last blank), then returns the interrupt vector, or `None` when
    /// no interrupt is pending.
    pub fn get_interrupt(&mut self, now: u64) -> (r: Option<u8>)
        ensures
            *final(self) == (if now > old(self).last_vblank + VERTICAL_BLANK_DELAY {
                spec_vertical_blank((Duart { last_vblank: now, ..*old(self) }))
            } else {
                *old(self)
            }),
            r == (if final(self).ivec == 0 {
                Option::<u8>::None
            } else {
                Some(final(self).ivec)
            }),
    {
        if now > VERTICAL_BLANK_DELAY && now - VERTICAL_BLANK_DELAY > self.last_vblank {
            self.last_vblank = now;
            self.vertical_blank();
        }
        let val = self.ivec;
        if val == 0 {
            None
        } else {
            Some(val)
        }
    }

    /// Completes a pending port-0 transmission whose deadline has passed:
    /// marks the transmitter ready and empty, raises the transmit
    /// interrupt, and either loops the byte back into the receiver or
    /// returns it for the host to deliver. Otherwise does nothing.
    pub fn service(&mut self, now: u64) -> (r: Option<u8>)
        ensures
            *final(self) == spec_service(*old(self), now).0,
            r == spec_service(*old(self), now).1,
    {
        if self.port0.tx_pending && now >= self.port0.next_tx {
            let c = self.port0.tx_data;
            self.port0.conf = self.port0.conf | CNF_ETX;
            self.port0.stat = (self.port0.stat | STS_TXR) | STS_TXE;
            self.port0.tx_pending = false;
            self.istat = self.istat | ISTS_TAI;
            self.ivec = self.ivec | TX_INT;
            if (self.port0.mode2 >> 6) & 3 == 2 {
                self.port0.rx_data = c;
                self.port0.stat = self.port0.stat | STS_RXR;
                self.istat = self.istat | ISTS_RAI;
                self.ivec = self.ivec | RX_INT;
                None
            } else {
                Some(c)
            }
        } else {
            None
        }
    }

    /// Latches a keyboard byte into port 1 and raises the keyboard
    /// interrupt.
    pub fn handle_keyboard(&mut self, val: u8)
        ensures
            *final(self) == (Duart {
                port1: (Port {
                    rx_data: val,
                    stat: old(self).port1.stat | STS_RXR,
                    ..old(self).port1
                }),
                istat: old(self).istat | ISTS_RBI,
                ivec: old(self).ivec | KEYBOARD_INT,
                ..*old(self)
            }),
    {
        self.port1.rx_data = val;
        self.port1.stat = self.port1.stat | STS_RXR;
        self.istat = self.istat | ISTS_RBI;
        self.ivec = self.ivec | KEYBOARD_INT;
    }

    /// Performs the vertical-blank state change.
    pub fn vertical_blank(&mut self)
        ensures
            *final(self) == spec_vertical_blank(*old(self)),
    {
        self.ivec = self.ivec | MOUSE_BLANK_INT;
        self.ipcr = self.ipcr | 0x40;
        self.istat = self.istat | ISTS_IPC;
        if self.inprt & 0x04 == 0 {
            self.ipcr = self.ipcr | 0x40;
        } else {
            self.inprt = self.inprt & !0x04;
        }
    }

    /// Records a mouse-button press.
    pub fn mouse_down(&mut self, button: u8)
        ensures
            *final(self) == spec_mouse(*old(self), button, true),
    {
        self.ipcr = 0;
        self.inprt = self.inprt | 0xb;
        self.istat = self.istat | ISTS_IPC;
        self.ivec = self.ivec | MOUSE_BLANK_INT;
        if button == 0 {
            self.ipcr = self.ipcr | 0x80;
            self.inprt = self.inprt & !0x08;
        } else if button == 1 {
            self.ipcr = self.ipcr | 0x20;
            self.inprt = self.inprt & !0x02;
        } else if button == 2 {
            self.ipcr = self.ipcr | 0x10;
            self.inprt = self.inprt & !0x01;
        }
    }

    /// Records a mouse-button release.
    pub fn mouse_up(&mut self, button: u8)
        ensures
            *final(self) == spec_mouse(*old(self), button, false),
    {
        self.ipcr = 0;
        self.inprt = self.inprt | 0xb;
        self.istat = self.istat | ISTS_IPC;
        self.ivec = self.ivec | MOUSE_BLANK_INT;
        if button == 0 {
            self.ipcr = self.ipcr | 0x80;
        } else if button == 1 {
            self.ipcr = self.ipcr | 0x20;
        } else if button == 2 {
            self.ipcr = self.ipcr | 0x10;
        }
    }

    /// Whether port 0 holds a received byte not yet read.
    pub fn rx_ready(&self) -> (r: bool)
        ensures
            r == (self.port0.stat & STS_RXR != 0),
    {
        self.port0.stat & STS_RXR != 0
    }

    /// Offers a received character to port 0 at time `now`, with the
    /// two-phase pacing described at `spec_rx_char`.
    pub fn rx_char(&mut self, c: u8, now: u64) -> (r: Result<(), DuartError>)
        requires
            old(self).wf(),
            now <= u64::MAX - MAX_CHAR_DELAY,
        ensures
            final(self).wf(),
            *final(self) == spec_rx_char(*old(self), c, now).0,
            r == spec_rx_char(*old(self), c, now).1,
    {
        if self.port0.rx_pending {
            if now > self.port0.next_rx {
                if self.port0.conf & CNF_ERX != 0 {
                    self.port0.rx_pending = false;
                    self.port0.rx_data = c;
                    self.port0.stat = self.port0.stat | STS_RXR;
                    self.istat = self.istat | ISTS_RAI;
                    self.ivec = self.ivec | RX_INT;
                } else {
                    self.port0.stat = self.port0.stat | STS_OER;
                }
                Ok(())
            } else {
                Err(DuartError::ReceiverNotReady)
            }
        } else {
            self.port0.next_rx = now + self.port0.char_delay;
            self.port0.rx_pending = true;
            Err(DuartError::ReceiverNotReady)
        }
    }

    /// Applies a command byte to the selected port.
    pub fn handle_command(&mut self, cmd: u8, port: usize)
        requires
            port < 2,
            old(self).wf(),
        ensures
            final(self).wf(),
            *final(self) == spec_handle_command(*old(self), cmd, port as int),
    {
        if cmd == 0 {
            return;
        }
        let mut p = if port == 0 {
            self.port0
        } else {
            self.port1
        };
        if cmd & CMD_DTX != 0 {
            p.conf = p.conf & !CNF_ETX;
            p.stat = (p.stat & !STS_TXR) & !STS_TXE;
            if port == 0 {
                self.ivec = self.ivec & !TX_INT;
                self.istat = self.istat & !ISTS_TAI;
            }
        } else if cmd & CMD_ETX != 0 {
            p.conf = p.conf | CNF_ETX;
            p.stat = (p.stat | STS_TXR) | STS_TXE;
            if port == 0 {
                self.istat = self.istat | ISTS_TAI;
                self.ivec = self.ivec | TX_INT;
            }
        }
        if cmd & CMD_DRX != 0 {
            p.conf = p.conf & !CNF_ERX;
            p.stat = p.stat & !STS_RXR;
            if port == 0 {
                self.ivec = self.ivec & !RX_INT;
                self.istat = self.istat & !ISTS_RAI;
            } else {
                self.ivec = self.ivec & !KEYBOARD_INT;
                self.istat = self.istat & !ISTS_RBI;
            }
        } else if cmd & CMD_ERX != 0 {
            p.conf = p.conf | CNF_ERX;
            p.stat = p.stat | STS_RXR;
        }
        let extra = (cmd >> 4) & 7;
        if extra == 1 {
            p.mode_ptr = 0;
        } else if extra == 2 {
            p.stat = p.stat | STS_RXR;
            p.conf = p.conf | CNF_ERX;
        } else if extra == 3 {
            p.stat = (p.stat | STS_TXR) | STS_TXE;
            p.conf = p.conf & !CNF_ETX;
        } else if extra == 4 {
            p.stat = p.stat & !(STS_FER | STS_PER | STS_OER);
        }
        if port == 0 {
            self.port0 = p;
        } else {
            self.port1 = p;
        }
    }

    /// Reads the device register at `address` (an absolute bus address
    /// inside the device's window), with the register map's side effects.
    pub fn read_byte(&mut self, address: usize) -> (r: u8)
        requires
            DUART_START_ADDR <= address < DUART_END_ADDR,
            old(self).wf(),
        ensures
            final(self).wf(),
            *final(self) == spec_duart_read(*old(self), (address - DUART_START_ADDR) as u8).0,
            r == spec_duart_read(*old(self), (address - DUART_START_ADDR) as u8).1,
    {
        let off = (address - DUART_START_ADDR) as u8;
        if off == MR12A {
            let val = if self.port0.mode_ptr == 0 {
                self.port0.mode1
            } else {
                self.port0.mode2
            };
            self.port0.mode_ptr = (self.port0.mode_ptr + 1) % 2;
            val
        } else if off == CSRA {
            self.port0.stat
        } else if off == THRA {
            self.port0.stat = self.port0.stat & !STS_RXR;
            self.istat = self.istat & !ISTS_RAI;
            self.ivec = self.ivec & !RX_INT;
            self.port0.rx_data
        } else if off == IPCR_ACR {
            let result = self.ipcr;
            self.ipcr = self.ipcr & !0x0f;
            self.ivec = 0;
            self.istat = self.istat & !ISTS_IPC;
            result
        } else if off == ISR_MASK {
            self.istat
        } else if off == MR12B {
            let val = if self.port1.mode_ptr == 0 {
                self.port1.mode1
            } else {
                self.port1.mode2
            };
            self.port1.mode_ptr = (self.port1.mode_ptr + 1) % 2;
            val
        } else if off == CSRB {
            self.port1.stat
        } else if off == THRB {
            self.port1.stat = self.port1.stat & !STS_RXR;
            self.istat = self.istat & !ISTS_RBI;
            self.ivec = self.ivec & !KEYBOARD_INT;
            self.port1.rx_data
        } else if off == IP_OPCR {
            self.inprt
        } else {
            0
        }
    }

    /// Writes the device register at `address` (an absolute bus address
    /// inside the device's window). A clock-select write must carry a baud
    /// nibble the tables define (below 13); a transmit arms a deadline at
    /// `now + char_delay`.
    pub fn write_byte(&mut self, address: usize, val: u8, now: u64)
        requires
            DUART_START_ADDR <= address < DUART_END_ADDR,
            old(self).wf(),
            address - DUART_START_ADDR == CSRA ==> (val >> 4) & 0xf < 13,
            now <= u64::MAX - MAX_CHAR_DELAY,
        ensures
            final(self).wf(),
            *final(self) == spec_duart_write(*old(self), (address - DUART_START_ADDR) as u8, val, now),
    {
        let off = (address - DUART_START_ADDR) as u8;
        if off == MR12A {
            if self.port0.mode_ptr == 0 {
                self.port0.mode1 = val;
            } else {
                self.port0.mode2 = val;
            }
            self.port0.mode_ptr = (self.port0.mode_ptr + 1) % 2;
        } else if off == CSRA {
            let idx = (val >> 4) & 0xf;
            let delay = if self.acr & 0x80 == 0 {
                self.delay_rate_a(idx)
            } else {
                self.delay_rate_b(idx)
            };
            self.port0.char_delay = delay;
        } else if off == CRA {
            self.handle_command(val, 0);
        } else if off == THRA {
            self.port0.tx_data = val;
            self.port0.next_tx = now + self.port0.char_delay;
            self.port0.tx_pending = true;
            self.port0.stat = self.port0.stat & !(STS_TXE | STS_TXR);
            self.ivec = self.ivec & !TX_INT;
            self.istat = self.istat & !ISTS_TAI;
        } else if off == IPCR_ACR {
            self.acr = val;
        } else if off == ISR_MASK {
            self.imr = val;
        } else if off == MR12B {
            if self.port1.mode_ptr == 0 {
                self.port1.mode1 = val;
            } else {
                self.port1.mode2 = val;
            }
            self.port1.mode_ptr = (self.port1.mode_ptr + 1) % 2;
        } else if off == CRB {
            self.handle_command(val, 1);
        } else if off == THRB {
            self.port1.tx_data = val;
            if val == 0x02 {
                self.port1.stat = STS_RXR | STS_PER;
            }
        }
    }

    /// Looks up the first baud table.
    fn delay_rate_a(&self, idx: u8) -> (r: u64)
        requires
            idx < 13,
        ensures
            r == spec_delay_rate_a(idx),
            r <= MAX_CHAR_DELAY,
    {
        if idx == 0 {
            200000000
        } else if idx == 1 {
            90909096
        } else if idx == 2 {
            74074072
        } else if idx == 3 {
            50000000
        } else if idx == 4 {
            33333336
        } else if idx == 5 {
            16666668
        } else if idx == 6 {
            8333334
        } else if idx == 7 {
            9523810
        } else if idx == 8 {
            4166667
        } else if idx == 9 {
            2083333
        } else if idx == 10 {
            1388888
        } else if idx == 11 {
            1041666
        } else {
            260416
        }
    }

    /// Looks up the second baud table.
    fn delay_rate_b(&self, idx: u8) -> (r: u64)
        requires
            idx < 13,
        ensures
            r == spec_delay_rate_b(idx),
            r <= MAX_CHAR_DELAY,
    {
        if idx == 0 {
            133333344
        } else if idx == 1 {
            90909096
        } else if idx == 2 {
            74074072
        } else if idx == 3 {
            66666672
        } else if idx == 4 {
            33333336
        } else if idx == 5 {
            16666668
        } else if idx == 6 {
            8333334
        } else if idx == 7 {
            5000000
        } else if idx == 8 {
            4166667
        } else if idx == 9 {
            205338
        } else if idx == 10 {
            5555555
        } else if idx == 11 {
            1041666
        } else {
            520833
        }
    }
}

} // verus!
