use dmd_core::duart::{
    Duart, CMD_ERX, DUART_START_ADDR, ISTS_IPC, ISTS_RAI, ISTS_RBI, ISTS_TAI, KEYBOARD_INT,
    MOUSE_BLANK_INT, RX_INT, STS_OER, STS_PER, STS_RXR, STS_TXE, STS_TXR, TX_INT,
    VERTICAL_BLANK_DELAY, CRA, CSRA, IPCR_ACR, MR12A, THRA, THRB,
};
use dmd_core::err::DuartError;

fn reg(off: u8) -> usize {
    DUART_START_ADDR + off as usize
}

#[test]
fn csra_write_selects_char_delay_from_table_a() {
    // With ACR bit 7 clear, a clock-select of 0xFF picks the fastest rate:
    // 260,416 ns per character.
    let mut duart = Duart::new();
    duart.write_byte(reg(CSRA), 0xff, 0);
    assert_eq!(260_416, duart.port0.char_delay);
}

#[test]
fn csra_write_selects_char_delay_from_table_b() {
    // With ACR bit 7 set, the same nibble picks the second table.
    let mut duart = Duart::new();
    duart.write_byte(reg(IPCR_ACR), 0x80, 0);
    duart.write_byte(reg(CSRA), 0xff, 0);
    assert_eq!(520_833, duart.port0.char_delay);
}

#[test]
fn transmit_completes_after_char_delay() {
    // Writing a byte to the transmit register arms a deadline one
    // character time away; once it passes, service returns the byte and
    // raises the transmit interrupt status.
    let mut duart = Duart::new();
    duart.write_byte(reg(CSRA), 0xff, 0);
    duart.write_byte(reg(THRA), 0x42, 1_000);
    assert!(duart.port0.tx_pending);
    // Too early: nothing happens.
    assert_eq!(None, duart.service(1_000));
    assert!(duart.port0.tx_pending);
    // Past the deadline the byte comes out.
    assert_eq!(Some(0x42), duart.service(1_000 + 260_416));
    assert!(!duart.port0.tx_pending);
    assert_ne!(0, duart.istat & ISTS_TAI);
    assert_ne!(0, duart.ivec & TX_INT);
    assert_ne!(0, duart.port0.stat & STS_TXR);
    assert_ne!(0, duart.port0.stat & STS_TXE);
}

#[test]
fn transmit_loops_back_when_mode_selects_loopback() {
    // Mode register 2 bits 7:6 equal to 2 select loopback: the transmitted
    // byte lands in the receiver instead of going to the host.
    let mut duart = Duart::new();
    duart.write_byte(reg(MR12A), 0x00, 0); // MR1
    duart.write_byte(reg(MR12A), 0x80, 0); // MR2: loopback
    duart.write_byte(reg(THRA), 0x55, 0);
    assert_eq!(None, duart.service(duart.port0.next_tx));
    assert_eq!(0x55, duart.port0.rx_data);
    assert_ne!(0, duart.port0.stat & STS_RXR);
    assert_ne!(0, duart.istat & ISTS_RAI);
    assert_ne!(0, duart.ivec & RX_INT);
}

#[test]
fn rx_char_paces_then_delivers() {
    let mut duart = Duart::new();
    duart.handle_command(CMD_ERX, 0); // enable the receiver
    // First character only arms the pacing deadline.
    assert_eq!(Err(DuartError::ReceiverNotReady), duart.rx_char(0x41, 0));
    // Before the deadline the character is refused.
    assert_eq!(Err(DuartError::ReceiverNotReady), duart.rx_char(0x41, 1));
    // After the deadline it is delivered.
    assert_eq!(Ok(()), duart.rx_char(0x41, duart.port0.next_rx + 1));
    assert_eq!(0x41, duart.port0.rx_data);
    assert_ne!(0, duart.port0.stat & STS_RXR);
    assert_ne!(0, duart.ivec & RX_INT);
}

#[test]
fn rx_char_sets_overrun_when_receiver_disabled() {
    let mut duart = Duart::new();
    assert_eq!(Err(DuartError::ReceiverNotReady), duart.rx_char(0x41, 0));
    assert_eq!(Ok(()), duart.rx_char(0x41, duart.port0.next_rx + 1));
    assert_ne!(0, duart.port0.stat & STS_OER);
    assert_eq!(0, duart.port0.stat & STS_RXR);
}

#[test]
fn rx_ready_reflects_receiver_status() {
    let mut duart = Duart::new();
    assert!(!duart.rx_ready());
    duart.handle_command(CMD_ERX, 0);
    assert_eq!(Err(DuartError::ReceiverNotReady), duart.rx_char(0x41, 0));
    assert_eq!(Ok(()), duart.rx_char(0x41, duart.port0.next_rx + 1));
    assert!(duart.rx_ready());
}

#[test]
fn thra_read_clears_receiver_state() {
    let mut duart = Duart::new();
    duart.handle_command(CMD_ERX, 0);
    assert_eq!(Err(DuartError::ReceiverNotReady), duart.rx_char(0x41, 0));
    assert_eq!(Ok(()), duart.rx_char(0x41, duart.port0.next_rx + 1));
    assert_eq!(0x41, duart.read_byte(reg(THRA)));
    assert_eq!(0, duart.port0.stat & STS_RXR);
    assert_eq!(0, duart.istat & ISTS_RAI);
    assert_eq!(0, duart.ivec & RX_INT);
}

#[test]
fn mode_pointer_advances_and_wraps() {
    let mut duart = Duart::new();
    duart.write_byte(reg(MR12A), 0x13, 0);
    duart.write_byte(reg(MR12A), 0x07, 0);
    assert_eq!(0x13, duart.port0.mode1);
    assert_eq!(0x07, duart.port0.mode2);
    // The pointer wrapped back to MR1.
    assert_eq!(0x13, duart.read_byte(reg(MR12A)));
    assert_eq!(0x07, duart.read_byte(reg(MR12A)));
}

#[test]
fn command_reset_mode_pointer() {
    let mut duart = Duart::new();
    duart.write_byte(reg(MR12A), 0x13, 0); // pointer now at MR2
    duart.write_byte(reg(CRA), 0x10, 0); // extra action 1: reset pointer
    assert_eq!(0, duart.port0.mode_ptr);
}

#[test]
fn command_force_transmitter_ready() {
    let mut duart = Duart::new();
    duart.write_byte(reg(CRA), 0x30, 0); // extra action 3
    assert_ne!(0, duart.port0.stat & STS_TXR);
    assert_ne!(0, duart.port0.stat & STS_TXE);
}

#[test]
fn command_clears_error_flags() {
    let mut duart = Duart::new();
    duart.write_byte(reg(THRB), 0x02, 0); // force RXR | PER on port 1
    assert_ne!(0, duart.port1.stat & STS_PER);
    duart.write_byte(reg(0x2b), 0x40, 0); // CRB extra action 4
    assert_eq!(0, duart.port1.stat & STS_PER);
}

#[test]
fn keyboard_byte_raises_keyboard_interrupt() {
    let mut duart = Duart::new();
    duart.handle_keyboard(0x5a);
    assert_eq!(0x5a, duart.port1.rx_data);
    assert_ne!(0, duart.port1.stat & STS_RXR);
    assert_ne!(0, duart.istat & ISTS_RBI);
    assert_ne!(0, duart.ivec & KEYBOARD_INT);
}

#[test]
fn vertical_blank_fires_at_sixty_hertz() {
    let mut duart = Duart::new();
    // Immediately after reset no blank is due.
    assert_eq!(None, duart.get_interrupt(1));
    // One frame later the blank interrupt appears.
    let r = duart.get_interrupt(VERTICAL_BLANK_DELAY + 2);
    assert!(r.is_some());
    assert_ne!(0, r.unwrap() & MOUSE_BLANK_INT);
    assert_ne!(0, duart.ipcr & 0x40);
    assert_ne!(0, duart.istat & ISTS_IPC);
}

#[test]
fn ipcr_read_clears_interrupt_state() {
    let mut duart = Duart::new();
    duart.vertical_blank();
    let v = duart.read_byte(reg(IPCR_ACR));
    assert_ne!(0, v & 0x40);
    assert_eq!(0, duart.ivec);
    assert_eq!(0, duart.istat & ISTS_IPC);
    assert_eq!(0, duart.ipcr & 0x0f);
}

#[test]
fn mouse_down_records_button_and_clears_line() {
    let mut duart = Duart::new();
    duart.mouse_down(0);
    assert_ne!(0, duart.ipcr & 0x80);
    assert_eq!(0, duart.inprt & 0x08);
    assert_ne!(0, duart.istat & ISTS_IPC);
    assert_ne!(0, duart.ivec & MOUSE_BLANK_INT);
}

#[test]
fn mouse_up_records_button_but_keeps_lines() {
    let mut duart = Duart::new();
    duart.mouse_up(1);
    assert_ne!(0, duart.ipcr & 0x20);
    assert_ne!(0, duart.inprt & 0x02);
    assert_ne!(0, duart.ivec & MOUSE_BLANK_INT);
}

#[test]
fn keyboard_status_request_forces_status() {
    let mut duart = Duart::new();
    duart.write_byte(reg(THRB), 0x02, 0);
    assert_eq!(STS_RXR | STS_PER, duart.port1.stat);
}
