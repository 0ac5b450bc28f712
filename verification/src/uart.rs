//! The 16550 UART of a PC's COM port: which ports it has and what is written
//! to them to set it up and to send.
//!
//! Port I/O is privileged. What is computed here is what to write; the
//! embedding code writes it.
use vstd::prelude::*;

verus! {

/// The COM port of a UART.
#[derive(Clone, Copy, Debug, PartialEq, Eq, Structural)]
pub enum UartComPort {
    /// COM1, at I/O port 0x3f8.
    Com1,
    /// COM2, at I/O port 0x2f8.
    Com2,
    /// COM3, at I/O port 0x3e8.
    Com3,
    /// COM4, at I/O port 0x2e8.
    Com4,
}

impl UartComPort {
    /// The first of the eight I/O ports of the COM port.
    pub open spec fn spec_io_port_base(self) -> u16 {
        match self {
            UartComPort::Com1 => 0x3f8,
            UartComPort::Com2 => 0x2f8,
            UartComPort::Com3 => 0x3e8,
            UartComPort::Com4 => 0x2e8,
        }
    }

    /// The first of the eight I/O ports of the COM port.
    pub fn io_port_base(self) -> (base: u16)
        ensures
            base == self.spec_io_port_base(),
    {
        match self {
            UartComPort::Com1 => 0x3f8,
            UartComPort::Com2 => 0x2f8,
            UartComPort::Com3 => 0x3e8,
            UartComPort::Com4 => 0x2e8,
        }
    }
}

/// The baud rate of a UART.
#[derive(Clone, Copy, Debug, PartialEq, Eq, Structural)]
pub enum UartBaudRate {
    /// 115200 baud.
    Baud115200,
    /// 9600 baud.
    Baud9600,
}

impl UartBaudRate {
    /// The rate in baud.
    pub open spec fn spec_rate(self) -> u32 {
        match self {
            UartBaudRate::Baud115200 => 115200,
            UartBaudRate::Baud9600 => 9600,
        }
    }

    /// The rate in baud.
    pub fn rate(self) -> (rate: u32)
        ensures
            rate == self.spec_rate(),
    {
        match self {
            UartBaudRate::Baud115200 => 115200,
            UartBaudRate::Baud9600 => 9600,
        }
    }
}

/// The offset of the transmitter holding buffer, while the divisor latch is closed.
pub const UART_OFFSET_TRANSMITTER_HOLDING_BUFFER: u16 = 0;

/// The offset of the low byte of the divisor, while the divisor latch is open.
pub const UART_OFFSET_DIVISOR_LATCH_LOW: u16 = 0;

/// The offset of the interrupt enable register, while the divisor latch is closed.
pub const UART_OFFSET_INTERRUPT_ENABLE: u16 = 1;

/// The offset of the high byte of the divisor, while the divisor latch is open.
pub const UART_OFFSET_DIVISOR_LATCH_HIGH: u16 = 1;

/// The offset of the FIFO control register.
pub const UART_OFFSET_FIFO_CONTROL: u16 = 2;

/// The offset of the line control register.
pub const UART_OFFSET_LINE_CONTROL: u16 = 3;

/// The offset of the modem control register.
pub const UART_OFFSET_MODEM_CONTROL: u16 = 4;

/// The offset of the line status register.
pub const UART_OFFSET_LINE_STATUS: u16 = 5;

/// The bit of the line status that says that the transmitter takes a byte.
pub const UART_LINE_STATUS_TRANSMITTER_EMPTY: u8 = 0x20;

/// A 16-bit write to an I/O port.
#[derive(Clone, Copy, Debug, PartialEq, Eq, Structural)]
pub struct PortWrite {
    pub port: u16,
    pub data: u16,
}

/// A UART.
#[derive(Clone, Copy, Debug, PartialEq, Eq, Structural)]
pub struct Uart {
    io_port_base: u16,
}

/// The low byte of the 16 bits that are kept of a baud rate.
pub open spec fn divisor_latch_low(baud_rate: UartBaudRate) -> u16 {
    ((baud_rate.spec_rate() & 0xffff) & 0xff) as u16
}

/// The high byte of the 16 bits that are kept of a baud rate.
pub open spec fn divisor_latch_high(baud_rate: UartBaudRate) -> u16 {
    (((baud_rate.spec_rate() & 0xffff) >> 8) & 0xff) as u16
}

/// The writes that set up the UART at `base`, in order: interrupts off, the
/// divisor latch opened, the divisor, eight bits without parity and one stop
/// bit, the FIFOs enabled and cleared, the modem lines, interrupts off.
pub open spec fn init_writes(base: u16, baud_rate: UartBaudRate) -> Seq<PortWrite> {
    seq![
        PortWrite { port: (base + UART_OFFSET_INTERRUPT_ENABLE) as u16, data: 0x00 },
        PortWrite { port: (base + UART_OFFSET_LINE_CONTROL) as u16, data: 0x80 },
        PortWrite {
            port: (base + UART_OFFSET_DIVISOR_LATCH_LOW) as u16,
            data: divisor_latch_low(baud_rate),
        },
        PortWrite {
            port: (base + UART_OFFSET_DIVISOR_LATCH_HIGH) as u16,
            data: divisor_latch_high(baud_rate),
        },
        PortWrite { port: (base + UART_OFFSET_LINE_CONTROL) as u16, data: 0x03 },
        PortWrite { port: (base + UART_OFFSET_FIFO_CONTROL) as u16, data: 0xc7 },
        PortWrite { port: (base + UART_OFFSET_MODEM_CONTROL) as u16, data: 0x0b },
        PortWrite { port: (base + UART_OFFSET_INTERRUPT_ENABLE) as u16, data: 0x00 },
    ]
}

impl Uart {
    /// The first of the eight I/O ports of the UART.
    pub closed spec fn base(&self) -> u16 {
        self.io_port_base
    }

    /// Creates a UART on the COM port.
    pub fn new(com: UartComPort) -> (uart: Self)
        ensures
            uart.base() == com.spec_io_port_base(),
    {
        Uart { io_port_base: com.io_port_base() }
    }

    /// Computes the writes that configure the UART with the baud rate.
    /// Receiver interrupts are not supported.
    pub fn init(&self, enable_receiver_interrupts: bool, baud_rate: UartBaudRate) -> (writes: Vec<
        PortWrite,
    >)
        requires
            !enable_receiver_interrupts,
            self.base() <= 0xfff8,
        ensures
            writes@ == init_writes(self.base(), baud_rate),
    {
        let base: u16 = self.io_port_base;
        let kept: u32 = baud_rate.rate() & 0xffff;
        let low: u32 = kept & 0xff;
        let high: u32 = (kept >> 8) & 0xff;
        assert(low <= 0xff && high <= 0xff) by (bit_vector)
            requires
                low == kept & 0xff,
                high == (kept >> 8) & 0xff,
        ;
        let mut writes: Vec<PortWrite> = Vec::new();
        writes.push(PortWrite { port: base + UART_OFFSET_INTERRUPT_ENABLE, data: 0x00 });
        writes.push(PortWrite { port: base + UART_OFFSET_LINE_CONTROL, data: 0x80 });
        writes.push(PortWrite { port: base + UART_OFFSET_DIVISOR_LATCH_LOW, data: low as u16 });
        writes.push(PortWrite { port: base + UART_OFFSET_DIVISOR_LATCH_HIGH, data: high as u16 });
        writes.push(PortWrite { port: base + UART_OFFSET_LINE_CONTROL, data: 0x03 });
        writes.push(PortWrite { port: base + UART_OFFSET_FIFO_CONTROL, data: 0xc7 });
        writes.push(PortWrite { port: base + UART_OFFSET_MODEM_CONTROL, data: 0x0b });
        writes.push(PortWrite { port: base + UART_OFFSET_INTERRUPT_ENABLE, data: 0x00 });
        writes
    }

    /// The port from which the line status is read.
    pub fn line_status_port(&self) -> (port: u16)
        requires
            self.base() <= 0xfff8,
        ensures
            port == self.base() + UART_OFFSET_LINE_STATUS,
    {
        self.io_port_base + UART_OFFSET_LINE_STATUS
    }

    /// The port to which a byte to send is written.
    pub fn transmit_port(&self) -> (port: u16)
        ensures
            port == self.base(),
    {
        self.io_port_base
    }
}

/// Whether a UART with this line status takes a byte to send.
pub fn transmitter_ready(line_status: u8) -> (ready: bool)
    ensures
        ready == (line_status & UART_LINE_STATUS_TRANSMITTER_EMPTY != 0),
{
    (line_status & UART_LINE_STATUS_TRANSMITTER_EMPTY) != 0
}

/// Writes to a COM port without any synchronisation, for when the monitor
/// panics and must not wait for a lock.
#[derive(Clone, Copy, Debug, PartialEq, Eq, Structural)]
pub struct UnsynchronizedUartLogger {
    port: UartComPort,
}

impl UnsynchronizedUartLogger {
    /// The COM port that the logger writes to.
    pub closed spec fn com(&self) -> UartComPort {
        self.port
    }

    /// Creates a logger for the COM port.
    pub fn new(port: UartComPort) -> (logger: Self)
        ensures
            logger.com() == port,
    {
        UnsynchronizedUartLogger { port }
    }

    /// The UART that the logger writes to.
    pub fn uart(&self) -> (uart: Uart)
        ensures
            uart.base() == self.com().spec_io_port_base(),
    {
        Uart::new(self.port)
    }
}

} // verus!
