use vstd::prelude::*;

verus! {

/// The serial port as contracts see it.
pub struct SerialView {
    /// The data register at 0xFF01: the last byte written to it.
    pub data: u8,
    /// The control register at 0xFF02.
    pub control: u8,
    /// The interrupt line: raised when a byte was sent.
    pub irq_serial: bool,
    /// The bytes sent and not yet taken by the host, oldest first.
    pub output: Seq<u8>,
}

impl SerialView {
    pub open spec fn initial() -> SerialView {
        SerialView { data: 0, control: 0, irq_serial: false, output: Seq::empty() }
    }

    pub open spec fn read(self, address: u16) -> u8 {
        if address == 0xFF01 {
            self.data
        } else if address == 0xFF02 {
            self.control
        } else {
            0
        }
    }

    /// A write of 0x81 to the control register sends the data register to
    /// the host; other values written there are dropped.
    pub open spec fn write(self, address: u16, value: u8) -> SerialView {
        if address == 0xFF01 {
            SerialView { data: value, ..self }
        } else if address == 0xFF02 && value == 0x81 {
            SerialView {
                control: value,
                irq_serial: true,
                output: self.output.push(self.data),
                ..self
            }
        } else {
            self
        }
    }
}

pub struct Serial {
    last_byte_written: u8,
    other_byte: u8,
    irq_serial: bool,
    output: Vec<u8>,
}

impl View for Serial {
    type V = SerialView;

    closed spec fn view(&self) -> SerialView {
        SerialView {
            data: self.last_byte_written,
            control: self.other_byte,
            irq_serial: self.irq_serial,
            output: self.output@,
        }
    }
}

impl Serial {
    pub fn new() -> (serial: Serial)
        ensures
            serial@ == SerialView::initial(),
    {
        Serial { last_byte_written: 0, other_byte: 0, irq_serial: false, output: Vec::new() }
    }

    pub fn read(&self, address: u16) -> (value: u8)
        ensures
            value == self@.read(address),
    {
        match address {
            0xFF01 => self.last_byte_written,
            0xFF02 => self.other_byte,
            _ => 0,
        }
    }

    pub fn write(&mut self, address: u16, value: u8)
        ensures
            final(self)@ == old(self)@.write(address, value),
    {
        if address == 0xFF01 {
            self.last_byte_written = value;
        } else if address == 0xFF02 && value == 0x81 {
            self.output.push(self.last_byte_written);
            self.other_byte = value;
            self.irq_serial = true;
        }
    }

    /// Hands the bytes sent so far to the host and forgets them.
    pub fn take_output(&mut self) -> (bytes: Vec<u8>)
        ensures
            bytes@ == old(self)@.output,
            final(self)@ == (SerialView { output: Seq::empty(), ..old(self)@ }),
    {
        let mut bytes: Vec<u8> = Vec::new();
        std::mem::swap(&mut self.output, &mut bytes);
        bytes
    }

    /// Reads the interrupt line and lowers it.
    pub fn take_irq(&mut self) -> (raised: bool)
        ensures
            raised == old(self)@.irq_serial,
            final(self)@ == (SerialView { irq_serial: false, ..old(self)@ }),
    {
        let raised: bool = self.irq_serial;
        self.irq_serial = false;
        raised
    }
}

} // verus!
