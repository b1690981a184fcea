use vstd::prelude::*;
use crate::apu::{Apu, ApuView};
use crate::bits::{bit_if, flag_bit};
use crate::gpu::{GPU, GpuView, LcdRegisters};
use crate::joypad::{Joypad, JoypadView};
use crate::mbc::Mbc;
use crate::mbc::cartridge::{Cartridge, CartridgeView};
use crate::serial::{Serial, SerialView};
use crate::timer::{Timer, TimerView};
use crate::GBKeyEvent;

verus! {

/// Size of the work RAM.
pub const WRAM_SIZE: usize = 0x2000;

/// Size of the high RAM.
pub const HRAM_SIZE: usize = 0x7F;

/// The memory and the devices behind the 16 address bits, as contracts see
/// them.
pub struct MmuView {
    pub wram: Seq<u8>,
    pub hram: Seq<u8>,
    pub gpu: GpuView,
    pub timer: TimerView,
    pub joypad: JoypadView,
    pub cartridge: CartridgeView,
    pub serial: SerialView,
    pub apu: ApuView,
    /// IE, the register at 0xFFFF.
    pub interrupt_enable: u8,
    /// IF, the register at 0xFF0F.
    pub interrupt_request: u8,
    /// The last value written to 0xFF46.
    pub dma: u8,
}

/// `address + 1` modulo 2^16.
pub open spec fn next_address(address: u16) -> u16 {
    if address == 0xFFFF {
        0
    } else {
        (address + 1) as u16
    }
}

impl MmuView {
    pub open spec fn wf(self) -> bool {
        &&& self.wram.len() == 0x2000
        &&& self.hram.len() == 0x7F
        &&& self.gpu.wf()
        &&& self.joypad.wf()
        &&& self.cartridge.wf()
        &&& self.apu.wf()
    }

    /// The machine with a cartridge as it is when it starts, with the given
    /// state of the shift register of the noise channel.
    pub open spec fn initial(cartridge: CartridgeView, lfsr: u16) -> MmuView {
        MmuView {
            wram: Seq::new(0x2000, |i: int| 0u8),
            hram: Seq::new(0x7F, |i: int| 0u8),
            gpu: GpuView::initial(),
            timer: TimerView::initial(),
            joypad: JoypadView::initial(),
            cartridge,
            serial: SerialView::initial(),
            apu: ApuView::initial(lfsr),
            interrupt_enable: 0,
            interrupt_request: 0,
            dma: 0,
        }
    }

    /// The byte at an address. What no device has reads 0.
    #[verifier::opaque]
    pub open spec fn read_byte(self, address: u16) -> u8 {
        if address <= 0x7FFF {
            self.cartridge.read_rom(address)
        } else if address <= 0x9FFF {
            self.gpu.read_byte(address)
        } else if address <= 0xBFFF {
            self.cartridge.read_ram((address - 0xA000) as u16)
        } else if address <= 0xDFFF {
            self.wram[address - 0xC000]
        } else if address <= 0xFDFF {
            self.wram[address - 0xE000]
        } else if address <= 0xFE9F {
            self.gpu.read_byte(address)
        } else if address <= 0xFEFF {
            0
        } else {
            self.read_io(address)
        }
    }

    /// The byte at an address of the page of the registers and the high
    /// RAM, from 0xFF00 on.
    #[verifier::opaque]
    pub open spec fn read_io(self, address: u16) -> u8 {
        if address == 0xFF00 {
            self.joypad.read()
        } else if 0xFF01 <= address <= 0xFF02 {
            self.serial.read(address)
        } else if 0xFF04 <= address <= 0xFF07 {
            self.timer.read_byte(address)
        } else if address == 0xFF0F {
            self.interrupt_request
        } else if 0xFF10 <= address <= 0xFF3F {
            self.apu.read_byte(address)
        } else if address == 0xFF46 {
            self.dma
        } else if 0xFF40 <= address <= 0xFF4B {
            self.gpu.read_byte(address)
        } else if 0xFF80 <= address <= 0xFFFE {
            self.hram[address - 0xFF80]
        } else if address == 0xFFFF {
            self.interrupt_enable
        } else {
            0
        }
    }

    /// The word at an address: the low byte first.
    pub open spec fn read_word(self, address: u16) -> u16 {
        (self.read_byte(address) + 256 * self.read_byte(next_address(address))) as u16
    }

    /// The sprite attribute memory after a transfer from the page `page`:
    /// the 160 bytes from `page * 256` on.
    pub open spec fn dma_source(self, page: u8) -> Seq<u8> {
        Seq::new(160, |i: int| self.read_byte((page * 256 + i) as u16))
    }

    /// The machine after a write. What no device has drops the write; a
    /// write to 0xFF46 transfers a page to the sprite attribute memory at
    /// once.
    #[verifier::opaque]
    pub open spec fn write_byte(self, address: u16, value: u8) -> MmuView {
        if address <= 0x7FFF {
            MmuView { cartridge: self.cartridge.write_rom(address, value), ..self }
        } else if address <= 0x9FFF {
            MmuView { gpu: self.gpu.write_byte(address, value), ..self }
        } else if address <= 0xBFFF {
            MmuView {
                cartridge: self.cartridge.write_ram((address - 0xA000) as u16, value),
                ..self
            }
        } else if address <= 0xDFFF {
            MmuView { wram: self.wram.update(address - 0xC000, value), ..self }
        } else if address <= 0xFDFF {
            MmuView { wram: self.wram.update(address - 0xE000, value), ..self }
        } else if address <= 0xFE9F {
            MmuView { gpu: self.gpu.write_byte(address, value), ..self }
        } else if address <= 0xFEFF {
            self
        } else {
            self.write_io(address, value)
        }
    }

    /// The machine after a write to the page of the registers and the high
    /// RAM, from 0xFF00 on.
    #[verifier::opaque]
    pub open spec fn write_io(self, address: u16, value: u8) -> MmuView {
        if address == 0xFF00 {
            MmuView { joypad: self.joypad.write(value), ..self }
        } else if 0xFF01 <= address <= 0xFF02 {
            MmuView { serial: self.serial.write(address, value), ..self }
        } else if 0xFF04 <= address <= 0xFF07 {
            MmuView { timer: self.timer.write_byte(address, value), ..self }
        } else if address == 0xFF0F {
            MmuView { interrupt_request: value, ..self }
        } else if 0xFF10 <= address <= 0xFF3F {
            MmuView { apu: self.apu.write_byte(address, value), ..self }
        } else if address == 0xFF46 {
            MmuView {
                dma: value,
                gpu: GpuView { oam: self.dma_source(value), ..self.gpu },
                ..self
            }
        } else if 0xFF40 <= address <= 0xFF4B {
            MmuView { gpu: self.gpu.write_byte(address, value), ..self }
        } else if 0xFF80 <= address <= 0xFFFE {
            MmuView { hram: self.hram.update(address - 0xFF80, value), ..self }
        } else if address == 0xFFFF {
            MmuView { interrupt_enable: value, ..self }
        } else {
            self
        }
    }

    /// The machine after a word was written: the low byte first.
    pub open spec fn write_word(self, address: u16, value: u16) -> MmuView {
        self.write_byte(address, (value % 256) as u8).write_byte(
            next_address(address),
            (value / 256) as u8,
        )
    }

    /// The machine `ticks` cycles later: the timer, the display and the
    /// sound move on, in this order.
    pub open spec fn do_ticks(self, ticks: nat) -> MmuView {
        MmuView {
            timer: self.timer.do_ticks(ticks),
            gpu: self.gpu.do_ticks(ticks),
            apu: self.apu.do_ticks(ticks),
            ..self
        }
    }

    /// The requests that the lines of the devices add to IF: bit 0 for the
    /// vertical blank, 1 for STAT, 2 for the timer, 3 for the serial port,
    /// 4 for the joypad.
    pub open spec fn raised_lines(self) -> u8 {
        (bit_if(self.gpu.regs.irq_vblank, 0x01) + bit_if(self.gpu.regs.irq_stat, 0x02) + bit_if(
            self.timer.irq_timer,
            0x04,
        ) + bit_if(self.serial.irq_serial, 0x08) + bit_if(self.joypad.irq_joypad, 0x10)) as u8
    }

    /// The machine after the lines of the devices were collected: IF holds
    /// the old requests and the raised lines, and all lines are lowered.
    pub open spec fn process_irq_requests(self) -> MmuView {
        MmuView {
            interrupt_request: self.interrupt_request | self.raised_lines(),
            gpu: self.gpu.with_regs(
                LcdRegisters { irq_vblank: false, irq_stat: false, ..self.gpu.regs },
            ),
            timer: TimerView { irq_timer: false, ..self.timer },
            serial: SerialView { irq_serial: false, ..self.serial },
            joypad: JoypadView { irq_joypad: false, ..self.joypad },
            ..self
        }
    }
}

/// The memory management unit: it owns the memories and the devices and
/// routes every address to the one that has it.
pub struct Mmu {
    wram: [u8; WRAM_SIZE],
    hram: [u8; HRAM_SIZE],
    gpu: GPU,
    timer: Timer,
    joypad: Joypad,
    mbc: Cartridge,
    serial: Serial,
    apu: Apu,
    interrupt_enable: u8,
    interrupt_request: u8,
    voam_oam: u8,
}

impl View for Mmu {
    type V = MmuView;

    closed spec fn view(&self) -> MmuView {
        MmuView {
            wram: self.wram@,
            hram: self.hram@,
            gpu: self.gpu@,
            timer: self.timer@,
            joypad: self.joypad@,
            cartridge: self.mbc@,
            serial: self.serial@,
            apu: self.apu@,
            interrupt_enable: self.interrupt_enable,
            interrupt_request: self.interrupt_request,
            dma: self.voam_oam,
        }
    }
}

impl Mmu {
    pub fn new(cartridge: Cartridge) -> (mmu: Mmu)
        requires
            cartridge@.wf(),
        ensures
            mmu@ == MmuView::initial(cartridge@, mmu@.apu.channel_4.lfsr),
            mmu@.wf(),
    {
        let mmu = Mmu {
            wram: [0;WRAM_SIZE],
            hram: [0;HRAM_SIZE],
            gpu: GPU::new(),
            timer: Timer::new(),
            joypad: Joypad::new(),
            mbc: cartridge,
            serial: Serial::new(),
            apu: Apu::new(),
            interrupt_enable: 0x00,
            interrupt_request: 0x00,
            voam_oam: 0x00,
        };
        assert(mmu@.wram =~= Seq::new(0x2000, |i: int| 0u8));
        assert(mmu@.hram =~= Seq::new(0x7F, |i: int| 0u8));
        mmu
    }

    pub fn read_byte(&self, address: u16) -> (value: u8)
        requires
            self@.wf(),
        ensures
            value == self@.read_byte(address),
    {
        reveal(MmuView::read_byte);
        if address <= 0x7FFF {
            self.mbc.read_rom(address)
        } else if address <= 0x9FFF {
            self.gpu.read_byte(address)
        } else if address <= 0xBFFF {
            self.mbc.read_ram(address - 0xA000)
        } else if address <= 0xDFFF {
            self.wram[(address - 0xC000) as usize]
        } else if address <= 0xFDFF {
            self.wram[(address - 0xE000) as usize]
        } else if address <= 0xFE9F {
            self.gpu.read_byte(address)
        } else if address <= 0xFEFF {
            0
        } else {
            self.read_io(address)
        }
    }

    fn read_io(&self, address: u16) -> (value: u8)
        requires
            self@.wf(),
            address >= 0xFF00,
        ensures
            value == self@.read_io(address),
    {
        reveal(MmuView::read_io);
        if address == 0xFF00 {
            self.joypad.read()
        } else if 0xFF01 <= address && address <= 0xFF02 {
            self.serial.read(address)
        } else if 0xFF04 <= address && address <= 0xFF07 {
            self.timer.read_byte(address)
        } else if address == 0xFF0F {
            self.interrupt_request
        } else if 0xFF10 <= address && address <= 0xFF3F {
            self.apu.read_byte(address)
        } else if address == 0xFF46 {
            self.voam_oam
        } else if 0xFF40 <= address && address <= 0xFF4B {
            self.gpu.read_byte(address)
        } else if 0xFF80 <= address && address <= 0xFFFE {
            self.hram[(address - 0xFF80) as usize]
        } else if address == 0xFFFF {
            self.interrupt_enable
        } else {
            0
        }
    }

    pub fn read_word(&self, address: u16) -> (value: u16)
        requires
            self@.wf(),
        ensures
            value == self@.read_word(address),
    {
        let low: u8 = self.read_byte(address);
        let high: u8 = self.read_byte(address.wrapping_add(1));
        low as u16 + 256 * (high as u16)
    }

    pub fn write_byte(&mut self, address: u16, value: u8)
        requires
            old(self)@.wf(),
        ensures
            final(self)@ == old(self)@.write_byte(address, value),
            final(self)@.wf(),
    {
        reveal(MmuView::write_byte);
        if address <= 0x7FFF {
            self.mbc.write_rom(address, value);
        } else if address <= 0x9FFF {
            self.gpu.write_byte(address, value);
        } else if address <= 0xBFFF {
            self.mbc.write_ram(address - 0xA000, value);
        } else if address <= 0xDFFF {
            self.wram[(address - 0xC000) as usize] = value;
        } else if address <= 0xFDFF {
            self.wram[(address - 0xE000) as usize] = value;
        } else if address <= 0xFE9F {
            self.gpu.write_byte(address, value);
        } else if address <= 0xFEFF {
        } else {
            self.write_io(address, value);
        }
    }

    fn write_io(&mut self, address: u16, value: u8)
        requires
            old(self)@.wf(),
            address >= 0xFF00,
        ensures
            final(self)@ == old(self)@.write_io(address, value),
            final(self)@.wf(),
    {
        reveal(MmuView::write_io);
        if address == 0xFF00 {
            self.joypad.write(value);
        } else if 0xFF01 <= address && address <= 0xFF02 {
            self.serial.write(address, value);
        } else if 0xFF04 <= address && address <= 0xFF07 {
            self.timer.write_byte(address, value);
        } else if address == 0xFF0F {
            self.interrupt_request = value;
        } else if 0xFF10 <= address && address <= 0xFF3F {
            self.apu.write_byte(address, value);
        } else if address == 0xFF46 {
            self.copy_to_voam(value);
        } else if 0xFF40 <= address && address <= 0xFF4B {
            self.gpu.write_byte(address, value);
        } else if 0xFF80 <= address && address <= 0xFFFE {
            self.hram[(address - 0xFF80) as usize] = value;
        } else if address == 0xFFFF {
            self.interrupt_enable = value;
        }
    }

    pub fn write_word(&mut self, address: u16, value: u16)
        requires
            old(self)@.wf(),
        ensures
            final(self)@ == old(self)@.write_word(address, value),
            final(self)@.wf(),
    {
        self.write_byte(address, (value % 256) as u8);
        self.write_byte(address.wrapping_add(1), (value / 256) as u8);
    }

    /// A copy of the screen, row by row from the top.
    pub fn get_screen_buffer(&self) -> (buffer: Vec<u8>)
        ensures
            buffer@ == self@.gpu.screen,
    {
        self.gpu.get_screen_buffer()
    }

    /// Tells whether a frame was completed since the last call.
    pub fn get_screen_updated(&mut self) -> (updated: bool)
        ensures
            updated == old(self)@.gpu.regs.screen_update,
            final(self)@ == (MmuView {
                gpu: old(self)@.gpu.with_regs(
                    LcdRegisters { screen_update: false, ..old(self)@.gpu.regs },
                ),
                ..old(self)@
            }),
            old(self)@.wf() ==> final(self)@.wf(),
    {
        self.gpu.take_screen_update()
    }

    /// Advances the devices by `ticks` cycles.
    pub fn do_ticks(&mut self, ticks: usize)
        requires
            old(self)@.wf(),
        ensures
            final(self)@ == old(self)@.do_ticks(ticks as nat),
            final(self)@.wf(),
    {
        self.timer.do_ticks(ticks);
        self.gpu.do_ticks(ticks);
        self.apu.do_ticks(ticks);
    }

    /// Collects the interrupt lines of the devices into IF.
    pub fn process_irq_requests(&mut self)
        ensures
            final(self)@ == old(self)@.process_irq_requests(),
            old(self)@.wf() ==> final(self)@.wf(),
    {
        let vblank: bool = self.gpu.take_irq_vblank();
        let stat: bool = self.gpu.take_irq_stat();
        let timer: bool = self.timer.take_irq();
        let serial: bool = self.serial.take_irq();
        let joypad: bool = self.joypad.take_irq();
        let lines: u8 = flag_bit(vblank, 0x01) + flag_bit(stat, 0x02) + flag_bit(timer, 0x04)
            + flag_bit(serial, 0x08) + flag_bit(joypad, 0x10);
        assert(lines == old(self)@.raised_lines());
        self.interrupt_request = self.interrupt_request | lines;
        assert(self@.gpu == old(self)@.process_irq_requests().gpu);
        assert(self@.timer == old(self)@.process_irq_requests().timer);
        assert(self@.serial == old(self)@.process_irq_requests().serial);
        assert(self@.joypad == old(self)@.process_irq_requests().joypad);
        assert(self@.interrupt_request == old(self)@.process_irq_requests().interrupt_request);
    }

    /// Copies the 160 bytes of a page to the sprite attribute memory.
    fn copy_to_voam(&mut self, value: u8)
        requires
            old(self)@.wf(),
        ensures
            final(self)@ == (MmuView {
                dma: value,
                gpu: GpuView { oam: old(self)@.dma_source(value), ..old(self)@.gpu },
                ..old(self)@
            }),
            final(self)@.wf(),
    {
        let mem_start: u16 = (value as u16) * 256;
        let mut bytes: [u8; 160] = [0;160];
        let mut offset: usize = 0;
        while offset < 160
            invariant
                offset <= 160,
                self@.wf(),
                mem_start == value * 256,
                forall|i: int|
                    0 <= i < offset ==> #[trigger] bytes@[i] == self@.read_byte(
                        (value * 256 + i) as u16,
                    ),
            decreases 160 - offset,
        {
            bytes[offset] = self.read_byte(mem_start + offset as u16);
            offset = offset + 1;
        }
        assert(bytes@ =~= self@.dma_source(value));
        self.voam_oam = value;
        self.gpu.set_oam(bytes);
    }

    /// Hands a key event to the joypad.
    pub fn receive_event(&mut self, event: GBKeyEvent)
        ensures
            final(self)@ == (MmuView { joypad: old(self)@.joypad.receive_event(event), ..old(self)@ }),
            old(self)@.wf() ==> final(self)@.wf(),
    {
        self.joypad.receive_event(event);
    }

    /// Hands the bytes that the serial port sent to the host.
    pub fn take_serial_output(&mut self) -> (bytes: Vec<u8>)
        ensures
            bytes@ == old(self)@.serial.output,
            final(self)@ == (MmuView {
                serial: SerialView { output: Seq::empty(), ..old(self)@.serial },
                ..old(self)@
            }),
            old(self)@.wf() ==> final(self)@.wf(),
    {
        self.serial.take_output()
    }

    /// Hands the oldest 800 samples to the host, once that many were made.
    pub fn take_audio_buffer(&mut self) -> (samples: Option<Vec<i16>>)
        ensures
            match samples {
                Some(taken) => old(self)@.apu.audio_ready() && taken@
                    == old(self)@.apu.buffer.subrange(0, 800) && final(self)@ == (MmuView {
                    apu: ApuView {
                        buffer: old(self)@.apu.buffer.subrange(
                            800,
                            old(self)@.apu.buffer.len() as int,
                        ),
                        ..old(self)@.apu
                    },
                    ..old(self)@
                }),
                None => !old(self)@.apu.audio_ready() && final(self)@ == old(self)@,
            },
            old(self)@.wf() ==> final(self)@.wf(),
    {
        self.apu.take_audio_buffer()
    }
}

/// Collecting the lines of the devices clears no request: every bit that
/// is set in IF stays set, and every raised line sets its bit.
pub proof fn lemma_requests_stay(mmu: MmuView)
    ensures
        mmu.process_irq_requests().interrupt_request & mmu.interrupt_request
            == mmu.interrupt_request,
        mmu.process_irq_requests().interrupt_request & mmu.raised_lines() == mmu.raised_lines(),
{
    let requested = mmu.interrupt_request;
    let lines = mmu.raised_lines();
    assert((requested | lines) & requested == requested && (requested | lines) & lines == lines)
        by (bit_vector);
}

/// The area from 0xE000 to 0xFDFF shows the work RAM a second time: reads
/// agree with those 0x2000 below, and writes have the same effect.
pub proof fn lemma_echo(mmu: MmuView, address: u16, value: u8)
    requires
        0xE000 <= address <= 0xFDFF,
    ensures
        mmu.read_byte(address) == mmu.read_byte((address - 0x2000) as u16),
        mmu.write_byte(address, value) == mmu.write_byte((address - 0x2000) as u16, value),
{
    reveal(MmuView::read_byte);
    reveal(MmuView::write_byte);
}

/// The area from 0xFEA0 to 0xFEFF holds nothing: it reads 0 and drops
/// what is written.
pub proof fn lemma_unusable(mmu: MmuView, address: u16, value: u8)
    requires
        0xFEA0 <= address <= 0xFEFF,
    ensures
        mmu.read_byte(address) == 0,
        mmu.write_byte(address, value) == mmu,
{
    reveal(MmuView::read_byte);
    reveal(MmuView::write_byte);
}

/// A byte written to the work RAM, its echo or the high RAM reads back.
pub proof fn lemma_ram_round_trip(mmu: MmuView, address: u16, value: u8)
    requires
        mmu.wf(),
        0xC000 <= address <= 0xFDFF || 0xFF80 <= address <= 0xFFFE,
    ensures
        mmu.write_byte(address, value).read_byte(address) == value,
{
    reveal(MmuView::read_byte);
    reveal(MmuView::write_byte);
    reveal(MmuView::read_io);
    reveal(MmuView::write_io);
}

/// Whether an address belongs to the work RAM, its echo or the high RAM:
/// the memory that keeps what is written and has no side effect.
pub open spec fn is_ram(address: u16) -> bool {
    0xC000 <= address <= 0xFDFF || 0xFF80 <= address <= 0xFFFE
}

/// A word written to two addresses of RAM reads back, and the write
/// changes nothing but the RAM.
pub proof fn lemma_word_round_trip(mmu: MmuView, address: u16, value: u16)
    requires
        mmu.wf(),
        is_ram(address),
        is_ram(next_address(address)),
    ensures
        mmu.write_word(address, value).read_word(address) == value,
        mmu.write_word(address, value).wf(),
        mmu.write_word(address, value) == (MmuView {
            wram: mmu.write_word(address, value).wram,
            hram: mmu.write_word(address, value).hram,
            ..mmu
        }),
{
    reveal(MmuView::read_byte);
    reveal(MmuView::write_byte);
    reveal(MmuView::read_io);
    reveal(MmuView::write_io);
    let low = (value % 256) as u8;
    let high = (value / 256) as u8;
    let first = mmu.write_byte(address, low);
    let second = first.write_byte(next_address(address), high);
    assert(first.wf());
    assert(second.read_byte(next_address(address)) == high);
    assert(second.read_byte(address) == low);
}

/// After a write to DIV the register reads 0 until 256 cycles have passed.
pub proof fn lemma_div_reset(mmu: MmuView, value: u8, ticks: nat)
    requires
        ticks < 256,
    ensures
        mmu.write_byte(0xFF04, value).do_ticks(ticks).read_byte(0xFF04) == 0,
{
    reveal(MmuView::read_byte);
    reveal(MmuView::write_byte);
    reveal(MmuView::read_io);
    reveal(MmuView::write_io);
    crate::timer::lemma_divider_reset(mmu.timer, value, ticks, 0);
}

/// Whatever is written to DIV, the register then reads 0.
pub proof fn lemma_div_write(mmu: MmuView, value: u8)
    ensures
        mmu.write_byte(0xFF04, value).read_byte(0xFF04) == 0,
{
    reveal(MmuView::read_byte);
    reveal(MmuView::write_byte);
    reveal(MmuView::read_io);
    reveal(MmuView::write_io);
}

} // verus!
