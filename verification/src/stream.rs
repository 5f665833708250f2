//! The streaming engines that feed the sequencers.
//!
//! A pipe is a pair of transfers that chain to each other. The main transfer
//! copies a run of words to the input queue of a sequencer, paced by the
//! queue. The loop transfer then copies one word, the content of an
//! indirection cell, into the source address of the main transfer, which
//! arms it again. So the pair runs for ever, and the cell is read once per
//! pass: whatever address it holds at that moment is streamed in the next
//! pass.

use crate::framebuffer::{fb_bytes, fb_bytes_spec, valid_geometry};
use vstd::prelude::*;

verus! {

/// The signal that paces a transfer.
#[derive(Clone, Copy, Debug, PartialEq, Eq, Structural)]
pub enum TreqSel {
    /// The input queue of state machine 0 of the first sequencer block.
    Pio0Tx0,
    /// The input queue of state machine 1 of the first sequencer block.
    Pio0Tx1,
    /// The input queue of state machine 2 of the first sequencer block.
    Pio0Tx2,
    /// The input queue of state machine 3 of the first sequencer block.
    Pio0Tx3,
    /// No pacing: the transfer runs at the full speed of the engine.
    Permanent,
}

/// The width of one unit of a transfer.
#[derive(Clone, Copy, Debug, PartialEq, Eq, Structural)]
pub enum DataSize {
    Byte,
    HalfWord,
    Word,
}

/// How one transfer engine is set up.
#[derive(Clone, Copy, Debug, PartialEq, Eq, Structural)]
pub struct Transfer {
    /// Number of the engine that runs this transfer.
    pub channel: u8,
    /// Address that the first unit is read from.
    pub read_addr: u32,
    /// Address that the units are written to.
    pub write_addr: u32,
    /// Number of units of one run.
    pub trans_count: u32,
    /// Whether the read address moves on after each unit.
    pub incr_read: bool,
    /// Whether the write address moves on after each unit.
    pub incr_write: bool,
    pub data_size: DataSize,
    pub treq_sel: TreqSel,
    /// Whether the engine keeps silent when a run ends.
    pub irq_quiet: bool,
    /// Number of the engine that is started when a run ends.
    pub chain_to: u8,
    pub en: bool,
    /// Whether setting the write address also starts the engine.
    pub write_addr_triggers: bool,
}

/// A main transfer and the loop transfer that arms it again.
#[derive(Clone, Copy, Debug, PartialEq, Eq, Structural)]
pub struct StreamPair {
    pub main: Transfer,
    pub looping: Transfer,
}

/// The main transfer of a pipe: it reads upwards from its source, always
/// writes to the same queue, is paced by that queue, and chains to `next`.
pub open spec fn main_transfer(
    channel: u8,
    next: u8,
    pacing: TreqSel,
    source: u32,
    count: u32,
    queue: u32,
) -> Transfer {
    Transfer {
        channel,
        read_addr: source,
        write_addr: queue,
        trans_count: count,
        incr_read: true,
        incr_write: false,
        data_size: DataSize::Word,
        treq_sel: pacing,
        irq_quiet: true,
        chain_to: next,
        en: true,
        write_addr_triggers: false,
    }
}

/// The loop transfer of a pipe: one unpaced word from the cell at `cell`
/// to the register at `target`, after which it chains to `next`.
pub open spec fn loop_transfer(channel: u8, next: u8, cell: u32, target: u32) -> Transfer {
    Transfer {
        channel,
        read_addr: cell,
        write_addr: target,
        trans_count: 1,
        incr_read: false,
        incr_write: false,
        data_size: DataSize::Word,
        treq_sel: TreqSel::Permanent,
        irq_quiet: true,
        chain_to: next,
        en: true,
        write_addr_triggers: true,
    }
}

impl StreamPair {
    /// A pair keeps itself running if each transfer chains to the other, the
    /// main transfer is paced and reads upwards, and the loop transfer copies
    /// one unpaced word from a fixed cell to a fixed register.
    pub open spec fn self_retriggering(&self) -> bool {
        &&& self.main.channel != self.looping.channel
        &&& self.main.chain_to == self.looping.channel
        &&& self.looping.chain_to == self.main.channel
        &&& self.main.en && self.looping.en
        &&& self.main.incr_read && !self.main.incr_write
        &&& self.main.treq_sel != TreqSel::Permanent
        &&& self.main.trans_count >= 1
        &&& !self.looping.incr_read && !self.looping.incr_write
        &&& self.looping.treq_sel == TreqSel::Permanent
        &&& self.looping.trans_count == 1
        &&& self.looping.write_addr_triggers
        &&& self.main.data_size == DataSize::Word
        &&& self.looping.data_size == DataSize::Word
    }
}

/// The transfer that streams a frame buffer of `W` columns, `H` rows and `B`
/// bit planes from `framebuffer` to the input queue of the pixel sequencer.
pub fn setup_framebuffer_channel<const W: usize, const H: usize, const B: usize>(
    fb_channel: u8,
    fb_loop_channel: u8,
    pio_dreq_sel: TreqSel,
    framebuffer: u32,
    rgb_state_machine_tx_register: u32,
) -> (transfer: Transfer)
    requires
        valid_geometry(W as int, H as int, B as int),
        fb_bytes_spec(W as int, H as int, B as int) <= u32::MAX,
    ensures
        transfer == main_transfer(
            fb_channel,
            fb_loop_channel,
            pio_dreq_sel,
            framebuffer,
            (fb_bytes_spec(W as int, H as int, B as int) / 4) as u32,
            rgb_state_machine_tx_register,
        ),
{
    Transfer {
        channel: fb_channel,
        read_addr: framebuffer,
        write_addr: rgb_state_machine_tx_register,
        trans_count: fb_bytes(W, H, B) as u32 / 4,
        incr_read: true,
        incr_write: false,
        data_size: DataSize::Word,
        treq_sel: pio_dreq_sel,
        irq_quiet: true,
        chain_to: fb_loop_channel,
        en: true,
        write_addr_triggers: false,
    }
}

/// `framebuffer_pointer_location`: the pointer to the pointer to the framebuffer
pub fn setup_framebuffer_loop_channel(
    fb_loop_channel: u8,
    fb_channel: u8,
    framebuffer_pointer_location: u32,
    fb_channel_read_addr_register: u32,
) -> (transfer: Transfer)
    ensures
        transfer == loop_transfer(
            fb_loop_channel,
            fb_channel,
            framebuffer_pointer_location,
            fb_channel_read_addr_register,
        ),
{
    Transfer {
        channel: fb_loop_channel,
        read_addr: framebuffer_pointer_location,
        write_addr: fb_channel_read_addr_register,
        trans_count: 1,
        incr_read: false,
        incr_write: false,
        data_size: DataSize::Word,
        treq_sel: TreqSel::Permanent,
        irq_quiet: true,
        chain_to: fb_channel,
        en: true,
        write_addr_triggers: true,
    }
}

/// `pio_dreq_sel` is the dreq trigger for the oe state machine
pub fn setup_oe_channel(
    oe_channel: u8,
    oe_loop_channel: u8,
    pio_dreq_sel: TreqSel,
    oe_state_machine_tx_register: u32,
    delays: u32,
    planes: u32,
) -> (transfer: Transfer)
    ensures
        transfer == main_transfer(
            oe_channel,
            oe_loop_channel,
            pio_dreq_sel,
            delays,
            planes,
            oe_state_machine_tx_register,
        ),
{
    Transfer {
        channel: oe_channel,
        read_addr: delays,
        write_addr: oe_state_machine_tx_register,
        trans_count: planes,
        incr_read: true,
        incr_write: false,
        data_size: DataSize::Word,
        treq_sel: pio_dreq_sel,
        irq_quiet: true,
        chain_to: oe_loop_channel,
        en: true,
        write_addr_triggers: false,
    }
}

/// The transfer that arms the dwell stream again from the cell that holds
/// the address of the delay table.
pub fn setup_oe_loop_channel(
    oe_loop_channel: u8,
    oe_channel: u8,
    delays_pointer_location: u32,
    oe_channel_read_addr_register: u32,
) -> (transfer: Transfer)
    ensures
        transfer == loop_transfer(
            oe_loop_channel,
            oe_channel,
            delays_pointer_location,
            oe_channel_read_addr_register,
        ),
{
    Transfer {
        channel: oe_loop_channel,
        read_addr: delays_pointer_location,
        write_addr: oe_channel_read_addr_register,
        trans_count: 1,
        incr_read: false,
        incr_write: false,
        data_size: DataSize::Word,
        treq_sel: TreqSel::Permanent,
        irq_quiet: true,
        chain_to: oe_channel,
        en: true,
        write_addr_triggers: true,
    }
}

/// A main transfer and a loop transfer that chain to each other keep
/// themselves running: no further step of the processor is needed.
pub proof fn lemma_pair_is_self_retriggering(
    main_channel: u8,
    loop_channel: u8,
    pacing: TreqSel,
    source: u32,
    count: u32,
    queue: u32,
    cell: u32,
    target: u32,
)
    requires
        main_channel != loop_channel,
        pacing != TreqSel::Permanent,
        count >= 1,
    ensures
        (StreamPair {
            main: main_transfer(main_channel, loop_channel, pacing, source, count, queue),
            looping: loop_transfer(loop_channel, main_channel, cell, target),
        }).self_retriggering(),
{
}

/// The one memory word that the processor and the streaming engine share:
/// it holds the address of the frame buffer that is streamed next. The swap
/// controller is its only writer, the loop transfer its only reader; the
/// reader sees the last value written no later than at its next pass.
pub struct IndirectionCell {
    address: u32,
}

impl View for IndirectionCell {
    type V = u32;

    closed spec fn view(&self) -> u32 {
        self.address
    }
}

impl IndirectionCell {
    pub fn new(address: u32) -> (cell: Self)
        ensures
            cell@ == address,
    {
        IndirectionCell { address }
    }

    /// The address that the cell holds.
    pub fn read(&self) -> (address: u32)
        ensures
            address == self@,
    {
        self.address
    }

    /// Stores `address`: one aligned word store.
    pub fn write(&mut self, address: u32)
        ensures
            final(self)@ == address,
    {
        self.address = address;
    }
}

/// Which of the two transfers of a pipe runs.
#[derive(Clone, Copy, Debug, PartialEq, Eq, Structural)]
pub enum Phase {
    Main,
    Loop,
}

/// What a pipe does in one step.
#[derive(Clone, Copy, Debug, PartialEq, Eq, Structural)]
pub enum StreamAction {
    /// The queue has no room: the main transfer waits.
    Idle,
    /// The main transfer copies the word at `address` to the queue.
    Copy { address: u32 },
    /// The loop transfer sets the source of the main transfer to `source`,
    /// the address it found in the indirection cell.
    Rearm { source: u32 },
}

/// The running state of a pipe.
#[derive(Clone, Copy, Debug, PartialEq, Eq, Structural)]
pub struct StreamEngine {
    /// Address of the word that the main transfer copies next.
    pub read_addr: u32,
    /// Number of words of one pass.
    pub count: u32,
    /// Number of words that the main transfer still has to copy.
    pub remaining: u32,
    pub phase: Phase,
}

/// The address one word after `address`; addresses wrap at 32 bits.
pub open spec fn next_word(address: u32) -> u32 {
    if address + 4 > u32::MAX {
        (address + 4 - 0x1_0000_0000) as u32
    } else {
        (address + 4) as u32
    }
}

/// The address `words` words after `start`; addresses wrap at 32 bits.
pub open spec fn address_after(start: u32, words: nat) -> u32
    decreases words,
{
    if words == 0 {
        start
    } else {
        next_word(address_after(start, (words - 1) as nat))
    }
}

/// Where the run of words ends below the top of the address space, the
/// address `words` words after `start` is `start` plus four times `words`.
pub proof fn lemma_address_after(start: u32, words: nat)
    requires
        start + 4 * words <= u32::MAX,
    ensures
        address_after(start, words) == start + 4 * words,
    decreases words,
{
    if words > 0 {
        lemma_address_after(start, (words - 1) as nat);
    }
}

/// One pass over a frame buffer of `bytes` bytes that lies at `start` reads
/// the words of the buffer, each once, from the first to the last, and no
/// other.
pub proof fn lemma_pass_covers_buffer(start: u32, bytes: nat, word: nat)
    requires
        bytes % 4 == 0,
        start + bytes <= u32::MAX,
        word < bytes / 4,
    ensures
        start <= address_after(start, word),
        address_after(start, word) + 4 <= start + bytes,
        address_after(start, word) == start + 4 * word,
{
    lemma_address_after(start, word);
}

impl StreamEngine {
    /// The main transfer runs while words remain; the loop transfer runs when
    /// none does.
    pub open spec fn wf(&self) -> bool {
        &&& 1 <= self.count
        &&& self.remaining <= self.count
        &&& self.phase == Phase::Main <==> self.remaining > 0
    }

    /// True at the start of a pass: the main transfer is armed and has not
    /// copied a word yet.
    pub open spec fn at_pass_start(&self) -> bool {
        self.wf() && self.remaining == self.count
    }

    /// The state after one step, with `cell` in the indirection cell and
    /// `ready` telling whether the queue has room.
    pub open spec fn stepped(self, cell: u32, ready: bool) -> StreamEngine {
        match self.phase {
            Phase::Main => if ready {
                StreamEngine {
                    read_addr: next_word(self.read_addr),
                    count: self.count,
                    remaining: (self.remaining - 1) as u32,
                    phase: if self.remaining == 1 {
                        Phase::Loop
                    } else {
                        Phase::Main
                    },
                }
            } else {
                self
            },
            Phase::Loop => StreamEngine {
                read_addr: cell,
                count: self.count,
                remaining: self.count,
                phase: Phase::Main,
            },
        }
    }

    /// What the pipe does in that step.
    pub open spec fn action(self, cell: u32, ready: bool) -> StreamAction {
        match self.phase {
            Phase::Main => if ready {
                StreamAction::Copy { address: self.read_addr }
            } else {
                StreamAction::Idle
            },
            Phase::Loop => StreamAction::Rearm { source: cell },
        }
    }

    /// The state in which the pair `pair` starts.
    pub fn start(pair: &StreamPair) -> (engine: Self)
        requires
            pair.self_retriggering(),
        ensures
            engine.at_pass_start(),
            engine.read_addr == pair.main.read_addr,
            engine.count == pair.main.trans_count,
    {
        StreamEngine {
            read_addr: pair.main.read_addr,
            count: pair.main.trans_count,
            remaining: pair.main.trans_count,
            phase: Phase::Main,
        }
    }

    /// One step of the pipe. In the main phase it copies one word if the
    /// queue has room, and hands over to the loop transfer after the last
    /// word. In the loop phase it reads the indirection cell, makes its
    /// content the source of the main transfer and arms it again.
    pub fn step(&mut self, cell: &IndirectionCell, ready: bool) -> (action: StreamAction)
        requires
            old(self).wf(),
        ensures
            final(self).wf(),
            *final(self) == old(self).stepped(cell@, ready),
            action == old(self).action(cell@, ready),
    {
        match self.phase {
            Phase::Main => {
                if ready {
                    let address = self.read_addr;
                    self.read_addr = self.read_addr.wrapping_add(4);
                    self.remaining = self.remaining - 1;
                    if self.remaining == 0 {
                        self.phase = Phase::Loop;
                    }
                    StreamAction::Copy { address }
                } else {
                    StreamAction::Idle
                }
            },
            Phase::Loop => {
                let source = cell.read();
                self.read_addr = source;
                self.remaining = self.count;
                self.phase = Phase::Main;
                StreamAction::Rearm { source }
            },
        }
    }

    /// Runs one whole pass with a queue that always has room, and the step of
    /// the loop transfer that follows it. Hands back the addresses of the
    /// words that were copied, in order.
    pub fn run_pass(&mut self, cell: &IndirectionCell) -> (copied: Vec<u32>)
        requires
            old(self).at_pass_start(),
        ensures
            final(self).at_pass_start(),
            final(self).count == old(self).count,
            final(self).read_addr == cell@,
            copied@.len() == old(self).count,
            forall|i: int|
                0 <= i < copied@.len() ==> copied@[i] == address_after(old(self).read_addr, i as nat),
    {
        let mut copied: Vec<u32> = Vec::new();
        let ghost first = self.read_addr;
        while self.remaining > 0
            invariant
                self.wf(),
                self.count == old(self).count,
                copied@.len() == self.count - self.remaining,
                self.read_addr == address_after(first, copied@.len()),
                forall|i: int| 0 <= i < copied@.len() ==> copied@[i] == address_after(first, i as nat),
            decreases self.remaining,
        {
            let action = self.step(cell, true);
            match action {
                StreamAction::Copy { address } => {
                    copied.push(address);
                },
                _ => {},
            }
        }
        let _ = self.step(cell, true);
        copied
    }
}

} // verus!
