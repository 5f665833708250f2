//! The three sequencers that drive the panel, as automata.
//!
//! Each runs for ever and on its own. They are coordinated by four signal
//! lines only: raising a line sets it, and the sequencer that waits for a
//! line clears it when it goes on.
//!
//! * The pixel sequencer shifts one row of packed colour bits out, raises
//!   `data_ready` and waits for `next_plane`.
//! * The row sequencer waits for `data_ready`, pulses the latch, raises
//!   `latch` and `next_plane`, waits for `dwell_done` and moves on to the
//!   next bit plane, or to the next row pair after the last plane.
//! * The intensity sequencer takes a dwell count from its queue, waits for
//!   `latch`, keeps the output enabled for that many steps and raises
//!   `dwell_done`.

use vstd::prelude::*;

verus! {

/// The four signal lines between the sequencers.
#[derive(Clone, Copy, Debug, PartialEq, Eq, Structural)]
pub struct Signals {
    /// A whole row of one bit plane has been shifted out.
    pub data_ready: bool,
    /// The row that was shifted out is latched: the next may be shifted.
    pub next_plane: bool,
    /// The latched row may be shown.
    pub latch: bool,
    /// The latched row has been shown for its dwell time.
    pub dwell_done: bool,
}

impl Signals {
    /// No line is raised.
    pub fn new() -> (signals: Self)
        ensures
            signals == (Signals {
                data_ready: false,
                next_plane: false,
                latch: false,
                dwell_done: false,
            }),
    {
        Signals { data_ready: false, next_plane: false, latch: false, dwell_done: false }
    }
}

/// What the pixel sequencer is doing.
#[derive(Clone, Copy, Debug, PartialEq, Eq, Structural)]
pub enum PixelPhase {
    /// It shifts the columns of a row out.
    Shifting,
    /// It has raised `data_ready` and waits for `next_plane`.
    Blocked,
}

/// The sequencer that clocks the packed colour bits out to the panel.
#[derive(Clone, Copy, Debug, PartialEq, Eq, Structural)]
pub struct PixelSequencer {
    /// Number of columns of a row.
    pub columns: u32,
    /// Number of columns of the current row that have been shifted out.
    pub column: u32,
    pub phase: PixelPhase,
}

/// What the pixel sequencer does in one step.
#[derive(Clone, Copy, Debug, PartialEq, Eq, Structural)]
pub struct PixelOutput {
    /// Whether the byte at the head of the queue was taken.
    pub consumed: bool,
    /// The byte that is put on the colour lines with a clock edge, if any.
    pub shifted: Option<u8>,
}

impl PixelSequencer {
    pub open spec fn wf(&self) -> bool {
        &&& 1 <= self.columns
        &&& self.column < self.columns
        &&& self.phase == PixelPhase::Blocked ==> self.column == 0
    }

    /// The sequencer after one step, with `input` at the head of its queue.
    pub open spec fn stepped(self, input: Option<u8>, signals: Signals) -> (PixelSequencer, Signals) {
        match self.phase {
            PixelPhase::Shifting => match input {
                Some(_) => if self.column + 1 == self.columns {
                    (
                        PixelSequencer {
                            columns: self.columns,
                            column: 0,
                            phase: PixelPhase::Blocked,
                        },
                        Signals { data_ready: true, ..signals },
                    )
                } else {
                    (
                        PixelSequencer {
                            columns: self.columns,
                            column: (self.column + 1) as u32,
                            phase: PixelPhase::Shifting,
                        },
                        signals,
                    )
                },
                None => (self, signals),
            },
            PixelPhase::Blocked => if signals.next_plane {
                (
                    PixelSequencer { columns: self.columns, column: 0, phase: PixelPhase::Shifting },
                    Signals { next_plane: false, ..signals },
                )
            } else {
                (self, signals)
            },
        }
    }

    /// What the sequencer puts out in that step.
    pub open spec fn output(self, input: Option<u8>, signals: Signals) -> PixelOutput {
        match self.phase {
            PixelPhase::Shifting => PixelOutput { consumed: input is Some, shifted: input },
            PixelPhase::Blocked => PixelOutput { consumed: false, shifted: None },
        }
    }

    /// The sequencer at start, told the row length less one.
    pub fn new(row_length: u32) -> (sequencer: Self)
        requires
            row_length < u32::MAX,
        ensures
            sequencer.wf(),
            sequencer == (PixelSequencer {
                columns: (row_length + 1) as u32,
                column: 0,
                phase: PixelPhase::Shifting,
            }),
    {
        PixelSequencer { columns: row_length + 1, column: 0, phase: PixelPhase::Shifting }
    }

    /// One step. While shifting, the byte at the head of the queue is put on
    /// the colour lines with one clock edge; after the last column of the
    /// row `data_ready` is raised. While blocked, the sequencer goes on when
    /// `next_plane` is raised, and clears it.
    pub fn step(&mut self, input: Option<u8>, signals: &mut Signals) -> (output: PixelOutput)
        requires
            old(self).wf(),
        ensures
            final(self).wf(),
            (*final(self), *final(signals)) == old(self).stepped(input, *old(signals)),
            output == old(self).output(input, *old(signals)),
    {
        match self.phase {
            PixelPhase::Shifting => match input {
                Some(byte) => {
                    if self.column + 1 == self.columns {
                        self.column = 0;
                        self.phase = PixelPhase::Blocked;
                        signals.data_ready = true;
                    } else {
                        self.column = self.column + 1;
                    }
                    PixelOutput { consumed: true, shifted: Some(byte) }
                },
                None => PixelOutput { consumed: false, shifted: None },
            },
            PixelPhase::Blocked => {
                if signals.next_plane {
                    signals.next_plane = false;
                    self.phase = PixelPhase::Shifting;
                }
                PixelOutput { consumed: false, shifted: None }
            },
        }
    }
}

/// What the row sequencer is doing.
#[derive(Clone, Copy, Debug, PartialEq, Eq, Structural)]
pub enum RowPhase {
    /// It waits for `data_ready`.
    AwaitData,
    /// It has latched a row and waits for `dwell_done`.
    AwaitDwell,
}

/// The sequencer that drives the row address lines and the latch.
#[derive(Clone, Copy, Debug, PartialEq, Eq, Structural)]
pub struct RowSequencer {
    /// Number of row pairs of the panel.
    pub row_pairs: u32,
    /// Number of bit planes.
    pub planes: u32,
    /// The row pair that is addressed.
    pub row: u32,
    /// The bit plane that is shown or waited for.
    pub plane: u32,
    pub phase: RowPhase,
}

/// What the row sequencer puts out in one step.
#[derive(Clone, Copy, Debug, PartialEq, Eq, Structural)]
pub struct RowOutput {
    /// The row pair on the address lines.
    pub address: u32,
    /// Whether the latch is pulsed.
    pub latch_pulse: bool,
}

impl RowSequencer {
    pub open spec fn wf(&self) -> bool {
        &&& self.row < self.row_pairs
        &&& self.plane < self.planes
    }

    /// The plane and row pair that follow `(plane, row)`: the next plane of
    /// the same row pair, or plane 0 of the next row pair, which after the
    /// last is the first again.
    pub open spec fn advanced(self) -> (u32, u32) {
        if self.plane + 1 < self.planes {
            ((self.plane + 1) as u32, self.row)
        } else if self.row + 1 < self.row_pairs {
            (0, (self.row + 1) as u32)
        } else {
            (0, 0)
        }
    }

    /// The sequencer after one step.
    pub open spec fn stepped(self, signals: Signals) -> (RowSequencer, Signals) {
        match self.phase {
            RowPhase::AwaitData => if signals.data_ready {
                (
                    RowSequencer { phase: RowPhase::AwaitDwell, ..self },
                    Signals { data_ready: false, latch: true, next_plane: true, ..signals },
                )
            } else {
                (self, signals)
            },
            RowPhase::AwaitDwell => if signals.dwell_done {
                (
                    RowSequencer {
                        plane: self.advanced().0,
                        row: self.advanced().1,
                        phase: RowPhase::AwaitData,
                        ..self
                    },
                    Signals { dwell_done: false, ..signals },
                )
            } else {
                (self, signals)
            },
        }
    }

    /// What the sequencer puts out in that step.
    pub open spec fn output(self, signals: Signals) -> RowOutput {
        RowOutput {
            address: self.row,
            latch_pulse: self.phase == RowPhase::AwaitData && signals.data_ready,
        }
    }

    /// The sequencer at start, told the number of row pairs and the number
    /// of bit planes, each less one.
    pub fn new(last_row: u32, last_plane: u32) -> (sequencer: Self)
        requires
            last_row < u32::MAX,
            last_plane < u32::MAX,
        ensures
            sequencer.wf(),
            sequencer == (RowSequencer {
                row_pairs: (last_row + 1) as u32,
                planes: (last_plane + 1) as u32,
                row: 0,
                plane: 0,
                phase: RowPhase::AwaitData,
            }),
    {
        RowSequencer {
            row_pairs: last_row + 1,
            planes: last_plane + 1,
            row: 0,
            plane: 0,
            phase: RowPhase::AwaitData,
        }
    }

    /// One step. When a row has been shifted out it is latched, and `latch`
    /// and `next_plane` are raised. When its dwell time is over the
    /// sequencer moves on to the next plane or row pair.
    pub fn step(&mut self, signals: &mut Signals) -> (output: RowOutput)
        requires
            old(self).wf(),
        ensures
            final(self).wf(),
            (*final(self), *final(signals)) == old(self).stepped(*old(signals)),
            output == old(self).output(*old(signals)),
    {
        let address = self.row;
        match self.phase {
            RowPhase::AwaitData => {
                if signals.data_ready {
                    signals.data_ready = false;
                    signals.latch = true;
                    signals.next_plane = true;
                    self.phase = RowPhase::AwaitDwell;
                    RowOutput { address, latch_pulse: true }
                } else {
                    RowOutput { address, latch_pulse: false }
                }
            },
            RowPhase::AwaitDwell => {
                if signals.dwell_done {
                    signals.dwell_done = false;
                    if self.plane + 1 < self.planes {
                        self.plane = self.plane + 1;
                    } else {
                        self.plane = 0;
                        if self.row + 1 < self.row_pairs {
                            self.row = self.row + 1;
                        } else {
                            self.row = 0;
                        }
                    }
                    self.phase = RowPhase::AwaitData;
                }
                RowOutput { address, latch_pulse: false }
            },
        }
    }
}

/// What the intensity sequencer is doing.
#[derive(Clone, Copy, Debug, PartialEq, Eq, Structural)]
pub enum IntensityPhase {
    /// It waits for a dwell count in its queue.
    AwaitCount,
    /// It holds a dwell count and waits for `latch`.
    AwaitLatch,
    /// It keeps the output enabled.
    Dwelling,
}

/// The sequencer that times the output-enable line.
#[derive(Clone, Copy, Debug, PartialEq, Eq, Structural)]
pub struct IntensitySequencer {
    /// Number of steps that the output still has to stay enabled.
    pub remaining: u32,
    pub phase: IntensityPhase,
}

/// What the intensity sequencer does in one step.
#[derive(Clone, Copy, Debug, PartialEq, Eq, Structural)]
pub struct IntensityOutput {
    /// Whether the count at the head of the queue was taken.
    pub consumed: bool,
    /// Whether the output of the panel is enabled during the step.
    pub output_enable: bool,
}

impl IntensitySequencer {
    pub open spec fn wf(&self) -> bool {
        &&& self.phase == IntensityPhase::Dwelling ==> self.remaining >= 1
        &&& self.phase == IntensityPhase::AwaitCount ==> self.remaining == 0
    }

    /// The sequencer after one step, with `input` at the head of its queue.
    pub open spec fn stepped(self, input: Option<u32>, signals: Signals) -> (
        IntensitySequencer,
        Signals,
    ) {
        match self.phase {
            IntensityPhase::AwaitCount => match input {
                Some(count) => (
                    IntensitySequencer { remaining: count, phase: IntensityPhase::AwaitLatch },
                    signals,
                ),
                None => (self, signals),
            },
            IntensityPhase::AwaitLatch => if signals.latch {
                if self.remaining == 0 {
                    (
                        IntensitySequencer { remaining: 0, phase: IntensityPhase::AwaitCount },
                        Signals { latch: false, dwell_done: true, ..signals },
                    )
                } else {
                    (
                        IntensitySequencer {
                            remaining: self.remaining,
                            phase: IntensityPhase::Dwelling,
                        },
                        Signals { latch: false, ..signals },
                    )
                }
            } else {
                (self, signals)
            },
            IntensityPhase::Dwelling => if self.remaining == 1 {
                (
                    IntensitySequencer { remaining: 0, phase: IntensityPhase::AwaitCount },
                    Signals { dwell_done: true, ..signals },
                )
            } else {
                (
                    IntensitySequencer {
                        remaining: (self.remaining - 1) as u32,
                        phase: IntensityPhase::Dwelling,
                    },
                    signals,
                )
            },
        }
    }

    /// What the sequencer does in that step.
    pub open spec fn output(self, input: Option<u32>, signals: Signals) -> IntensityOutput {
        IntensityOutput {
            consumed: self.phase == IntensityPhase::AwaitCount && input is Some,
            output_enable: self.phase == IntensityPhase::Dwelling,
        }
    }

    /// The sequencer at start: it waits for its first dwell count.
    pub fn new() -> (sequencer: Self)
        ensures
            sequencer.wf(),
            sequencer == (IntensitySequencer { remaining: 0, phase: IntensityPhase::AwaitCount }),
    {
        IntensitySequencer { remaining: 0, phase: IntensityPhase::AwaitCount }
    }

    /// One step. A dwell count is taken from the queue; once `latch` is
    /// raised the output is enabled for exactly that many steps; then
    /// `dwell_done` is raised.
    pub fn step(&mut self, input: Option<u32>, signals: &mut Signals) -> (output: IntensityOutput)
        requires
            old(self).wf(),
        ensures
            final(self).wf(),
            (*final(self), *final(signals)) == old(self).stepped(input, *old(signals)),
            output == old(self).output(input, *old(signals)),
    {
        match self.phase {
            IntensityPhase::AwaitCount => match input {
                Some(count) => {
                    self.remaining = count;
                    self.phase = IntensityPhase::AwaitLatch;
                    IntensityOutput { consumed: true, output_enable: false }
                },
                None => IntensityOutput { consumed: false, output_enable: false },
            },
            IntensityPhase::AwaitLatch => {
                if signals.latch {
                    signals.latch = false;
                    if self.remaining == 0 {
                        signals.dwell_done = true;
                        self.phase = IntensityPhase::AwaitCount;
                    } else {
                        self.phase = IntensityPhase::Dwelling;
                    }
                }
                IntensityOutput { consumed: false, output_enable: false }
            },
            IntensityPhase::Dwelling => {
                self.remaining = self.remaining - 1;
                if self.remaining == 0 {
                    signals.dwell_done = true;
                    self.phase = IntensityPhase::AwaitCount;
                }
                IntensityOutput { consumed: false, output_enable: true }
            },
        }
    }
}

/// The three sequencers and the signal lines between them.
#[derive(Clone, Copy, Debug, PartialEq, Eq, Structural)]
pub struct Sequencers {
    pub pixel: PixelSequencer,
    pub row: RowSequencer,
    pub intensity: IntensitySequencer,
    pub signals: Signals,
}

/// What the three sequencers put out in one step of the whole.
#[derive(Clone, Copy, Debug, PartialEq, Eq, Structural)]
pub struct PanelOutput {
    pub pixel: PixelOutput,
    pub row: RowOutput,
    pub intensity: IntensityOutput,
}

impl Sequencers {
    /// The states that the sequencers can reach together. While the pixel
    /// sequencer shifts, neither `data_ready` nor `next_plane` is raised, and
    /// the two are never raised together. While the row sequencer waits for
    /// data, nothing is latched for showing, no dwell is reported and the
    /// output is off. `latch` and `dwell_done` are never raised together,
    /// and neither is raised while the output is on.
    pub open spec fn wf(&self) -> bool {
        &&& self.pixel.wf()
        &&& self.row.wf()
        &&& self.intensity.wf()
        &&& self.pixel.phase == PixelPhase::Shifting ==> !self.signals.data_ready
            && !self.signals.next_plane
        &&& !(self.signals.data_ready && self.signals.next_plane)
        &&& self.row.phase == RowPhase::AwaitData ==> !self.signals.latch
            && !self.signals.dwell_done && self.intensity.phase != IntensityPhase::Dwelling
        &&& !(self.signals.latch && self.signals.dwell_done)
        &&& self.signals.latch ==> self.intensity.phase != IntensityPhase::Dwelling
        &&& self.signals.dwell_done ==> self.intensity.phase != IntensityPhase::Dwelling
    }

    /// The whole after one step: the pixel sequencer steps first, then the
    /// row sequencer, then the intensity sequencer.
    pub open spec fn stepped(self, pixel_in: Option<u8>, dwell_in: Option<u32>) -> Sequencers {
        let (pixel, after_pixel) = self.pixel.stepped(pixel_in, self.signals);
        let (row, after_row) = self.row.stepped(after_pixel);
        let (intensity, signals) = self.intensity.stepped(dwell_in, after_row);
        Sequencers { pixel, row, intensity, signals }
    }

    /// What the whole puts out in that step.
    pub open spec fn output(self, pixel_in: Option<u8>, dwell_in: Option<u32>) -> PanelOutput {
        let (pixel, after_pixel) = self.pixel.stepped(pixel_in, self.signals);
        let (row, after_row) = self.row.stepped(after_pixel);
        PanelOutput {
            pixel: self.pixel.output(pixel_in, self.signals),
            row: self.row.output(after_pixel),
            intensity: self.intensity.output(dwell_in, after_row),
        }
    }

    /// The sequencers at start for a panel of `columns` columns, `row_pairs`
    /// row pairs and `planes` bit planes: no line is raised, and each
    /// sequencer has been told its parameters.
    pub fn new(columns: u32, row_pairs: u32, planes: u32) -> (sequencers: Self)
        requires
            1 <= columns,
            1 <= row_pairs,
            1 <= planes,
        ensures
            sequencers.wf(),
            sequencers == (Sequencers {
                pixel: PixelSequencer { columns, column: 0, phase: PixelPhase::Shifting },
                row: RowSequencer {
                    row_pairs,
                    planes,
                    row: 0,
                    plane: 0,
                    phase: RowPhase::AwaitData,
                },
                intensity: IntensitySequencer { remaining: 0, phase: IntensityPhase::AwaitCount },
                signals: Signals {
                    data_ready: false,
                    next_plane: false,
                    latch: false,
                    dwell_done: false,
                },
            }),
    {
        Sequencers {
            pixel: PixelSequencer::new(columns - 1),
            row: RowSequencer::new(row_pairs - 1, planes - 1),
            intensity: IntensitySequencer::new(),
            signals: Signals::new(),
        }
    }

    /// One step of all three sequencers. `pixel_in` and `dwell_in` are the
    /// heads of the two input queues.
    ///
    /// The latch is pulsed only when a whole row has been shifted out and
    /// the pixel sequencer has stopped. The output is enabled only while the
    /// row sequencer waits for the dwell, so the address lines and the
    /// latched row are stable while the row is shown.
    pub fn step(&mut self, pixel_in: Option<u8>, dwell_in: Option<u32>) -> (output: PanelOutput)
        requires
            old(self).wf(),
        ensures
            final(self).wf(),
            *final(self) == old(self).stepped(pixel_in, dwell_in),
            output == old(self).output(pixel_in, dwell_in),
            output.row.latch_pulse ==> final(self).pixel.phase == PixelPhase::Blocked,
            output.row.latch_pulse ==> final(self).pixel.column == 0,
            output.intensity.output_enable ==> final(self).row.phase == RowPhase::AwaitDwell,
            output.intensity.output_enable ==> final(self).row.row == old(self).row.row,
            output.intensity.output_enable ==> final(self).row.plane == old(self).row.plane,
            output.intensity.output_enable ==> !output.row.latch_pulse,
    {
        let pixel = self.pixel.step(pixel_in, &mut self.signals);
        let row = self.row.step(&mut self.signals);
        let intensity = self.intensity.step(dwell_in, &mut self.signals);
        PanelOutput { pixel, row, intensity }
    }
}

} // verus!
