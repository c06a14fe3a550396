//! Bring-up sequence of the display controller.
//!
//! On startup the controller must receive, in this exact order: a settle
//! delay, software reset, sleep-out (each followed by a delay of at least
//! 120 ms), the 16-bit color mode, the memory access mode, the full-panel
//! column and row address windows, and display-on followed by a final
//! delay.  Any transfer failure during this sequence is fatal: the platform
//! cannot be constructed.  The library states the sequence; the application
//! performs the delays and the transfers.

use vstd::prelude::*;

use crate::protocol::{CommandFrame, FrameModel, ST7789_SWRESET, ST7789_SLPOUT, ST7789_COLMOD,
    ST7789_MADCTL, ST7789_CASET, ST7789_RASET, ST7789_DISPON};

verus! {

/// One step of the bring-up sequence: wait, or send one command frame.
pub enum InitStep {
    DelayMs(u32),
    Send(CommandFrame),
}

/// Mathematical model of one bring-up step.
pub enum InitAction {
    DelayMs(u32),
    Send(FrameModel),
}

impl View for InitStep {
    type V = InitAction;

    open spec fn view(&self) -> InitAction {
        match self {
            InitStep::DelayMs(ms) => InitAction::DelayMs(*ms),
            InitStep::Send(frame) => InitAction::Send(frame@),
        }
    }
}

/// The models of a list of bring-up steps.
pub open spec fn actions_of(steps: Seq<InitStep>) -> Seq<InitAction> {
    steps.map_values(|s: InitStep| s@)
}

/// The bring-up sequence: settle, software reset, sleep out (each followed
/// by a 120 ms delay), 16-bit color mode, no rotation or mirroring, the
/// full-panel column and row windows (0..=239 big-endian), display on, and
/// a final 120 ms delay.
pub open spec fn spec_init_actions() -> Seq<InitAction> {
    seq![
        InitAction::DelayMs(120),
        InitAction::Send(FrameModel { opcode: ST7789_SWRESET, payload: Seq::empty() }),
        InitAction::DelayMs(120),
        InitAction::Send(FrameModel { opcode: ST7789_SLPOUT, payload: Seq::empty() }),
        InitAction::DelayMs(120),
        InitAction::Send(FrameModel { opcode: ST7789_COLMOD, payload: seq![0x05u8] }),
        InitAction::Send(FrameModel { opcode: ST7789_MADCTL, payload: seq![0x00u8] }),
        InitAction::Send(FrameModel { opcode: ST7789_CASET,
            payload: seq![0x00u8, 0x00u8, 0x00u8, 0xEFu8] }),
        InitAction::Send(FrameModel { opcode: ST7789_RASET,
            payload: seq![0x00u8, 0x00u8, 0x00u8, 0xEFu8] }),
        InitAction::Send(FrameModel { opcode: ST7789_DISPON, payload: Seq::empty() }),
        InitAction::DelayMs(120),
    ]
}

/// The command frames a list of bring-up steps sends, in order, delays
/// dropped.
pub open spec fn frames_of(actions: Seq<InitAction>) -> Seq<FrameModel>
    decreases actions.len(),
{
    if actions.len() == 0 {
        Seq::empty()
    } else {
        let rest = frames_of(actions.drop_last());
        match actions.last() {
            InitAction::Send(frame) => rest + seq![frame],
            InitAction::DelayMs(_) => rest,
        }
    }
}

/// The frames of the bring-up sequence, in order: SWRESET, SLPOUT,
/// COLMOD with 0x05, MADCTL with 0x00, CASET and RASET with the full panel
/// bounds, DISPON — byte-exact.
pub open spec fn spec_init_frames() -> Seq<FrameModel> {
    seq![
        FrameModel { opcode: ST7789_SWRESET, payload: Seq::empty() },
        FrameModel { opcode: ST7789_SLPOUT, payload: Seq::empty() },
        FrameModel { opcode: ST7789_COLMOD, payload: seq![0x05u8] },
        FrameModel { opcode: ST7789_MADCTL, payload: seq![0x00u8] },
        FrameModel { opcode: ST7789_CASET, payload: seq![0x00u8, 0x00u8, 0x00u8, 0xEFu8] },
        FrameModel { opcode: ST7789_RASET, payload: seq![0x00u8, 0x00u8, 0x00u8, 0xEFu8] },
        FrameModel { opcode: ST7789_DISPON, payload: Seq::empty() },
    ]
}

/// The bring-up sequence sends exactly the seven command frames of
/// `spec_init_frames`, in that order.
pub proof fn lemma_init_command_order()
    ensures
        frames_of(spec_init_actions()) == spec_init_frames(),
{
    reveal_with_fuel(frames_of, 12);
    assert(frames_of(spec_init_actions()) =~= spec_init_frames());
}

/// Build the bring-up sequence.
pub fn init_st7789() -> (steps: Vec<InitStep>)
    ensures
        actions_of(steps@) == spec_init_actions(),
{
    let mut steps: Vec<InitStep> = Vec::new();
    steps.push(InitStep::DelayMs(120));
    steps.push(InitStep::Send(CommandFrame { opcode: ST7789_SWRESET, payload: Vec::new() }));
    steps.push(InitStep::DelayMs(120));
    steps.push(InitStep::Send(CommandFrame { opcode: ST7789_SLPOUT, payload: Vec::new() }));
    steps.push(InitStep::DelayMs(120));

    let mut colmod_payload: Vec<u8> = Vec::new();
    colmod_payload.push(0x05);
    assert(colmod_payload@ =~= seq![0x05u8]);
    steps.push(InitStep::Send(CommandFrame { opcode: ST7789_COLMOD, payload: colmod_payload }));

    let mut madctl_payload: Vec<u8> = Vec::new();
    madctl_payload.push(0x00);
    assert(madctl_payload@ =~= seq![0x00u8]);
    steps.push(InitStep::Send(CommandFrame { opcode: ST7789_MADCTL, payload: madctl_payload }));

    let mut caset_payload: Vec<u8> = Vec::new();
    caset_payload.push(0x00);
    caset_payload.push(0x00);
    caset_payload.push(0x00);
    caset_payload.push(0xEF);
    assert(caset_payload@ =~= seq![0x00u8, 0x00u8, 0x00u8, 0xEFu8]);
    steps.push(InitStep::Send(CommandFrame { opcode: ST7789_CASET, payload: caset_payload }));

    let mut raset_payload: Vec<u8> = Vec::new();
    raset_payload.push(0x00);
    raset_payload.push(0x00);
    raset_payload.push(0x00);
    raset_payload.push(0xEF);
    assert(raset_payload@ =~= seq![0x00u8, 0x00u8, 0x00u8, 0xEFu8]);
    steps.push(InitStep::Send(CommandFrame { opcode: ST7789_RASET, payload: raset_payload }));

    steps.push(InitStep::Send(CommandFrame { opcode: ST7789_DISPON, payload: Vec::new() }));
    steps.push(InitStep::DelayMs(120));

    assert(actions_of(steps@) =~= spec_init_actions());
    steps
}

} // verus!
