//! BY Tech / Sinowealth SH68F90A keyboard (`258A:010C`): lighting over HID
//! feature reports.
//!
//! Transport: report id 6, 520 bytes, on the vendor collection (usage page
//! `FF00`, usage 1, the 519-byte FEATURE collection, `Col06` on Windows):
//!
//! ```text
//! 06 CMD 00 00 01 00 L0 L1 <data…>            CMD | 0x80 = read
//! 0x84 / 0x04  read / write the 128-byte config block   (5A A5 trailer at 0x7E)
//! 0x8A / 0x0A  read / write the 512-byte colour table   (24 blocks × 7 RGB slots)
//! ```
//!
//! Config block: `0x09` light type (0 preset / 1 per-key), `0x0A` current effect,
//! and a per-effect entry `[brightness 0-9][speed<<4 | colour]` at a fixed
//! (gappy) offset. Colour nibble 0 selects the effect's user RGB slot (colour
//! table block = effect id, slot 0). Effect 1 is Solid, effect 0 is Off.
//!
//! Reads are "send the request, then fetch the answer". A busy keyboard answers
//! with zeros, so a config read is retried until the `5A A5` marker is present,
//! and a config block without it is never written back. Every write is a
//! read-modify-write of a block just read. After a solid colour is written, the
//! config block is read back once more, with the same marker-checked, retried
//! read; the session ends when that read succeeds. What it reads is not
//! compared with what was written.
use vstd::prelude::*;

use crate::hid::{prefixed, HidAction, HidActionView, HidEvent, HidEventView, Step, StepView};
use crate::text::{dec_u8, push_dec_u8};

verus! {

pub const VID: u16 = 0x258A;
pub const PID: u16 = 0x010C;
/// Usage page and usage of the lighting collection.
pub const USAGE_PAGE: u16 = 0xFF00;
pub const USAGE: u16 = 0x0001;

/// Feature report id of the lighting channel.
pub const REPORT_ID: u8 = 0x06;
/// Length of a packet sent to the keyboard.
pub const REPORT_LEN: usize = 520;
/// Length of the buffer an answer is fetched into (report id included).
pub const REPLY_LEN: usize = 521;
/// Offset of the block data inside a packet or an answer.
pub const DATA_AT: usize = 8;
pub const CFG_LEN: usize = 0x80;
pub const CT_LEN: usize = 0x200;
/// Bytes per colour-table block (7 RGB slots).
pub const PALETTE_STRIDE: usize = 21;

pub const EFFECT_OFF: u8 = 0;
pub const EFFECT_SOLID: u8 = 1;
/// The Solid effect's entry in the config block: brightness, then speed/colour.
pub const SOLID_ENTRY: usize = 0x3A;
pub const OFF_LIGHT_TYPE: usize = 0x09;
pub const OFF_EFFECT: usize = 0x0A;
/// Where the config block's `5A A5` marker sits.
pub const MARKER_AT: usize = 0x7E;
/// Highest brightness step of the firmware.
pub const MAX_LEVEL: u8 = 9;

pub const READ_CONFIG: u8 = 0x84;
pub const WRITE_CONFIG: u8 = 0x04;
pub const READ_COLOURS: u8 = 0x8A;
pub const WRITE_COLOURS: u8 = 0x0A;

/// Wait between a read request and fetching its answer.
pub const READ_WAIT_MS: u64 = 50;
/// Wait before retrying a read whose answer lacked the marker.
pub const RETRY_WAIT_MS: u64 = 40;
/// Firmware settle time after a write.
pub const WRITE_WAIT_MS: u64 = 60;
/// How many times a block read is tried.
pub const READ_ATTEMPTS: u8 = 4;

/// The packet for command `cmd` announcing `len` payload bytes and carrying `data`.
pub open spec fn kb_packet(cmd: u8, len: nat, data: Seq<u8>) -> Seq<u8> {
    Seq::new(
        REPORT_LEN as nat,
        |i: int|
            if i == 0 {
                REPORT_ID
            } else if i == 1 {
                cmd
            } else if i == 4 {
                1u8
            } else if i == 6 {
                (len % 256) as u8
            } else if i == 7 {
                ((len / 256) % 256) as u8
            } else if DATA_AT <= i < DATA_AT + data.len() {
                data[i - DATA_AT]
            } else {
                0u8
            },
    )
}

/// Builds the packet for `cmd` with the length field `len` and payload `data`
/// (at most 512 bytes).
pub fn packet(cmd: u8, len: usize, data: &Vec<u8>) -> (p: Vec<u8>)
    requires
        data@.len() <= REPORT_LEN - DATA_AT,
    ensures
        p@ == kb_packet(cmd, len as nat, data@),
{
    let mut p: Vec<u8> = vec![0u8; REPORT_LEN];
    p.set(0, REPORT_ID);
    p.set(1, cmd);
    p.set(4, 0x01);
    p.set(6, (len % 256) as u8);
    p.set(7, ((len / 256) % 256) as u8);
    assert(p@ =~= kb_packet(cmd, len as nat, data@.take(0)));
    let mut i: usize = 0;
    while i < data.len()
        invariant
            data@.len() <= REPORT_LEN - DATA_AT,
            i <= data@.len(),
            p@ =~= kb_packet(cmd, len as nat, data@.take(i as int)),
        decreases data@.len() - i,
    {
        p.set(DATA_AT + i, data[i]);
        i += 1;
        assert(p@ =~= kb_packet(cmd, len as nat, data@.take(i as int)));
    }
    assert(data@.take(i as int) =~= data@);
    p
}

/// The two stored blocks.
#[derive(Clone, Copy, PartialEq, Eq, Structural)]
pub enum Block {
    /// The 128-byte config block.
    Config,
    /// The 512-byte colour table.
    Colours,
}

pub open spec fn block_len(b: Block) -> nat {
    match b {
        Block::Config => CFG_LEN as nat,
        Block::Colours => CT_LEN as nat,
    }
}

pub open spec fn read_cmd(b: Block) -> u8 {
    match b {
        Block::Config => READ_CONFIG,
        Block::Colours => READ_COLOURS,
    }
}

pub open spec fn write_cmd(b: Block) -> u8 {
    match b {
        Block::Config => WRITE_CONFIG,
        Block::Colours => WRITE_COLOURS,
    }
}

/// A config block carries `5A A5` at `0x7E`.
pub open spec fn has_marker(data: Seq<u8>) -> bool {
    &&& data.len() >= CFG_LEN
    &&& data[MARKER_AT as int] == 0x5A
    &&& data[MARKER_AT as int + 1] == 0xA5
}

/// Requesting block `b` and fetching the answer.
pub open spec fn read_request(b: Block) -> HidActionView {
    HidActionView::Exchange {
        request: kb_packet(read_cmd(b), block_len(b), seq![]),
        wait_ms: READ_WAIT_MS,
        reply_len: REPLY_LEN,
        reply_id: REPORT_ID,
    }
}

/// Writing `data` back as block `b`.
pub open spec fn write_request(b: Block, data: Seq<u8>) -> HidActionView {
    HidActionView::Write { packet: kb_packet(write_cmd(b), data.len(), data), wait_ms: WRITE_WAIT_MS }
}

/// The block data inside an answer buffer.
pub open spec fn block_data(buf: Seq<u8>, b: Block) -> Seq<u8> {
    buf.subrange(DATA_AT as int, DATA_AT + block_len(b))
}

/// The brightness the firmware gets: at most 9.
pub open spec fn clamp_level(brightness: u8) -> u8 {
    if brightness < MAX_LEVEL { brightness } else { MAX_LEVEL }
}

/// The config block with Solid selected as a preset effect, its brightness
/// set, speed 0 and colour nibble 0 (the user RGB slot).
pub open spec fn solid_config(cfg: Seq<u8>, brightness: u8) -> Seq<u8> {
    cfg.update(OFF_EFFECT as int, EFFECT_SOLID)
        .update(OFF_LIGHT_TYPE as int, 0u8)
        .update(SOLID_ENTRY as int, clamp_level(brightness))
        .update(SOLID_ENTRY as int + 1, 0u8)
}

/// The config block with effect Off selected.
pub open spec fn off_config(cfg: Seq<u8>) -> Seq<u8> {
    cfg.update(OFF_EFFECT as int, EFFECT_OFF).update(OFF_LIGHT_TYPE as int, 0u8)
}

/// Offset of the Solid effect's user colour in the colour table (block 1, slot 0).
pub open spec fn solid_slot() -> int {
    EFFECT_SOLID as int * PALETTE_STRIDE as int
}

/// The colour table with the Solid effect's user colour set to `rgb`.
pub open spec fn solid_colours(ct: Seq<u8>, rgb: [u8; 3]) -> Seq<u8> {
    ct.update(solid_slot(), rgb[0]).update(solid_slot() + 1, rgb[1]).update(solid_slot() + 2, rgb[2])
}

/// The name of a firmware effect id, or `Effect <id>` for an unnamed one.
pub open spec fn effect_name_text(effect: u8) -> Seq<char> {
    if effect == 0 { "Off"@ }
    else if effect == 1 { "Solid"@ }
    else if effect == 2 { "Breathing"@ }
    else if effect == 3 { "Rainbow"@ }
    else if effect == 4 { "Flicker"@ }
    else if effect == 5 { "Running rain"@ }
    else if effect == 7 { "Ripple"@ }
    else if effect == 8 { "Stars"@ }
    else if effect == 10 { "Continuous stream"@ }
    else if effect == 11 { "Stream"@ }
    else if effect == 12 { "Shadow"@ }
    else if effect == 13 { "Sine wave"@ }
    else if effect == 15 { "Pinwheel"@ }
    else if effect == 16 { "Waterfall"@ }
    else if effect == 17 { "Bloom"@ }
    else if effect == 21 { "Custom picture"@ }
    else { "Effect "@ + dec_u8(effect) }
}

/// What the keyboard reports about its lighting.
pub struct KeyboardStatus {
    /// The current effect id.
    pub effect: u8,
    pub effect_name: String,
    /// 0–9, the firmware's own scale (the Solid effect's entry).
    pub brightness: u8,
    /// The Solid effect's user colour (colour-table block 1, slot 0).
    pub rgb: [u8; 3],
}

pub struct KeyboardStatusView {
    pub effect: u8,
    pub effect_name: Seq<char>,
    pub brightness: u8,
    pub rgb: Seq<u8>,
}

impl View for KeyboardStatus {
    type V = KeyboardStatusView;

    open spec fn view(&self) -> KeyboardStatusView {
        KeyboardStatusView {
            effect: self.effect,
            effect_name: self.effect_name@,
            brightness: self.brightness,
            rgb: self.rgb@,
        }
    }
}

/// The status read from a config block and a colour table.
pub open spec fn parse_status(cfg: Seq<u8>, ct: Seq<u8>) -> KeyboardStatusView {
    KeyboardStatusView {
        effect: cfg[OFF_EFFECT as int],
        effect_name: effect_name_text(cfg[OFF_EFFECT as int]),
        brightness: cfg[SOLID_ENTRY as int],
        rgb: seq![ct[solid_slot()], ct[solid_slot() + 1], ct[solid_slot() + 2]],
    }
}

/// The name of a firmware effect id; ids without a name read `Effect <id>`.
pub fn effect_name(effect: u8) -> (name: String)
    ensures
        name@ == effect_name_text(effect),
{
    if effect == 0 { String::from_str("Off") }
    else if effect == 1 { String::from_str("Solid") }
    else if effect == 2 { String::from_str("Breathing") }
    else if effect == 3 { String::from_str("Rainbow") }
    else if effect == 4 { String::from_str("Flicker") }
    else if effect == 5 { String::from_str("Running rain") }
    else if effect == 7 { String::from_str("Ripple") }
    else if effect == 8 { String::from_str("Stars") }
    else if effect == 10 { String::from_str("Continuous stream") }
    else if effect == 11 { String::from_str("Stream") }
    else if effect == 12 { String::from_str("Shadow") }
    else if effect == 13 { String::from_str("Sine wave") }
    else if effect == 15 { String::from_str("Pinwheel") }
    else if effect == 16 { String::from_str("Waterfall") }
    else if effect == 17 { String::from_str("Bloom") }
    else if effect == 21 { String::from_str("Custom picture") }
    else {
        let mut name = String::from_str("Effect ");
        push_dec_u8(&mut name, effect);
        name
    }
}

/// The status read from a config block and a colour table.
pub fn read_status(cfg: &Vec<u8>, ct: &Vec<u8>) -> (st: KeyboardStatus)
    requires
        cfg@.len() == CFG_LEN,
        ct@.len() == CT_LEN,
    ensures
        st@ == parse_status(cfg@, ct@),
{
    let effect: u8 = cfg[OFF_EFFECT];
    let o: usize = (EFFECT_SOLID as usize) * PALETTE_STRIDE;
    let rgb: [u8; 3] = [ct[o], ct[o + 1], ct[o + 2]];
    let st = KeyboardStatus {
        effect,
        effect_name: effect_name(effect),
        brightness: cfg[SOLID_ENTRY],
        rgb,
    };
    assert(st@.rgb =~= parse_status(cfg@, ct@).rgb);
    st
}

/// `cfg` with Solid selected at `brightness` (clamped to 9).
pub fn set_solid_config(cfg: &mut Vec<u8>, brightness: u8)
    requires
        old(cfg)@.len() == CFG_LEN,
    ensures
        final(cfg)@ == solid_config(old(cfg)@, brightness),
{
    cfg.set(OFF_EFFECT, EFFECT_SOLID);
    cfg.set(OFF_LIGHT_TYPE, 0);
    cfg.set(SOLID_ENTRY, if brightness < MAX_LEVEL { brightness } else { MAX_LEVEL });
    cfg.set(SOLID_ENTRY + 1, 0x00);
}

/// `cfg` with effect Off selected.
pub fn set_off_config(cfg: &mut Vec<u8>)
    requires
        old(cfg)@.len() == CFG_LEN,
    ensures
        final(cfg)@ == off_config(old(cfg)@),
{
    cfg.set(OFF_EFFECT, EFFECT_OFF);
    cfg.set(OFF_LIGHT_TYPE, 0);
}

/// `ct` with the Solid effect's user colour set to `rgb`.
pub fn set_solid_colours(ct: &mut Vec<u8>, rgb: [u8; 3])
    requires
        old(ct)@.len() == CT_LEN,
    ensures
        final(ct)@ == solid_colours(old(ct)@, rgb),
{
    let o: usize = (EFFECT_SOLID as usize) * PALETTE_STRIDE;
    ct.set(o, rgb[0]);
    ct.set(o + 1, rgb[1]);
    ct.set(o + 2, rgb[2]);
}

/// Bytes `start .. start + len` of `buf`, copied.
fn copy_range(buf: &Vec<u8>, start: usize, len: usize) -> (r: Vec<u8>)
    requires
        start + len <= buf@.len(),
    ensures
        r@ == buf@.subrange(start as int, start + len),
{
    let n: usize = buf.len();
    let mut r: Vec<u8> = Vec::new();
    let mut i: usize = 0;
    while i < len
        invariant
            n == buf@.len(),
            start + len <= buf@.len(),
            i <= len,
            r@ =~= buf@.subrange(start as int, start + i),
        decreases len - i,
    {
        r.push(buf[start + i]);
        i += 1;
        assert(r@ =~= buf@.subrange(start as int, start + i));
    }
    r
}

/// What one keyboard session does.
#[derive(Clone, Copy)]
pub enum KbTask {
    /// Read the config block, then the colour table, and report the lighting.
    Status,
    /// Solid colour `rgb` at `brightness` (0–9, higher values count as 9),
    /// stored in the keyboard's own flash: the colour table is read, its Solid
    /// slot set and written back; then the config block is read, Solid selected
    /// and written back; then the config block is read back once more (the read
    /// must succeed; its contents are not compared with the write).
    SetSolid { rgb: [u8; 3], brightness: u8 },
    /// Effect Off: the config block is read, Off selected and written back.
    SetOff,
}

/// Where a keyboard session stands.
#[derive(Clone, Copy)]
pub enum KbPhase {
    /// Waiting for the answer to read attempt `attempt` (from 0) of `block`.
    Reading { block: Block, attempt: u8 },
    /// Waiting before retrying after attempt `attempt` of `block` lacked the marker.
    Backoff { block: Block, attempt: u8 },
    /// Waiting for the write of `block` to be sent.
    Writing { block: Block },
    /// The outcome has been yielded.
    Done,
}

/// The state of a keyboard session.
pub struct KeyboardView {
    pub task: KbTask,
    pub phase: KbPhase,
    /// The config block a status task has read so far.
    pub cfg: Seq<u8>,
    /// A set-solid task has written the config block and is reading it back.
    pub reading_back: bool,
}

/// The outcome of a keyboard session that succeeded.
pub enum KbDone {
    /// What a status task read.
    Status(KeyboardStatus),
    /// A set task wrote its blocks.
    Applied,
}

pub enum KbDoneView {
    Status(KeyboardStatusView),
    Applied,
}

impl View for KbDone {
    type V = KbDoneView;

    open spec fn view(&self) -> KbDoneView {
        match self {
            KbDone::Status(s) => KbDoneView::Status(s@),
            KbDone::Applied => KbDoneView::Applied,
        }
    }
}

/// The error when every read of the config block lacked the marker.
pub open spec fn marker_error_text() -> Seq<char> {
    "keyboard config read failed the 5A A5 marker check; refusing to write"@
}

/// The block a task reads first.
pub open spec fn first_block(task: KbTask) -> Block {
    match task {
        KbTask::SetSolid { .. } => Block::Colours,
        _ => Block::Config,
    }
}

/// A fresh session for `task` and the first transfer it asks for.
pub open spec fn kb_start(task: KbTask) -> (KeyboardView, HidActionView) {
    (
        KeyboardView {
            task,
            phase: KbPhase::Reading { block: first_block(task), attempt: 0 },
            cfg: seq![],
            reading_back: false,
        },
        read_request(first_block(task)),
    )
}

/// A session that is still running, in a phase its task can reach.
pub open spec fn kb_active(s: KeyboardView) -> bool {
    match s.phase {
        KbPhase::Reading { block, attempt } => {
            &&& attempt < READ_ATTEMPTS
            &&& match s.task {
                KbTask::Status => block == Block::Colours ==> s.cfg.len() == CFG_LEN,
                KbTask::SetSolid { .. } => true,
                KbTask::SetOff => block == Block::Config,
            }
        },
        KbPhase::Backoff { block, attempt } => attempt < READ_ATTEMPTS && block == Block::Config,
        KbPhase::Writing { block } => match s.task {
            KbTask::Status => false,
            KbTask::SetSolid { .. } => true,
            KbTask::SetOff => block == Block::Config,
        },
        KbPhase::Done => false,
    }
}

/// The answers a session accepts in its phase: what the transfer it asked for
/// can give, with an answer buffer of the size asked for.
pub open spec fn kb_event_ok(s: KeyboardView, e: HidEventView) -> bool {
    match s.phase {
        KbPhase::Reading { .. } => match e {
            HidEventView::SendFailed(_) => true,
            HidEventView::ReceiveFailed(_) => true,
            HidEventView::Received(b) => b.len() == REPLY_LEN,
            _ => false,
        },
        KbPhase::Backoff { .. } => e is Waited,
        KbPhase::Writing { .. } => e is SendFailed || e is Sent,
        KbPhase::Done => false,
    }
}

/// What follows a successful read of `block` that gave `data`.
pub open spec fn after_read(s: KeyboardView, block: Block, data: Seq<u8>) -> (KeyboardView, StepView<KbDoneView>) {
    match s.task {
        KbTask::Status => if block == Block::Config {
            (
                KeyboardView { phase: KbPhase::Reading { block: Block::Colours, attempt: 0 }, cfg: data, ..s },
                StepView::Next(read_request(Block::Colours)),
            )
        } else {
            (
                KeyboardView { phase: KbPhase::Done, ..s },
                StepView::Done(Ok(KbDoneView::Status(parse_status(s.cfg, data)))),
            )
        },
        KbTask::SetSolid { rgb, brightness } => if block == Block::Colours {
            (
                KeyboardView { phase: KbPhase::Writing { block: Block::Colours }, ..s },
                StepView::Next(write_request(Block::Colours, solid_colours(data, rgb))),
            )
        } else if s.reading_back {
            (KeyboardView { phase: KbPhase::Done, ..s }, StepView::Done(Ok(KbDoneView::Applied)))
        } else {
            (
                KeyboardView { phase: KbPhase::Writing { block: Block::Config }, ..s },
                StepView::Next(write_request(Block::Config, solid_config(data, brightness))),
            )
        },
        KbTask::SetOff => (
            KeyboardView { phase: KbPhase::Writing { block: Block::Config }, ..s },
            StepView::Next(write_request(Block::Config, off_config(data))),
        ),
    }
}

/// What follows a write of `block` that was sent (and its settle time passed):
/// after the colour table, a set-solid task reads the config block; after the
/// config block, it reads the config block back once more.
pub open spec fn after_write(s: KeyboardView, block: Block) -> (KeyboardView, StepView<KbDoneView>) {
    if s.task is SetSolid && block == Block::Colours {
        (
            KeyboardView { phase: KbPhase::Reading { block: Block::Config, attempt: 0 }, ..s },
            StepView::Next(read_request(Block::Config)),
        )
    } else if s.task is SetSolid {
        (
            KeyboardView { phase: KbPhase::Reading { block: Block::Config, attempt: 0 }, reading_back: true, ..s },
            StepView::Next(read_request(Block::Config)),
        )
    } else {
        (KeyboardView { phase: KbPhase::Done, ..s }, StepView::Done(Ok(KbDoneView::Applied)))
    }
}

/// One step of a keyboard session: the new state and what comes next.
pub open spec fn kb_next(s: KeyboardView, e: HidEventView) -> (KeyboardView, StepView<KbDoneView>) {
    let finished = KeyboardView { phase: KbPhase::Done, ..s };
    match s.phase {
        KbPhase::Reading { block, attempt } => match e {
            HidEventView::SendFailed(m) => (finished, StepView::Done(Err("keyboard read request: "@ + m))),
            HidEventView::ReceiveFailed(m) => (finished, StepView::Done(Err("keyboard read: "@ + m))),
            HidEventView::Received(buf) => {
                let data = block_data(buf, block);
                if block == Block::Config && !has_marker(data) {
                    (
                        KeyboardView { phase: KbPhase::Backoff { block, attempt }, ..s },
                        StepView::Next(HidActionView::Wait { ms: RETRY_WAIT_MS }),
                    )
                } else {
                    after_read(s, block, data)
                }
            },
            _ => (finished, StepView::Done(Err(seq![]))),
        },
        KbPhase::Backoff { block, attempt } => if attempt + 1 < READ_ATTEMPTS {
            (
                KeyboardView { phase: KbPhase::Reading { block, attempt: (attempt + 1) as u8 }, ..s },
                StepView::Next(read_request(block)),
            )
        } else {
            (finished, StepView::Done(Err(marker_error_text())))
        },
        KbPhase::Writing { block } => match e {
            HidEventView::SendFailed(m) => (finished, StepView::Done(Err("keyboard write: "@ + m))),
            _ => after_write(s, block),
        },
        KbPhase::Done => (finished, StepView::Done(Err(seq![]))),
    }
}

/// The read exchange for `block`.
fn read_action(block: Block) -> (a: HidAction)
    ensures
        a@ == read_request(block),
{
    let (cmd, len): (u8, usize) = match block {
        Block::Config => (READ_CONFIG, CFG_LEN),
        Block::Colours => (READ_COLOURS, CT_LEN),
    };
    let empty: Vec<u8> = Vec::new();
    let request = packet(cmd, len, &empty);
    assert(empty@ =~= seq![]);
    HidAction::Exchange { request, wait_ms: READ_WAIT_MS, reply_len: REPLY_LEN, reply_id: REPORT_ID }
}

/// The write of `data` as `block`.
fn write_action(block: Block, data: &Vec<u8>) -> (a: HidAction)
    requires
        data@.len() <= REPORT_LEN - DATA_AT,
    ensures
        a@ == write_request(block, data@),
{
    let cmd: u8 = match block {
        Block::Config => WRITE_CONFIG,
        Block::Colours => WRITE_COLOURS,
    };
    HidAction::Write { packet: packet(cmd, data.len(), data), wait_ms: WRITE_WAIT_MS }
}

/// One operation on the keyboard, run as a session: it names each transfer in
/// turn and ends with the operation's outcome.
pub struct Keyboard {
    task: KbTask,
    phase: KbPhase,
    cfg: Vec<u8>,
    reading_back: bool,
}

impl View for Keyboard {
    type V = KeyboardView;

    closed spec fn view(&self) -> KeyboardView {
        KeyboardView { task: self.task, phase: self.phase, cfg: self.cfg@, reading_back: self.reading_back }
    }
}

impl Keyboard {
    /// Whether a HID interface is the keyboard's lighting channel: `258A:010C`,
    /// usage page `FF00`, usage 1, on the `Col06` collection.
    pub fn is_lighting_interface(vendor_id: u16, product_id: u16, usage_page: u16, usage: u16, path: &str) -> (r: bool)
        ensures
            r == (vendor_id == VID && product_id == PID && usage_page == USAGE_PAGE && usage == USAGE
                && crate::text::contains_text(path@, "Col06"@)),
    {
        vendor_id == VID && product_id == PID && usage_page == USAGE_PAGE && usage == USAGE
            && crate::text::contains(path, "Col06")
    }

    fn start(task: KbTask) -> (r: (Keyboard, HidAction))
        ensures
            r.0@ == kb_start(task).0,
            r.1@ == kb_start(task).1,
            kb_active(r.0@),
    {
        let block = match task {
            KbTask::SetSolid { .. } => Block::Colours,
            _ => Block::Config,
        };
        let k = Keyboard { task, phase: KbPhase::Reading { block, attempt: 0 }, cfg: Vec::new(), reading_back: false };
        assert(k@.cfg =~= Seq::<u8>::empty());
        (k, read_action(block))
    }

    /// Starts reading the current effect, the Solid brightness and the Solid
    /// colour.
    pub fn status() -> (r: (Keyboard, HidAction))
        ensures
            r.0@ == kb_start(KbTask::Status).0,
            r.1@ == kb_start(KbTask::Status).1,
            kb_active(r.0@),
    {
        Keyboard::start(KbTask::Status)
    }

    /// Starts setting a solid colour at `brightness` (0–9, higher counts as 9),
    /// persisted in the keyboard's own flash.
    pub fn set_solid(rgb: [u8; 3], brightness: u8) -> (r: (Keyboard, HidAction))
        ensures
            r.0@ == kb_start(KbTask::SetSolid { rgb, brightness }).0,
            r.1@ == kb_start(KbTask::SetSolid { rgb, brightness }).1,
            kb_active(r.0@),
    {
        Keyboard::start(KbTask::SetSolid { rgb, brightness })
    }

    /// Starts switching the lighting off.
    pub fn set_off() -> (r: (Keyboard, HidAction))
        ensures
            r.0@ == kb_start(KbTask::SetOff).0,
            r.1@ == kb_start(KbTask::SetOff).1,
            kb_active(r.0@),
    {
        Keyboard::start(KbTask::SetOff)
    }

    /// Moves on after a successful read of `block` that gave `data`.
    fn read_done(&mut self, block: Block, data: Vec<u8>) -> (r: Step<KbDone>)
        requires
            kb_active(old(self)@),
            old(self)@.phase is Reading,
            old(self)@.phase->Reading_block == block,
            data@.len() == block_len(block),
        ensures
            final(self)@ == after_read(old(self)@, block, data@).0,
            r@ == after_read(old(self)@, block, data@).1,
    {
        match self.task {
            KbTask::Status => {
                if block == Block::Config {
                    self.cfg = data;
                    self.phase = KbPhase::Reading { block: Block::Colours, attempt: 0 };
                    Step::Next(read_action(Block::Colours))
                } else {
                    self.phase = KbPhase::Done;
                    Step::Done(Ok(KbDone::Status(read_status(&self.cfg, &data))))
                }
            },
            KbTask::SetSolid { rgb, brightness } => {
                let mut block_data = data;
                if block == Block::Colours {
                    set_solid_colours(&mut block_data, rgb);
                    self.phase = KbPhase::Writing { block: Block::Colours };
                    Step::Next(write_action(Block::Colours, &block_data))
                } else if self.reading_back {
                    self.phase = KbPhase::Done;
                    Step::Done(Ok(KbDone::Applied))
                } else {
                    set_solid_config(&mut block_data, brightness);
                    self.phase = KbPhase::Writing { block: Block::Config };
                    Step::Next(write_action(Block::Config, &block_data))
                }
            },
            KbTask::SetOff => {
                let mut block_data = data;
                set_off_config(&mut block_data);
                self.phase = KbPhase::Writing { block: Block::Config };
                Step::Next(write_action(Block::Config, &block_data))
            },
        }
    }

    /// Feeds the answer to the last transfer into the session.
    pub fn step(&mut self, event: HidEvent) -> (r: Step<KbDone>)
        requires
            kb_active(old(self)@),
            kb_event_ok(old(self)@, event@),
        ensures
            final(self)@ == kb_next(old(self)@, event@).0,
            r@ == kb_next(old(self)@, event@).1,
            final(self)@.phase is Done || kb_active(final(self)@),
    {
        match self.phase {
            KbPhase::Reading { block, attempt } => match event {
                HidEvent::SendFailed(e) => {
                    self.phase = KbPhase::Done;
                    Step::Done(Err(prefixed("keyboard read request: ", &e)))
                },
                HidEvent::ReceiveFailed(e) => {
                    self.phase = KbPhase::Done;
                    Step::Done(Err(prefixed("keyboard read: ", &e)))
                },
                HidEvent::Received(buf) => {
                    let len: usize = match block {
                        Block::Config => CFG_LEN,
                        Block::Colours => CT_LEN,
                    };
                    let data = copy_range(&buf, DATA_AT, len);
                    if block == Block::Config && !(data[MARKER_AT] == 0x5A && data[MARKER_AT + 1] == 0xA5) {
                        self.phase = KbPhase::Backoff { block, attempt };
                        Step::Next(HidAction::Wait { ms: RETRY_WAIT_MS })
                    } else {
                        self.read_done(block, data)
                    }
                },
                _ => {
                    // excluded by `kb_event_ok`
                    self.phase = KbPhase::Done;
                    Step::Done(Err(String::new()))
                },
            },
            KbPhase::Backoff { block, attempt } => {
                if attempt + 1 < READ_ATTEMPTS {
                    self.phase = KbPhase::Reading { block, attempt: attempt + 1 };
                    Step::Next(read_action(block))
                } else {
                    self.phase = KbPhase::Done;
                    Step::Done(Err(String::from_str("keyboard config read failed the 5A A5 marker check; refusing to write")))
                }
            },
            KbPhase::Writing { block } => match event {
                HidEvent::SendFailed(e) => {
                    self.phase = KbPhase::Done;
                    Step::Done(Err(prefixed("keyboard write: ", &e)))
                },
                _ => {
                    if self.task.is_set_solid() && block == Block::Colours {
                        self.phase = KbPhase::Reading { block: Block::Config, attempt: 0 };
                        Step::Next(read_action(Block::Config))
                    } else if self.task.is_set_solid() {
                        self.phase = KbPhase::Reading { block: Block::Config, attempt: 0 };
                        self.reading_back = true;
                        Step::Next(read_action(Block::Config))
                    } else {
                        self.phase = KbPhase::Done;
                        Step::Done(Ok(KbDone::Applied))
                    }
                },
            },
            KbPhase::Done => {
                // excluded by `kb_active`
                Step::Done(Err(String::new()))
            },
        }
    }
}

impl KbTask {
    fn is_set_solid(&self) -> (r: bool)
        ensures
            r == (*self is SetSolid),
    {
        match self {
            KbTask::SetSolid { .. } => true,
            _ => false,
        }
    }
}

/// A config block is never written back without its `5A A5` marker: every
/// config write a session asks for carries the marker at its place, and the
/// block it carries is the one just read with every byte kept but the effect,
/// light type and Solid entry.
pub proof fn lemma_config_writes_keep_marker(s: KeyboardView, e: HidEventView)
    requires
        kb_active(s),
        kb_event_ok(s, e),
    ensures
        kb_next(s, e).1 matches StepView::Next(HidActionView::Write { packet, .. }) ==> {
            &&& packet.len() == REPORT_LEN
            &&& (packet[1] == WRITE_CONFIG ==> {
                &&& packet[DATA_AT + MARKER_AT] == 0x5A
                &&& packet[DATA_AT + MARKER_AT + 1] == 0xA5
                &&& e matches HidEventView::Received(buf) && {
                    let read = block_data(buf, Block::Config);
                    &&& has_marker(read)
                    &&& forall|j: int| 0 <= j < CFG_LEN && j != OFF_LIGHT_TYPE && j != OFF_EFFECT
                        && j != SOLID_ENTRY && j != SOLID_ENTRY + 1 ==> #[trigger] packet[DATA_AT + j] == read[j]
                }
            })
        },
{
}

/// A reply that lacks the marker is never written: the session waits and
/// retries, or gives up.
pub proof fn lemma_unmarked_config_not_written(s: KeyboardView, buf: Seq<u8>)
    requires
        kb_active(s),
        s.phase matches KbPhase::Reading { block, .. } && block == Block::Config,
        buf.len() == REPLY_LEN,
        !has_marker(block_data(buf, Block::Config)),
    ensures
        kb_next(s, HidEventView::Received(buf)).1 == StepView::<KbDoneView>::Next(HidActionView::Wait { ms: RETRY_WAIT_MS }),
{
}

/// A block is read at most four times: after the fourth answer without the
/// marker, the session ends with the marker error and writes nothing.
pub proof fn lemma_read_attempts_bounded(s: KeyboardView)
    requires
        kb_active(s),
        s.phase matches KbPhase::Backoff { attempt, .. } && attempt + 1 == READ_ATTEMPTS,
    ensures
        kb_next(s, HidEventView::Waited).1 == StepView::<KbDoneView>::Done(Err(marker_error_text())),
        kb_next(s, HidEventView::Waited).0.phase is Done,
{
}

/// A running session stays in a phase its task can reach (so fewer than four
/// read attempts per block) until it finishes.
pub proof fn lemma_kb_next_stays_active(s: KeyboardView, e: HidEventView)
    requires
        kb_active(s),
        kb_event_ok(s, e),
    ensures
        kb_next(s, e).0.phase is Done || kb_active(kb_next(s, e).0),
        kb_next(s, e).0.task == s.task,
{
    match s.phase {
        KbPhase::Reading { block, attempt } => {
            if let HidEventView::Received(buf) = e {
                assert(block_data(buf, block).len() == block_len(block));
            }
        },
        _ => {},
    }
}

/// The colour-table write changes only the Solid user colour.
pub proof fn lemma_solid_colours_only_slot(ct: Seq<u8>, rgb: [u8; 3])
    requires
        ct.len() == CT_LEN,
    ensures
        solid_colours(ct, rgb).len() == CT_LEN,
        forall|j: int| 0 <= j < CT_LEN && !(solid_slot() <= j < solid_slot() + 3) ==> #[trigger] solid_colours(ct, rgb)[j] == ct[j],
{
}

/// What a solid write leaves in the keyboard, a status read gives back: effect
/// 1 ("Solid"), the brightness clamped to 0–9, and the colour.
pub proof fn lemma_status_reads_back_solid(cfg: Seq<u8>, ct: Seq<u8>, rgb: [u8; 3], brightness: u8)
    requires
        cfg.len() == CFG_LEN,
        ct.len() == CT_LEN,
    ensures
        parse_status(solid_config(cfg, brightness), solid_colours(ct, rgb)) == (KeyboardStatusView {
            effect: EFFECT_SOLID,
            effect_name: "Solid"@,
            brightness: clamp_level(brightness),
            rgb: rgb@,
        }),
{
    assert(parse_status(solid_config(cfg, brightness), solid_colours(ct, rgb)).rgb =~= rgb@);
}

/// What an off write leaves in the keyboard, a status read gives back: effect 0
/// ("Off"), with the Solid brightness and colour untouched.
pub proof fn lemma_status_reads_back_off(cfg: Seq<u8>, ct: Seq<u8>)
    requires
        cfg.len() == CFG_LEN,
        ct.len() == CT_LEN,
    ensures
        parse_status(off_config(cfg), ct).effect == EFFECT_OFF,
        parse_status(off_config(cfg), ct).effect_name == "Off"@,
        parse_status(off_config(cfg), ct).brightness == parse_status(cfg, ct).brightness,
        parse_status(off_config(cfg), ct).rgb == parse_status(cfg, ct).rgb,
{
}

/// The colour-table write carries the colour table just read, with only the
/// Solid user colour changed.
pub proof fn lemma_colour_writes_modify_only_slot(s: KeyboardView, e: HidEventView)
    requires
        kb_active(s),
        kb_event_ok(s, e),
    ensures
        kb_next(s, e).1 matches StepView::Next(HidActionView::Write { packet, .. }) ==> (packet[1] == WRITE_COLOURS ==> {
            &&& s.task matches KbTask::SetSolid { rgb, .. }
            &&& e matches HidEventView::Received(buf) && {
                let read = block_data(buf, Block::Colours);
                &&& forall|j: int| 0 <= j < CT_LEN && !(solid_slot() <= j < solid_slot() + 3) ==> #[trigger] packet[DATA_AT + j] == read[j]
                &&& packet[DATA_AT + solid_slot()] == rgb[0]
                &&& packet[DATA_AT + solid_slot() + 1] == rgb[1]
                &&& packet[DATA_AT + solid_slot() + 2] == rgb[2]
            }
        }),
{
}

/// Every step a session yields for a list of answers, in order.
pub open spec fn kb_trace(s: KeyboardView, events: Seq<HidEventView>) -> Seq<StepView<KbDoneView>>
    decreases events.len(),
{
    if events.len() == 0 {
        seq![]
    } else {
        let (next, step) = kb_next(s, events[0]);
        seq![step] + kb_trace(next, events.drop_first())
    }
}

/// A busy keyboard's answers: each read answered with `bufs[i]`, each wait
/// that follows it passing.
pub open spec fn busy_events(bufs: Seq<Seq<u8>>) -> Seq<HidEventView>
    decreases bufs.len(),
{
    if bufs.len() == 0 {
        seq![]
    } else {
        seq![HidEventView::Received(bufs[0]), HidEventView::Waited] + busy_events(bufs.drop_first())
    }
}

/// A step that writes to the keyboard.
pub open spec fn is_write(step: StepView<KbDoneView>) -> bool {
    step matches StepView::Next(HidActionView::Write { .. })
}

/// A keyboard that keeps answering a config read without the marker (as a busy
/// one answers with zeros) gets no write at all: after the remaining read
/// attempts, each followed by a wait, the session ends with the marker error.
pub proof fn lemma_busy_keyboard_never_written(s: KeyboardView, bufs: Seq<Seq<u8>>)
    requires
        kb_active(s),
        s.phase matches KbPhase::Reading { block, attempt } && block == Block::Config && attempt + bufs.len() == READ_ATTEMPTS,
        forall|i: int| 0 <= i < bufs.len() ==> (#[trigger] bufs[i]).len() == REPLY_LEN && !has_marker(block_data(bufs[i], Block::Config)),
    ensures
        kb_trace(s, busy_events(bufs)).len() == 2 * bufs.len(),
        forall|i: int| 0 <= i < kb_trace(s, busy_events(bufs)).len() ==> !is_write(#[trigger] kb_trace(s, busy_events(bufs))[i]),
        kb_trace(s, busy_events(bufs)).last() == StepView::<KbDoneView>::Done(Err(marker_error_text())),
    decreases bufs.len(),
{
    let attempt: u8 = s.phase->Reading_attempt;
    let events = busy_events(bufs);
    assert(bufs.len() >= 1);
    assert(bufs[0].len() == REPLY_LEN && !has_marker(block_data(bufs[0], Block::Config)));
    let (s1, st1) = kb_next(s, events[0]);
    let rest1 = events.drop_first();
    assert(rest1[0] == HidEventView::Waited);
    let (s2, st2) = kb_next(s1, rest1[0]);
    let rest2 = rest1.drop_first();
    assert(rest2 =~= busy_events(bufs.drop_first()));
    assert(kb_trace(s, events) == seq![st1] + kb_trace(s1, rest1));
    assert(kb_trace(s1, rest1) == seq![st2] + kb_trace(s2, rest2));
    assert(kb_trace(s, events) =~= seq![st1] + (seq![st2] + kb_trace(s2, rest2)));
    if bufs.len() == 1 {
        assert(rest2.len() == 0);
    } else {
        let more = bufs.drop_first();
        assert(forall|i: int| 0 <= i < more.len() ==> more[i] == bufs[i + 1]);
        lemma_busy_keyboard_never_written(s2, more);
    }
}

/// Setting a solid colour on a keyboard that answers every read with its
/// block: the colour table is read and written back with the Solid colour
/// set, then the config block is read and written back with Solid selected,
/// then the config block is read back once more, and only then does the
/// session end applied.
pub proof fn lemma_set_solid_run(rgb: [u8; 3], brightness: u8, ct_buf: Seq<u8>, cfg_buf: Seq<u8>, readback_buf: Seq<u8>)
    requires
        ct_buf.len() == REPLY_LEN,
        cfg_buf.len() == REPLY_LEN,
        readback_buf.len() == REPLY_LEN,
        has_marker(block_data(cfg_buf, Block::Config)),
        has_marker(block_data(readback_buf, Block::Config)),
    ensures
        kb_start(KbTask::SetSolid { rgb, brightness }).1 == read_request(Block::Colours),
        kb_trace(
            kb_start(KbTask::SetSolid { rgb, brightness }).0,
            seq![
                HidEventView::Received(ct_buf),
                HidEventView::Sent,
                HidEventView::Received(cfg_buf),
                HidEventView::Sent,
                HidEventView::Received(readback_buf),
            ],
        ) == seq![
            StepView::<KbDoneView>::Next(write_request(Block::Colours, solid_colours(block_data(ct_buf, Block::Colours), rgb))),
            StepView::<KbDoneView>::Next(read_request(Block::Config)),
            StepView::<KbDoneView>::Next(write_request(Block::Config, solid_config(block_data(cfg_buf, Block::Config), brightness))),
            StepView::<KbDoneView>::Next(read_request(Block::Config)),
            StepView::<KbDoneView>::Done(Ok(KbDoneView::Applied)),
        ],
{
    let s0 = kb_start(KbTask::SetSolid { rgb, brightness }).0;
    let ev = seq![
        HidEventView::Received(ct_buf),
        HidEventView::Sent,
        HidEventView::Received(cfg_buf),
        HidEventView::Sent,
        HidEventView::Received(readback_buf),
    ];
    let e1 = ev.drop_first();
    let e2 = e1.drop_first();
    let e3 = e2.drop_first();
    let e4 = e3.drop_first();
    let e5 = e4.drop_first();
    assert(e1 =~= seq![HidEventView::Sent, HidEventView::Received(cfg_buf), HidEventView::Sent, HidEventView::Received(readback_buf)]);
    assert(e2 =~= seq![HidEventView::Received(cfg_buf), HidEventView::Sent, HidEventView::Received(readback_buf)]);
    assert(e3 =~= seq![HidEventView::Sent, HidEventView::Received(readback_buf)]);
    assert(e4 =~= seq![HidEventView::Received(readback_buf)]);
    assert(e5 =~= Seq::<HidEventView>::empty());
    let (s1, t1) = kb_next(s0, ev[0]);
    let (s2, t2) = kb_next(s1, e1[0]);
    let (s3, t3) = kb_next(s2, e2[0]);
    let (s4, t4) = kb_next(s3, e3[0]);
    let (s5, t5) = kb_next(s4, e4[0]);
    assert(kb_trace(s4, e4) == seq![t5] + kb_trace(s5, e5));
    assert(kb_trace(s3, e3) == seq![t4] + kb_trace(s4, e4));
    assert(kb_trace(s2, e2) == seq![t3] + kb_trace(s3, e3));
    assert(kb_trace(s1, e1) == seq![t2] + kb_trace(s2, e2));
    assert(kb_trace(s0, ev) == seq![t1] + kb_trace(s1, e1));
    assert(kb_trace(s0, ev) =~= seq![t1, t2, t3, t4, t5]);
}

/// After the config write of a solid colour, the session does not end: it asks
/// for the config block again (the same marker-checked, retried read).
pub proof fn lemma_solid_write_is_read_back(s: KeyboardView)
    requires
        kb_active(s),
        s.task is SetSolid,
        s.phase == (KbPhase::Writing { block: Block::Config }),
    ensures
        kb_next(s, HidEventView::Sent).1 == StepView::<KbDoneView>::Next(read_request(Block::Config)),
        kb_next(s, HidEventView::Sent).0.phase == (KbPhase::Reading { block: Block::Config, attempt: 0 }),
        kb_next(s, HidEventView::Sent).0.reading_back,
{
}

/// Reading the status of a keyboard that answers both reads: the config block
/// first, then the colour table, and the status is parsed from the two.
pub proof fn lemma_status_run(cfg_buf: Seq<u8>, ct_buf: Seq<u8>)
    requires
        ct_buf.len() == REPLY_LEN,
        cfg_buf.len() == REPLY_LEN,
        has_marker(block_data(cfg_buf, Block::Config)),
    ensures
        kb_start(KbTask::Status).1 == read_request(Block::Config),
        kb_trace(kb_start(KbTask::Status).0, seq![HidEventView::Received(cfg_buf), HidEventView::Received(ct_buf)]) == seq![
            StepView::<KbDoneView>::Next(read_request(Block::Colours)),
            StepView::<KbDoneView>::Done(
                Ok(KbDoneView::Status(parse_status(block_data(cfg_buf, Block::Config), block_data(ct_buf, Block::Colours)))),
            ),
        ],
{
    let s0 = kb_start(KbTask::Status).0;
    let ev = seq![HidEventView::Received(cfg_buf), HidEventView::Received(ct_buf)];
    let (s1, t1) = kb_next(s0, ev[0]);
    let (s2, t2) = kb_next(s1, ev[1]);
    assert(ev.drop_first() =~= seq![HidEventView::Received(ct_buf)]);
    assert(ev.drop_first().drop_first() =~= Seq::<HidEventView>::empty());
    assert(kb_trace(s1, ev.drop_first()) == seq![t2] + kb_trace(s2, Seq::<HidEventView>::empty()));
    assert(kb_trace(s0, ev) == seq![t1] + kb_trace(s1, ev.drop_first()));
    assert(kb_trace(s0, ev) =~= seq![t1, t2]);
}

/// What a set-solid session writes, byte by byte: the config block goes back
/// with effect 1 (Solid) at `0x0A`, light type 0 (preset effects) at `0x09`,
/// the brightness clamped to 0–9 at `0x3A`, speed/colour 0 (user RGB) at
/// `0x3B`, and its marker; the colour table goes back with the colour's red,
/// green and blue, in that order, at bytes 21, 22 and 23. Both packets announce
/// the length of the block they carry.
pub proof fn lemma_set_solid_writes(s: KeyboardView, e: HidEventView)
    requires
        kb_active(s),
        kb_event_ok(s, e),
        s.task is SetSolid,
    ensures
        kb_next(s, e).1 matches StepView::Next(HidActionView::Write { packet, .. }) ==> {
            &&& packet.len() == 520
            &&& packet[0] == 0x06
            &&& (packet[1] == 0x04 || packet[1] == 0x0A)
            &&& packet[1] == 0x04 ==> {
                &&& packet[6] == 0x80 && packet[7] == 0x00
                &&& packet[8int + 0x0A] == 1
                &&& packet[8int + 0x09] == 0
                &&& packet[8int + 0x3A] == (if s.task->SetSolid_brightness <= 9 { s.task->SetSolid_brightness } else { 9u8 })
                &&& packet[8int + 0x3B] == 0
                &&& packet[8int + 0x7E] == 0x5A && packet[8int + 0x7F] == 0xA5
            }
            &&& packet[1] == 0x0A ==> {
                &&& packet[6] == 0x00 && packet[7] == 0x02
                &&& packet[8int + 21] == s.task->SetSolid_rgb[0]
                &&& packet[8int + 22] == s.task->SetSolid_rgb[1]
                &&& packet[8int + 23] == s.task->SetSolid_rgb[2]
            }
        },
{
}

/// What a set-off session writes: the config block goes back with effect 0
/// (Off) at `0x0A`, light type 0 (preset effects) at `0x09` and its marker,
/// and nothing else is ever written.
pub proof fn lemma_set_off_writes(s: KeyboardView, e: HidEventView)
    requires
        kb_active(s),
        kb_event_ok(s, e),
        s.task is SetOff,
    ensures
        kb_next(s, e).1 matches StepView::Next(HidActionView::Write { packet, .. }) ==> {
            &&& packet.len() == 520
            &&& packet[1] == 0x04
            &&& packet[6] == 0x80 && packet[7] == 0x00
            &&& packet[8int + 0x0A] == 0
            &&& packet[8int + 0x09] == 0
            &&& packet[8int + 0x7E] == 0x5A && packet[8int + 0x7F] == 0xA5
        },
{
}

/// A status session never writes to the keyboard.
pub proof fn lemma_status_never_writes(s: KeyboardView, e: HidEventView)
    requires
        kb_active(s),
        kb_event_ok(s, e),
        s.task is Status,
    ensures
        !(kb_next(s, e).1 matches StepView::Next(HidActionView::Write { .. })),
{
}

/// The status names the current effect by the firmware's effect table: 0 Off,
/// 1 Solid, 2 Breathing, 3 Rainbow, 4 Flicker, 5 Running rain, 7 Ripple,
/// 8 Stars, 10 Continuous stream, 11 Stream, 12 Shadow, 13 Sine wave,
/// 15 Pinwheel, 16 Waterfall, 17 Bloom, 21 Custom picture; any other id reads
/// `Effect <id>` in decimal. The effect id itself is config byte `0x0A`, the
/// brightness byte `0x3A`, the colour bytes 21–23 of the colour table.
pub proof fn lemma_status_fields(cfg: Seq<u8>, ct: Seq<u8>)
    requires
        cfg.len() == CFG_LEN,
        ct.len() == CT_LEN,
    ensures
        parse_status(cfg, ct).effect == cfg[0x0A],
        parse_status(cfg, ct).brightness == cfg[0x3A],
        parse_status(cfg, ct).rgb == seq![ct[21], ct[22], ct[23]],
        parse_status(cfg, ct).effect_name == (
            if cfg[0x0A] == 0 { "Off"@ }
            else if cfg[0x0A] == 1 { "Solid"@ }
            else if cfg[0x0A] == 2 { "Breathing"@ }
            else if cfg[0x0A] == 3 { "Rainbow"@ }
            else if cfg[0x0A] == 4 { "Flicker"@ }
            else if cfg[0x0A] == 5 { "Running rain"@ }
            else if cfg[0x0A] == 7 { "Ripple"@ }
            else if cfg[0x0A] == 8 { "Stars"@ }
            else if cfg[0x0A] == 10 { "Continuous stream"@ }
            else if cfg[0x0A] == 11 { "Stream"@ }
            else if cfg[0x0A] == 12 { "Shadow"@ }
            else if cfg[0x0A] == 13 { "Sine wave"@ }
            else if cfg[0x0A] == 15 { "Pinwheel"@ }
            else if cfg[0x0A] == 16 { "Waterfall"@ }
            else if cfg[0x0A] == 17 { "Bloom"@ }
            else if cfg[0x0A] == 21 { "Custom picture"@ }
            else { "Effect "@ + dec_u8(cfg[0x0A]) }
        ),
{
}

/// Named effects have names of their own: no named id reads like an unnamed
/// one (`Effect …`), and the names of two different named ids differ.
pub proof fn lemma_effect_names_distinct(a: u8, b: u8)
    requires
        a != b,
        a == 0 || a == 1 || a == 2 || a == 3 || a == 4 || a == 5 || a == 7 || a == 8 || a == 10 || a == 11
            || a == 12 || a == 13 || a == 15 || a == 16 || a == 17 || a == 21,
    ensures
        effect_name_text(a) != effect_name_text(b),
{
    reveal_strlit("Off");
    reveal_strlit("Solid");
    reveal_strlit("Breathing");
    reveal_strlit("Rainbow");
    reveal_strlit("Flicker");
    reveal_strlit("Running rain");
    reveal_strlit("Ripple");
    reveal_strlit("Stars");
    reveal_strlit("Continuous stream");
    reveal_strlit("Stream");
    reveal_strlit("Shadow");
    reveal_strlit("Sine wave");
    reveal_strlit("Pinwheel");
    reveal_strlit("Waterfall");
    reveal_strlit("Bloom");
    reveal_strlit("Custom picture");
    reveal_strlit("Effect ");
    let na = effect_name_text(a);
    let nb = effect_name_text(b);
    if na == nb {
        if na.len() >= 1 && nb.len() >= 1 {
            assert(na[0] == nb[0]);
        }
        if na.len() >= 2 && nb.len() >= 2 {
            assert(na[1] == nb[1]);
        }
        if na.len() >= 7 && nb.len() >= 7 {
            assert(na[6] == nb[6]);
        }
        assert(na.len() == nb.len());
    }
}

/// How transfer failures are reported: a failed read request, a failed read
/// and a failed write each end the session with an error naming which it was,
/// followed by the device's own description.
pub proof fn lemma_keyboard_errors(s: KeyboardView, m: Seq<char>)
    requires
        kb_active(s),
    ensures
        s.phase is Reading ==> kb_next(s, HidEventView::SendFailed(m)).1
            == StepView::<KbDoneView>::Done(Err("keyboard read request: "@ + m)),
        s.phase is Reading ==> kb_next(s, HidEventView::ReceiveFailed(m)).1
            == StepView::<KbDoneView>::Done(Err("keyboard read: "@ + m)),
        s.phase is Writing ==> kb_next(s, HidEventView::SendFailed(m)).1
            == StepView::<KbDoneView>::Done(Err("keyboard write: "@ + m)),
        kb_next(s, HidEventView::SendFailed(m)).0.phase is Done || s.phase is Backoff,
{
}

/// The read requests: report id 6, the read command (`0x84` for the config
/// block, `0x8A` for the colour table), byte 4 set to 1, the block length
/// little-endian in bytes 6–7, and nothing else; the answer is fetched after
/// 50 ms into a 521-byte buffer starting with report id 6.
pub proof fn lemma_read_requests()
    ensures
        read_request(Block::Config) matches HidActionView::Exchange { request, wait_ms, reply_len, reply_id } && {
            &&& request.len() == 520
            &&& request[0] == 6 && request[1] == 0x84 && request[4] == 1 && request[6] == 0x80 && request[7] == 0
            &&& forall|i: int| 0 <= i < 520 && i != 0 && i != 1 && i != 4 && i != 6 ==> #[trigger] request[i] == 0
            &&& wait_ms == 50 && reply_len == 521 && reply_id == 6
        },
        read_request(Block::Colours) matches HidActionView::Exchange { request, wait_ms, reply_len, reply_id } && {
            &&& request.len() == 520
            &&& request[0] == 6 && request[1] == 0x8A && request[4] == 1 && request[6] == 0x00 && request[7] == 0x02
            &&& forall|i: int| 0 <= i < 520 && i != 0 && i != 1 && i != 4 && i != 7 ==> #[trigger] request[i] == 0
            &&& wait_ms == 50 && reply_len == 521 && reply_id == 6
        },
{
}

} // verus!
