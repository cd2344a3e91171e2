//! Razer DeathAdder Elite (`1532:005C`): the classic 90-byte Razer report over
//! HID, sent as feature report 0 on interface 0 (the mouse collection).
//!
//! Layout of the 91-byte buffer (report id first, then the 90-byte report):
//!
//! ```text
//! [0] report id 0
//! [1] status   [2] transaction id   [3..5] remaining packets   [5] protocol
//! [6] data size   [7] command class   [8] command id   [9..89] args   [89] crc   [90] 0
//! ```
//!
//! The crc is the XOR of report bytes 2..88 (buffer bytes 3..89). The Elite wants
//! transaction id `0x3F` and the extended-matrix command set: class `0x0F`,
//! command `0x02` = effect, `0x04` = brightness (`0x84` reads it back). LED ids:
//! scroll wheel `0x01`, logo `0x04`. VARSTORE (`0x01`) makes the mouse keep the
//! setting itself. Status `0x02` in the reply means accepted.
use vstd::prelude::*;

use crate::hid::{prefixed, HidAction, HidActionView, HidEvent, HidEventView, Step, StepView};
use crate::text::{dec_u8, hex2, push_dec_u8, push_hex2};

verus! {

pub const VID: u16 = 0x1532;
pub const PID: u16 = 0x005C;

pub const TXN: u8 = 0x3F;
pub const VARSTORE: u8 = 0x01;
pub const LED_SCROLL: u8 = 0x01;
pub const LED_LOGO: u8 = 0x04;
pub const STATUS_OK: u8 = 0x02;
/// The report buffer: report id 0 followed by the 90-byte report.
pub const REPORT_LEN: usize = 91;
/// How long the mouse is given between a command and fetching its reply.
pub const SETTLE_MS: u64 = 8;
/// Most argument bytes a report carries.
pub const MAX_ARGS: usize = 80;

/// XOR of all bytes of `s`.
pub open spec fn xor_all(s: Seq<u8>) -> u8
    decreases s.len(),
{
    if s.len() == 0 {
        0
    } else {
        xor_all(s.drop_last()) ^ s.last()
    }
}

/// The report buffer before its crc is filled in.
pub open spec fn report_frame(class: u8, cmd: u8, size: u8, args: Seq<u8>) -> Seq<u8> {
    Seq::new(
        REPORT_LEN as nat,
        |i: int|
            if i == 2 {
                TXN
            } else if i == 6 {
                size
            } else if i == 7 {
                class
            } else if i == 8 {
                cmd
            } else if 9 <= i < 9 + args.len() {
                args[i - 9]
            } else {
                0u8
            },
    )
}

/// The complete report buffer for command `class`/`cmd` with data size `size`
/// and arguments `args`, its crc in place.
pub open spec fn razer_report(class: u8, cmd: u8, size: u8, args: Seq<u8>) -> Seq<u8> {
    let f = report_frame(class, cmd, size, args);
    f.update(89, xor_all(f.subrange(3, 89)))
}

/// A buffer whose crc byte matches its contents.
pub open spec fn crc_ok(r: Seq<u8>) -> bool {
    r.len() == REPORT_LEN && r[89] == xor_all(r.subrange(3, 89))
}

/// Builds the report buffer for a command (`args` at most 80 bytes).
pub fn report(class: u8, cmd: u8, size: u8, args: &Vec<u8>) -> (r: Vec<u8>)
    requires
        args@.len() <= MAX_ARGS,
    ensures
        r@ == razer_report(class, cmd, size, args@),
{
    let mut r: Vec<u8> = vec![0u8; REPORT_LEN];
    r.set(2, TXN);
    r.set(6, size);
    r.set(7, class);
    r.set(8, cmd);
    assert(r@ =~= report_frame(class, cmd, size, args@.take(0)));
    let mut i: usize = 0;
    while i < args.len()
        invariant
            args@.len() <= MAX_ARGS,
            i <= args@.len(),
            r@ =~= report_frame(class, cmd, size, args@.take(i as int)),
        decreases args@.len() - i,
    {
        r.set(9 + i, args[i]);
        i += 1;
        assert(r@ =~= report_frame(class, cmd, size, args@.take(i as int)));
    }
    assert(args@.take(i as int) =~= args@);
    let ghost frame = r@;
    let mut crc: u8 = 0;
    let mut k: usize = 3;
    while k < 89
        invariant
            r@ == frame,
            frame.len() == REPORT_LEN,
            3 <= k <= 89,
            crc == xor_all(frame.subrange(3, k as int)),
        decreases 89 - k,
    {
        assert(frame.subrange(3, k + 1).drop_last() =~= frame.subrange(3, k as int));
        crc = crc ^ r[k];
        k += 1;
    }
    r.set(89, crc);
    r
}

/// The firmware-version query (class `0x00`, command `0x81`).
pub open spec fn firmware_query() -> Seq<u8> {
    razer_report(0x00, 0x81, 0x02, seq![])
}

/// Reads back the stored brightness of `led` (class `0x0F`, command `0x84`).
pub open spec fn brightness_query(led: u8) -> Seq<u8> {
    razer_report(0x0F, 0x84, 0x03, seq![VARSTORE, led, 0u8])
}

/// Static colour `rgb` on `led`, stored on the mouse.
pub open spec fn static_command(led: u8, rgb: [u8; 3]) -> Seq<u8> {
    razer_report(0x0F, 0x02, 0x09, seq![VARSTORE, led, 0x01u8, 0u8, 0u8, 0x01u8, rgb[0], rgb[1], rgb[2]])
}

/// Brightness `level` (0–255) on `led`, stored on the mouse.
pub open spec fn brightness_command(led: u8, level: u8) -> Seq<u8> {
    razer_report(0x0F, 0x04, 0x03, seq![VARSTORE, led, level])
}

/// Effect "none" on `led`: the LED goes dark.
pub open spec fn off_command(led: u8) -> Seq<u8> {
    razer_report(0x0F, 0x02, 0x06, seq![VARSTORE, led, 0u8, 0u8, 0u8, 0u8])
}

/// What one mouse session does.
#[derive(Clone, Copy)]
pub enum MouseTask {
    /// Read the firmware version and the stored brightness of both LEDs.
    Status,
    /// Static colour and brightness on the logo, then on the scroll wheel.
    SetStatic { rgb: [u8; 3], brightness: u8 },
    /// Both LEDs off, logo first.
    SetOff,
}

/// The commands a task sends, in order; each must be accepted before the next
/// is sent.
pub open spec fn mouse_plan(task: MouseTask) -> Seq<Seq<u8>> {
    match task {
        MouseTask::Status => seq![firmware_query(), brightness_query(LED_LOGO), brightness_query(LED_SCROLL)],
        MouseTask::SetStatic { rgb, brightness } => seq![
            static_command(LED_LOGO, rgb),
            brightness_command(LED_LOGO, brightness),
            static_command(LED_SCROLL, rgb),
            brightness_command(LED_SCROLL, brightness),
        ],
        MouseTask::SetOff => seq![off_command(LED_LOGO), off_command(LED_SCROLL)],
    }
}

/// Firmware version, as reported by the mouse, and the stored brightness of
/// each LED (0–255).
pub struct MouseStatus {
    pub firmware: String,
    pub logo_brightness: u8,
    pub scroll_brightness: u8,
}

pub struct MouseStatusView {
    pub firmware: Seq<char>,
    pub logo_brightness: u8,
    pub scroll_brightness: u8,
}

impl View for MouseStatus {
    type V = MouseStatusView;

    open spec fn view(&self) -> MouseStatusView {
        MouseStatusView {
            firmware: self.firmware@,
            logo_brightness: self.logo_brightness,
            scroll_brightness: self.scroll_brightness,
        }
    }
}

/// The outcome of a mouse session that succeeded.
pub enum MouseDone {
    /// What a status task read.
    Status(MouseStatus),
    /// A set task had every command accepted.
    Applied,
}

pub enum MouseDoneView {
    Status(MouseStatusView),
    Applied,
}

impl View for MouseDone {
    type V = MouseDoneView;

    open spec fn view(&self) -> MouseDoneView {
        match self {
            MouseDone::Status(s) => MouseDoneView::Status(s@),
            MouseDone::Applied => MouseDoneView::Applied,
        }
    }
}

/// `v<major>.<minor>` from the firmware reply (arguments 0 and 1).
pub open spec fn firmware_text(reply: Seq<u8>) -> Seq<char> {
    "v"@ + dec_u8(reply[9]) + "."@ + dec_u8(reply[10])
}

/// What a task yields once every command was accepted, given the replies in
/// order.
pub open spec fn mouse_outcome(task: MouseTask, replies: Seq<Seq<u8>>) -> MouseDoneView {
    match task {
        MouseTask::Status => MouseDoneView::Status(
            MouseStatusView {
                firmware: firmware_text(replies[0]),
                logo_brightness: replies[1][11],
                scroll_brightness: replies[2][11],
            },
        ),
        _ => MouseDoneView::Applied,
    }
}

/// The error for a reply whose status is not "accepted".
pub open spec fn rejected_text(class: u8, cmd: u8, status: u8) -> Seq<char> {
    "mouse rejected command "@ + hex2(class) + "/"@ + hex2(cmd) + ": status 0x"@ + hex2(status)
}

/// Sending `report`, then fetching the reply into a buffer of the same size.
pub open spec fn transact(report: Seq<u8>) -> HidActionView {
    HidActionView::Exchange { request: report, wait_ms: SETTLE_MS, reply_len: REPORT_LEN, reply_id: 0 }
}

/// The state of a mouse session.
pub struct MouseView {
    pub task: MouseTask,
    /// Position in the plan of the command in flight (or last sent).
    pub index: nat,
    /// Accepted replies so far, in order.
    pub replies: Seq<Seq<u8>>,
    /// The session has yielded its outcome.
    pub done: bool,
}

impl MouseView {
    /// A session waiting for the reply to the command at `index`.
    pub open spec fn active(self) -> bool {
        &&& !self.done
        &&& self.index < mouse_plan(self.task).len()
        &&& self.replies.len() == self.index
        &&& forall|i: int| 0 <= i < self.replies.len() ==> (#[trigger] self.replies[i]).len() == REPORT_LEN
    }
}

/// A fresh session for `task` and the first transfer it asks for.
pub open spec fn mouse_start(task: MouseTask) -> (MouseView, HidActionView) {
    (
        MouseView { task, index: 0, replies: seq![], done: false },
        transact(mouse_plan(task)[0]),
    )
}

/// One step of a mouse session: the new state and what comes next.
pub open spec fn mouse_next(s: MouseView, e: HidEventView) -> (MouseView, StepView<MouseDoneView>) {
    let finished = MouseView { done: true, ..s };
    match e {
        HidEventView::SendFailed(m) => (finished, StepView::Done(Err("mouse send: "@ + m))),
        HidEventView::ReceiveFailed(m) => (finished, StepView::Done(Err("mouse receive: "@ + m))),
        HidEventView::Received(resp) => {
            let req = mouse_plan(s.task)[s.index as int];
            if resp[1] != STATUS_OK {
                (finished, StepView::Done(Err(rejected_text(req[7], req[8], resp[1]))))
            } else {
                let replies = s.replies.push(resp);
                let index: nat = s.index + 1;
                if index < mouse_plan(s.task).len() {
                    (
                        MouseView { task: s.task, index, replies, done: false },
                        StepView::Next(transact(mouse_plan(s.task)[index as int])),
                    )
                } else {
                    (
                        MouseView { task: s.task, index, replies, done: true },
                        StepView::Done(Ok(mouse_outcome(s.task, replies))),
                    )
                }
            }
        },
        _ => (finished, StepView::Done(Err(seq![]))),
    }
}

/// An event a mouse session accepts: the answer to an exchange, with a reply
/// buffer of the size asked for.
pub open spec fn mouse_event_ok(e: HidEventView) -> bool {
    match e {
        HidEventView::SendFailed(_) => true,
        HidEventView::ReceiveFailed(_) => true,
        HidEventView::Received(b) => b.len() == REPORT_LEN,
        _ => false,
    }
}

/// The number of commands a task sends.
fn plan_len(task: MouseTask) -> (n: usize)
    ensures
        n == mouse_plan(task).len(),
{
    match task {
        MouseTask::Status => 3,
        MouseTask::SetStatic { .. } => 4,
        MouseTask::SetOff => 2,
    }
}

/// The `i`-th command of a task's plan.
fn plan_report(task: MouseTask, i: usize) -> (r: Vec<u8>)
    requires
        i < mouse_plan(task).len(),
    ensures
        r@ == mouse_plan(task)[i as int],
{
    match task {
        MouseTask::Status => {
            if i == 0 {
                let args: Vec<u8> = vec![];
                let r = report(0x00, 0x81, 0x02, &args);
                assert(args@ =~= seq![]);
                r
            } else {
                let led: u8 = if i == 1 { LED_LOGO } else { LED_SCROLL };
                let args: Vec<u8> = vec![VARSTORE, led, 0];
                assert(args@ =~= seq![VARSTORE, led, 0u8]);
                report(0x0F, 0x84, 0x03, &args)
            }
        },
        MouseTask::SetStatic { rgb, brightness } => {
            let led: u8 = if i < 2 { LED_LOGO } else { LED_SCROLL };
            if i % 2 == 0 {
                let args: Vec<u8> = vec![VARSTORE, led, 0x01, 0, 0, 0x01, rgb[0], rgb[1], rgb[2]];
                assert(args@ =~= seq![VARSTORE, led, 0x01u8, 0u8, 0u8, 0x01u8, rgb[0], rgb[1], rgb[2]]);
                report(0x0F, 0x02, 0x09, &args)
            } else {
                let args: Vec<u8> = vec![VARSTORE, led, brightness];
                assert(args@ =~= seq![VARSTORE, led, brightness]);
                report(0x0F, 0x04, 0x03, &args)
            }
        },
        MouseTask::SetOff => {
            let led: u8 = if i == 0 { LED_LOGO } else { LED_SCROLL };
            let args: Vec<u8> = vec![VARSTORE, led, 0, 0, 0, 0];
            assert(args@ =~= seq![VARSTORE, led, 0u8, 0u8, 0u8, 0u8]);
            report(0x0F, 0x02, 0x06, &args)
        },
    }
}

/// The exchange for a command.
fn transact_action(report: Vec<u8>) -> (a: HidAction)
    ensures
        a@ == transact(report@),
{
    HidAction::Exchange { request: report, wait_ms: SETTLE_MS, reply_len: REPORT_LEN, reply_id: 0 }
}

/// The error text for a rejected command.
fn rejected_message(class: u8, cmd: u8, status: u8) -> (m: String)
    ensures
        m@ == rejected_text(class, cmd, status),
{
    let mut m = String::from_str("mouse rejected command ");
    push_hex2(&mut m, class);
    m.append("/");
    push_hex2(&mut m, cmd);
    m.append(": status 0x");
    push_hex2(&mut m, status);
    m
}

/// The firmware version text from the firmware reply.
fn firmware_string(reply: &Vec<u8>) -> (s: String)
    requires
        reply@.len() == REPORT_LEN,
    ensures
        s@ == firmware_text(reply@),
{
    let mut s = String::from_str("v");
    push_dec_u8(&mut s, reply[9]);
    s.append(".");
    push_dec_u8(&mut s, reply[10]);
    s
}

/// One operation on the mouse, run as a session: it names each transfer in
/// turn and ends with the operation's outcome.
pub struct Mouse {
    task: MouseTask,
    index: usize,
    replies: Vec<Vec<u8>>,
    done: bool,
}

impl View for Mouse {
    type V = MouseView;

    closed spec fn view(&self) -> MouseView {
        MouseView {
            task: self.task,
            index: self.index as nat,
            replies: self.replies@.map_values(|r: Vec<u8>| r@),
            done: self.done,
        }
    }
}

impl Mouse {
    /// Whether a HID interface is the one the mouse is driven through:
    /// `1532:005C`, interface 0.
    pub fn is_control_interface(vendor_id: u16, product_id: u16, interface_number: i32) -> (r: bool)
        ensures
            r == (vendor_id == VID && product_id == PID && interface_number == 0),
    {
        vendor_id == VID && product_id == PID && interface_number == 0
    }

    fn start(task: MouseTask) -> (r: (Mouse, HidAction))
        ensures
            r.0@ == mouse_start(task).0,
            r.1@ == mouse_start(task).1,
            r.0@.active(),
    {
        let m = Mouse { task, index: 0, replies: Vec::new(), done: false };
        assert(m@.replies =~= Seq::<Seq<u8>>::empty());
        (m, transact_action(plan_report(task, 0)))
    }

    /// Starts reading the firmware version and both LEDs' stored brightness.
    pub fn status() -> (r: (Mouse, HidAction))
        ensures
            r.0@ == mouse_start(MouseTask::Status).0,
            r.1@ == mouse_start(MouseTask::Status).1,
            r.0@.active(),
    {
        Mouse::start(MouseTask::Status)
    }

    /// Starts setting a static colour and a brightness (0–255) on both LEDs,
    /// stored on the mouse.
    pub fn set_static(rgb: [u8; 3], brightness: u8) -> (r: (Mouse, HidAction))
        ensures
            r.0@ == mouse_start(MouseTask::SetStatic { rgb, brightness }).0,
            r.1@ == mouse_start(MouseTask::SetStatic { rgb, brightness }).1,
            r.0@.active(),
    {
        Mouse::start(MouseTask::SetStatic { rgb, brightness })
    }

    /// Starts switching both LEDs off.
    pub fn set_off() -> (r: (Mouse, HidAction))
        ensures
            r.0@ == mouse_start(MouseTask::SetOff).0,
            r.1@ == mouse_start(MouseTask::SetOff).1,
            r.0@.active(),
    {
        Mouse::start(MouseTask::SetOff)
    }

    /// Feeds the answer to the last transfer into the session.
    pub fn step(&mut self, event: HidEvent) -> (r: Step<MouseDone>)
        requires
            old(self)@.active(),
            mouse_event_ok(event@),
        ensures
            final(self)@ == mouse_next(old(self)@, event@).0,
            r@ == mouse_next(old(self)@, event@).1,
            final(self)@.done || final(self)@.active(),
    {
        let ghost s = self@;
        match event {
            HidEvent::SendFailed(e) => {
                self.done = true;
                Step::Done(Err(prefixed("mouse send: ", &e)))
            },
            HidEvent::ReceiveFailed(e) => {
                self.done = true;
                Step::Done(Err(prefixed("mouse receive: ", &e)))
            },
            HidEvent::Received(resp) => {
                if resp[1] != STATUS_OK {
                    let req = plan_report(self.task, self.index);
                    let msg = rejected_message(req[7], req[8], resp[1]);
                    self.done = true;
                    Step::Done(Err(msg))
                } else {
                    let ghost resp_view = resp@;
                    self.replies.push(resp);
                    self.index = self.index + 1;
                    assert(self@.replies =~= s.replies.push(resp_view));
                    assert(forall|i: int| 0 <= i < self@.replies.len() ==> self@.replies[i] == self.replies@[i]@);
                    assert(forall|i: int| 0 <= i < self.replies@.len() ==> (#[trigger] self.replies@[i])@.len() == REPORT_LEN) by {
                        assert forall|i: int| 0 <= i < self.replies@.len() implies (#[trigger] self.replies@[i])@.len() == REPORT_LEN by {
                            assert(self@.replies[i] == self.replies@[i]@);
                            if i < s.replies.len() {
                                assert(s.replies[i].len() == REPORT_LEN);
                            }
                        }
                    }
                    if self.index < plan_len(self.task) {
                        Step::Next(transact_action(plan_report(self.task, self.index)))
                    } else {
                        self.done = true;
                        let outcome = match self.task {
                            MouseTask::Status => MouseDone::Status(
                                MouseStatus {
                                    firmware: firmware_string(&self.replies[0]),
                                    logo_brightness: self.replies[1][11],
                                    scroll_brightness: self.replies[2][11],
                                },
                            ),
                            _ => MouseDone::Applied,
                        };
                        Step::Done(Ok(outcome))
                    }
                }
            },
            _ => {
                // excluded by `mouse_event_ok`
                self.done = true;
                Step::Done(Err(String::new()))
            },
        }
    }
}

/// Every report built for a command is well formed: report id 0, transaction
/// id `0x3F`, the command and data size in place, the arguments after them, and
/// a crc that matches (XOR of report bytes 2..88).
pub proof fn lemma_report_well_formed(class: u8, cmd: u8, size: u8, args: Seq<u8>)
    requires
        args.len() <= MAX_ARGS,
    ensures
        crc_ok(razer_report(class, cmd, size, args)),
        razer_report(class, cmd, size, args)[0] == 0,
        razer_report(class, cmd, size, args)[2] == TXN,
        razer_report(class, cmd, size, args)[6] == size,
        razer_report(class, cmd, size, args)[7] == class,
        razer_report(class, cmd, size, args)[8] == cmd,
        forall|i: int| 0 <= i < args.len() ==> razer_report(class, cmd, size, args)[9 + i] == args[i],
        razer_report(class, cmd, size, args)[90] == 0,
{
    let f = report_frame(class, cmd, size, args);
    let r = razer_report(class, cmd, size, args);
    assert(r.subrange(3, 89) =~= f.subrange(3, 89));
}

/// Every command in a task's plan is a well-formed report carrying VARSTORE
/// (or, for the firmware query, no arguments).
pub proof fn lemma_plan_well_formed(task: MouseTask, i: int)
    requires
        0 <= i < mouse_plan(task).len(),
    ensures
        crc_ok(mouse_plan(task)[i]),
        mouse_plan(task)[i][2] == TXN,
        mouse_plan(task)[i][0] == 0,
        mouse_plan(task)[i][7] == 0 || mouse_plan(task)[i][9] == VARSTORE,
{
    lemma_report_well_formed(0x00, 0x81, 0x02, seq![]);
    lemma_report_well_formed(0x0F, 0x84, 0x03, seq![VARSTORE, LED_LOGO, 0u8]);
    lemma_report_well_formed(0x0F, 0x84, 0x03, seq![VARSTORE, LED_SCROLL, 0u8]);
    match task {
        MouseTask::SetStatic { rgb, brightness } => {
            lemma_report_well_formed(0x0F, 0x02, 0x09, seq![VARSTORE, LED_LOGO, 0x01u8, 0u8, 0u8, 0x01u8, rgb[0], rgb[1], rgb[2]]);
            lemma_report_well_formed(0x0F, 0x02, 0x09, seq![VARSTORE, LED_SCROLL, 0x01u8, 0u8, 0u8, 0x01u8, rgb[0], rgb[1], rgb[2]]);
            lemma_report_well_formed(0x0F, 0x04, 0x03, seq![VARSTORE, LED_LOGO, brightness]);
            lemma_report_well_formed(0x0F, 0x04, 0x03, seq![VARSTORE, LED_SCROLL, brightness]);
        },
        _ => {
            lemma_report_well_formed(0x0F, 0x02, 0x06, seq![VARSTORE, LED_LOGO, 0u8, 0u8, 0u8, 0u8]);
            lemma_report_well_formed(0x0F, 0x02, 0x06, seq![VARSTORE, LED_SCROLL, 0u8, 0u8, 0u8, 0u8]);
        },
    }
}

/// Everything a mouse session sends is a well-formed report with a matching
/// crc, and it is always the next command of the task's plan.
pub proof fn lemma_mouse_sends_well_formed(s: MouseView, e: HidEventView)
    requires
        s.active(),
        mouse_event_ok(e),
    ensures
        mouse_next(s, e).1 matches StepView::Next(a) ==> {
            &&& a == transact(mouse_plan(s.task)[s.index as int + 1])
            &&& crc_ok(mouse_plan(s.task)[s.index as int + 1])
            &&& mouse_plan(s.task)[s.index as int + 1][2] == TXN
        },
        crc_ok(mouse_plan(s.task)[0]),
{
    lemma_plan_well_formed(s.task, 0);
    if s.index as int + 1 < mouse_plan(s.task).len() {
        lemma_plan_well_formed(s.task, s.index as int + 1);
    }
}

/// A command the mouse does not accept ends the session with an error naming
/// that command and the status: nothing after it is sent.
pub proof fn lemma_mouse_rejection_ends(s: MouseView, resp: Seq<u8>)
    requires
        s.active(),
        resp.len() == REPORT_LEN,
        resp[1] != STATUS_OK,
    ensures
        mouse_next(s, HidEventView::Received(resp)).0.done,
        mouse_next(s, HidEventView::Received(resp)).1 == StepView::<MouseDoneView>::Done(
            Err(rejected_text(mouse_plan(s.task)[s.index as int][7], mouse_plan(s.task)[s.index as int][8], resp[1])),
        ),
{
}

/// Feeding a session its replies one after another, until it finishes or the
/// replies run out.
pub open spec fn mouse_run(s: MouseView, replies: Seq<Seq<u8>>) -> (MouseView, StepView<MouseDoneView>)
    decreases replies.len(),
{
    let (next, step) = mouse_next(s, HidEventView::Received(replies[0]));
    if replies.len() <= 1 || step is Done {
        (next, step)
    } else {
        mouse_run(next, replies.drop_first())
    }
}

/// Replies the mouse accepts, of the size asked for.
pub open spec fn all_accepted(replies: Seq<Seq<u8>>) -> bool {
    forall|i: int| 0 <= i < replies.len() ==> (#[trigger] replies[i]).len() == REPORT_LEN && replies[i][1] == STATUS_OK
}

proof fn lemma_mouse_run_from(task: MouseTask, replies: Seq<Seq<u8>>, k: nat)
    requires
        replies.len() == mouse_plan(task).len(),
        all_accepted(replies),
        k < replies.len(),
    ensures
        mouse_run(
            MouseView { task, index: k, replies: replies.take(k as int), done: false },
            replies.skip(k as int),
        ).1 == StepView::<MouseDoneView>::Done(Ok(mouse_outcome(task, replies))),
    decreases replies.len() - k,
{
    let s = MouseView { task, index: k, replies: replies.take(k as int), done: false };
    let rest = replies.skip(k as int);
    assert(rest[0] == replies[k as int]);
    assert(replies[k as int].len() == REPORT_LEN && replies[k as int][1] == STATUS_OK);
    assert(replies.take(k as int).push(replies[k as int]) =~= replies.take(k as int + 1));
    if k + 1 < replies.len() {
        assert(rest.drop_first() =~= replies.skip(k as int + 1));
        lemma_mouse_run_from(task, replies, k + 1);
    } else {
        assert(replies.take(k as int + 1) =~= replies);
    }
}

/// A session whose every command is accepted sends exactly its plan and ends
/// with the task's outcome: for a status task, the firmware version from the
/// first reply and the brightness bytes of the other two.
pub proof fn lemma_mouse_all_accepted(task: MouseTask, replies: Seq<Seq<u8>>)
    requires
        replies.len() == mouse_plan(task).len(),
        all_accepted(replies),
    ensures
        mouse_run(mouse_start(task).0, replies).1 == StepView::<MouseDoneView>::Done(Ok(mouse_outcome(task, replies))),
{
    assert(replies.take(0) =~= Seq::<Seq<u8>>::empty());
    assert(replies.skip(0) =~= replies);
    lemma_mouse_run_from(task, replies, 0);
}

/// What a status task reports: the firmware version `v<major>.<minor>` from
/// bytes 9 and 10 of the firmware reply (arguments 0 and 1), the logo's stored
/// brightness from byte 11 of the second reply and the scroll wheel's from
/// byte 11 of the third (argument 2 of each brightness reply).
pub proof fn lemma_mouse_status_fields(replies: Seq<Seq<u8>>)
    ensures
        mouse_outcome(MouseTask::Status, replies) == MouseDoneView::Status(MouseStatusView {
            firmware: seq!['v'] + dec_u8(replies[0][9]) + seq!['.'] + dec_u8(replies[0][10]),
            logo_brightness: replies[1][11],
            scroll_brightness: replies[2][11],
        }),
{
    reveal_strlit("v");
    reveal_strlit(".");
    assert("v"@ =~= seq!['v']);
    assert("."@ =~= seq!['.']);
}

/// How failures are reported: a failed send or receive names which it was,
/// followed by the device's description; a rejected command names its class
/// and command id, then the status, each as two lowercase hex digits.
pub proof fn lemma_mouse_errors(s: MouseView, m: Seq<char>, resp: Seq<u8>)
    requires
        s.active(),
        resp.len() == REPORT_LEN,
        resp[1] != STATUS_OK,
    ensures
        mouse_next(s, HidEventView::SendFailed(m)).1 == StepView::<MouseDoneView>::Done(Err("mouse send: "@ + m)),
        mouse_next(s, HidEventView::ReceiveFailed(m)).1 == StepView::<MouseDoneView>::Done(Err("mouse receive: "@ + m)),
        mouse_next(s, HidEventView::Received(resp)).1 == StepView::<MouseDoneView>::Done(Err(
            "mouse rejected command "@ + hex2(mouse_plan(s.task)[s.index as int][7]) + "/"@
                + hex2(mouse_plan(s.task)[s.index as int][8]) + ": status 0x"@ + hex2(resp[1]),
        )),
{
}

} // verus!
