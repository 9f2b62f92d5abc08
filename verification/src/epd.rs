//! Driver sequences for the Waveshare 2.13" e-Paper V4 (SSD1680).
//!
//! The Touch e-Paper HAT ships V4 hardware. V4 uses the internal LUT, and its
//! refresh command 0x22 takes 0xF7 where V3 takes 0xC7. The sequences follow
//! Waveshare's Python driver `epd2in13_V4.py`. Each is a list of operations on
//! the bus and the pins, performed in order until one fails.

use vstd::prelude::*;

verus! {

/// Display width in pixels.
pub const WIDTH: u32 = 122;

/// Display height in pixels.
pub const HEIGHT: u32 = 250;

/// Bytes per row, eight pixels each.
pub const ROW_BYTES: usize = 16;

/// Frame buffer size in bytes: 16 bytes per row, 250 rows.
pub const BUF_LEN: usize = 4000;

/// Most bytes in one transfer, under the limit of the bus device.
pub const CHUNK: usize = 4096;

/// How many milliseconds pass between two looks at the BUSY pin.
pub const BUSY_POLL: u64 = 10;

/// One operation on the bus or the pins.
#[derive(Debug, PartialEq, Eq)]
pub enum Op {
    /// Drives the DC pin: low for a command, high for data.
    DataMode(bool),
    /// Writes bytes to the bus.
    Write(Vec<u8>),
    /// Drives the RST pin.
    Reset(bool),
    /// Waits this many milliseconds.
    Pause(u64),
    /// Waits while the BUSY pin is high, which it is while the controller works.
    WaitBusy,
}

/// An [`Op`] with its bytes as a sequence.
pub enum OpView {
    DataMode(bool),
    Write(Seq<u8>),
    Reset(bool),
    Pause(u64),
    WaitBusy,
}

impl View for Op {
    type V = OpView;

    open spec fn view(&self) -> OpView {
        match *self {
            Op::DataMode(data) => OpView::DataMode(data),
            Op::Write(bytes) => OpView::Write(bytes@),
            Op::Reset(high) => OpView::Reset(high),
            Op::Pause(ms) => OpView::Pause(ms),
            Op::WaitBusy => OpView::WaitBusy,
        }
    }
}

/// Operations by their views.
pub open spec fn op_list(ops: Seq<Op>) -> Seq<OpView> {
    Seq::new(ops.len(), |i: int| ops[i]@)
}

/// Appends an operation.
fn push_op(ops: &mut Vec<Op>, op: Op)
    ensures
        op_list(final(ops)@) == op_list(old(ops)@) + seq![op@],
{
    let ghost before = op_list(ops@);
    ops.push(op);
    assert(op_list(ops@) =~= before + seq![op@]);
}

/// Sending a command.
pub open spec fn command(cmd: u8) -> Seq<OpView> {
    seq![OpView::DataMode(false), OpView::Write(seq![cmd])]
}

/// The writes of some data, at most [`CHUNK`] bytes each.
pub open spec fn writes(data: Seq<u8>) -> Seq<OpView>
    decreases data.len(),
{
    if data.len() == 0 {
        seq![]
    } else if data.len() <= CHUNK {
        seq![OpView::Write(data)]
    } else {
        seq![OpView::Write(data.take(CHUNK as int))] + writes(data.skip(CHUNK as int))
    }
}

/// Sending data.
pub open spec fn sending(data: Seq<u8>) -> Seq<OpView> {
    seq![OpView::DataMode(true)] + writes(data)
}

/// Sending a command and its data.
pub open spec fn command_data(cmd: u8, data: Seq<u8>) -> Seq<OpView> {
    command(cmd) + sending(data)
}

/// Appends a command.
fn send_command(ops: &mut Vec<Op>, cmd: u8)
    ensures
        op_list(final(ops)@) == op_list(old(ops)@) + command(cmd),
{
    let ghost before = op_list(ops@);
    push_op(ops, Op::DataMode(false));
    let mut bytes: Vec<u8> = Vec::new();
    bytes.push(cmd);
    assert(bytes@ =~= seq![cmd]);
    push_op(ops, Op::Write(bytes));
    assert(op_list(ops@) =~= before + command(cmd));
}

/// Appends data.
fn send_data(ops: &mut Vec<Op>, data: &[u8])
    ensures
        op_list(final(ops)@) == op_list(old(ops)@) + sending(data@),
{
    let ghost before = op_list(ops@);
    push_op(ops, Op::DataMode(true));
    let ghost start = op_list(ops@);
    let mut i: usize = 0;
    assert(data@.skip(0) =~= data@);
    while i < data.len()
        invariant
            i <= data@.len(),
            op_list(ops@) + writes(data@.skip(i as int)) == start + writes(data@),
        decreases data@.len() - i,
    {
        let ghost so_far = op_list(ops@);
        let ghost rest = data@.skip(i as int);
        let end: usize = if data.len() - i > CHUNK {
            i + CHUNK
        } else {
            data.len()
        };
        let mut bytes: Vec<u8> = Vec::new();
        let mut j: usize = i;
        while j < end
            invariant
                i <= j <= end <= data@.len(),
                bytes@ =~= data@.subrange(i as int, j as int),
            decreases end - j,
        {
            bytes.push(data[j]);
            j += 1;
        }
        let ghost chunk = bytes@;
        push_op(ops, Op::Write(bytes));
        proof {
            if rest.len() <= CHUNK {
                assert(chunk =~= rest);
                assert(data@.skip(end as int) =~= seq![]);
                assert(writes(data@.skip(end as int)) =~= seq![]);
                assert(op_list(ops@) + seq![] =~= so_far + writes(rest));
            } else {
                assert(chunk =~= rest.take(CHUNK as int));
                assert(rest.skip(CHUNK as int) =~= data@.skip(end as int));
                assert(op_list(ops@) + writes(data@.skip(end as int)) =~= so_far + writes(rest));
            }
        }
        i = end;
    }
    assert(data@.skip(i as int) =~= seq![]);
    assert(op_list(ops@) =~= op_list(ops@) + writes(data@.skip(i as int)));
    assert(start + writes(data@) =~= before + sending(data@));
}

/// Appends a command and its data.
fn send_command_data(ops: &mut Vec<Op>, cmd: u8, data: &[u8])
    ensures
        op_list(final(ops)@) == op_list(old(ops)@) + command_data(cmd, data@),
{
    let ghost before = op_list(ops@);
    send_command(ops, cmd);
    send_data(ops, data);
    assert(before + command(cmd) + sending(data@) =~= before + command_data(cmd, data@));
}

/// The hardware reset.
pub open spec fn resetting() -> Seq<OpView> {
    seq![
        OpView::Reset(true),
        OpView::Pause(20),
        OpView::Reset(false),
        OpView::Pause(2),
        OpView::Reset(true),
        OpView::Pause(20),
    ]
}

/// Appends the hardware reset.
fn hw_reset(ops: &mut Vec<Op>)
    ensures
        op_list(final(ops)@) == op_list(old(ops)@) + resetting(),
{
    let ghost before = op_list(ops@);
    push_op(ops, Op::Reset(true));
    push_op(ops, Op::Pause(20));
    push_op(ops, Op::Reset(false));
    push_op(ops, Op::Pause(2));
    push_op(ops, Op::Reset(true));
    push_op(ops, Op::Pause(20));
    assert(op_list(ops@) =~= before + resetting());
}

/// Setting the window of the display RAM that is written: columns in units of
/// eight pixels, rows as two bytes, low byte first.
pub open spec fn window(x_start: u32, y_start: u32, x_end: u32, y_end: u32) -> Seq<OpView> {
    command_data(0x44, seq![((x_start / 8) % 256) as u8, ((x_end / 8) % 256) as u8])
        + command_data(
        0x45,
        seq![
            (y_start % 256) as u8,
            ((y_start / 256) % 256) as u8,
            (y_end % 256) as u8,
            ((y_end / 256) % 256) as u8,
        ],
    )
}

/// Appends the setting of the window.
fn set_window(ops: &mut Vec<Op>, x_start: u32, y_start: u32, x_end: u32, y_end: u32)
    ensures
        op_list(final(ops)@) == op_list(old(ops)@) + window(x_start, y_start, x_end, y_end),
{
    let ghost before = op_list(ops@);
    let columns: [u8; 2] = [((x_start / 8) % 256) as u8, ((x_end / 8) % 256) as u8];
    let rows: [u8; 4] = [
        (y_start % 256) as u8,
        ((y_start / 256) % 256) as u8,
        (y_end % 256) as u8,
        ((y_end / 256) % 256) as u8,
    ];
    assert(columns@ =~= seq![((x_start / 8) % 256) as u8, ((x_end / 8) % 256) as u8]);
    assert(rows@ =~= seq![
        (y_start % 256) as u8,
        ((y_start / 256) % 256) as u8,
        (y_end % 256) as u8,
        ((y_end / 256) % 256) as u8,
    ]);
    send_command_data(ops, 0x44, &columns);
    send_command_data(ops, 0x45, &rows);
    assert(op_list(ops@) =~= before + window(x_start, y_start, x_end, y_end));
}

/// Setting the cursor in the display RAM.
pub open spec fn cursor(x: u32, y: u32) -> Seq<OpView> {
    command_data(0x4E, seq![(x % 256) as u8]) + command_data(
        0x4F,
        seq![(y % 256) as u8, ((y / 256) % 256) as u8],
    )
}

/// Appends the setting of the cursor.
fn set_cursor(ops: &mut Vec<Op>, x: u32, y: u32)
    ensures
        op_list(final(ops)@) == op_list(old(ops)@) + cursor(x, y),
{
    let ghost before = op_list(ops@);
    let column: [u8; 1] = [(x % 256) as u8];
    let row: [u8; 2] = [(y % 256) as u8, ((y / 256) % 256) as u8];
    assert(column@ =~= seq![(x % 256) as u8]);
    assert(row@ =~= seq![(y % 256) as u8, ((y / 256) % 256) as u8]);
    send_command_data(ops, 0x4E, &column);
    send_command_data(ops, 0x4F, &row);
    assert(op_list(ops@) =~= before + cursor(x, y));
}

/// The full-update init sequence.
pub open spec fn init() -> Seq<OpView> {
    resetting() + seq![OpView::WaitBusy] + command(0x12) + seq![OpView::WaitBusy] + command_data(
        0x01,
        seq![0xF9, 0x00, 0x00],
    ) + command_data(0x11, seq![0x03]) + window(0, 0, 121, 249) + cursor(0, 0) + command_data(
        0x3C,
        seq![0x05],
    ) + command_data(0x21, seq![0x00, 0x80]) + command_data(0x18, seq![0x80]) + seq![
        OpView::WaitBusy,
    ]
}

/// Returns the full-update init sequence: reset, driver output control, data
/// entry mode, the whole display as the window, border waveform, display update
/// control, and the internal temperature sensor.
pub fn init_full() -> (res: Vec<Op>)
    ensures
        op_list(res@) == init(),
{
    let mut ops: Vec<Op> = Vec::new();
    assert(op_list(ops@) =~= Seq::<OpView>::empty());
    let output: [u8; 3] = [0xF9, 0x00, 0x00];
    let entry: [u8; 1] = [0x03];
    let border: [u8; 1] = [0x05];
    let update: [u8; 2] = [0x00, 0x80];
    let sensor: [u8; 1] = [0x80];
    assert(output@ =~= seq![0xF9u8, 0x00, 0x00]);
    assert(entry@ =~= seq![0x03u8]);
    assert(border@ =~= seq![0x05u8]);
    assert(update@ =~= seq![0x00u8, 0x80]);
    assert(sensor@ =~= seq![0x80u8]);
    hw_reset(&mut ops);
    push_op(&mut ops, Op::WaitBusy);
    send_command(&mut ops, 0x12);
    push_op(&mut ops, Op::WaitBusy);
    send_command_data(&mut ops, 0x01, &output);
    send_command_data(&mut ops, 0x11, &entry);
    set_window(&mut ops, 0, 0, WIDTH - 1, HEIGHT - 1);
    set_cursor(&mut ops, 0, 0);
    send_command_data(&mut ops, 0x3C, &border);
    send_command_data(&mut ops, 0x21, &update);
    send_command_data(&mut ops, 0x18, &sensor);
    push_op(&mut ops, Op::WaitBusy);
    assert(op_list(ops@) =~= init());
    ops
}

/// Showing what the display RAM holds.
pub open spec fn refresh() -> Seq<OpView> {
    command_data(0x22, seq![0xF7]) + command(0x20) + seq![OpView::WaitBusy]
}

/// Appends the showing of what the display RAM holds.
fn turn_on_display(ops: &mut Vec<Op>)
    ensures
        op_list(final(ops)@) == op_list(old(ops)@) + refresh(),
{
    let ghost before = op_list(ops@);
    let mode: [u8; 1] = [0xF7];
    assert(mode@ =~= seq![0xF7u8]);
    send_command_data(ops, 0x22, &mode);
    send_command(ops, 0x20);
    push_op(ops, Op::WaitBusy);
    assert(op_list(ops@) =~= before + refresh());
}

/// Writing an image and showing it.
pub open spec fn showing(buffer: Seq<u8>) -> Seq<OpView> {
    command(0x24) + sending(buffer) + refresh()
}

/// Returns the sequence that sends image data to the display RAM and triggers a
/// full refresh.
///
/// `buffer` holds [`BUF_LEN`] bytes, one bit per pixel: 1 is white, 0 is black.
/// A full refresh takes about 2 seconds and flickers.
pub fn display(buffer: &[u8]) -> (res: Vec<Op>)
    ensures
        op_list(res@) == showing(buffer@),
{
    let mut ops: Vec<Op> = Vec::new();
    assert(op_list(ops@) =~= Seq::<OpView>::empty());
    send_command(&mut ops, 0x24);
    send_data(&mut ops, buffer);
    turn_on_display(&mut ops);
    assert(op_list(ops@) =~= showing(buffer@));
    ops
}

/// Returns the sequence that clears the display to the given color (0xFF is
/// white, 0x00 is black).
pub fn clear(color: u8) -> (res: Vec<Op>)
    ensures
        op_list(res@) == showing(Seq::new(BUF_LEN as nat, |i: int| color)),
{
    let mut buffer: Vec<u8> = Vec::new();
    let mut i: usize = 0;
    while i < BUF_LEN
        invariant
            i <= BUF_LEN,
            buffer@ =~= Seq::new(i as nat, |j: int| color),
        decreases BUF_LEN - i,
    {
        buffer.push(color);
        i += 1;
    }
    display(buffer.as_slice())
}

/// Returns the sequence that enters deep sleep. The image stays on screen at
/// zero power, and the controller has to be initialised again before the next
/// operation.
pub fn sleep() -> (res: Vec<Op>)
    ensures
        op_list(res@) == command_data(0x10, seq![0x01]) + seq![OpView::Pause(100)],
{
    let mut ops: Vec<Op> = Vec::new();
    assert(op_list(ops@) =~= Seq::<OpView>::empty());
    let mode: [u8; 1] = [0x01];
    assert(mode@ =~= seq![0x01u8]);
    send_command_data(&mut ops, 0x10, &mode);
    push_op(&mut ops, Op::Pause(100));
    assert(op_list(ops@) =~= command_data(0x10, seq![0x01]) + seq![OpView::Pause(100)]);
    ops
}

/// The bytes that a list of operations writes, in order.
pub open spec fn written(ops: Seq<OpView>) -> Seq<u8>
    decreases ops.len(),
{
    if ops.len() == 0 {
        seq![]
    } else {
        written(ops.drop_last()) + match ops.last() {
            OpView::Write(bytes) => bytes,
            _ => seq![],
        }
    }
}

proof fn lemma_written_sum(a: Seq<OpView>, b: Seq<OpView>)
    ensures
        written(a + b) == written(a) + written(b),
    decreases b.len(),
{
    if b.len() == 0 {
        assert(a + b =~= a);
        assert(written(a) + written(b) =~= written(a));
    } else {
        assert((a + b).drop_last() =~= a + b.drop_last());
        lemma_written_sum(a, b.drop_last());
        assert(written(a + b) =~= written(a) + written(b));
    }
}

/// Splitting data into transfers loses no byte and keeps their order, and no
/// transfer is larger than the bus takes.
pub proof fn law_chunks_carry_the_data(data: Seq<u8>)
    ensures
        written(writes(data)) == data,
        forall|i: int|
            0 <= i < writes(data).len() ==> (#[trigger] writes(data)[i] matches OpView::Write(bytes)
                && 0 < bytes.len() <= CHUNK),
    decreases data.len(),
{
    if data.len() == 0 {
        assert(written(writes(data)) =~= data);
    } else if data.len() <= CHUNK {
        let one = seq![OpView::Write(data)];
        assert(one.drop_last() =~= seq![]);
        assert(written(one.drop_last()) =~= seq![]);
        assert(written(one) =~= data);
    } else {
        let first = data.take(CHUNK as int);
        let rest = data.skip(CHUNK as int);
        let one = seq![OpView::Write(first)];
        law_chunks_carry_the_data(rest);
        lemma_written_sum(one, writes(rest));
        assert(one.drop_last() =~= seq![]);
        assert(written(one.drop_last()) =~= seq![]);
        assert(written(one) =~= first);
        assert(first + rest =~= data);
        assert forall|i: int| 0 <= i < writes(data).len() implies (
        #[trigger] writes(data)[i] matches OpView::Write(bytes) && 0 < bytes.len() <= CHUNK) by {
            if i > 0 {
                assert(writes(data)[i] == writes(rest)[i - 1]);
            }
        }
    }
}

/// Steps that write nothing carry no byte.
proof fn lemma_nothing_written(ops: Seq<OpView>)
    requires
        forall|i: int| 0 <= i < ops.len() ==> !(#[trigger] ops[i] is Write),
    ensures
        written(ops) == Seq::<u8>::empty(),
    decreases ops.len(),
{
    if ops.len() > 0 {
        lemma_nothing_written(ops.drop_last());
        assert(written(ops) =~= Seq::<u8>::empty());
    }
}

/// A command is one byte, sent with the data line low.
pub proof fn law_a_command_is_one_byte(cmd: u8)
    ensures
        command(cmd)[0] == OpView::DataMode(false),
        command(cmd).len() == 2,
        written(command(cmd)) == seq![cmd],
{
    reveal_with_fuel(written, 3);
    assert(written(command(cmd)) =~= seq![cmd]);
}

/// Data is sent with the data line high, and a command with data is the command
/// and then the data.
pub proof fn law_data_follows_its_command(cmd: u8, data: Seq<u8>)
    ensures
        sending(data)[0] == OpView::DataMode(true),
        written(sending(data)) == data,
        forall|i: int| 1 <= i < sending(data).len() ==> #[trigger] sending(data)[i] is Write,
        command_data(cmd, data)[0] == OpView::DataMode(false),
        command_data(cmd, data)[1] == OpView::Write(seq![cmd]),
        command_data(cmd, data)[2] == OpView::DataMode(true),
        forall|i: int|
            3 <= i < command_data(cmd, data).len() ==> #[trigger] command_data(cmd, data)[i]
                is Write,
        written(command_data(cmd, data)) == seq![cmd] + data,
{
    law_chunks_carry_the_data(data);
    law_a_command_is_one_byte(cmd);
    lemma_written_sum(seq![OpView::DataMode(true)], writes(data));
    lemma_nothing_written(seq![OpView::DataMode(true)]);
    assert(written(sending(data)) =~= data);
    lemma_written_sum(command(cmd), sending(data));
    assert forall|i: int| 1 <= i < sending(data).len() implies #[trigger] sending(data)[i]
        is Write by {
        assert(sending(data)[i] == writes(data)[i - 1]);
    }
    assert forall|i: int|
        3 <= i < command_data(cmd, data).len() implies #[trigger] command_data(cmd, data)[i]
        is Write by {
        assert(command_data(cmd, data)[i] == writes(data)[i - 3]);
    }
}

/// The window is told in columns of eight pixels and in rows, the low byte first.
pub proof fn law_a_window_is_told_by_its_corners(x_start: u32, y_start: u32, x_end: u32, y_end: u32)
    requires
        x_start < 2048,
        x_end < 2048,
        y_start < 65536,
        y_end < 65536,
    ensures
        ({
            let sent = written(window(x_start, y_start, x_end, y_end));
            &&& sent.len() == 8
            &&& sent[0] == 0x44
            &&& 8 * sent[1] <= x_start < 8 * sent[1] + 8
            &&& 8 * sent[2] <= x_end < 8 * sent[2] + 8
            &&& sent[3] == 0x45
            &&& sent[4] + 256 * sent[5] == y_start
            &&& sent[6] + 256 * sent[7] == y_end
        }),
{
    let columns = seq![((x_start / 8) % 256) as u8, ((x_end / 8) % 256) as u8];
    let rows = seq![
        (y_start % 256) as u8,
        ((y_start / 256) % 256) as u8,
        (y_end % 256) as u8,
        ((y_end / 256) % 256) as u8,
    ];
    law_data_follows_its_command(0x44, columns);
    law_data_follows_its_command(0x45, rows);
    lemma_written_sum(command_data(0x44, columns), command_data(0x45, rows));
}

/// The cursor is told by its column and its row, the low byte first.
pub proof fn law_a_cursor_is_told_by_its_place(x: u32, y: u32)
    requires
        x < 256,
        y < 65536,
    ensures
        ({
            let sent = written(cursor(x, y));
            &&& sent.len() == 5
            &&& sent[0] == 0x4E
            &&& sent[1] == x
            &&& sent[2] == 0x4F
            &&& sent[3] + 256 * sent[4] == y
        }),
{
    let column = seq![(x % 256) as u8];
    let row = seq![(y % 256) as u8, ((y / 256) % 256) as u8];
    law_data_follows_its_command(0x4E, column);
    law_data_follows_its_command(0x4F, row);
    lemma_written_sum(command_data(0x4E, column), command_data(0x4F, row));
}

/// A reset is a short pulse on the line, low, with a pause on each side of it, and
/// sends nothing.
pub proof fn law_a_reset_is_a_pulse()
    ensures
        resetting().len() == 6,
        resetting()[0] == OpView::Reset(true) && resetting()[2] == OpView::Reset(false)
            && resetting()[4] == OpView::Reset(true),
        resetting()[1] == OpView::Pause(20) && resetting()[3] == OpView::Pause(2) && resetting()[5]
            == OpView::Pause(20),
        written(resetting()) == Seq::<u8>::empty(),
{
    lemma_nothing_written(resetting());
}

/// A picture is sent whole, and the display refreshed from it and waited for.
pub proof fn law_a_picture_is_sent_whole(buffer: Seq<u8>)
    ensures
        written(showing(buffer)) == seq![0x24u8] + buffer + seq![0x22u8, 0xF7u8, 0x20u8],
        showing(buffer).last() is WaitBusy,
        showing(buffer)[0] == OpView::DataMode(false),
        showing(buffer)[2] == OpView::DataMode(true),
{
    law_a_command_is_one_byte(0x24);
    law_a_command_is_one_byte(0x20);
    law_data_follows_its_command(0x24, buffer);
    law_data_follows_its_command(0x22, seq![0xF7u8]);
    let busy = seq![OpView::WaitBusy];
    lemma_nothing_written(busy);
    let asked = command_data(0x22, seq![0xF7u8]) + command(0x20);
    lemma_written_sum(command_data(0x22, seq![0xF7u8]), command(0x20));
    lemma_written_sum(asked, busy);
    lemma_written_sum(command(0x24), sending(buffer));
    lemma_written_sum(command(0x24) + sending(buffer), refresh());
    assert(written(showing(buffer)) =~= seq![0x24u8] + buffer + seq![0x22u8, 0xF7u8, 0x20u8]);
}

/// The display is reset and waited for before its first command, told that it has
/// 250 rows of sixteen bytes, and waited for at the end.
#[verifier::rlimit(50)]
pub proof fn law_the_display_is_set_up_once_it_is_reset()
    ensures
        init().take(6) == resetting(),
        init()[6] is WaitBusy,
        init().last() is WaitBusy,
        written(init()) == seq![
            0x12u8,
            0x01u8,
            249u8,
            0u8,
            0u8,
            0x11u8,
            0x03u8,
            0x44u8,
            0u8,
            15u8,
            0x45u8,
            0u8,
            0u8,
            249u8,
            0u8,
            0x4Eu8,
            0u8,
            0x4Fu8,
            0u8,
            0u8,
            0x3Cu8,
            0x05u8,
            0x21u8,
            0x00u8,
            0x80u8,
            0x18u8,
            0x80u8,
        ],
{
    let busy = seq![OpView::WaitBusy];
    lemma_nothing_written(busy);
    law_a_reset_is_a_pulse();
    let a = resetting() + busy;
    lemma_written_sum(resetting(), busy);
    law_a_command_is_one_byte(0x12);
    let b = a + command(0x12);
    lemma_written_sum(a, command(0x12));
    let c = b + busy;
    lemma_written_sum(b, busy);
    assert(written(c) =~= seq![0x12u8]);
    let gate = seq![0xF9u8, 0x00u8, 0x00u8];
    law_data_follows_its_command(0x01, gate);
    let d = c + command_data(0x01, gate);
    lemma_written_sum(c, command_data(0x01, gate));
    let entry = seq![0x03u8];
    law_data_follows_its_command(0x11, entry);
    let e = d + command_data(0x11, entry);
    lemma_written_sum(d, command_data(0x11, entry));
    law_a_window_is_told_by_its_corners(0, 0, 121, 249);
    let f = e + window(0, 0, 121, 249);
    lemma_written_sum(e, window(0, 0, 121, 249));
    assert(written(window(0, 0, 121, 249)) =~= seq![
        0x44u8,
        0u8,
        15u8,
        0x45u8,
        0u8,
        0u8,
        249u8,
        0u8,
    ]);
    law_a_cursor_is_told_by_its_place(0, 0);
    let g = f + cursor(0, 0);
    lemma_written_sum(f, cursor(0, 0));
    assert(written(cursor(0, 0)) =~= seq![0x4Eu8, 0u8, 0x4Fu8, 0u8, 0u8]);
    let border = seq![0x05u8];
    law_data_follows_its_command(0x3C, border);
    let h = g + command_data(0x3C, border);
    lemma_written_sum(g, command_data(0x3C, border));
    let update = seq![0x00u8, 0x80u8];
    law_data_follows_its_command(0x21, update);
    let i = h + command_data(0x21, update);
    lemma_written_sum(h, command_data(0x21, update));
    let sensor = seq![0x80u8];
    law_data_follows_its_command(0x18, sensor);
    let j = i + command_data(0x18, sensor);
    lemma_written_sum(i, command_data(0x18, sensor));
    lemma_written_sum(j, busy);
    assert(init() == j + busy);
    assert(init().take(6) =~= resetting());
    assert(written(init()) =~= seq![0x12u8] + (seq![0x01u8] + gate) + (seq![0x11u8] + entry)
        + written(window(0, 0, 121, 249)) + written(cursor(0, 0)) + (seq![0x3Cu8] + border) + (
    seq![0x21u8] + update) + (seq![0x18u8] + sensor));
}

/// An operation is seen as what it is, with what it holds.
pub proof fn law_an_operation_is_seen_as_it_is(one: Op)
    ensures
        one matches Op::DataMode(data) ==> one@ == OpView::DataMode(data),
        one matches Op::Write(bytes) ==> one@ == OpView::Write(bytes@),
        one matches Op::Reset(high) ==> one@ == OpView::Reset(high),
        one matches Op::Pause(ms) ==> one@ == OpView::Pause(ms),
        one matches Op::WaitBusy ==> one@ == OpView::WaitBusy,
{
}

} // verus!
