//! The transmission of a configuration: 26 feature reports of 65 bytes, each
//! a report id of 0 followed by one 64-byte page of a 1664-byte buffer.
//!
//! The buffer is laid out as follows; every byte not named is zero.
//!
//! | offset          | content                                             |
//! |-----------------|-----------------------------------------------------|
//! | `0x000`         | poll marker `04 18`                                 |
//! | `0x040`         | start marker `04 ab`                                |
//! | `0x080..0x0c0`  | filler                                              |
//! | `0x0c0`         | section marker `04 02`                              |
//! | `0x100`         | program marker `04 13 00 00 00 00 00 00 12`         |
//! | `0x140..0x260`  | the records of the modes with codes 1 to 0x12       |
//! | `0x270..0x280`  | the record of `UserDefined`                         |
//! | `0x340..0x580`  | one slot of four bytes for every fourth key code    |
//! | `0x580..0x590`  | the record of the preset in effect                  |
//! | `0x5c0`         | section marker `04 02`                              |
//! | `0x600`         | end marker `04 f0`                                  |
//! | `0x640`         | poll marker `04 18`                                 |

use vstd::prelude::*;
use crate::color::RGB;
use crate::key::Key;
use crate::message::{LightingUpdateMessage, LightingUpdateView};
use crate::mode::Mode;
use crate::preset::PresetView;
use crate::random::next_byte;

verus! {

/// Number of feature reports in a transmission.
pub const BLOCK_COUNT: usize = 26;

/// Length of a feature report: the report id and one page.
pub const BLOCK_LEN: usize = 65;

/// Length of a page of the buffer.
pub const PAGE_LEN: usize = 64;

/// Length of the buffer.
pub const BUFFER_LEN: usize = 1664;

/// Length of the filler.
pub const FILLER_LEN: usize = 64;

/// Offset of the leading poll marker.
pub const POLL_AT: usize = 0x000;

/// Offset of the marker that starts the update.
pub const START_AT: usize = 0x040;

/// Offset of the filler.
pub const FILLER_AT: usize = 0x080;

/// Offset of the section marker before the presets.
pub const SECTION_AT: usize = 0x0c0;

/// Offset of the marker that starts the programming of presets.
pub const PROGRAM_AT: usize = 0x100;

/// Offset of the record of the mode with code 1.
pub const PRESETS_AT: usize = 0x140;

/// Offset behind the record of the mode with code 0x12.
pub const PRESETS_END: usize = 0x260;

/// Offset of the record of `UserDefined`.
pub const USER_DEFINED_AT: usize = 0x270;

/// Offset of the slot of key code 0.
pub const KEY_SLOTS_AT: usize = 0x340;

/// Offset of the record of the preset in effect.
pub const ACTIVE_AT: usize = 0x580;

/// Offset of the section marker behind the preset in effect.
pub const CLOSING_SECTION_AT: usize = 0x5c0;

/// Offset of the marker that ends the update.
pub const END_AT: usize = 0x600;

/// Offset of the trailing poll marker.
pub const TRAILING_POLL_AT: usize = 0x640;

/// First byte of every marker.
pub const MARKER: u8 = 0x04;

/// Second byte of a poll marker.
pub const MARKER_POLL: u8 = 0x18;

/// Second byte of the marker that starts the update.
pub const MARKER_START: u8 = 0xab;

/// Second byte of a section marker.
pub const MARKER_SECTION: u8 = 0x02;

/// Second byte of the marker that starts the programming of presets.
pub const MARKER_PROGRAM: u8 = 0x13;

/// Second byte of the marker that ends the update.
pub const MARKER_END: u8 = 0xf0;

/// Highest mode code with a record in the table of presets, which the
/// program marker names.
pub const LAST_TABLE_CODE: u8 = 0x12;

/// First byte of every key slot.
pub const SLOT_DELIMITER: u8 = 0x80;

/// Byte `i` of a page that holds a marker of the given kind and nothing else.
pub open spec fn marker_byte(kind: u8, i: int) -> u8 {
    if i == 0 {
        MARKER
    } else if i == 1 {
        kind
    } else {
        0
    }
}

/// Byte `i` of the page that starts the programming of presets.
pub open spec fn program_byte(i: int) -> u8 {
    if i == 8 {
        LAST_TABLE_CODE
    } else {
        marker_byte(MARKER_PROGRAM, i)
    }
}

/// Byte `i` of the table of presets: the records of the modes with codes 1
/// to 0x12, in the order of their codes.
pub open spec fn table_byte(presets: Map<Mode, PresetView>, i: int) -> u8 {
    presets[Mode::spec_from_code(i / 16 + 1).unwrap()].record()[i % 16]
}

/// The color of the slot of a key code: that of the key with this code, or
/// black where no key has it.
pub open spec fn slot_color(msg: LightingUpdateView, code: int) -> RGB {
    match Key::spec_from_code(code) {
        Some(key) => msg.key_color(key),
        None => RGB::black(),
    }
}

/// Byte `i` of the key slots. The slot of key code `c` starts at byte `c`
/// and holds the delimiter and the three channels of the slot's color.
pub open spec fn slot_byte(msg: LightingUpdateView, i: int) -> u8 {
    let color = slot_color(msg, i - i % 4);
    if i % 4 == 0 {
        SLOT_DELIMITER
    } else if i % 4 == 1 {
        color.red
    } else if i % 4 == 2 {
        color.green
    } else {
        color.blue
    }
}

/// The byte at offset `at` of the buffer of a configuration sent with the
/// given filler.
pub open spec fn buffer_byte(msg: LightingUpdateView, filler: Seq<u8>, at: int) -> u8 {
    if at < START_AT {
        marker_byte(MARKER_POLL, at - POLL_AT)
    } else if at < FILLER_AT {
        marker_byte(MARKER_START, at - START_AT)
    } else if at < SECTION_AT {
        filler[at - FILLER_AT]
    } else if at < PROGRAM_AT {
        marker_byte(MARKER_SECTION, at - SECTION_AT)
    } else if at < PRESETS_AT {
        program_byte(at - PROGRAM_AT)
    } else if at < PRESETS_END {
        table_byte(msg.presets, at - PRESETS_AT)
    } else if at < USER_DEFINED_AT {
        0
    } else if at < USER_DEFINED_AT + 16 {
        msg.presets[Mode::UserDefined].record()[at - USER_DEFINED_AT]
    } else if at < KEY_SLOTS_AT {
        0
    } else if at < ACTIVE_AT {
        slot_byte(msg, at - KEY_SLOTS_AT)
    } else if at < ACTIVE_AT + 16 {
        msg.active.record()[at - ACTIVE_AT]
    } else if at < CLOSING_SECTION_AT {
        0
    } else if at < END_AT {
        marker_byte(MARKER_SECTION, at - CLOSING_SECTION_AT)
    } else if at < TRAILING_POLL_AT {
        marker_byte(MARKER_END, at - END_AT)
    } else {
        marker_byte(MARKER_POLL, at - TRAILING_POLL_AT)
    }
}

/// Byte `i` of feature report `block`: the report id 0, then the page.
pub open spec fn block_byte(msg: LightingUpdateView, filler: Seq<u8>, block: int, i: int) -> u8 {
    if i == 0 {
        0
    } else {
        buffer_byte(msg, filler, PAGE_LEN * block + i - 1)
    }
}

/// `blocks` is the transmission of `msg` with the given filler.
pub open spec fn encodes(blocks: [[u8; 65]; 26], msg: LightingUpdateView, filler: Seq<u8>) -> bool {
    forall|block: int, i: int|
        0 <= block < BLOCK_COUNT && 0 <= i < BLOCK_LEN ==> #[trigger] blocks[block][i]
            == block_byte(msg, filler, block, i)
}

/// The filler that a transmission carries.
pub open spec fn filler_of(blocks: [[u8; 65]; 26]) -> Seq<u8> {
    blocks[2]@.subrange(1, BLOCK_LEN as int)
}

/// Every feature report starts with the report id 0.
pub open spec fn report_ids_zero(blocks: [[u8; 65]; 26]) -> bool {
    forall|block: int| 0 <= block < BLOCK_COUNT ==> (#[trigger] blocks[block])[0] == 0
}

/// The markers stand where the controller looks for them.
pub open spec fn markers_in_place(blocks: [[u8; 65]; 26]) -> bool {
    &&& blocks[0][1] == MARKER && blocks[0][2] == MARKER_POLL
    &&& blocks[1][1] == MARKER && blocks[1][2] == MARKER_START
    &&& blocks[3][1] == MARKER && blocks[3][2] == MARKER_SECTION
    &&& blocks[4][1] == MARKER && blocks[4][2] == MARKER_PROGRAM && blocks[4][9]
        == LAST_TABLE_CODE
    &&& blocks[23][1] == MARKER && blocks[23][2] == MARKER_SECTION
    &&& blocks[24][1] == MARKER && blocks[24][2] == MARKER_END
    &&& blocks[25][1] == MARKER && blocks[25][2] == MARKER_POLL
}

/// The buffer is laid out up to offset `upto` and still zero from there on.
spec fn laid_out(data: Seq<u8>, msg: LightingUpdateView, filler: Seq<u8>, upto: int) -> bool {
    &&& data.len() == BUFFER_LEN
    &&& forall|at: int|
        0 <= at < BUFFER_LEN ==> #[trigger] data[at] == if at < upto {
            buffer_byte(msg, filler, at)
        } else {
            0
        }
}

/// Writes a marker of the given kind at offset `at`.
fn put_marker(data: &mut Vec<u8>, at: usize, kind: u8)
    requires
        at + 1 < old(data).len(),
    ensures
        final(data)@ == old(data)@.update(at as int, MARKER).update(at + 1, kind),
{
    data[at] = MARKER;
    data[at + 1] = kind;
}

/// Writes a record at offset `at`.
fn put_record(data: &mut Vec<u8>, at: usize, record: &[u8; 16])
    requires
        at + 16 <= old(data).len(),
    ensures
        final(data)@.len() == old(data)@.len(),
        forall|i: int|
            0 <= i < old(data)@.len() ==> #[trigger] final(data)@[i] == if at <= i < at + 16 {
                record@[i - at]
            } else {
                old(data)@[i]
            },
{
    let mut n: usize = 0;
    while n < 16
        invariant
            n <= 16,
            at + 16 <= data.len(),
            data@.len() == old(data)@.len(),
            forall|i: int|
                0 <= i < data@.len() ==> #[trigger] data@[i] == if at <= i < at + n {
                    record@[i - at]
                } else {
                    old(data)@[i]
                },
        decreases 16 - n,
    {
        data[at + n] = record[n];
        n += 1;
    }
}

/// Cuts the buffer into pages and puts the report id 0 before each.
fn split_into_blocks(data: &Vec<u8>) -> (blocks: [[u8; 65]; 26])
    requires
        data.len() == BUFFER_LEN,
    ensures
        forall|block: int, i: int|
            0 <= block < BLOCK_COUNT && 0 <= i < BLOCK_LEN ==> #[trigger] blocks[block][i] == if i
                == 0 {
                0
            } else {
                data@[PAGE_LEN * block + i - 1]
            },
{
    let mut blocks = [[0u8; 65]; 26];
    let mut block_number: usize = 0;
    while block_number < BLOCK_COUNT
        invariant
            block_number <= BLOCK_COUNT,
            data.len() == BUFFER_LEN,
            forall|block: int, i: int|
                0 <= block < block_number && 0 <= i < BLOCK_LEN ==> #[trigger] blocks[block][i]
                    == if i == 0 {
                    0
                } else {
                    data@[PAGE_LEN * block + i - 1]
                },
        decreases BLOCK_COUNT - block_number,
    {
        let mut block = [0u8; 65];
        let mut n: usize = 0;
        while n < PAGE_LEN
            invariant
                n <= PAGE_LEN,
                block_number < BLOCK_COUNT,
                data.len() == BUFFER_LEN,
                block[0] == 0,
                forall|i: int|
                    1 <= i <= n ==> #[trigger] block[i] == data@[PAGE_LEN * block_number + i - 1],
            decreases PAGE_LEN - n,
        {
            block[n + 1] = data[PAGE_LEN * block_number + n];
            n += 1;
        }
        blocks[block_number] = block;
        block_number += 1;
    }
    blocks
}

impl LightingUpdateMessage {
    /// The transmission of this configuration, with random filler. Every byte
    /// but the filler is fixed by the configuration.
    pub fn construct_feature_report_data_blocks(&self) -> (blocks: [[u8; 65]; 26])
        ensures
            encodes(blocks, self@, filler_of(blocks)),
            report_ids_zero(blocks),
            markers_in_place(blocks),
    {
        let mut rng = rand::thread_rng();
        let mut filler = [0u8; 64];
        let mut n: usize = 0;
        while n < FILLER_LEN
            invariant
                n <= FILLER_LEN,
            decreases FILLER_LEN - n,
        {
            filler[n] = next_byte(&mut rng);
            n += 1;
        }
        let blocks = self.construct_data_blocks_with_filler(&filler);
        proof {
            assert forall|i: int| 0 <= i < FILLER_LEN implies filler_of(blocks)[i] == filler@[i] by {
                assert(blocks[2][i + 1] == block_byte(self@, filler@, 2, i + 1));
            }
            assert(filler_of(blocks) =~= filler@);
        }
        blocks
    }

    /// The transmission of this configuration with the given filler.
    pub fn construct_data_blocks_with_filler(&self, filler: &[u8; 64]) -> (blocks: [[u8; 65]; 26])
        ensures
            encodes(blocks, self@, filler@),
            report_ids_zero(blocks),
            markers_in_place(blocks),
    {
        let ghost msg = self@;
        let ghost fill = filler@;
        let mut data: Vec<u8> = vec![0u8; BUFFER_LEN];
        assert(laid_out(data@, msg, fill, 0));

        put_marker(&mut data, POLL_AT, MARKER_POLL);
        assert(laid_out(data@, msg, fill, START_AT as int));

        put_marker(&mut data, START_AT, MARKER_START);
        assert(laid_out(data@, msg, fill, FILLER_AT as int));

        let mut n: usize = 0;
        while n < FILLER_LEN
            invariant
                n <= FILLER_LEN,
                fill == filler@,
                laid_out(data@, msg, fill, FILLER_AT + n),
            decreases FILLER_LEN - n,
        {
            data[FILLER_AT + n] = filler[n];
            n += 1;
        }

        put_marker(&mut data, SECTION_AT, MARKER_SECTION);
        assert(laid_out(data@, msg, fill, PROGRAM_AT as int));

        put_marker(&mut data, PROGRAM_AT, MARKER_PROGRAM);
        data[PROGRAM_AT + 8] = LAST_TABLE_CODE;
        assert(laid_out(data@, msg, fill, PRESETS_AT as int));

        let mut code: u8 = 1;
        while code <= LAST_TABLE_CODE
            invariant
                1 <= code <= LAST_TABLE_CODE + 1,
                msg == self@,
                laid_out(data@, msg, fill, PRESETS_AT + (code - 1) * 16),
            decreases LAST_TABLE_CODE + 1 - code,
        {
            if let Some(mode) = Mode::from_code(code) {
                if let Some(preset) = self.preset_for(mode) {
                    let record: [u8; 16] = preset.into();
                    let at: usize = PRESETS_AT + (code as usize - 1) * 16;
                    put_record(&mut data, at, &record);
                    assert forall|i: int| at <= i < at + 16 implies buffer_byte(msg, fill, i)
                        == record@[i - at] by {
                        assert((i - PRESETS_AT) / 16 + 1 == code);
                        assert((i - PRESETS_AT) % 16 == i - at);
                    }
                }
            }
            code += 1;
        }
        assert(laid_out(data@, msg, fill, USER_DEFINED_AT as int));

        if let Some(preset) = self.preset_for(Mode::UserDefined) {
            let record: [u8; 16] = preset.into();
            put_record(&mut data, USER_DEFINED_AT, &record);
        }
        assert(laid_out(data@, msg, fill, KEY_SLOTS_AT as int));

        let mut slot: usize = 0;
        while slot < 144
            invariant
                slot <= 144,
                msg == self@,
                laid_out(data@, msg, fill, KEY_SLOTS_AT + 4 * slot),
            decreases 144 - slot,
        {
            let at: usize = KEY_SLOTS_AT + 4 * slot;
            let code: u16 = (4 * slot) as u16;
            data[at] = SLOT_DELIMITER;
            if let Some(key) = Key::from_code(code) {
                let color = self.key_color(key);
                data[at + 1] = color.red;
                data[at + 2] = color.green;
                data[at + 3] = color.blue;
            }
            assert forall|i: int| at <= i < at + 4 implies buffer_byte(msg, fill, i) == data@[i] by {
                let rel = i - KEY_SLOTS_AT;
                assert(rel - rel % 4 == code);
                assert(rel % 4 == i - at);
            }
            slot += 1;
        }
        assert(laid_out(data@, msg, fill, ACTIVE_AT as int));

        let record: [u8; 16] = self.active_mode().into();
        put_record(&mut data, ACTIVE_AT, &record);
        assert(laid_out(data@, msg, fill, CLOSING_SECTION_AT as int));

        put_marker(&mut data, CLOSING_SECTION_AT, MARKER_SECTION);
        assert(laid_out(data@, msg, fill, END_AT as int));

        put_marker(&mut data, END_AT, MARKER_END);
        assert(laid_out(data@, msg, fill, TRAILING_POLL_AT as int));

        put_marker(&mut data, TRAILING_POLL_AT, MARKER_POLL);
        assert(laid_out(data@, msg, fill, BUFFER_LEN as int));

        let blocks = split_into_blocks(&data);
        proof {
            lemma_shape(blocks, msg, fill);
        }
        blocks
    }
}

/// The byte that a transmission holds at offset `at` of the buffer.
pub open spec fn buffer_at(blocks: [[u8; 65]; 26], at: int) -> u8 {
    blocks[at / PAGE_LEN as int][at % PAGE_LEN as int + 1]
}

/// The offset of the record that the table of presets keeps for a mode. Only
/// `UserDefined` and the modes with codes 1 to 0x12 have one.
pub open spec fn record_offset(mode: Mode) -> int {
    if mode == Mode::UserDefined {
        USER_DEFINED_AT as int
    } else {
        PRESETS_AT + (mode.spec_code() - 1) * 16
    }
}

/// A transmission holds the buffer of its configuration, page by page.
pub proof fn lemma_buffer_at(
    blocks: [[u8; 65]; 26],
    msg: LightingUpdateView,
    filler: Seq<u8>,
    at: int,
)
    requires
        encodes(blocks, msg, filler),
        0 <= at < BUFFER_LEN,
    ensures
        buffer_at(blocks, at) == buffer_byte(msg, filler, at),
{
    let block = at / PAGE_LEN as int;
    let i = at % PAGE_LEN as int + 1;
    assert(blocks[block][i] == block_byte(msg, filler, block, i));
}

/// The record of a mode stands at its offset in the table of presets.
pub proof fn lemma_mode_record(
    blocks: [[u8; 65]; 26],
    msg: LightingUpdateView,
    filler: Seq<u8>,
    mode: Mode,
    i: int,
)
    requires
        encodes(blocks, msg, filler),
        mode == Mode::UserDefined || 1 <= mode.spec_code() <= LAST_TABLE_CODE,
        0 <= i < 16,
    ensures
        buffer_at(blocks, record_offset(mode) + i) == msg.presets[mode].record()[i],
{
    let at = record_offset(mode) + i;
    lemma_buffer_at(blocks, msg, filler, at);
    if mode != Mode::UserDefined {
        Mode::lemma_from_code_inverts(mode);
        assert((at - PRESETS_AT) / 16 + 1 == mode.spec_code());
        assert((at - PRESETS_AT) % 16 == i);
    }
}

/// The record of the preset in effect stands at `ACTIVE_AT`.
pub proof fn lemma_active_record(
    blocks: [[u8; 65]; 26],
    msg: LightingUpdateView,
    filler: Seq<u8>,
    i: int,
)
    requires
        encodes(blocks, msg, filler),
        0 <= i < 16,
    ensures
        buffer_at(blocks, ACTIVE_AT + i) == msg.active.record()[i],
{
    lemma_buffer_at(blocks, msg, filler, ACTIVE_AT + i);
}

/// The four bytes of the slot of a key code: the delimiter and the channels
/// of the slot's color.
proof fn lemma_slot_bytes(msg: LightingUpdateView, code: int)
    requires
        code % 4 == 0,
    ensures
        slot_byte(msg, code) == SLOT_DELIMITER,
        slot_byte(msg, code + 1) == slot_color(msg, code).red,
        slot_byte(msg, code + 2) == slot_color(msg, code).green,
        slot_byte(msg, code + 3) == slot_color(msg, code).blue,
{
    assert((code + 1) % 4 == 1 && (code + 2) % 4 == 2 && (code + 3) % 4 == 3);
}

/// A transmission holds the key slots from `KEY_SLOTS_AT` on.
proof fn lemma_slot_at(
    blocks: [[u8; 65]; 26],
    msg: LightingUpdateView,
    filler: Seq<u8>,
    i: int,
)
    requires
        encodes(blocks, msg, filler),
        0 <= i < ACTIVE_AT - KEY_SLOTS_AT,
    ensures
        buffer_at(blocks, KEY_SLOTS_AT + i) == slot_byte(msg, i),
{
    lemma_buffer_at(blocks, msg, filler, KEY_SLOTS_AT + i);
}

/// The slot of a key holds the delimiter and the color the key is lit in.
pub proof fn lemma_key_slot(
    blocks: [[u8; 65]; 26],
    msg: LightingUpdateView,
    filler: Seq<u8>,
    key: Key,
)
    requires
        encodes(blocks, msg, filler),
    ensures
        buffer_at(blocks, KEY_SLOTS_AT + key.spec_code()) == SLOT_DELIMITER,
        buffer_at(blocks, KEY_SLOTS_AT + key.spec_code() + 1) == msg.key_color(key).red,
        buffer_at(blocks, KEY_SLOTS_AT + key.spec_code() + 2) == msg.key_color(key).green,
        buffer_at(blocks, KEY_SLOTS_AT + key.spec_code() + 3) == msg.key_color(key).blue,
{
    let code = key.spec_code() as int;
    Key::lemma_code_aligned(key);
    Key::lemma_from_code_inverts(key);
    assert(slot_color(msg, code) == msg.key_color(key));
    lemma_slot_bytes(msg, code);
    lemma_slot_at(blocks, msg, filler, code);
    lemma_slot_at(blocks, msg, filler, code + 1);
    lemma_slot_at(blocks, msg, filler, code + 2);
    lemma_slot_at(blocks, msg, filler, code + 3);
}

/// A slot whose code no key has holds the delimiter and no color.
pub proof fn lemma_empty_slot(
    blocks: [[u8; 65]; 26],
    msg: LightingUpdateView,
    filler: Seq<u8>,
    code: int,
)
    requires
        encodes(blocks, msg, filler),
        0 <= code < ACTIVE_AT - KEY_SLOTS_AT,
        code % 4 == 0,
        Key::spec_from_code(code) is None,
    ensures
        buffer_at(blocks, KEY_SLOTS_AT + code) == SLOT_DELIMITER,
        buffer_at(blocks, KEY_SLOTS_AT + code + 1) == 0,
        buffer_at(blocks, KEY_SLOTS_AT + code + 2) == 0,
        buffer_at(blocks, KEY_SLOTS_AT + code + 3) == 0,
{
    assert(slot_color(msg, code) == RGB::black());
    lemma_slot_bytes(msg, code);
    lemma_slot_at(blocks, msg, filler, code);
    lemma_slot_at(blocks, msg, filler, code + 1);
    lemma_slot_at(blocks, msg, filler, code + 2);
    lemma_slot_at(blocks, msg, filler, code + 3);
}

/// Two transmissions of one configuration differ at most in the filler:
/// every byte outside the payload of block 2 is the same in both.
pub proof fn lemma_same_outside_filler(
    first: [[u8; 65]; 26],
    second: [[u8; 65]; 26],
    msg: LightingUpdateView,
    first_filler: Seq<u8>,
    second_filler: Seq<u8>,
)
    requires
        encodes(first, msg, first_filler),
        encodes(second, msg, second_filler),
    ensures
        forall|block: int, i: int|
            0 <= block < BLOCK_COUNT && 0 <= i < BLOCK_LEN && !(block == 2 && i >= 1)
                ==> #[trigger] first[block][i] == second[block][i],
        forall|at: int|
            0 <= at < BUFFER_LEN && !(FILLER_AT <= at < FILLER_AT + FILLER_LEN) ==> buffer_at(
                first,
                at,
            ) == buffer_at(second, at),
{
    assert forall|block: int, i: int|
        0 <= block < BLOCK_COUNT && 0 <= i < BLOCK_LEN && !(block == 2 && i >= 1) implies #[trigger] first[block][i]
        == second[block][i] by {
        assert(first[block][i] == block_byte(msg, first_filler, block, i));
        assert(second[block][i] == block_byte(msg, second_filler, block, i));
    }
    assert forall|at: int|
        0 <= at < BUFFER_LEN && !(FILLER_AT <= at < FILLER_AT + FILLER_LEN) implies buffer_at(
        first,
        at,
    ) == buffer_at(second, at) by {
        lemma_buffer_at(first, msg, first_filler, at);
        lemma_buffer_at(second, msg, second_filler, at);
    }
}

/// With the same filler, a configuration has one transmission only.
pub proof fn lemma_transmission_unique(
    first: [[u8; 65]; 26],
    second: [[u8; 65]; 26],
    msg: LightingUpdateView,
    filler: Seq<u8>,
)
    requires
        encodes(first, msg, filler),
        encodes(second, msg, filler),
    ensures
        first == second,
{
    assert forall|block: int| 0 <= block < BLOCK_COUNT implies first[block] == second[block] by {
        assert forall|i: int| 0 <= i < BLOCK_LEN implies first[block][i] == second[block][i] by {
            assert(first[block][i] == block_byte(msg, filler, block, i));
            assert(second[block][i] == block_byte(msg, filler, block, i));
        }
        assert(first[block] =~= second[block]);
    }
    assert(first =~= second);
}

/// In every transmission the report ids are zero and the markers are in
/// place, whatever the configuration and the filler.
pub proof fn lemma_shape(blocks: [[u8; 65]; 26], msg: LightingUpdateView, filler: Seq<u8>)
    requires
        encodes(blocks, msg, filler),
    ensures
        report_ids_zero(blocks),
        markers_in_place(blocks),
{
    assert forall|block: int| 0 <= block < BLOCK_COUNT implies (#[trigger] blocks[block])[0]
        == 0 by {
        assert(blocks[block][0] == block_byte(msg, filler, block, 0));
    }
    assert(blocks[0][1] == block_byte(msg, filler, 0, 1));
    assert(blocks[0][2] == block_byte(msg, filler, 0, 2));
    assert(blocks[1][1] == block_byte(msg, filler, 1, 1));
    assert(blocks[1][2] == block_byte(msg, filler, 1, 2));
    assert(blocks[3][1] == block_byte(msg, filler, 3, 1));
    assert(blocks[3][2] == block_byte(msg, filler, 3, 2));
    assert(blocks[4][1] == block_byte(msg, filler, 4, 1));
    assert(blocks[4][2] == block_byte(msg, filler, 4, 2));
    assert(blocks[4][9] == block_byte(msg, filler, 4, 9));
    assert(blocks[23][1] == block_byte(msg, filler, 23, 1));
    assert(blocks[23][2] == block_byte(msg, filler, 23, 2));
    assert(blocks[24][1] == block_byte(msg, filler, 24, 1));
    assert(blocks[24][2] == block_byte(msg, filler, 24, 2));
    assert(blocks[25][1] == block_byte(msg, filler, 25, 1));
    assert(blocks[25][2] == block_byte(msg, filler, 25, 2));
}

} // verus!
