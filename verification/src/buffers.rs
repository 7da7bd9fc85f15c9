//! The two cell buffers: what they hold at the start, how their words lie in
//! memory, and the parity rule that assigns their roles frame by frame.

use vstd::prelude::*;
use nanorand::Rng;

verus! {

/// Number of cell buffers that alternate as source and destination.
pub const BUFFER_COUNT: usize = 2;

/// Size in bytes of one cell, and of one word of the parameter block.
pub const SIZE_OF_U32: u64 = 4;

/// The `WyRand` generator of nanorand. Nothing is said of its state: it is
/// handed on to the calls that draw from it.
#[verifier::external_type_specification]
#[verifier::external_body]
pub struct ExWyRand(nanorand::WyRand);

/// Index of the buffer that the compute pass of frame `frame_num` reads.
pub open spec fn source_of(frame_num: nat) -> nat {
    frame_num % 2
}

/// Index of the buffer that the compute pass of frame `frame_num` writes,
/// which is also the one its draw pass reads.
pub open spec fn target_of(frame_num: nat) -> nat {
    (frame_num + 1) % 2
}

/// `value` can stand in a cell when the palette has `color_number` colors.
/// With an empty palette every cell holds zero.
pub open spec fn is_palette_index(value: u32, color_number: u32) -> bool {
    if color_number == 0 {
        value == 0
    } else {
        value < color_number
    }
}

/// `cells` is a full initial state: one palette index for each cell.
pub open spec fn is_initial_state(cells: Seq<u32>, total: u32, color_number: u32) -> bool {
    &&& cells.len() == total
    &&& forall|i: int| 0 <= i < cells.len() ==> is_palette_index(#[trigger] cells[i], color_number)
}

/// Byte `k` of `word`, counted from the least significant one.
pub open spec fn byte_of(word: u32, k: int) -> u8 {
    if k == 0 {
        (word % 0x100) as u8
    } else if k == 1 {
        ((word / 0x100) % 0x100) as u8
    } else if k == 2 {
        ((word / 0x1_0000) % 0x100) as u8
    } else {
        (word / 0x100_0000) as u8
    }
}

/// The words laid out one after another, least significant byte first.
pub open spec fn little_endian(words: Seq<u32>) -> Seq<u8> {
    Seq::new(4 * words.len(), |i: int| byte_of(words[i / 4], i % 4))
}

/// The words laid out one after another, most significant byte first.
pub open spec fn big_endian(words: Seq<u32>) -> Seq<u8> {
    Seq::new(4 * words.len(), |i: int| byte_of(words[i / 4], 3 - i % 4))
}

/// `bytes` is how `words` lie in memory on a machine of either byte order.
pub open spec fn is_memory_image(bytes: Seq<u8>, words: Seq<u32>) -> bool {
    bytes == little_endian(words) || bytes == big_endian(words)
}

/// Buffer read by the compute pass of the given frame.
pub fn current_index(frame_num: usize) -> (index: usize)
    ensures
        index == source_of(frame_num as nat),
        index < BUFFER_COUNT,
{
    frame_num % 2
}

/// Buffer written by the compute pass of the given frame.
pub fn next_index(frame_num: usize) -> (index: usize)
    ensures
        index == target_of(frame_num as nat),
        index < BUFFER_COUNT,
{
    1 - frame_num % 2
}

/// The buffers that bind group `group` of the compute stage reads and
/// writes: its own, and the opposite one.
pub fn bind_group_buffers(group: usize) -> (pair: (usize, usize))
    requires
        group < BUFFER_COUNT,
    ensures
        pair.0 == group,
        pair.1 == (group + 1) % 2,
        pair.0 != pair.1,
        pair.1 < BUFFER_COUNT,
{
    (group, 1 - group)
}

/// Within a frame the two roles never fall on the same buffer, and the
/// buffer written by one frame is the one read by the next.
pub proof fn lemma_roles_alternate(frame_num: nat)
    ensures
        source_of(frame_num) != target_of(frame_num),
        source_of(frame_num) < 2,
        target_of(frame_num) < 2,
        source_of(frame_num + 1) == target_of(frame_num),
        target_of(frame_num + 1) == source_of(frame_num),
{
}

/// Calls `generate_range` of nanorand's `Rng` on `0..bound`. The result is
/// below `bound`; for an empty range nanorand returns zero. Which value comes
/// out depends on the generator's state, of which nothing is said.
#[verifier::external_body]
fn random_below(rng: &mut nanorand::WyRand, bound: u32) -> (value: u32)
    ensures
        is_palette_index(value, bound),
{
    rng.generate_range(0_u32..bound)
}

/// Calls `bytemuck::cast_slice` from `u32` to `u8`, which hands out the
/// memory the words occupy: four bytes for each word, in the byte order of
/// the machine.
#[verifier::external_body]
fn memory_image(words: &Vec<u32>) -> (bytes: Vec<u8>)
    ensures
        is_memory_image(bytes@, words@),
{
    bytemuck::cast_slice::<u32, u8>(words.as_slice()).to_vec()
}

/// A random initial state: for each of `total` cells one palette index,
/// drawn from `rng`. Both cell buffers start from it.
pub fn initial_cells(total: u32, color_number: u32, rng: &mut nanorand::WyRand) -> (cells: Vec<u32>)
    ensures
        is_initial_state(cells@, total, color_number),
{
    let mut cells: Vec<u32> = Vec::new();
    let mut filled: u32 = 0;
    while filled < total
        invariant
            filled <= total,
            is_initial_state(cells@, filled, color_number),
        decreases total - filled,
    {
        let value = random_below(rng, color_number);
        cells.push(value);
        filled = filled + 1;
    }
    cells
}

/// The bytes that a buffer of `words` holds when it is handed to the device.
pub fn words_to_bytes(words: &Vec<u32>) -> (bytes: Vec<u8>)
    ensures
        is_memory_image(bytes@, words@),
        bytes@.len() == SIZE_OF_U32 * words@.len(),
{
    memory_image(words)
}

/// Size in bytes of a buffer of `count` words.
pub fn byte_size(count: u32) -> (size: u64)
    ensures
        size == count * SIZE_OF_U32,
{
    count as u64 * SIZE_OF_U32
}

} // verus!
