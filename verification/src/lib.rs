use vstd::prelude::*;

pub mod apu;
pub mod bits;
pub mod bus;
pub mod cartridge;
pub mod cpu;
pub mod data_access;
pub mod keypad;
pub mod lcd;
pub mod stack;
pub mod timer;

pub use bus::Bus;
pub use cartridge::Cartridge;
pub use cpu::{Cpu, CpuMode, Instruction, InstructionSet, Register};
pub use keypad::Key;
pub use lcd::{Lcd, Rgb555};

verus! {

/// System clock rate, in cycles per second.
pub const CYCLES_PER_SECOND: u64 = 16_777_216;

/// Byte `j` of a frame as the checksum reads it: the red, green and blue
/// components of each pixel in turn.
pub open spec fn frame_byte(pixels: Seq<Rgb555>, j: int) -> u8 {
    let p = pixels[j / 3];
    if j % 3 == 0 {
        p.spec_red()
    } else if j % 3 == 1 {
        p.spec_green()
    } else {
        p.spec_blue()
    }
}

/// The bytes of a frame that the checksum covers.
pub open spec fn frame_bytes(pixels: Seq<Rgb555>) -> Seq<u8> {
    Seq::new(3 * pixels.len(), |j: int| frame_byte(pixels, j))
}

/// The XXH3 64-bit hash (seed 0, default secret) of a byte sequence.
pub uninterp spec fn xxh3_64_of(bytes: Seq<u8>) -> u64;

/// Feeds `bytes` to a default `xxhash_rust::xxh3::Xxh3` hasher (seed 0)
/// through `Hasher::write` and returns `Hasher::finish`. The contract says
/// only that the result is the XXH3 hash of the bytes, a function of the
/// bytes alone; it states nothing of how that hash is computed.
#[verifier::external_body]
fn xxh3_64_hash(bytes: &Vec<u8>) -> (r: u64)
    ensures
        r == xxh3_64_of(bytes@),
{
    let mut hasher = xxhash_rust::xxh3::Xxh3::default();
    std::hash::Hasher::write(&mut hasher, bytes.as_slice());
    std::hash::Hasher::finish(&hasher)
}

/// The bytes a frame checksum covers: red, green and blue of each pixel,
/// in the order of the buffer.
pub fn lcd_checksum_bytes(pixels: &Vec<Rgb555>) -> (r: Vec<u8>)
    ensures
        r@ == frame_bytes(pixels@),
{
    let mut bytes: Vec<u8> = Vec::new();
    let mut i: usize = 0;
    while i < pixels.len()
        invariant
            i <= pixels.len(),
            bytes@.len() == 3 * i,
            forall|j: int| 0 <= j < 3 * i ==> #[trigger] bytes@[j] == frame_byte(pixels@, j),
        decreases pixels.len() - i,
    {
        let pixel = pixels[i];
        let ghost before = bytes@;
        bytes.push(pixel.red());
        bytes.push(pixel.green());
        bytes.push(pixel.blue());
        assert forall|j: int| 0 <= j < 3 * (i + 1) implies #[trigger] bytes@[j] == frame_byte(pixels@, j) by {
            if j >= 3 * i {
                assert(j / 3 == i as int);
            } else {
                assert(bytes@[j] == before[j]);
            }
        }
        i = i + 1;
    }
    assert(bytes@ =~= frame_bytes(pixels@));
    bytes
}

/// A checksum of the frame on screen: the XXH3 hash of its colour bytes.
pub fn calculate_lcd_checksum(cpu: &Cpu) -> (r: u64)
    ensures
        r == xxh3_64_of(frame_bytes(cpu.bus.lcd.buffer@)),
{
    let bytes = lcd_checksum_bytes(cpu.bus.lcd.get_buffer());
    xxh3_64_hash(&bytes)
}

} // verus!
