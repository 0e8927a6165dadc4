//! What the stack instructions give back: POP of the registers that PUSH
//! saved, or LDMIA of those that STMDB saved, restores them, with the stack
//! in on-chip work RAM.

use vstd::prelude::*;

use crate::bits::{bit_of_u16, bit_of_u8, lemma_u32_address};
use crate::bus::{Bus, CHIP_WRAM_BASE, CHIP_WRAM_SIZE};
use crate::cpu::thumb::{bits_set8, push_addresses, push_stored, push_wrote, thumb_block_addresses, written_pc};
use crate::cpu::arm::{
    bits_set, block_stored, block_wrote, ldm_addresses, stm_addresses, BlockDataTransferIndexType, OffsetModifierType,
};
use crate::cpu::{wsub, Cpu, Register};

verus! {

/// Whether `address` is a word-aligned word of on-chip work RAM, below its
/// first mirror.
pub open spec fn chip_word(address: u32) -> bool {
    &&& CHIP_WRAM_BASE <= address
    &&& address + 4 <= CHIP_WRAM_BASE + CHIP_WRAM_SIZE
    &&& address & 3 == 0
}

/// Moving an aligned address down by whole words keeps it aligned.
proof fn lemma_aligned_down(x: u32, m: u32)
    by (bit_vector)
    requires
        x & 3 == 0,
        m <= 64,
        4 * m <= x,
    ensures
        ((x - 4 * m) as u32) & 3 == 0,
{
}

/// A word write to on-chip work RAM reads back, and leaves the words that
/// do not overlap it as they were.
proof fn lemma_chip_word_written(b: Bus, after: Bus, value: u32, address: u32)
    requires
        b.wf(),
        chip_word(address),
        b.word_written(&after, value, address),
    ensures
        after.wf(),
        after.word_at(address) == value,
        forall|other: u32|
            chip_word(other) && (other + 4 <= address || address + 4 <= other) ==> #[trigger] after.word_at(other)
                == b.word_at(other),
{
    lemma_u32_address(address);
    crate::bus::lemma_le32_bytes(value);
    assert forall|other: u32|
        chip_word(other) && (other + 4 <= address || address + 4 <= other) implies #[trigger] after.word_at(other)
        == b.word_at(other) by {
        lemma_u32_address(other);
    }
}

/// Word reads of on-chip work RAM return its words and leave it as it was.
proof fn lemma_chip_words_read(b: Bus, addresses: Seq<u32>)
    requires
        forall|k: int| 0 <= k < addresses.len() ==> chip_word(#[trigger] addresses[k]),
    ensures
        b.words_read(addresses).len() == addresses.len(),
        b.after_words_read(addresses).chip_wram == b.chip_wram,
        forall|k: int| 0 <= k < addresses.len() ==> #[trigger] b.words_read(addresses)[k] == b.word_at(addresses[k]),
    decreases addresses.len(),
{
    if addresses.len() > 0 {
        let earlier = addresses.drop_last();
        lemma_chip_words_read(b, earlier);
        let mid = b.after_words_read(earlier);
        let last = addresses.last();
        assert(chip_word(addresses[addresses.len() - 1]));
        lemma_u32_address(last);
        assert(mid.word_at(last) == b.word_at(last));
        assert forall|k: int| 0 <= k < addresses.len() implies #[trigger] b.words_read(addresses)[k] == b.word_at(
            addresses[k],
        ) by {
            if k < earlier.len() {
                assert(b.words_read(earlier)[k] == b.word_at(earlier[k]));
            }
        }
    }
}

/// After the first `n` writes of a chain of word writes to distinct words
/// of on-chip work RAM, each of them reads back.
proof fn lemma_chip_words_written(buses: Seq<Bus>, values: Seq<u32>, addresses: Seq<u32>, n: nat)
    requires
        buses.len() == values.len() + 1,
        values.len() == addresses.len(),
        n <= values.len(),
        buses[0].wf(),
        forall|k: int| 0 <= k < values.len() ==> #[trigger] buses[k].word_written(&buses[k + 1], values[k], addresses[k]),
        forall|k: int| 0 <= k < addresses.len() ==> chip_word(#[trigger] addresses[k]),
        forall|k: int, l: int|
            0 <= k < addresses.len() && 0 <= l < addresses.len() && k != l ==> #[trigger] addresses[k] + 4
                <= #[trigger] addresses[l] || addresses[l] + 4 <= addresses[k],
    ensures
        buses[n as int].wf(),
        forall|i: int| 0 <= i < n ==> #[trigger] buses[n as int].word_at(addresses[i]) == values[i],
    decreases n,
{
    if n > 0 {
        let m = (n - 1) as int;
        lemma_chip_words_written(buses, values, addresses, (n - 1) as nat);
        assert(buses[m].word_written(&buses[m + 1], values[m], addresses[m]));
        assert(chip_word(addresses[m]));
        lemma_chip_word_written(buses[m], buses[m + 1], values[m], addresses[m]);
        assert forall|i: int| 0 <= i < n implies #[trigger] buses[n as int].word_at(addresses[i]) == values[i] by {
            if i < m {
                assert(chip_word(addresses[i]));
                assert(addresses[i] + 4 <= addresses[m] || addresses[m] + 4 <= addresses[i]);
                assert(buses[m].word_at(addresses[i]) == values[i]);
            }
        }
    }
}

/// PUSH followed by POP of the same registers (and POP of PC after PUSH of
/// LR), with the stack in on-chip work RAM below its first mirror: each
/// popped register gets back the value it had before the PUSH, SP ends where
/// it started, and PC takes the pushed LR with bit 0 cleared.
pub proof fn lemma_pop_undoes_push(before: Cpu, pushed: Cpu, popped: Cpu, register_bit_list: u8, with_link: bool)
    requires
        before.wf(),
        before.thumb_push_effect(pushed, register_bit_list, with_link),
        pushed.thumb_pop_effect(popped, register_bit_list, with_link),
        before.registers[13] & 3 == 0,
        CHIP_WRAM_BASE + 4 * (bits_set8(register_bit_list, 8) + if with_link {
            1int
        } else {
            0int
        }) <= before.registers[13] <= CHIP_WRAM_BASE + CHIP_WRAM_SIZE,
    ensures
        forall|j: int|
            0 <= j < 8 && bit_of_u8(register_bit_list, j as u8) ==> #[trigger] popped.registers[j] == before.registers[j],
        popped.registers[13] == before.registers[13],
        with_link ==> popped.registers[15] == written_pc(before.thumb(), before.registers[14] & !1u32),
{
    let list = register_bit_list;
    let lr: nat = if with_link {
        1
    } else {
        0
    };
    let total = bits_set8(list, 8);
    let count: nat = total + lr;
    let sp = before.registers[13];
    let pushed_at = push_addresses(sp, count);
    crate::cpu::thumb::lemma_bits_set8_bound(list, 8);
    assert(push_stored(before.bus, pushed.bus, pushed_at, list, with_link, before.registers));
    let (buses, values) = choose|buses: Seq<Bus>, values: Seq<u32>|
        push_wrote(before.bus, pushed.bus, pushed_at, list, with_link, before.registers, buses, values);
    assert(before.bus.words_written(&pushed.bus, buses, values, pushed_at));
    assert(with_link ==> values[0] == before.registers[14]);
    // The pushed words sit at consecutive aligned words below SP.
    assert forall|k: int| 0 <= k < count implies #[trigger] pushed_at[k] == (sp - 4 * (k + 1)) as u32 && chip_word(
        pushed_at[k],
    ) by {
        lemma_aligned_down(sp, (k + 1) as u32);
        lemma_u32_address((sp - 4 * (k + 1)) as u32);
    }
    lemma_chip_words_written(buses, values, pushed_at, count);
    assert(buses[count as int] == pushed.bus);
    // POP reads them back from the new SP up.
    let new_sp = pushed.registers[13];
    assert(new_sp == (sp - 4 * count) as u32);
    let popped_from = thumb_block_addresses(new_sp, count);
    assert forall|s: int| 0 <= s < count implies #[trigger] popped_from[s] == pushed_at[count - 1 - s] by {
        lemma_aligned_down(sp, (count - s) as u32);
        lemma_u32_address((sp - 4 * (count - s)) as u32);
    }
    assert forall|s: int| 0 <= s < count implies chip_word(#[trigger] popped_from[s]) by {
        assert(popped_from[s] == pushed_at[count - 1 - s]);
    }
    lemma_chip_words_read(pushed.bus, popped_from);
    let loaded = pushed.bus.words_read(popped_from);
    assert forall|j: int|
        0 <= j < 8 && bit_of_u8(list, j as u8) implies #[trigger] popped.registers[j] == before.registers[j] by {
        let s = bits_set8(list, j as nat) as int;
        assert(bits_set8(list, (j + 1) as nat) == bits_set8(list, j as nat) + 1);
        crate::cpu::thumb::lemma_bits_set8_mono(list, (j + 1) as nat, 8);
        assert(popped.registers[j] == loaded[s]);
        assert(loaded[s] == pushed.bus.word_at(popped_from[s]));
        assert(popped_from[s] == pushed_at[count - 1 - s]);
        assert(pushed.bus.word_at(pushed_at[count - 1 - s]) == values[count - 1 - s]);
        assert(values[lr + total - 1 - bits_set8(list, j as nat)] == before.registers[j]);
    }
    if with_link {
        assert(popped_from[count - 1] == pushed_at[0]);
        assert(pushed.bus.word_at(pushed_at[0]) == values[0]);
    }
}

/// STMDB SP! followed by LDMIA SP! of the same registers (a non-empty list
/// of R0-R12 and R14), with the stack in on-chip work RAM below its first
/// mirror: each listed register gets back the value it had before the
/// store, and SP ends where it started.
pub proof fn lemma_ldmia_undoes_stmdb(before: Cpu, stored: Cpu, loaded: Cpu, register_list: u16)
    requires
        before.wf(),
        before.arm_stm_effect(
            stored,
            BlockDataTransferIndexType::PreIndex,
            OffsetModifierType::SubtractFromBase,
            true,
            Register::R13,
            register_list,
            false,
        ),
        stored.arm_ldm_effect(
            loaded,
            BlockDataTransferIndexType::PostIndex,
            OffsetModifierType::AddToBase,
            true,
            Register::R13,
            register_list,
            false,
        ),
        register_list != 0,
        !bit_of_u16(register_list, 13),
        !bit_of_u16(register_list, 15),
        before.registers[13] & 3 == 0,
        CHIP_WRAM_BASE + 4 * bits_set(register_list, 16) <= before.registers[13] <= CHIP_WRAM_BASE + CHIP_WRAM_SIZE,
    ensures
        forall|j: int|
            0 <= j < 15 && bit_of_u16(register_list, j as u16) ==> #[trigger] loaded.registers[j] == before.registers[j],
        loaded.registers[13] == before.registers[13],
{
    let list = register_list;
    let count = bits_set(list, 16);
    let sp = before.registers[13];
    crate::cpu::arm::lemma_bits_set_bound(list, 0, 16);
    let pc = before.registers[15];
    let mid = before.bus.fetching_from(pc).after_word_read(pc);
    assert(mid.wf());
    let start = wsub(sp, (4 * count) as u32);
    assert(start == (sp - 4 * count) as u32);
    let stored_at = stm_addresses(start, false, count);
    let base_word = crate::cpu::arm::stm_base_word(
        sp,
        list,
        13,
        crate::cpu::arm::block_new_base(sp, OffsetModifierType::SubtractFromBase, list),
    );
    assert(block_stored(mid, stored.bus, stored_at, list, before.registers@, 13, base_word));
    let (buses, values) = choose|buses: Seq<Bus>, values: Seq<u32>|
        block_wrote(mid, stored.bus, stored_at, list, before.registers@, 13, base_word, buses, values);
    assert(mid.words_written(&stored.bus, buses, values, stored_at));
    // The stored words sit at consecutive aligned words below SP.
    assert forall|k: int| 0 <= k < count implies #[trigger] stored_at[k] == (sp - 4 * count + 4 * k) as u32 && chip_word(
        stored_at[k],
    ) by {
        lemma_aligned_down(sp, (count - k) as u32);
        lemma_u32_address((sp - 4 * (count - k)) as u32);
    }
    lemma_chip_words_written(buses, values, stored_at, count);
    assert(buses[count as int] == stored.bus);
    // LDMIA reads them back from the new SP up, after its own opcode fetch,
    // which leaves the work RAM as it is.
    assert(stored.registers[13] == start);
    let pc1 = stored.registers[15];
    let mid1 = stored.bus.fetching_from(pc1).after_word_read(pc1);
    assert(mid1.chip_wram == stored.bus.chip_wram);
    assert(ldm_addresses(start, true, false, count) =~= stored_at);
    lemma_chip_words_read(mid1, stored_at);
    let words = mid1.words_read(stored_at);
    assert forall|j: int|
        0 <= j < 15 && bit_of_u16(list, j as u16) implies #[trigger] loaded.registers[j] == before.registers[j] by {
        let s = bits_set(list, j as nat) as int;
        assert(bits_set(list, (j + 1) as nat) == bits_set(list, j as nat) + 1);
        crate::cpu::arm::lemma_bits_set_bound(list, (j + 1) as nat, 16);
        assert(loaded.registers[j] == words[s]);
        assert(words[s] == mid1.word_at(stored_at[s]));
        lemma_u32_address(stored_at[s]);
        assert(mid1.word_at(stored_at[s]) == stored.bus.word_at(stored_at[s]));
        assert(stored.bus.word_at(stored_at[s]) == values[s]);
        assert(bit_of_u16(list, j as u16));
    }
}

} // verus!
