//! What the display does over a whole frame: one vertical blank, one
//! horizontal blank per visible line, at most one line match, and the
//! position back where it started.

use vstd::prelude::*;

use crate::bits::with_bit_u16;
use crate::lcd::{Lcd, LcdStateChangeInfo};

verus! {

/// Dots in a frame: 308 per line, 228 lines.
pub const DOTS_PER_FRAME: u32 = 70224;

/// How many of the `n` integers from `a` on satisfy `f`.
pub open spec fn count_from(f: spec_fn(int) -> bool, a: int, n: nat) -> nat
    decreases n,
{
    if n == 0 {
        0
    } else {
        count_from(f, a, (n - 1) as nat) + if f(a + n - 1) {
            1nat
        } else {
            0nat
        }
    }
}

/// The position of a display as a dot number within the frame.
pub open spec fn frame_index(lcd: Lcd) -> int {
    lcd.vcount * 308 + lcd.dot
}

/// Whether the step from dot number `j` (taken modulo a frame) enters the
/// horizontal blank: dot 240 of a visible line.
pub open spec fn enters_hblank(j: int) -> bool {
    let m = j % 70224;
    m / 308 < 160 && m % 308 == 240
}

/// Whether the step from dot number `j` enters the vertical blank: dot 0 of
/// line 160.
pub open spec fn enters_vblank(j: int) -> bool {
    let m = j % 70224;
    m / 308 == 160 && m % 308 == 0
}

/// Whether the step from dot number `j` ends a line and starts line
/// `setting`.
pub open spec fn matches_line(j: int, setting: int) -> bool {
    let m = j % 70224;
    m % 308 == 307 && (m / 308 + 1) % 228 == setting
}

/// Counting `m + n` integers counts the first `m` and the `n` after them.
proof fn lemma_count_split(f: spec_fn(int) -> bool, a: int, m: nat, n: nat)
    ensures
        count_from(f, a, m + n) == count_from(f, a, m) + count_from(f, a + m, n),
    decreases n,
{
    if n > 0 {
        lemma_count_split(f, a, m, (n - 1) as nat);
        assert(a + (m + n) - 1 == (a + m) + n - 1);
    }
}

/// Whether `f` takes the same value at `j` and one period on.
pub open spec fn repeats_at(f: spec_fn(int) -> bool, j: int, period: nat) -> bool {
    f(j) == f(j + period)
}

/// Over a whole period, a periodic predicate counts the same from any
/// start.
proof fn lemma_count_period(f: spec_fn(int) -> bool, a: nat, period: nat)
    requires
        period > 0,
        forall|j: int| j >= 0 ==> #[trigger] repeats_at(f, j, period),
    ensures
        count_from(f, a as int, period) == count_from(f, 0, period),
    decreases a,
{
    if a > 0 {
        let b = (a - 1) as int;
        lemma_count_period(f, (a - 1) as nat, period);
        lemma_count_split(f, b, 1, period);
        lemma_count_split(f, b, period, 1);
        assert(repeats_at(f, b, period));
        reveal_with_fuel(count_from, 2);
        assert(count_from(f, b, 1) == if f(b) {
            1nat
        } else {
            0nat
        });
        assert(count_from(f, b + period, 1) == if f(b + period) {
            1nat
        } else {
            0nat
        });
    }
}

/// Within line `v` of the frame, the first `n` dots hold one horizontal
/// blank entry once past dot 240 of a visible line.
proof fn lemma_hblank_line(v: int, n: nat)
    requires
        0 <= v < 228,
        n <= 308,
    ensures
        count_from(|j: int| enters_hblank(j), 308 * v, n) == if v < 160 && n > 240 {
            1nat
        } else {
            0nat
        },
    decreases n,
{
    if n > 0 {
        lemma_hblank_line(v, (n - 1) as nat);
        let j = 308 * v + n - 1;
        assert(j % 70224 == j);
        assert(j / 308 == v && j % 308 == n - 1);
    }
}

/// Within line `v`, the first `n` dots hold the vertical blank entry once
/// they include dot 0 of line 160.
proof fn lemma_vblank_line(v: int, n: nat)
    requires
        0 <= v < 228,
        n <= 308,
    ensures
        count_from(|j: int| enters_vblank(j), 308 * v, n) == if v == 160 && n > 0 {
            1nat
        } else {
            0nat
        },
    decreases n,
{
    if n > 0 {
        lemma_vblank_line(v, (n - 1) as nat);
        let j = 308 * v + n - 1;
        assert(j % 70224 == j);
        assert(j / 308 == v && j % 308 == n - 1);
    }
}

/// Within line `v`, the first `n` dots hold a line match once they include
/// the last dot, when the next line is `setting`.
proof fn lemma_match_line(v: int, n: nat, setting: int)
    requires
        0 <= v < 228,
        n <= 308,
    ensures
        count_from(|j: int| matches_line(j, setting), 308 * v, n) == if (v + 1) % 228 == setting && n > 307 {
            1nat
        } else {
            0nat
        },
    decreases n,
{
    if n > 0 {
        lemma_match_line(v, (n - 1) as nat, setting);
        let j = 308 * v + n - 1;
        assert(j % 70224 == j);
        assert(j / 308 == v && j % 308 == n - 1);
    }
}

/// The first `lines` lines of a frame hold the blank entries and line
/// matches of those lines.
proof fn lemma_frame_lines(lines: nat, setting: int)
    requires
        lines <= 228,
    ensures
        count_from(|j: int| enters_hblank(j), 0, 308 * lines) == if lines < 160 {
            lines
        } else {
            160
        },
        count_from(|j: int| enters_vblank(j), 0, 308 * lines) == if lines > 160 {
            1nat
        } else {
            0nat
        },
        count_from(|j: int| matches_line(j, setting), 0, 308 * lines) == if lines == 228 {
            if 0 <= setting < 228 {
                1nat
            } else {
                0nat
            }
        } else if 1 <= setting <= lines {
            1nat
        } else {
            0nat
        },
    decreases lines,
{
    if lines > 0 {
        let v = lines - 1;
        lemma_frame_lines((lines - 1) as nat, setting);
        lemma_count_split(|j: int| enters_hblank(j), 0, 308 * v as nat, 308);
        lemma_count_split(|j: int| enters_vblank(j), 0, 308 * v as nat, 308);
        lemma_count_split(|j: int| matches_line(j, setting), 0, 308 * v as nat, 308);
        lemma_hblank_line(v, 308);
        lemma_vblank_line(v, 308);
        lemma_match_line(v, 308, setting);
        assert(308 * lines == 308 * v + 308);
    }
}

/// What a display step does to the position and what it reports: the
/// part of a step that the frame counts rest on.
pub open spec fn step_reports(before: Lcd, after: Lcd, changes: LcdStateChangeInfo) -> bool {
    &&& (after.dot, after.vcount) == before.next_position()
    &&& changes.hblank_entered == (before.vcount < 160 && before.dot == 240)
    &&& changes.vblank_entered == (before.vcount == 160 && before.dot == 0)
    &&& changes.vcount_matched == (before.dot == 307 && after.vcount == before.vcount_setting())
    &&& after.vcount_setting() == before.vcount_setting()
}

/// A display step moves the position, reports, and leaves the line compare
/// setting as it is.
proof fn lemma_step_reports(before: Lcd, after: Lcd, changes: LcdStateChangeInfo)
    requires
        before.stepped_to(after, changes),
    ensures
        step_reports(before, after, changes),
{
    let s = before.lcd_status;
    assert(with_bit_u16(with_bit_u16(s, 0, false), 1, false) >> 8u16 == s >> 8u16) by (bit_vector);
    assert(with_bit_u16(s, 1, true) >> 8u16 == s >> 8u16) by (bit_vector);
    assert(with_bit_u16(s, 0, true) >> 8u16 == s >> 8u16) by (bit_vector);
}

/// Along `k` display steps from a valid position, the position moves on
/// by `k` dots (modulo a frame), and the reports of the steps are the
/// events of the dots passed.
#[verifier::rlimit(80)]
proof fn lemma_frame_walk(lcds: Seq<Lcd>, changes: Seq<LcdStateChangeInfo>, k: nat)
    requires
        lcds.len() == changes.len() + 1,
        k <= changes.len(),
        lcds[0].dot < 308,
        lcds[0].vcount < 228,
        forall|i: int| 0 <= i < changes.len() ==> #[trigger] step_reports(lcds[i], lcds[i + 1], changes[i]),
    ensures
        lcds[k as int].dot < 308,
        lcds[k as int].vcount < 228,
        frame_index(lcds[k as int]) == (frame_index(lcds[0]) + k) % 70224,
        lcds[k as int].vcount_setting() == lcds[0].vcount_setting(),
        count_from(|i: int| changes[i].hblank_entered, 0, k) == count_from(
            |j: int| enters_hblank(j),
            frame_index(lcds[0]),
            k,
        ),
        count_from(|i: int| changes[i].vblank_entered, 0, k) == count_from(
            |j: int| enters_vblank(j),
            frame_index(lcds[0]),
            k,
        ),
        count_from(|i: int| changes[i].vcount_matched, 0, k) == count_from(
            |j: int| matches_line(j, lcds[0].vcount_setting() as int),
            frame_index(lcds[0]),
            k,
        ),
    decreases k,
{
    if k > 0 {
        let i = k - 1;
        lemma_frame_walk(lcds, changes, (k - 1) as nat);
        let l = lcds[i];
        let next = lcds[i + 1];
        assert(step_reports(l, next, changes[i]));
        let idx = frame_index(l);
        let start = frame_index(lcds[0]);
        assert(0 <= idx < 70224);
        assert(idx % 70224 == idx);
        assert(idx / 308 == l.vcount && idx % 308 == l.dot);
        assert((start + i) % 70224 == idx);
        assert((start + k) % 70224 == (idx + 1) % 70224);
        assert(enters_hblank(start + i) == enters_hblank(idx));
        assert(enters_vblank(start + i) == enters_vblank(idx));
        assert(matches_line(start + i, lcds[0].vcount_setting() as int) == matches_line(
            idx,
            lcds[0].vcount_setting() as int,
        ));
    }
}

/// Over a whole frame of display steps from a valid position, exactly one
/// step enters the vertical blank, exactly 160 enter the horizontal blank
/// (one per visible line), one matches the line compare setting if it names
/// a line of the frame and none otherwise, and the position comes back to
/// where it started.
#[verifier::rlimit(40)]
pub proof fn lemma_frame_counts(lcds: Seq<Lcd>, changes: Seq<LcdStateChangeInfo>)
    requires
        changes.len() == DOTS_PER_FRAME,
        lcds.len() == changes.len() + 1,
        lcds[0].dot < 308,
        lcds[0].vcount < 228,
        forall|i: int| 0 <= i < changes.len() ==> #[trigger] lcds[i].stepped_to(lcds[i + 1], changes[i]),
    ensures
        count_from(|i: int| changes[i].vblank_entered, 0, DOTS_PER_FRAME as nat) == 1,
        count_from(|i: int| changes[i].hblank_entered, 0, DOTS_PER_FRAME as nat) == 160,
        count_from(|i: int| changes[i].vcount_matched, 0, DOTS_PER_FRAME as nat) == if lcds[0].vcount_setting() < 228 {
            1nat
        } else {
            0nat
        },
        lcds[DOTS_PER_FRAME as int].dot == lcds[0].dot,
        lcds[DOTS_PER_FRAME as int].vcount == lcds[0].vcount,
{
    let n: nat = 70224;
    let start = frame_index(lcds[0]);
    let setting = lcds[0].vcount_setting() as int;
    assert forall|i: int| 0 <= i < changes.len() implies #[trigger] step_reports(lcds[i], lcds[i + 1], changes[i]) by {
        lemma_step_reports(lcds[i], lcds[i + 1], changes[i]);
    }
    lemma_frame_walk(lcds, changes, n);
    let last = lcds[n as int];
    assert(0 <= start < 70224);
    assert((start + n) % 70224 == start);
    assert(frame_index(last) == start);
    assert(last.dot == lcds[0].dot && last.vcount == lcds[0].vcount);
    let hb = |i: int| enters_hblank(i);
    let vb = |i: int| enters_vblank(i);
    let lm = |i: int| matches_line(i, setting);
    assert forall|j: int| j >= 0 implies #[trigger] repeats_at(hb, j, 70224) by {
        assert((j + 70224) % 70224 == j % 70224);
    }
    assert forall|j: int| j >= 0 implies #[trigger] repeats_at(vb, j, 70224) by {
        assert((j + 70224) % 70224 == j % 70224);
    }
    assert forall|j: int| j >= 0 implies #[trigger] repeats_at(lm, j, 70224) by {
        assert((j + 70224) % 70224 == j % 70224);
    }
    lemma_count_period(hb, start as nat, n);
    lemma_count_period(vb, start as nat, n);
    lemma_count_period(lm, start as nat, n);
    lemma_frame_lines(228, setting);
    assert(308 * 228 == n);
}

} // verus!
