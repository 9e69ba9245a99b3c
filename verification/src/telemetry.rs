//! Index arithmetic of the probe and meter buses that the audio thread writes
//! and the editor reads: where a voice's sample for a slot lives, how the
//! write cursor wraps, and which history positions a read visits.
use vstd::prelude::*;
use crate::grid::ModuleId;

verus! {

/// Voices the synthesis engine runs at once.
pub const VOICES: usize = 6;
/// Probe modules whose signal is recorded.
pub const PROBE_SLOTS: usize = 8;
/// Samples of history kept for each probe and voice.
pub const PROBE_HISTORY: usize = 88200;
/// Set in a sample's generation while the sample is being written.
pub const PROBE_WRITE_BIT: u32 = 0x8000_0000;
/// Modules whose input levels are metered.
pub const METER_SLOTS: usize = 128;
/// Inputs metered per module.
pub const METER_INPUTS: usize = 8;

/// Values a probe bus holds: one per voice, slot and history position.
pub const PROBE_VALUES: usize = 4233600;
/// Values a meter bus holds: one per voice, slot and input.
pub const METER_VALUES: usize = 6144;

/// Whether a patch is played once or once per voice.
#[derive(Clone, Copy, Debug, PartialEq, Eq, Structural)]
pub enum VoiceMode {
    Single,
    Polyphonic,
}

impl VoiceMode {
    /// How many voices sound in this mode.
    pub fn count(self) -> (r: usize)
        ensures
            r == (match self {
                VoiceMode::Single => 1,
                VoiceMode::Polyphonic => VOICES,
            }),
            1 <= r <= VOICES,
    {
        match self {
            VoiceMode::Single => 1,
            VoiceMode::Polyphonic => VOICES,
        }
    }
}

pub open spec fn probe_index(voice: int, slot: int, cursor: int) -> int {
    ((voice * PROBE_SLOTS) + slot) * PROBE_HISTORY + cursor
}

pub open spec fn meter_index(voice: int, slot: int, input: int) -> int {
    ((voice * METER_SLOTS) + slot) * METER_INPUTS + input
}

/// Where the probe bus keeps the sample of `voice` for `slot` at history
/// position `cursor`.
pub fn probe_value_index(voice: usize, slot: usize, cursor: usize) -> (r: usize)
    requires
        probe_index(voice as int, slot as int, cursor as int) <= usize::MAX,
    ensures
        r == probe_index(voice as int, slot as int, cursor as int),
        voice < VOICES && slot < PROBE_SLOTS && cursor < PROBE_HISTORY ==> r < PROBE_VALUES,
{
    let ghost a = voice * PROBE_SLOTS;
    assert(a <= a + slot <= (a + slot) * PROBE_HISTORY) by (nonlinear_arith)
        requires
            a == voice * PROBE_SLOTS,
            PROBE_HISTORY >= 1,
            voice >= 0,
            slot >= 0,
    ;
    if voice < VOICES && slot < PROBE_SLOTS && cursor < PROBE_HISTORY {
        assert(((voice * PROBE_SLOTS) + slot) * PROBE_HISTORY + cursor < PROBE_VALUES) by (nonlinear_arith)
            requires
                voice < VOICES,
                slot < PROBE_SLOTS,
                cursor < PROBE_HISTORY,
        ;
    }
    ((voice * PROBE_SLOTS) + slot) * PROBE_HISTORY + cursor
}

/// Where the meter bus keeps the level of input `input` of `slot` for `voice`.
pub fn meter_value_index(voice: usize, slot: usize, input: usize) -> (r: usize)
    requires
        meter_index(voice as int, slot as int, input as int) <= usize::MAX,
    ensures
        r == meter_index(voice as int, slot as int, input as int),
        voice < VOICES && slot < METER_SLOTS && input < METER_INPUTS ==> r < METER_VALUES,
{
    let ghost a = voice * METER_SLOTS;
    assert(a <= a + slot <= (a + slot) * METER_INPUTS) by (nonlinear_arith)
        requires
            a == voice * METER_SLOTS,
            METER_INPUTS >= 1,
            voice >= 0,
            slot >= 0,
    ;
    if voice < VOICES && slot < METER_SLOTS && input < METER_INPUTS {
        assert(((voice * METER_SLOTS) + slot) * METER_INPUTS + input < METER_VALUES) by (nonlinear_arith)
            requires
                voice < VOICES,
                slot < METER_SLOTS,
                input < METER_INPUTS,
        ;
    }
    ((voice * METER_SLOTS) + slot) * METER_INPUTS + input
}

/// The history position written after `cursor`: the next one, wrapping at
/// the end of the history.
pub fn next_probe_cursor(cursor: usize) -> (r: usize)
    requires
        cursor < usize::MAX,
    ensures
        r == (cursor + 1) % (PROBE_HISTORY as int),
        r < PROBE_HISTORY,
{
    (cursor + 1) % PROBE_HISTORY
}

/// The slot id a probe or meter bus publishes for a module: its id plus one,
/// so that zero marks a free slot.
pub fn slot_id(module: ModuleId) -> (r: u32)
    ensures
        r == (if module.id == u32::MAX { u32::MAX as int } else { module.id + 1 }),
{
    module.id.saturating_add(1)
}

/// The voice a read shows: the one asked for, or the last one.
pub fn shown_voice(voice: usize) -> (r: usize)
    ensures
        r == (if voice < VOICES { voice } else { (VOICES - 1) as usize }),
        r < VOICES,
{
    if voice < VOICES {
        voice
    } else {
        VOICES - 1
    }
}

/// The history positions a read of `len` samples visits, oldest first: the
/// last `min(len, PROBE_HISTORY)` positions before `cursor`, wrapping.
pub fn history_positions(cursor: usize, len: usize) -> (r: Vec<usize>)
    requires
        cursor < PROBE_HISTORY,
    ensures
        r@.len() == (if len < PROBE_HISTORY { len } else { PROBE_HISTORY }),
        forall|k: int|
            0 <= k < r@.len() ==> #[trigger] r@[k] == ((cursor + PROBE_HISTORY - r@.len()) % (
            PROBE_HISTORY as int) + k) % (PROBE_HISTORY as int),
        forall|k: int| 0 <= k < r@.len() ==> #[trigger] r@[k] < PROBE_HISTORY,
{
    let count = if len < PROBE_HISTORY {
        len
    } else {
        PROBE_HISTORY
    };
    let start = (cursor + PROBE_HISTORY - count) % PROBE_HISTORY;
    let mut r: Vec<usize> = Vec::new();
    let mut offset: usize = 0;
    while offset < count
        invariant
            count <= PROBE_HISTORY,
            start < PROBE_HISTORY,
            start == (cursor + PROBE_HISTORY - count) % (PROBE_HISTORY as int),
            offset <= count,
            r@.len() == offset,
            forall|k: int| 0 <= k < offset ==> #[trigger] r@[k] == (start + k) % (PROBE_HISTORY as int),
        decreases count - offset,
    {
        r.push((start + offset) % PROBE_HISTORY);
        offset = offset + 1;
    }
    r
}

/// The mark a sample's generation carries while the sample is written.
pub fn writing_mark(generation: u32) -> (r: u32)
    ensures
        r == generation | PROBE_WRITE_BIT,
        generation < PROBE_WRITE_BIT ==> r != generation,
{
    let r = generation | PROBE_WRITE_BIT;
    assert(generation < PROBE_WRITE_BIT ==> (generation | 0x8000_0000u32) != generation) by (bit_vector);
    r
}

/// How many inputs a meter route may record for a module with
/// `input_count` inputs: none when it has none or more than the bus holds.
pub fn meter_route_inputs(input_count: usize) -> (r: Option<u8>)
    ensures
        r == (if 1 <= input_count <= METER_INPUTS { Some(input_count as u8) } else { None::<u8> }),
{
    if input_count > METER_INPUTS || input_count == 0 {
        None
    } else {
        Some(input_count as u8)
    }
}

/// `q * n + r` with `0 <= r < n` determines `q` and `r`.
proof fn lemma_div_mod_unique(q1: int, r1: int, q2: int, r2: int, n: int)
    requires
        n > 0,
        0 <= r1 < n,
        0 <= r2 < n,
        q1 >= 0,
        q2 >= 0,
        q1 * n + r1 == q2 * n + r2,
    ensures
        q1 == q2,
        r1 == r2,
{
    if q1 < q2 {
        assert(q1 * n + n <= q2 * n) by (nonlinear_arith)
            requires
                q1 < q2,
                n > 0,
        ;
    } else if q2 < q1 {
        assert(q2 * n + n <= q1 * n) by (nonlinear_arith)
            requires
                q2 < q1,
                n > 0,
        ;
    }
}

/// Two samples of the probe bus never share a place: distinct voices, slots
/// or history positions have distinct indices.
pub proof fn law_probe_index_distinct(v1: int, s1: int, c1: int, v2: int, s2: int, c2: int)
    requires
        0 <= v1 < VOICES,
        0 <= v2 < VOICES,
        0 <= s1 < PROBE_SLOTS,
        0 <= s2 < PROBE_SLOTS,
        0 <= c1 < PROBE_HISTORY,
        0 <= c2 < PROBE_HISTORY,
        probe_index(v1, s1, c1) == probe_index(v2, s2, c2),
    ensures
        v1 == v2 && s1 == s2 && c1 == c2,
{
    lemma_div_mod_unique(v1 * 8 + s1, c1, v2 * 8 + s2, c2, PROBE_HISTORY as int);
    lemma_div_mod_unique(v1, s1, v2, s2, 8);
}

/// Two levels of the meter bus never share a place: distinct voices, slots or
/// inputs have distinct indices.
pub proof fn law_meter_index_distinct(v1: int, s1: int, i1: int, v2: int, s2: int, i2: int)
    requires
        0 <= v1 < VOICES,
        0 <= v2 < VOICES,
        0 <= s1 < METER_SLOTS,
        0 <= s2 < METER_SLOTS,
        0 <= i1 < METER_INPUTS,
        0 <= i2 < METER_INPUTS,
        meter_index(v1, s1, i1) == meter_index(v2, s2, i2),
    ensures
        v1 == v2 && s1 == s2 && i1 == i2,
{
    lemma_div_mod_unique(v1 * 128 + s1, i1, v2 * 128 + s2, i2, METER_INPUTS as int);
    lemma_div_mod_unique(v1, s1, v2, s2, 128);
}

} // verus!
