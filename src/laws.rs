//! Properties that hold across the generator's outputs and the application's
//! transitions.

use vstd::prelude::*;
use crate::app::{AppView, Key};
use crate::signal::{
    spectrum_frame, start_batch, tick_batch, FULL_SCALE, SPECTRUM_BINS, START_BATCH_LEN,
    START_DRAWS, TICK_BATCH_LEN, TICK_DRAWS,
};

verus! {

/// Every start batch holds 100 samples, each of magnitude in `[0.5, 1.0]`.
pub proof fn start_batch_in_range(d: Seq<u32>)
    requires
        d.len() == START_DRAWS,
    ensures
        start_batch(d).len() == START_BATCH_LEN,
        forall|i: int|
            0 <= i < START_BATCH_LEN ==> 500_000 <= #[trigger] start_batch(d)[i].magnitude
                <= FULL_SCALE,
{
    assert forall|i: int| 0 <= i < START_BATCH_LEN implies 500_000 <= #[trigger] start_batch(d)[i].magnitude
        <= FULL_SCALE by {
        crate::signal::scaled_below(d[2 * i + 1], 500_000);
    }
}

/// Every spectrum value of a tick lies in `[0, 1]`, and every tick batch
/// holds 20 samples, each of magnitude in `[0.8, 1.0)`.
pub proof fn tick_output_in_range(frequency_hz: int, d: Seq<u32>)
    requires
        d.len() == TICK_DRAWS,
    ensures
        spectrum_frame(frequency_hz, d.subrange(0, SPECTRUM_BINS as int)).len() == SPECTRUM_BINS,
        forall|i: int|
            0 <= i < SPECTRUM_BINS ==> #[trigger] spectrum_frame(
                frequency_hz,
                d.subrange(0, SPECTRUM_BINS as int),
            )[i] <= FULL_SCALE,
        tick_batch(d.subrange(SPECTRUM_BINS as int, TICK_DRAWS as int)).len() == TICK_BATCH_LEN,
        forall|i: int|
            0 <= i < TICK_BATCH_LEN ==> 800_000 <= #[trigger] tick_batch(
                d.subrange(SPECTRUM_BINS as int, TICK_DRAWS as int),
            )[i].magnitude < FULL_SCALE,
{
    let rest = d.subrange(SPECTRUM_BINS as int, TICK_DRAWS as int);
    assert forall|i: int| 0 <= i < TICK_BATCH_LEN implies 800_000 <= #[trigger] tick_batch(rest)[i].magnitude
        < FULL_SCALE by {
        crate::signal::scaled_below(rest[3 * i + 1], 200_000);
    }
}

/// While streaming is off, turns whose key is not the streaming toggle leave
/// the spectrum and the samples as they are, and streaming off.
pub proof fn idle_turns_keep_data(
    v: AppView,
    keys: Seq<Option<Key>>,
    sd: Seq<Seq<u32>>,
    td: Seq<Seq<u32>>,
)
    requires
        !v.is_streaming,
        forall|i: int| 0 <= i < keys.len() ==> keys[i] != Some(Key::Char('s')),
    ensures
        !v.run(keys, sd, td).is_streaming,
        v.run(keys, sd, td).spectrum_data == v.spectrum_data,
        v.run(keys, sd, td).sample_buffer == v.sample_buffer,
    decreases keys.len(),
{
    if keys.len() > 0 {
        let w = v.turn(keys[0], sd[0], td[0]);
        assert(keys[0] != Some(Key::Char('s')));
        assert forall|i: int| 0 <= i < keys.drop_first().len() implies keys.drop_first()[i] != Some(
            Key::Char('s'),
        ) by {
            assert(keys.drop_first()[i] == keys[i + 1]);
        }
        idle_turns_keep_data(w, keys.drop_first(), sd.drop_first(), td.drop_first());
    }
}

/// Stopping streaming keeps the last spectrum frame and sample batch: from
/// a streaming state, a turn that stops streaming, followed by any turns that
/// do not start it again, ends with the same spectrum and samples.
pub proof fn stopping_keeps_data(
    v: AppView,
    keys: Seq<Option<Key>>,
    sd: Seq<Seq<u32>>,
    td: Seq<Seq<u32>>,
)
    requires
        v.is_streaming,
        keys.len() >= 1,
        keys[0] == Some(Key::Char('s')),
        forall|i: int| 1 <= i < keys.len() ==> keys[i] != Some(Key::Char('s')),
    ensures
        !v.run(keys, sd, td).is_streaming,
        v.run(keys, sd, td).spectrum_data == v.spectrum_data,
        v.run(keys, sd, td).sample_buffer == v.sample_buffer,
{
    let w = v.turn(keys[0], sd[0], td[0]);
    assert(w == v.stopped());
    assert forall|i: int| 0 <= i < keys.drop_first().len() implies keys.drop_first()[i] != Some(
        Key::Char('s'),
    ) by {
        assert(keys.drop_first()[i] == keys[i + 1]);
    }
    idle_turns_keep_data(w, keys.drop_first(), sd.drop_first(), td.drop_first());
}

} // verus!
