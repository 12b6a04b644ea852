//! Clock-frequency accounting for the host's render loop: from the cycle
//! counts and times of successive renders, a running average of the
//! machine's clock frequency.

use vstd::prelude::*;

verus! {

/// How many frames per second the host aims to draw.
pub const TARGET_FPS: u64 = 60;

/// The running measurements the host keeps between renders.
pub struct TimeMeasurements {
    pub next_render_time: u64,
    pub last_cycle_count: u64,
    pub last_render_time: u64,
    pub clock_frequency_accumulator: u64,
    pub next_clock_frequency_render: u64,
    pub num_clock_frequency_accumulations: u64,
    pub clock_frequency_average: u64,
}

/// The clock frequency observed since the last render, in cycles per
/// second.
pub open spec fn observed_frequency(
    current_time: u64,
    last_render_time: u64,
    current_cycle_count: u64,
    last_cycle_count: u64,
) -> int {
    1000 * (current_cycle_count - last_cycle_count) / (current_time - last_render_time)
}

/// Fold the frequency observed since the last render into the running
/// average; once the averaging window closes, publish the average and
/// start a new window.
pub fn calculate_clock_frequency(
    current_time: u64,
    time_measurements: &mut TimeMeasurements,
    current_cycle_count: u64,
)
    requires
        old(time_measurements).last_render_time < current_time,
        old(time_measurements).last_cycle_count <= current_cycle_count,
        1000 * (current_cycle_count - old(time_measurements).last_cycle_count)
            < 0x1_0000_0000_0000_0000,
        old(time_measurements).clock_frequency_accumulator + observed_frequency(
            current_time,
            old(time_measurements).last_render_time,
            current_cycle_count,
            old(time_measurements).last_cycle_count,
        ) < 0x1_0000_0000_0000_0000,
        old(time_measurements).num_clock_frequency_accumulations < 0xFFFF_FFFF_FFFF_FFFF,
        current_time + 1000 < 0x1_0000_0000_0000_0000,
    ensures
        ({
            let accumulated = (old(time_measurements).clock_frequency_accumulator
                + observed_frequency(
                current_time,
                old(time_measurements).last_render_time,
                current_cycle_count,
                old(time_measurements).last_cycle_count,
            )) as u64;
            let count = (old(time_measurements).num_clock_frequency_accumulations + 1) as u64;
            let closing = current_time >= old(time_measurements).next_clock_frequency_render;
            &&& final(time_measurements).clock_frequency_accumulator == (if closing {
                0u64
            } else {
                accumulated
            })
            &&& final(time_measurements).num_clock_frequency_accumulations == (if closing {
                0u64
            } else {
                count
            })
            &&& final(time_measurements).clock_frequency_average == (if closing {
                (accumulated as int / count as int) as u64
            } else {
                old(time_measurements).clock_frequency_average
            })
            &&& final(time_measurements).next_clock_frequency_render == (if closing {
                (current_time + 1000) as u64
            } else {
                old(time_measurements).next_clock_frequency_render
            })
            &&& final(time_measurements).next_render_time == old(
                time_measurements,
            ).next_render_time
            &&& final(time_measurements).last_cycle_count == old(time_measurements).last_cycle_count
            &&& final(time_measurements).last_render_time == old(
                time_measurements,
            ).last_render_time
        }),
{
    let time_since_last_render = current_time - time_measurements.last_render_time;
    let cycles_since_last_render = current_cycle_count - time_measurements.last_cycle_count;
    let clock_frequency = 1000 * cycles_since_last_render / time_since_last_render;
    time_measurements.clock_frequency_accumulator =
        time_measurements.clock_frequency_accumulator + clock_frequency;
    time_measurements.num_clock_frequency_accumulations =
        time_measurements.num_clock_frequency_accumulations + 1;
    if current_time >= time_measurements.next_clock_frequency_render {
        time_measurements.clock_frequency_average = time_measurements.clock_frequency_accumulator
            / time_measurements.num_clock_frequency_accumulations;
        time_measurements.next_clock_frequency_render = current_time + 1000;
        time_measurements.clock_frequency_accumulator = 0;
        time_measurements.num_clock_frequency_accumulations = 0;
    }
}

} // verus!
