//! The rows of the CSV sink: one row for each emitted envelope.

use crate::clock::capture_time_micros;
use crate::structs::{ChartDataView, Reading, ResponseChartData};
use vstd::prelude::*;

verus! {

/// One row of the CSV file, before its values are written out as text.
#[derive(Debug, Clone)]
pub struct CsvRecord {
    /// The time of capture, in microseconds since 1970.
    pub time: i64,
    /// Every value of every series, in the order of the envelope.
    pub values: Vec<Reading>,
}

/// Every value of every series of `charts`, series after series.
pub open spec fn row_values(charts: Seq<ChartDataView>) -> Seq<Reading>
    decreases charts.len(),
{
    if charts.len() == 0 {
        Seq::<Reading>::empty()
    } else {
        row_values(charts.drop_last()) + charts.last().value
    }
}

impl CsvRecord {
    /// The row of `packet`, captured at `time`.
    pub fn of(packet: &ResponseChartData, time: i64) -> (record: CsvRecord)
        ensures
            record.time == time,
            record.values@ == row_values(packet@.data),
    {
        let mut values: Vec<Reading> = Vec::new();
        let mut k: usize = 0;
        assert(packet@.data.take(0) =~= Seq::<ChartDataView>::empty());
        while k < packet.data.len()
            invariant
                k <= packet.data@.len(),
                values@ == row_values(packet@.data.take(k as int)),
            decreases packet.data@.len() - k,
        {
            let series = &packet.data[k];
            let ghost before = values@;
            let mut i: usize = 0;
            while i < series.value.len()
                invariant
                    i <= series.value@.len(),
                    values@ == before + series.value@.take(i as int),
                decreases series.value@.len() - i,
            {
                values.push(series.value[i]);
                assert(series.value@.take(i + 1) =~= series.value@.take(i as int).push(
                    series.value@[i as int],
                ));
                i = i + 1;
            }
            assert(series.value@.take(series.value@.len() as int) =~= series.value@);
            assert(packet@.data.take(k + 1).drop_last() =~= packet@.data.take(k as int));
            assert(packet@.data.take(k + 1).last() == series@);
            k = k + 1;
        }
        assert(packet@.data.take(packet.data@.len() as int) =~= packet@.data);
        CsvRecord { time, values }
    }

    /// The row of `packet`, captured now.
    pub fn capture(packet: &ResponseChartData) -> (record: CsvRecord)
        ensures
            record.values@ == row_values(packet@.data),
    {
        let time = capture_time_micros();
        CsvRecord::of(packet, time)
    }
}

} // verus!
