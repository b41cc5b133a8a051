use arm_service::csv_exporter::CsvRecord;
use arm_service::structs::{ChartData, ObserveType, Reading, ResponseChartData};

fn plain(v: f32) -> Reading {
    Reading { bits: v.to_bits(), minus: None, degrees: false }
}

fn envelope() -> ResponseChartData {
    ResponseChartData {
        data: vec![
            ChartData {
                data_type: ObserveType::ActualJointPositions,
                value: vec![plain(1.0), plain(2.0)],
            },
            ChartData { data_type: ObserveType::TargetJointPositions, value: vec![] },
            ChartData {
                data_type: ObserveType::DifferenceData,
                value: vec![
                    Reading {
                        bits: 3.0f32.to_bits(),
                        minus: Some(1.0f32.to_bits()),
                        degrees: true,
                    },
                ],
            },
        ],
        date: String::from("2025-01-07 12:00:00"),
    }
}

#[test]
fn test_row_is_time_then_every_value_in_order() {
    let record = CsvRecord::of(&envelope(), 1_736_251_200_000_000);
    assert_eq!(record.time, 1_736_251_200_000_000);
    assert_eq!(
        record.values,
        vec![
            plain(1.0),
            plain(2.0),
            Reading { bits: 3.0f32.to_bits(), minus: Some(1.0f32.to_bits()), degrees: true },
        ]
    );
}

#[test]
fn test_row_of_empty_envelope() {
    let empty = ResponseChartData { data: vec![], date: String::new() };
    let record = CsvRecord::of(&empty, -5);
    assert_eq!(record.time, -5);
    assert!(record.values.is_empty());
}

#[test]
fn test_capture_reads_the_clock() {
    let record = CsvRecord::capture(&envelope());
    assert_eq!(record.values.len(), 3);
    assert_eq!(record.values[1], plain(2.0));
    assert!(record.time > 1_600_000_000_000_000);
}
