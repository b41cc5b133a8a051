//! The transformer, which derives the chart series of a packet, and the
//! collector, which decides what happens to the bytes of each read.

use crate::clock::{local_time_text, DATE_FORMAT};
use crate::parser::{
    frame_size, frames_decoded, frames_rest, has_frame, lemma_frame_size_of_prefix,
    lemma_rest_has_no_frame, records_of, Parser, MAX_FRAME,
};
use crate::robot_data::{RecordView, RobotDataPacket};
use crate::structs::{
    charts_of, ChartData, ChartDataView, Hertz, Mode, ObserveParams, ObserveType, Reading,
    ResponseChartData, Unit,
};
use vstd::prelude::*;

verus! {

/// Why a packet gave no series.
#[derive(Debug, Clone, Copy, PartialEq, Eq, Structural)]
pub enum TransformError {
    /// The observe type names no series that the record carries.
    ParamError,
    /// Analysis mode stands beside an observe type that is no analysis.
    DataError,
}

/// What is emitted for one accepted packet.
#[derive(Debug, Clone)]
pub struct ResponseData {
    /// The series and the time at which they were made.
    pub data: ResponseChartData,
    /// Whether the series also go to the CSV sink.
    pub csv: bool,
}

/// Whether `t` names an analysis of a quantity.
pub open spec fn is_analysis(t: ObserveType) -> bool {
    match t {
        ObserveType::AnalysisJointPositions => true,
        ObserveType::AnalysisJointVelocities => true,
        ObserveType::AnalysisJointAccelerations => true,
        ObserveType::AnalysisTcpPositions => true,
        ObserveType::AnalysisTcpVelocities => true,
        ObserveType::AnalysisTcpAccelerations => true,
        _ => false,
    }
}

/// The series of the record that `t` names, if it names one.
pub open spec fn record_series(t: ObserveType, p: RecordView) -> Option<Seq<u32>> {
    match t {
        ObserveType::TargetJointPositions => Some(p.target_joint_positions),
        ObserveType::TargetJointVelocities => Some(p.target_joint_velocities),
        ObserveType::TargetJointAccelerations => Some(p.target_joint_accelerations),
        ObserveType::ActualJointPositions => Some(p.actual_joint_positions),
        ObserveType::ActualJointVelocities => Some(p.actual_joint_velocities),
        ObserveType::ActualJointAccelerations => Some(p.actual_joint_accelerations),
        ObserveType::ActualJointCurrents => Some(p.actual_joint_currents),
        ObserveType::ActualJointTorques => Some(p.estimated_joint_torque),
        ObserveType::TargetTcpPos => Some(p.target_tcp_pose),
        ObserveType::TargetTcpVelocities => Some(p.target_tcp_velocity),
        ObserveType::ActualTcpPose => Some(p.actual_tcp_pose),
        ObserveType::ActualTcpVelocity => Some(p.actual_tcp_velocity),
        ObserveType::EstimatedTcpTorque => Some(p.estimated_tcp_torque),
        ObserveType::DataTorqueSensor => Some(p.data_torque_sensor),
        ObserveType::FilteredDataTorqueSensor => Some(p.filtered_data_torque_sensor),
        _ => None,
    }
}

/// The actual and the target series that an analysis compares, in that
/// order, if the record carries the quantity.
pub open spec fn analysis_pair(t: ObserveType) -> Option<(ObserveType, ObserveType)> {
    match t {
        ObserveType::AnalysisJointPositions => Some(
            (ObserveType::ActualJointPositions, ObserveType::TargetJointPositions),
        ),
        ObserveType::AnalysisJointVelocities => Some(
            (ObserveType::ActualJointVelocities, ObserveType::TargetJointVelocities),
        ),
        ObserveType::AnalysisJointAccelerations => Some(
            (ObserveType::ActualJointAccelerations, ObserveType::TargetJointAccelerations),
        ),
        ObserveType::AnalysisTcpPositions => Some(
            (ObserveType::ActualTcpPose, ObserveType::TargetTcpPos),
        ),
        ObserveType::AnalysisTcpVelocities => Some(
            (ObserveType::ActualTcpVelocity, ObserveType::TargetTcpVelocities),
        ),
        _ => None,
    }
}

/// Whether the values of series `t` are angles in radians, or their rates.
pub open spec fn is_angle_series(t: ObserveType) -> bool {
    match t {
        ObserveType::TargetJointPositions => true,
        ObserveType::TargetJointVelocities => true,
        ObserveType::TargetJointAccelerations => true,
        ObserveType::ActualJointPositions => true,
        ObserveType::ActualJointVelocities => true,
        ObserveType::ActualJointAccelerations => true,
        _ => false,
    }
}

/// Whether series `t` is converted to degrees under `unit`.
pub open spec fn shown_in_degrees(unit: Unit, t: ObserveType) -> bool {
    unit == Unit::Degree && is_angle_series(t)
}

/// Series `t` with the values `series`, taken as they are.
pub open spec fn direct_chart(t: ObserveType, series: Seq<u32>, unit: Unit) -> ChartDataView {
    ChartDataView {
        data_type: t,
        value: Seq::new(
            series.len(),
            |i: int| Reading { bits: series[i], minus: None, degrees: shown_in_degrees(unit, t) },
        ),
    }
}

/// The difference series: element by element, `actual` minus `target`.
pub open spec fn difference_chart(actual: Seq<u32>, target: Seq<u32>, unit: Unit) -> ChartDataView {
    ChartDataView {
        data_type: ObserveType::DifferenceData,
        value: Seq::new(
            actual.len(),
            |i: int|
                Reading {
                    bits: actual[i],
                    minus: Some(target[i]),
                    degrees: shown_in_degrees(unit, ObserveType::DifferenceData),
                },
        ),
    }
}

/// The series that a packet gives under `params`. In observer mode it is the
/// one series that the observe type names. In analysis mode it is the actual
/// series, the target series and their difference, in that order.
pub open spec fn transform_spec(params: ObserveParams, p: RecordView) -> Result<
    Seq<ChartDataView>,
    TransformError,
> {
    match params.mode {
        Mode::Observer => match record_series(params.observe_type, p) {
            Some(series) => Ok(seq![direct_chart(params.observe_type, series, params.unit)]),
            None => Err(TransformError::ParamError),
        },
        Mode::Analysis => if !is_analysis(params.observe_type) {
            Err(TransformError::DataError)
        } else {
            match analysis_pair(params.observe_type) {
                Some((actual, target)) => Ok(
                    seq![
                        direct_chart(actual, record_series(actual, p)->Some_0, params.unit),
                        direct_chart(target, record_series(target, p)->Some_0, params.unit),
                        difference_chart(
                            record_series(actual, p)->Some_0,
                            record_series(target, p)->Some_0,
                            params.unit,
                        ),
                    ],
                ),
                None => Err(TransformError::ParamError),
            }
        },
    }
}

/// The words of the record that `t` names.
fn record_words<'a>(t: ObserveType, packet: &'a RobotDataPacket) -> (words: Option<&'a [u32]>)
    ensures
        match words {
            Some(w) => record_series(t, packet@) == Some(w@),
            None => record_series(t, packet@) is None,
        },
{
    match t {
        ObserveType::TargetJointPositions => Some(packet.target_joint_positions.as_slice()),
        ObserveType::TargetJointVelocities => Some(packet.target_joint_velocities.as_slice()),
        ObserveType::TargetJointAccelerations => Some(
            packet.target_joint_accelerations.as_slice(),
        ),
        ObserveType::ActualJointPositions => Some(packet.actual_joint_positions.as_slice()),
        ObserveType::ActualJointVelocities => Some(packet.actual_joint_velocities.as_slice()),
        ObserveType::ActualJointAccelerations => Some(
            packet.actual_joint_accelerations.as_slice(),
        ),
        ObserveType::ActualJointCurrents => Some(packet.actual_joint_currents.as_slice()),
        ObserveType::ActualJointTorques => Some(packet.estimated_joint_torque.as_slice()),
        ObserveType::TargetTcpPos => Some(packet.target_tcp_pose.as_slice()),
        ObserveType::TargetTcpVelocities => Some(packet.target_tcp_velocity.as_slice()),
        ObserveType::ActualTcpPose => Some(packet.actual_tcp_pose.as_slice()),
        ObserveType::ActualTcpVelocity => Some(packet.actual_tcp_velocity.as_slice()),
        ObserveType::EstimatedTcpTorque => Some(packet.estimated_tcp_torque.as_slice()),
        ObserveType::DataTorqueSensor => Some(packet.data_torque_sensor.as_slice()),
        ObserveType::FilteredDataTorqueSensor => Some(
            packet.filtered_data_torque_sensor.as_slice(),
        ),
        _ => None,
    }
}

/// Whether series `t` is converted to degrees under `unit`.
pub fn in_degrees(unit: Unit, t: ObserveType) -> (yes: bool)
    ensures
        yes == shown_in_degrees(unit, t),
{
    match unit {
        Unit::Radian => false,
        Unit::Degree => match t {
            ObserveType::TargetJointPositions => true,
            ObserveType::TargetJointVelocities => true,
            ObserveType::TargetJointAccelerations => true,
            ObserveType::ActualJointPositions => true,
            ObserveType::ActualJointVelocities => true,
            ObserveType::ActualJointAccelerations => true,
            _ => false,
        },
    }
}

/// Builds series `t` from `words`.
fn make_direct(t: ObserveType, words: &[u32], unit: Unit) -> (chart: ChartData)
    ensures
        chart@ == direct_chart(t, words@, unit),
{
    let degrees = in_degrees(unit, t);
    let mut value: Vec<Reading> = Vec::new();
    let mut i: usize = 0;
    while i < words.len()
        invariant
            i <= words@.len(),
            degrees == shown_in_degrees(unit, t),
            value@.len() == i,
            forall|k: int|
                0 <= k < i ==> value@[k] == (Reading { bits: words@[k], minus: None, degrees }),
        decreases words@.len() - i,
    {
        value.push(Reading { bits: words[i], minus: None, degrees });
        i = i + 1;
    }
    let chart = ChartData { data_type: t, value };
    assert(chart@.value =~= direct_chart(t, words@, unit).value);
    chart
}

/// Builds the difference series of `actual` and `target`.
fn make_difference(actual: &[u32], target: &[u32], unit: Unit) -> (chart: ChartData)
    requires
        actual@.len() == target@.len(),
    ensures
        chart@ == difference_chart(actual@, target@, unit),
{
    let degrees = in_degrees(unit, ObserveType::DifferenceData);
    let mut value: Vec<Reading> = Vec::new();
    let mut i: usize = 0;
    while i < actual.len()
        invariant
            i <= actual@.len(),
            actual@.len() == target@.len(),
            degrees == shown_in_degrees(unit, ObserveType::DifferenceData),
            value@.len() == i,
            forall|k: int|
                0 <= k < i ==> value@[k] == (Reading {
                    bits: actual@[k],
                    minus: Some(target@[k]),
                    degrees,
                }),
        decreases actual@.len() - i,
    {
        value.push(Reading { bits: actual[i], minus: Some(target[i]), degrees });
        i = i + 1;
    }
    let chart = ChartData { data_type: ObserveType::DifferenceData, value };
    assert(chart@.value =~= difference_chart(actual@, target@, unit).value);
    chart
}

/// The actual and the target series that an analysis compares.
fn pair_of(t: ObserveType) -> (pair: Option<(ObserveType, ObserveType)>)
    ensures
        pair == analysis_pair(t),
{
    match t {
        ObserveType::AnalysisJointPositions => Some(
            (ObserveType::ActualJointPositions, ObserveType::TargetJointPositions),
        ),
        ObserveType::AnalysisJointVelocities => Some(
            (ObserveType::ActualJointVelocities, ObserveType::TargetJointVelocities),
        ),
        ObserveType::AnalysisJointAccelerations => Some(
            (ObserveType::ActualJointAccelerations, ObserveType::TargetJointAccelerations),
        ),
        ObserveType::AnalysisTcpPositions => Some(
            (ObserveType::ActualTcpPose, ObserveType::TargetTcpPos),
        ),
        ObserveType::AnalysisTcpVelocities => Some(
            (ObserveType::ActualTcpVelocity, ObserveType::TargetTcpVelocities),
        ),
        _ => None,
    }
}

/// Whether `t` names an analysis of a quantity.
fn names_analysis(t: ObserveType) -> (yes: bool)
    ensures
        yes == is_analysis(t),
{
    match t {
        ObserveType::AnalysisJointPositions => true,
        ObserveType::AnalysisJointVelocities => true,
        ObserveType::AnalysisJointAccelerations => true,
        ObserveType::AnalysisTcpPositions => true,
        ObserveType::AnalysisTcpVelocities => true,
        ObserveType::AnalysisTcpAccelerations => true,
        _ => false,
    }
}

/// Selects and derives the series of `packet` under `params`.
pub fn transform(params: &ObserveParams, packet: &RobotDataPacket) -> (r: Result<
    Vec<ChartData>,
    TransformError,
>)
    ensures
        match r {
            Ok(charts) => transform_spec(*params, packet@) == Ok::<
                Seq<ChartDataView>,
                TransformError,
            >(charts_of(charts@)),
            Err(e) => transform_spec(*params, packet@) == Err::<Seq<ChartDataView>, TransformError>(
                e,
            ),
        },
{
    broadcast use vstd::array::array_len_matches_n;

    let mut data: Vec<ChartData> = Vec::new();
    match params.mode {
        Mode::Observer => {
            match record_words(params.observe_type, packet) {
                Some(words) => {
                    let chart = make_direct(params.observe_type, words, params.unit);
                    data.push(chart);
                    assert(charts_of(data@) =~= seq![chart@]);
                    Ok(data)
                },
                None => Err(TransformError::ParamError),
            }
        },
        Mode::Analysis => {
            if !names_analysis(params.observe_type) {
                return Err(TransformError::DataError);
            }
            match pair_of(params.observe_type) {
                Some((actual, target)) => {
                    let a = record_words(actual, packet);
                    let t = record_words(target, packet);
                    match (a, t) {
                        (Some(a), Some(t)) => {
                            let first = make_direct(actual, a, params.unit);
                            let second = make_direct(target, t, params.unit);
                            let third = make_difference(a, t, params.unit);
                            data.push(first);
                            data.push(second);
                            data.push(third);
                            assert(charts_of(data@) =~= seq![first@, second@, third@]);
                            Ok(data)
                        },
                        _ => Err(TransformError::ParamError),
                    }
                },
                None => Err(TransformError::ParamError),
            }
        },
    }
}

/// Whether `r` is what a packet with the record `p` gives under `params`,
/// whatever the time of day in it.
pub open spec fn response_matches(
    r: Result<ResponseData, TransformError>,
    params: ObserveParams,
    p: RecordView,
) -> bool {
    match transform_spec(params, p) {
        Ok(charts) => r is Ok && r->Ok_0.data@.data == charts && r->Ok_0.csv == params.csv,
        Err(e) => r == Err::<ResponseData, TransformError>(e),
    }
}

/// The envelope of `packet` under `params`, stamped with `date`.
pub fn chart_response(params: &ObserveParams, packet: &RobotDataPacket, date: String) -> (r:
    Result<ResponseData, TransformError>)
    ensures
        response_matches(r, *params, packet@),
        r is Ok ==> r->Ok_0.data.date == date,
{
    match transform(params, packet) {
        Ok(charts) => Ok(
            ResponseData { data: ResponseChartData { data: charts, date }, csv: params.csv },
        ),
        Err(e) => Err(e),
    }
}

/// The envelope of `packet` under `params`, stamped with the local time at
/// which it is made.
pub fn process_chart_data(params: &ObserveParams, packet: &RobotDataPacket) -> (r: Result<
    ResponseData,
    TransformError,
>)
    ensures
        response_matches(r, *params, packet@),
{
    match transform(params, packet) {
        Ok(charts) => {
            let date = local_time_text(DATE_FORMAT);
            Ok(ResponseData { data: ResponseChartData { data: charts, date }, csv: params.csv })
        },
        Err(e) => Err(e),
    }
}

/// In analysis of the joint positions the third series is the difference:
/// element `i` is the actual position of joint `i` minus its target
/// position, behind the actual and the target series themselves.
pub proof fn lemma_analysis_difference(params: ObserveParams, p: RecordView, i: int)
    requires
        p.well_formed(),
        params.mode == Mode::Analysis,
        params.observe_type == ObserveType::AnalysisJointPositions,
        0 <= i < 7,
    ensures
        transform_spec(params, p) is Ok,
        transform_spec(params, p)->Ok_0.len() == 3,
        transform_spec(params, p)->Ok_0[0].data_type == ObserveType::ActualJointPositions,
        transform_spec(params, p)->Ok_0[1].data_type == ObserveType::TargetJointPositions,
        transform_spec(params, p)->Ok_0[2].data_type == ObserveType::DifferenceData,
        transform_spec(params, p)->Ok_0[2].value.len() == 7,
        transform_spec(params, p)->Ok_0[0].value[i].bits == p.actual_joint_positions[i],
        transform_spec(params, p)->Ok_0[1].value[i].bits == p.target_joint_positions[i],
        transform_spec(params, p)->Ok_0[2].value[i].bits == p.actual_joint_positions[i],
        transform_spec(params, p)->Ok_0[2].value[i].minus == Some(p.target_joint_positions[i]),
{
}

/// In every analysis of a quantity that the record carries, element `i` of
/// the difference series is element `i` of the actual series minus element
/// `i` of the target series.
pub proof fn lemma_difference_of_pair(params: ObserveParams, p: RecordView, i: int)
    requires
        p.well_formed(),
        params.mode == Mode::Analysis,
        analysis_pair(params.observe_type) is Some,
        0 <= i < transform_spec(params, p)->Ok_0[2].value.len(),
    ensures
        transform_spec(params, p) is Ok,
        transform_spec(params, p)->Ok_0.len() == 3,
        transform_spec(params, p)->Ok_0[2].value.len() == transform_spec(
            params,
            p,
        )->Ok_0[0].value.len(),
        transform_spec(params, p)->Ok_0[2].value.len() == transform_spec(
            params,
            p,
        )->Ok_0[1].value.len(),
        transform_spec(params, p)->Ok_0[2].value[i].bits == transform_spec(
            params,
            p,
        )->Ok_0[0].value[i].bits,
        transform_spec(params, p)->Ok_0[2].value[i].minus == Some(
            transform_spec(params, p)->Ok_0[1].value[i].bits,
        ),
{
}

/// The values of an angle series are converted to degrees exactly when the
/// unit is the degree; under the radian no value of any series is converted,
/// and the values of a series that holds no angles never are.
pub proof fn lemma_unit_conversion(params: ObserveParams, p: RecordView, k: int, i: int)
    requires
        transform_spec(params, p) is Ok,
        0 <= k < transform_spec(params, p)->Ok_0.len(),
        0 <= i < transform_spec(params, p)->Ok_0[k].value.len(),
    ensures
        transform_spec(params, p)->Ok_0[k].value[i].degrees == (params.unit == Unit::Degree
            && is_angle_series(transform_spec(params, p)->Ok_0[k].data_type)),
{
}

/// Bytes that one read asks for.
pub const BUFFER_SIZE: usize = 1024;

/// Milliseconds after which a read that has brought nothing gives up.
pub const READ_TIMEOUT_MS: u64 = 1000;

/// Nanoseconds that lie between two emissions in the 5 Hz class.
pub const EMIT_INTERVAL: u64 = 200_000_000;

/// Whether a packet that arrives at `now` passes the rate gate, the previous
/// emission having been at `last`. Only the 5 Hz class has a gate: it opens
/// once 200 ms have gone by. A clock that reads less than before counts as no
/// time gone by.
pub open spec fn gate_open(hz: Hertz, last: u64, now: u64) -> bool {
    hz != Hertz::Hz5 || now - last >= EMIT_INTERVAL
}

/// Whether a packet that arrives at `now` is transformed and emitted.
pub open spec fn accepts(observing: bool, hz: Hertz, last: u64, now: u64) -> bool {
    observing && gate_open(hz, last, now)
}

/// The time of the latest emission after a packet has arrived at `now`.
pub open spec fn last_after(observing: bool, hz: Hertz, last: u64, now: u64) -> u64 {
    if observing && hz == Hertz::Hz5 && gate_open(hz, last, now) {
        now
    } else {
        last
    }
}

/// The records, of those that one read brought, that are emitted.
pub open spec fn batch_emitted(
    records: Seq<RecordView>,
    observing: bool,
    hz: Hertz,
    last: u64,
    now: u64,
) -> Seq<RecordView>
    decreases records.len(),
{
    if records.len() == 0 {
        Seq::<RecordView>::empty()
    } else {
        let head = if accepts(observing, hz, last, now) {
            seq![records[0]]
        } else {
            Seq::<RecordView>::empty()
        };
        head + batch_emitted(
            records.skip(1),
            observing,
            hz,
            last_after(observing, hz, last, now),
            now,
        )
    }
}

/// The time of the latest emission after the records of one read.
pub open spec fn batch_last(
    records: Seq<RecordView>,
    observing: bool,
    hz: Hertz,
    last: u64,
    now: u64,
) -> u64
    decreases records.len(),
{
    if records.len() == 0 {
        last
    } else {
        batch_last(records.skip(1), observing, hz, last_after(observing, hz, last, now), now)
    }
}

/// The bytes that wait after a read has brought `bytes` to those in
/// `pending`: what the framer leaves, unless no record came of the read and
/// more than twice the nominal read size is left, in which case nothing.
pub open spec fn pending_after(pending: Seq<u8>, bytes: Seq<u8>, nominal: int) -> Seq<u8> {
    let all = pending + bytes;
    if frames_decoded(all).len() == 0 && frames_rest(all).len() > 2 * nominal {
        Seq::<u8>::empty()
    } else {
        frames_rest(all)
    }
}

/// The most that may wait between two reads of at most `nominal` bytes
/// each.
pub open spec fn pending_limit(nominal: int) -> int {
    if 2 * nominal >= MAX_FRAME + nominal {
        2 * nominal
    } else {
        MAX_FRAME + nominal
    }
}

/// What waits between two reads: it starts with no complete frame and stays
/// within the limit.
pub open spec fn pending_bounded(pending: Seq<u8>, nominal: int) -> bool {
    !has_frame(pending) && pending.len() <= pending_limit(nominal)
}

/// Whether `emissions` are the envelopes of `records` under `params`, one for
/// one and in order.
pub open spec fn emissions_match(
    emissions: Seq<Result<ResponseData, TransformError>>,
    params: ObserveParams,
    records: Seq<RecordView>,
) -> bool {
    &&& emissions.len() == records.len()
    &&& forall|i: int|
        0 <= i < records.len() ==> response_matches(#[trigger] emissions[i], params, records[i])
}

/// What the read loop does after a read.
#[derive(Debug)]
pub enum Step {
    /// Hand these envelopes on, in order, and read again.
    Continue(Vec<Result<ResponseData, TransformError>>),
    /// Leave the loop: the peer has closed, or a stop was asked for.
    Finished,
    /// Leave the loop and report the read error: it is fatal.
    Failed,
}

/// Why the collector refused to start.
#[derive(Debug, Clone, Copy, PartialEq, Eq, Structural)]
pub enum ClientError {
    /// There is no connection to read from.
    NotConnected,
}

/// The collector of one connection: the bytes that wait for the rest of
/// their frame, and the time of the latest emission.
#[derive(Debug)]
pub struct RobotClient {
    connected: bool,
    buffer_size: usize,
    parser: Parser,
    is_running: bool,
    incomplete_data: Vec<u8>,
    last_exec_time: u64,
}

impl RobotClient {
    /// Whether the connection is held.
    pub closed spec fn connected(&self) -> bool {
        self.connected
    }

    /// Whether the read loop runs.
    pub closed spec fn running(&self) -> bool {
        self.is_running
    }

    /// The bytes that wait for the rest of their frame.
    pub closed spec fn pending(&self) -> Seq<u8> {
        self.incomplete_data@
    }

    /// The nominal size of a read.
    pub closed spec fn nominal(&self) -> int {
        self.buffer_size as int
    }

    /// The time of the latest emission, or of the start of the loop.
    pub closed spec fn last_emission(&self) -> u64 {
        self.last_exec_time
    }

    /// The collector of a connection that has just been opened.
    pub fn new() -> (client: Self)
        ensures
            client.connected(),
            !client.running(),
            client.pending() == Seq::<u8>::empty(),
            client.nominal() == BUFFER_SIZE,
            client.last_emission() == 0,
    {
        Self {
            connected: true,
            buffer_size: BUFFER_SIZE,
            parser: Parser::new(),
            is_running: false,
            incomplete_data: Vec::new(),
            last_exec_time: 0,
        }
    }

    /// Whether the connection is held.
    pub fn is_connected(&self) -> (yes: bool)
        ensures
            yes == self.connected(),
    {
        self.connected
    }

    /// Whether the read loop runs.
    pub fn is_running(&self) -> (yes: bool)
        ensures
            yes == self.running(),
    {
        self.is_running
    }

    /// The number of bytes that one read asks for.
    pub fn buffer_size(&self) -> (n: usize)
        ensures
            n == self.nominal(),
    {
        self.buffer_size
    }

    /// The number of bytes that wait for the rest of their frame.
    pub fn buffered(&self) -> (n: usize)
        ensures
            n == self.pending().len(),
    {
        self.incomplete_data.len()
    }

    /// Enters the read loop at time `now`. Without a connection nothing
    /// changes and the loop is not entered.
    pub fn start(&mut self, now: u64) -> (r: Result<(), ClientError>)
        ensures
            final(self).connected() == old(self).connected(),
            final(self).nominal() == old(self).nominal(),
            !old(self).connected() ==> r == Err::<(), ClientError>(ClientError::NotConnected)
                && *final(self) == *old(self),
            old(self).connected() ==> r == Ok::<(), ClientError>(()) && final(self).running()
                && final(self).pending() == Seq::<u8>::empty() && final(self).last_emission()
                == now,
    {
        if !self.connected {
            return Err(ClientError::NotConnected);
        }
        self.is_running = true;
        self.incomplete_data.clear();
        self.last_exec_time = now;
        Ok(())
    }

    /// Decides on one accepted packet that arrives at `now`: while nobody
    /// observes it is dropped; in the 5 Hz class it is dropped unless 200 ms
    /// have gone by since the latest emission; else its envelope is made.
    pub fn accept_packet(
        &mut self,
        packet: &RobotDataPacket,
        observing: bool,
        params: &ObserveParams,
        now: u64,
    ) -> (emission: Option<Result<ResponseData, TransformError>>)
        ensures
            final(self).connected() == old(self).connected(),
            final(self).running() == old(self).running(),
            final(self).nominal() == old(self).nominal(),
            final(self).pending() == old(self).pending(),
            final(self).last_emission() == last_after(
                observing,
                params.hz,
                old(self).last_emission(),
                now,
            ),
            emission is Some == accepts(observing, params.hz, old(self).last_emission(), now),
            emission is Some ==> response_matches(emission->Some_0, *params, packet@),
    {
        if !observing {
            return None;
        }
        match params.hz {
            Hertz::Hz5 => {
                let elapsed = if now >= self.last_exec_time {
                    now - self.last_exec_time
                } else {
                    0
                };
                if elapsed >= EMIT_INTERVAL {
                    self.last_exec_time = now;
                    Some(process_chart_data(params, packet))
                } else {
                    None
                }
            },
            _ => Some(process_chart_data(params, packet)),
        }
    }

    /// Takes in the bytes of one read that ended at `now`. No bytes mean
    /// that the peer has closed. Else the bytes join those that wait, every
    /// complete frame is taken off and decoded, and each packet passes the
    /// gates in arrival order. If no packet came of it and more than twice
    /// the nominal read size still waits, what waits is thrown away.
    pub fn on_read(
        &mut self,
        bytes: &[u8],
        observing: bool,
        params: &ObserveParams,
        now: u64,
    ) -> (step: Step)
        ensures
            final(self).connected() == old(self).connected(),
            final(self).running() == old(self).running(),
            final(self).nominal() == old(self).nominal(),
            bytes@.len() == 0 ==> step is Finished && final(self).pending() == old(self).pending()
                && final(self).last_emission() == old(self).last_emission(),
            bytes@.len() > 0 ==> {
                let all = old(self).pending() + bytes@;
                let records = frames_decoded(all);
                &&& step is Continue
                &&& emissions_match(
                    step->Continue_0@,
                    *params,
                    batch_emitted(records, observing, params.hz, old(self).last_emission(), now),
                )
                &&& final(self).last_emission() == batch_last(
                    records,
                    observing,
                    params.hz,
                    old(self).last_emission(),
                    now,
                )
                &&& final(self).pending() == pending_after(
                    old(self).pending(),
                    bytes@,
                    old(self).nominal(),
                )
                &&& records.len() == 0 ==> final(self).pending().len() <= 2
                    * old(self).nominal()
            },
    {
        if bytes.len() == 0 {
            return Step::Finished;
        }
        let ghost before = self.incomplete_data@;
        self.incomplete_data.extend_from_slice(bytes);
        assert(self.incomplete_data@ =~= before + bytes@);
        let packets = self.parser.process_packets(&mut self.incomplete_data);
        let ghost records = records_of(packets@);
        let ghost last0 = self.last_exec_time;
        let mut emissions: Vec<Result<ResponseData, TransformError>> = Vec::new();
        let mut i: usize = 0;
        while i < packets.len()
            invariant
                i <= packets@.len(),
                records == records_of(packets@),
                self.connected() == old(self).connected(),
                self.running() == old(self).running(),
                self.nominal() == old(self).nominal(),
                self.pending() == frames_rest(before + bytes@),
                emissions_match(
                    emissions@,
                    *params,
                    batch_emitted(records.take(i as int), observing, params.hz, last0, now),
                ),
                self.last_emission() == batch_last(
                    records.take(i as int),
                    observing,
                    params.hz,
                    last0,
                    now,
                ),
            decreases packets@.len() - i,
        {
            let emission = self.accept_packet(&packets[i], observing, params, now);
            proof {
                lemma_batch_append(
                    records.take(i as int),
                    records[i as int],
                    observing,
                    params.hz,
                    last0,
                    now,
                );
                assert(records.take(i as int).push(records[i as int]) =~= records.take(i + 1));
            }
            match emission {
                Some(e) => {
                    emissions.push(e);
                },
                None => {},
            }
            i = i + 1;
        }
        assert(records.take(packets@.len() as int) =~= records);
        let waiting = self.incomplete_data.len();
        if packets.len() == 0 && waiting > self.buffer_size && waiting - self.buffer_size
            > self.buffer_size {
            self.incomplete_data.clear();
        }
        Step::Continue(emissions)
    }

    /// Decides on a read that failed: while a stop is asked for the loop just
    /// ends, else the failure is fatal. Nothing is tried again.
    pub fn on_read_error(&self, stop_requested: bool) -> (step: Step)
        ensures
            stop_requested ==> step is Finished,
            !stop_requested ==> step is Failed,
    {
        if stop_requested {
            Step::Finished
        } else {
            Step::Failed
        }
    }

    /// Leaves the read loop.
    pub fn finish(&mut self)
        ensures
            !final(self).running(),
            final(self).connected() == old(self).connected(),
            final(self).nominal() == old(self).nominal(),
            final(self).pending() == old(self).pending(),
            final(self).last_emission() == old(self).last_emission(),
    {
        self.is_running = false;
    }

    /// Gives the connection up. It may be called again: there is then
    /// nothing left to do.
    pub fn disconnect(&mut self)
        ensures
            !final(self).connected(),
            final(self).running() == (old(self).running() && !old(self).connected()),
            final(self).nominal() == old(self).nominal(),
            final(self).pending() == old(self).pending(),
            final(self).last_emission() == old(self).last_emission(),
    {
        if self.connected {
            self.connected = false;
            self.is_running = false;
        }
    }
}

/// The emissions of a batch with one more record at its end.
proof fn lemma_batch_append(
    records: Seq<RecordView>,
    next: RecordView,
    observing: bool,
    hz: Hertz,
    last: u64,
    now: u64,
)
    ensures
        batch_emitted(records.push(next), observing, hz, last, now) == batch_emitted(
            records,
            observing,
            hz,
            last,
            now,
        ) + (if accepts(observing, hz, batch_last(records, observing, hz, last, now), now) {
            seq![next]
        } else {
            Seq::<RecordView>::empty()
        }),
        batch_last(records.push(next), observing, hz, last, now) == last_after(
            observing,
            hz,
            batch_last(records, observing, hz, last, now),
            now,
        ),
    decreases records.len(),
{
    let after = last_after(observing, hz, last, now);
    let longer = records.push(next);
    if records.len() == 0 {
        assert(longer.skip(1) =~= Seq::<RecordView>::empty());
        assert(batch_emitted(longer.skip(1), observing, hz, after, now)
            =~= Seq::<RecordView>::empty());
        assert(batch_last(longer.skip(1), observing, hz, after, now) == after);
        assert(longer[0] == next);
    } else {
        lemma_batch_append(records.skip(1), next, observing, hz, after, now);
        assert(longer.skip(1) =~= records.skip(1).push(next));
        assert(longer[0] == records[0]);
    }
}

/// In the 200 Hz and 250 Hz classes nothing is held back: while somebody
/// observes, every packet of a read is emitted.
pub proof fn lemma_no_throttling(records: Seq<RecordView>, hz: Hertz, last: u64, now: u64)
    requires
        hz != Hertz::Hz5,
    ensures
        batch_emitted(records, true, hz, last, now) == records,
        batch_last(records, true, hz, last, now) == last,
    decreases records.len(),
{
    if records.len() > 0 {
        lemma_no_throttling(records.skip(1), hz, last, now);
        assert(seq![records[0]] + records.skip(1) =~= records);
    } else {
        assert(records =~= Seq::<RecordView>::empty());
    }
}

/// While nobody observes, no packet is emitted and the time of the latest
/// emission stays.
pub proof fn lemma_not_observing(records: Seq<RecordView>, hz: Hertz, last: u64, now: u64)
    ensures
        batch_emitted(records, false, hz, last, now) == Seq::<RecordView>::empty(),
        batch_last(records, false, hz, last, now) == last,
    decreases records.len(),
{
    if records.len() > 0 {
        lemma_not_observing(records.skip(1), hz, last, now);
    }
}

/// In the 5 Hz class one read gives at most one emission, and it is the
/// first packet of the read.
pub proof fn lemma_one_per_read(records: Seq<RecordView>, observing: bool, last: u64, now: u64)
    ensures
        batch_emitted(records, observing, Hertz::Hz5, last, now) == if records.len() > 0
            && accepts(observing, Hertz::Hz5, last, now) {
            seq![records[0]]
        } else {
            Seq::<RecordView>::empty()
        },
    decreases records.len(),
{
    if records.len() > 0 {
        let after = last_after(observing, Hertz::Hz5, last, now);
        lemma_one_per_read(records.skip(1), observing, after, now);
        if accepts(observing, Hertz::Hz5, last, now) {
            assert(!accepts(observing, Hertz::Hz5, after, now));
        }
    }
}

/// The number of emissions in the 5 Hz class when one packet arrives at each
/// of `times`, in that order, while somebody observes, the latest emission
/// before them having been at `last`.
pub open spec fn emitted_count(times: Seq<u64>, last: u64) -> nat
    decreases times.len(),
{
    if times.len() == 0 {
        0
    } else if gate_open(Hertz::Hz5, last, times[0]) {
        1 + emitted_count(times.skip(1), times[0])
    } else {
        emitted_count(times.skip(1), last)
    }
}

/// After an emission at `last`, packets that all arrive by `hi` give at most
/// one emission for every full interval between `last` and `hi`.
proof fn lemma_rate_after_emission(times: Seq<u64>, last: u64, hi: u64)
    requires
        forall|i: int| 0 <= i < times.len() ==> times[i] <= hi,
    ensures
        last <= hi ==> emitted_count(times, last) * EMIT_INTERVAL <= hi - last,
        last > hi ==> emitted_count(times, last) == 0,
    decreases times.len(),
{
    if times.len() > 0 {
        let rest = times.skip(1);
        assert forall|i: int| 0 <= i < rest.len() implies rest[i] <= hi by {
            assert(rest[i] == times[i + 1]);
        }
        let first = times[0];
        assert(first <= hi);
        if gate_open(Hertz::Hz5, last, first) {
            lemma_rate_after_emission(rest, first, hi);
            let later = emitted_count(rest, first);
            assert((1 + later) * EMIT_INTERVAL == EMIT_INTERVAL + later * EMIT_INTERVAL)
                by (nonlinear_arith);
        } else {
            lemma_rate_after_emission(rest, last, hi);
        }
    }
}

/// The rate limit of the 5 Hz class: packets that all arrive between `lo`
/// and `hi` give at most one emission, and one more for every full 200 ms
/// between `lo` and `hi`, however many they are and whenever the latest
/// emission before them was.
pub proof fn lemma_rate_limit(times: Seq<u64>, last: u64, lo: u64, hi: u64)
    requires
        lo <= hi,
        forall|i: int| 0 <= i < times.len() ==> lo <= #[trigger] times[i] && times[i] <= hi,
    ensures
        emitted_count(times, last) * EMIT_INTERVAL <= (hi - lo) + EMIT_INTERVAL,
    decreases times.len(),
{
    if times.len() > 0 {
        let rest = times.skip(1);
        assert forall|i: int| 0 <= i < rest.len() implies lo <= #[trigger] rest[i] && rest[i]
            <= hi by {
            assert(rest[i] == times[i + 1]);
        }
        let first = times[0];
        assert(lo <= first && first <= hi);
        if gate_open(Hertz::Hz5, last, first) {
            lemma_rate_after_emission(rest, first, hi);
            let later = emitted_count(rest, first);
            assert(later * EMIT_INTERVAL <= hi - first);
            assert(emitted_count(times, last) == 1 + later);
            assert((1 + later) * EMIT_INTERVAL == EMIT_INTERVAL + later * EMIT_INTERVAL)
                by (nonlinear_arith);
        } else {
            lemma_rate_limit(rest, last, lo, hi);
        }
    }
}

/// Bounded memory: as long as no read brings more than the nominal number of
/// bytes, what waits between two reads never grows past the limit, whatever
/// the bytes are. Bytes that never give a frame are thrown away once more
/// than twice the nominal read size has gathered.
pub proof fn lemma_pending_bounded(pending: Seq<u8>, bytes: Seq<u8>, nominal: int)
    requires
        nominal >= 0,
        pending_bounded(pending, nominal),
        bytes.len() <= nominal,
    ensures
        pending_bounded(pending_after(pending, bytes, nominal), nominal),
        pending_bounded(Seq::<u8>::empty(), nominal),
{
    let all = pending + bytes;
    lemma_rest_has_no_frame(all);
    if frames_decoded(all).len() > 0 {
        assert(has_frame(all));
        if pending.len() >= 4 {
            assert(all.take(4) =~= pending.take(4));
            lemma_frame_size_of_prefix(all, pending);
            assert(frame_size(pending) is Some);
            assert(pending.len() < MAX_FRAME);
        }
    }
}

} // verus!
