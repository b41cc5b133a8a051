//! What the user chooses to observe, and the series that come out.

use vstd::prelude::*;

verus! {

/// How a packet is turned into series.
#[derive(Debug, Clone, Copy, PartialEq, Eq, Structural)]
pub enum Mode {
    /// One series, the one that the observe type names.
    Observer,
    /// The actual and the target series of one quantity, and their difference.
    Analysis,
}

/// The series that can be observed, and the names of those that come out.
#[derive(Debug, Clone, Copy, PartialEq, Eq, Structural)]
pub enum ObserveType {
    /// Target joint positions, rad, seven joints.
    TargetJointPositions,
    /// Target joint velocities, rad/s, seven joints.
    TargetJointVelocities,
    /// Target joint accelerations, rad/s², seven joints.
    TargetJointAccelerations,
    /// Actual joint positions, rad, seven joints.
    ActualJointPositions,
    /// Actual joint velocities, rad/s, seven joints.
    ActualJointVelocities,
    /// Actual joint accelerations, rad/s², seven joints.
    ActualJointAccelerations,
    /// Actual joint currents, A, seven joints.
    ActualJointCurrents,
    /// Joint torques as the controller estimates them, N·m, seven joints.
    ActualJointTorques,
    /// Target pose of the tool centre point, six axes.
    TargetTcpPos,
    /// Target velocity of the tool centre point, six axes.
    TargetTcpVelocities,
    /// Actual pose of the tool centre point, six axes.
    ActualTcpPose,
    /// Actual velocity of the tool centre point, six axes.
    ActualTcpVelocity,
    /// Estimated force and torque at the tool centre point, six axes.
    EstimatedTcpTorque,
    /// Raw readings of the force/torque sensor, six axes.
    DataTorqueSensor,
    /// Filtered readings of the force/torque sensor, six axes.
    FilteredDataTorqueSensor,
    /// Actual, target and difference of the joint positions.
    AnalysisJointPositions,
    /// Actual, target and difference of the joint velocities.
    AnalysisJointVelocities,
    /// Actual, target and difference of the joint accelerations.
    AnalysisJointAccelerations,
    /// Actual, target and difference of the pose of the tool centre point.
    AnalysisTcpPositions,
    /// Actual, target and difference of the velocity of the tool centre point.
    AnalysisTcpVelocities,
    /// Actual, target and difference of the acceleration of the tool centre
    /// point, which the record does not carry.
    AnalysisTcpAccelerations,
    /// The name of the synthesized difference series.
    DifferenceData,
}

/// The unit in which angles are shown.
#[derive(Debug, Clone, Copy, PartialEq, Eq, Structural)]
pub enum Unit {
    Degree,
    Radian,
}

/// A single joint or direction, or all of them.
#[derive(Debug, Clone, Copy, PartialEq, Eq, Hash, Structural)]
pub enum JointOrDirection {
    All,
    JD1,
    JD2,
    JD3,
    JD4,
    JD5,
    JD6,
    JD7,
    JD8,
}

/// The frequency class of the emissions.
#[derive(Debug, Clone, Copy, PartialEq, Eq, Hash, Structural)]
pub enum Hertz {
    Hz5,
    Hz200,
    Hz250,
}

impl JointOrDirection {
    /// The number that stands for the selector: 0 for all, else 1 to 8.
    pub open spec fn spec_index(self) -> u8 {
        match self {
            JointOrDirection::All => 0,
            JointOrDirection::JD1 => 1,
            JointOrDirection::JD2 => 2,
            JointOrDirection::JD3 => 3,
            JointOrDirection::JD4 => 4,
            JointOrDirection::JD5 => 5,
            JointOrDirection::JD6 => 6,
            JointOrDirection::JD7 => 7,
            JointOrDirection::JD8 => 8,
        }
    }

    /// The number that stands for the selector: 0 for all, else 1 to 8.
    pub fn index(&self) -> (n: u8)
        ensures
            n == self.spec_index(),
    {
        match self {
            JointOrDirection::All => 0,
            JointOrDirection::JD1 => 1,
            JointOrDirection::JD2 => 2,
            JointOrDirection::JD3 => 3,
            JointOrDirection::JD4 => 4,
            JointOrDirection::JD5 => 5,
            JointOrDirection::JD6 => 6,
            JointOrDirection::JD7 => 7,
            JointOrDirection::JD8 => 8,
        }
    }
}

impl Hertz {
    /// The nominal frequency in hertz.
    pub open spec fn spec_hz(self) -> u8 {
        match self {
            Hertz::Hz5 => 5,
            Hertz::Hz200 => 200,
            Hertz::Hz250 => 250,
        }
    }

    /// The nominal frequency in hertz.
    pub fn hz(&self) -> (n: u8)
        ensures
            n == self.spec_hz(),
    {
        match self {
            Hertz::Hz5 => 5,
            Hertz::Hz200 => 200,
            Hertz::Hz250 => 250,
        }
    }
}

/// The observation parameters, replaced as a whole when observing starts and
/// read for every accepted packet.
#[derive(Debug, Clone, Copy, PartialEq, Eq, Structural)]
pub struct ObserveParams {
    /// Observer or analysis.
    pub mode: Mode,
    /// The series, or the analysed quantity.
    pub observe_type: ObserveType,
    /// The joint or direction.
    pub joint_dir: JointOrDirection,
    /// Degrees or radians.
    pub unit: Unit,
    /// The frequency class.
    pub hz: Hertz,
    /// Milliseconds after which observing stops by itself.
    pub timeout: u64,
    /// Whether emitted series are also written as CSV rows.
    pub csv: bool,
}

impl ObserveParams {
    /// The parameters before the user has chosen any.
    pub open spec fn initial() -> ObserveParams {
        ObserveParams {
            mode: Mode::Observer,
            observe_type: ObserveType::TargetJointPositions,
            joint_dir: JointOrDirection::All,
            unit: Unit::Degree,
            hz: Hertz::Hz200,
            timeout: 5000,
            csv: false,
        }
    }
}

impl Default for ObserveParams {
    fn default() -> (params: ObserveParams)
        ensures
            params == ObserveParams::initial(),
    {
        ObserveParams {
            mode: Mode::Observer,
            observe_type: ObserveType::TargetJointPositions,
            joint_dir: JointOrDirection::All,
            unit: Unit::Degree,
            hz: Hertz::Hz200,
            timeout: 5000,
            csv: false,
        }
    }
}

/// One value of an emitted series, as the arithmetic on floating-point
/// numbers finds it: the bit pattern of a 32-bit IEEE 754 number, the bit
/// pattern of the number to subtract from it, if any, and whether the result
/// is then converted from radians to degrees.
#[derive(Debug, Clone, Copy, PartialEq, Eq)]
pub struct Reading {
    /// Bit pattern of the value.
    pub bits: u32,
    /// Bit pattern of the value to subtract.
    pub minus: Option<u32>,
    /// Whether the result is multiplied by 180/π.
    pub degrees: bool,
}

/// One emitted series.
#[derive(Debug, Clone)]
pub struct ChartData {
    /// The name of the series.
    pub data_type: ObserveType,
    /// Its values, in the order of the joints or axes.
    pub value: Vec<Reading>,
}

/// The mathematical content of a series.
pub struct ChartDataView {
    pub data_type: ObserveType,
    pub value: Seq<Reading>,
}

impl View for ChartData {
    type V = ChartDataView;

    open spec fn view(&self) -> ChartDataView {
        ChartDataView { data_type: self.data_type, value: self.value@ }
    }
}

/// The series of many `ChartData`.
pub open spec fn charts_of(charts: Seq<ChartData>) -> Seq<ChartDataView> {
    charts.map_values(|c: ChartData| c@)
}

/// The envelope that is emitted for one accepted packet.
#[derive(Debug, Clone)]
pub struct ResponseChartData {
    /// The series, in a fixed order.
    pub data: Vec<ChartData>,
    /// The local time at which the envelope was made.
    pub date: String,
}

/// The mathematical content of an envelope.
pub struct ResponseChartDataView {
    pub data: Seq<ChartDataView>,
    pub date: Seq<char>,
}

impl View for ResponseChartData {
    type V = ResponseChartDataView;

    open spec fn view(&self) -> ResponseChartDataView {
        ResponseChartDataView { data: charts_of(self.data@), date: self.date@ }
    }
}

} // verus!
