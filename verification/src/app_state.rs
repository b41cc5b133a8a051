//! The run state that the commands share: whether a robot is connected,
//! whether anyone observes, and the parameters of the observation.

use crate::structs::ObserveParams;
use vstd::prelude::*;
use vstd::string::StringExecFns;

verus! {

/// The TCP port on which the controller sends its telemetry.
pub const ROBOT_PORT: u16 = 30000;

/// Milliseconds that the read loop is given to see a stop request before the
/// connection is closed under it.
pub const DISCONNECT_DELAY_MS: u64 = 100;

/// Milliseconds between two looks of the watchdog at the observing flag.
pub const OBSERVER_CHECK_INTERVAL_MS: u64 = 200;

/// What the user interface is told of the application.
#[derive(Debug, Clone, Copy, PartialEq, Eq, Structural)]
pub struct SharedState {
    /// Number of axes of the connected arm.
    pub axis: i32,
    /// Whether a force/torque sensor is mounted and switched on.
    pub ft_sensor: bool,
    /// Whether an arm is connected.
    pub arm_conn: bool,
    /// Whether the telemetry is being observed.
    pub observering: bool,
}

impl SharedState {
    /// The state while no arm is connected.
    pub open spec fn initial() -> SharedState {
        SharedState { axis: 0, ft_sensor: false, arm_conn: false, observering: false }
    }
}

impl SharedState {
    /// The state once an arm with `axis` axes is connected: nobody observes
    /// yet.
    pub fn on_connected(axis: i32, ft_sensor: bool) -> (state: SharedState)
        ensures
            state == (SharedState { axis, ft_sensor, arm_conn: true, observering: false }),
    {
        SharedState { axis, ft_sensor, arm_conn: true, observering: false }
    }

    /// The state with the observing flag set to `observing`.
    pub fn with_observing(self, observing: bool) -> (state: SharedState)
        ensures
            state == (SharedState { observering: observing, ..self }),
    {
        SharedState { observering: observing, ..self }
    }
}

impl Default for SharedState {
    fn default() -> (state: SharedState)
        ensures
            state == SharedState::initial(),
    {
        SharedState { axis: 0, ft_sensor: false, arm_conn: false, observering: false }
    }
}

/// Why a command was refused.
#[derive(Debug, Clone, Copy, PartialEq, Eq, Structural)]
pub enum CommandError {
    /// A robot is connected already.
    AlreadyConnected,
    /// No robot is connected.
    NotConnected,
    /// The telemetry is being observed already.
    AlreadyObserving,
    /// Nobody observes the telemetry.
    NotObserving,
    /// There is no CSV file to save.
    NoCsvExporter,
}

impl CommandError {
    /// The words in which the refusal is reported.
    pub open spec fn spec_message(self) -> Seq<char> {
        match self {
            CommandError::AlreadyConnected => "Server is already running"@,
            CommandError::NotConnected => "Server is not running"@,
            CommandError::AlreadyObserving => "Assistant is already running"@,
            CommandError::NotObserving => "Assistant is not running"@,
            CommandError::NoCsvExporter => "CSV exporter not initialized"@,
        }
    }

    /// The words in which the refusal is reported.
    pub fn message(&self) -> (text: &'static str)
        ensures
            text@ == self.spec_message(),
    {
        match self {
            CommandError::AlreadyConnected => "Server is already running",
            CommandError::NotConnected => "Server is not running",
            CommandError::AlreadyObserving => "Assistant is already running",
            CommandError::NotObserving => "Assistant is not running",
            CommandError::NoCsvExporter => "CSV exporter not initialized",
        }
    }
}

/// What is to be done once observing has started.
#[derive(Debug, Clone, Copy, PartialEq, Eq, Structural)]
pub struct StartPlan {
    /// Whether a fresh CSV file is opened.
    pub rotate_csv: bool,
    /// Milliseconds after which the watchdog stops the observation.
    pub watchdog_ms: u64,
}

/// What the watchdog does next.
#[derive(Debug, Clone, Copy, PartialEq, Eq, Structural)]
pub enum WatchdogStep {
    /// Sleep for `millis`, then look again with `remaining` left.
    Sleep { millis: u64, remaining: u64 },
    /// Clear the observing flag and end.
    Expire,
}

/// The run state of the collector.
#[derive(Debug, Clone)]
pub struct RobotServer {
    /// Address of the robot that was connected last.
    pub ip: String,
    /// Whether accepted packets are transformed and emitted.
    pub observer_running: bool,
    /// Whether a robot is connected.
    pub connected: bool,
    /// The parameters of the observation.
    pub observe_params: ObserveParams,
    /// Whether the read loop has been asked to stop.
    pub stop_flag: bool,
}

/// The address at which the robot at `ip_addr` sends its telemetry.
pub open spec fn robot_address_spec(ip_addr: Seq<char>) -> Seq<char> {
    ip_addr + ":30000"@
}

/// The address at which the robot at `ip_addr` sends its telemetry: the host
/// and the telemetry port, a colon between them.
pub fn robot_address(ip_addr: &str) -> (address: String)
    ensures
        address@ == robot_address_spec(ip_addr@),
{
    String::from_str(ip_addr).concat(":30000")
}

/// What the watchdog does with `remaining_ms` left of the timeout: while
/// time is left and the observation runs it sleeps one interval, else it
/// expires.
pub fn watchdog_step(remaining_ms: u64, observing: bool) -> (step: WatchdogStep)
    ensures
        remaining_ms > 0 && observing ==> step == (WatchdogStep::Sleep {
            millis: OBSERVER_CHECK_INTERVAL_MS,
            remaining: if remaining_ms >= OBSERVER_CHECK_INTERVAL_MS {
                (remaining_ms - OBSERVER_CHECK_INTERVAL_MS) as u64
            } else {
                0
            },
        }),
        !(remaining_ms > 0 && observing) ==> step == WatchdogStep::Expire,
{
    if remaining_ms > 0 && observing {
        let remaining = if remaining_ms >= OBSERVER_CHECK_INTERVAL_MS {
            remaining_ms - OBSERVER_CHECK_INTERVAL_MS
        } else {
            0
        };
        WatchdogStep::Sleep { millis: OBSERVER_CHECK_INTERVAL_MS, remaining }
    } else {
        WatchdogStep::Expire
    }
}

impl RobotServer {
    /// Nobody observes a robot that is not connected.
    pub open spec fn consistent(&self) -> bool {
        self.observer_running ==> self.connected
    }

    /// The state before any robot was connected.
    pub fn new() -> (server: Self)
        ensures
            server.consistent(),
            server.ip@ == Seq::<char>::empty(),
            !server.connected,
            !server.observer_running,
            !server.stop_flag,
            server.observe_params == ObserveParams::initial(),
    {
        RobotServer {
            ip: String::new(),
            observer_running: false,
            connected: false,
            observe_params: ObserveParams::default(),
            stop_flag: false,
        }
    }

    /// Whether a robot is connected.
    pub fn is_connected(&self) -> (yes: bool)
        ensures
            yes == self.connected,
    {
        self.connected
    }

    /// Whether accepted packets are transformed and emitted.
    pub fn is_observing(&self) -> (yes: bool)
        ensures
            yes == self.observer_running,
    {
        self.observer_running
    }

    /// Records that the connection to `ip_addr` stands and that its read
    /// loop may run. While a robot is connected this is refused and nothing
    /// changes.
    pub fn connect(&mut self, ip_addr: String) -> (r: Result<(), CommandError>)
        ensures
            old(self).consistent() ==> final(self).consistent(),
            old(self).connected ==> r == Err::<(), CommandError>(CommandError::AlreadyConnected)
                && *final(self) == *old(self),
            !old(self).connected ==> r == Ok::<(), CommandError>(()) && *final(self) == (
            RobotServer { ip: ip_addr, connected: true, stop_flag: false, ..*old(self) }),
    {
        if self.connected {
            return Err(CommandError::AlreadyConnected);
        }
        self.ip = ip_addr;
        self.connected = true;
        self.stop_flag = false;
        Ok(())
    }

    /// Starts observing under `params`, which replace the parameters as a
    /// whole. Without a connection, or while the observation runs, this is
    /// refused and nothing changes.
    pub fn start_observing(&mut self, params: ObserveParams) -> (r: Result<StartPlan, CommandError>)
        ensures
            old(self).consistent() ==> final(self).consistent(),
            !old(self).connected ==> r == Err::<StartPlan, CommandError>(
                CommandError::NotConnected,
            ) && *final(self) == *old(self),
            old(self).connected && old(self).observer_running ==> r == Err::<
                StartPlan,
                CommandError,
            >(CommandError::AlreadyObserving) && *final(self) == *old(self),
            old(self).connected && !old(self).observer_running ==> r == Ok::<
                StartPlan,
                CommandError,
            >(StartPlan { rotate_csv: params.csv, watchdog_ms: params.timeout }) && *final(self)
                == (RobotServer { observer_running: true, observe_params: params, ..*old(self) }),
    {
        if !self.connected {
            return Err(CommandError::NotConnected);
        }
        if self.observer_running {
            return Err(CommandError::AlreadyObserving);
        }
        self.observer_running = true;
        self.observe_params = params;
        Ok(StartPlan { rotate_csv: params.csv, watchdog_ms: params.timeout })
    }

    /// Stops observing. Without a connection, or while nobody observes, this
    /// is refused and nothing changes.
    pub fn stop_observing(&mut self) -> (r: Result<(), CommandError>)
        ensures
            old(self).consistent() ==> final(self).consistent(),
            !old(self).connected ==> r == Err::<(), CommandError>(CommandError::NotConnected)
                && *final(self) == *old(self),
            old(self).connected && !old(self).observer_running ==> r == Err::<(), CommandError>(
                CommandError::NotObserving,
            ) && *final(self) == *old(self),
            old(self).connected && old(self).observer_running ==> r == Ok::<(), CommandError>(())
                && *final(self) == (RobotServer { observer_running: false, ..*old(self) }),
    {
        if !self.connected {
            return Err(CommandError::NotConnected);
        }
        if !self.observer_running {
            return Err(CommandError::NotObserving);
        }
        self.observer_running = false;
        Ok(())
    }

    /// Ends the observation because its time is up or it was stopped: the
    /// observing flag is cleared, if it was still set.
    pub fn expire_observing(&mut self)
        ensures
            old(self).consistent() ==> final(self).consistent(),
            *final(self) == (RobotServer { observer_running: false, ..*old(self) }),
    {
        self.observer_running = false;
    }

    /// Whether the CSV file may be saved now: a robot must be connected and
    /// the file must exist.
    pub fn save_csv(&self, exporter_ready: bool) -> (r: Result<(), CommandError>)
        ensures
            !self.connected ==> r == Err::<(), CommandError>(CommandError::NotConnected),
            self.connected && !exporter_ready ==> r == Err::<(), CommandError>(
                CommandError::NoCsvExporter,
            ),
            self.connected && exporter_ready ==> r == Ok::<(), CommandError>(()),
    {
        if !self.connected {
            Err(CommandError::NotConnected)
        } else if !exporter_ready {
            Err(CommandError::NoCsvExporter)
        } else {
            Ok(())
        }
    }

    /// Asks the read loop to stop and ends the observation, as the first
    /// step of a disconnect. Without a connection this is refused and nothing
    /// changes.
    pub fn begin_disconnect(&mut self) -> (r: Result<(), CommandError>)
        ensures
            old(self).consistent() ==> final(self).consistent(),
            !old(self).connected ==> r == Err::<(), CommandError>(CommandError::NotConnected)
                && *final(self) == *old(self),
            old(self).connected ==> r == Ok::<(), CommandError>(()) && *final(self) == (
            RobotServer { stop_flag: true, observer_running: false, ..*old(self) }),
    {
        if !self.connected {
            return Err(CommandError::NotConnected);
        }
        self.stop_flag = true;
        self.observer_running = false;
        Ok(())
    }

    /// Records that the connection is closed and its read loop has ended.
    pub fn finish_disconnect(&mut self)
        ensures
            old(self).consistent() ==> final(self).consistent(),
            *final(self) == (RobotServer {
                connected: false,
                observer_running: false,
                ..*old(self)
            }),
    {
        self.connected = false;
        self.observer_running = false;
    }
}

} // verus!
