use vstd::prelude::*;

use crate::device::{description, Device, DiscoveryError, Status, StatusError};

pub mod filter;

pub use filter::{ChainFilter, ClosureFilter, DeviceMatch, Filter, FilterExt, NoOpFilter};

verus! {

/// An action applied to a device.
#[derive(Debug, Clone, Copy, PartialEq, Eq, Structural)]
pub enum Action {
    /// Turns the device on.
    On,
    /// Turns the device off.
    Off,
    /// Turns an online device off and an offline device on.
    Toggle,
}

/// What an action does to a device in a given status.
#[derive(Debug, Clone, Copy, PartialEq, Eq, Structural)]
pub enum Transition {
    /// Refused: the device is already online.
    AlreadyOn,
    /// Refused: the device is already offline.
    AlreadyOff,
    /// The device goes from offline to online: it is bound.
    TurnOn,
    /// The device goes from online to offline: it is unbound.
    TurnOff,
}

/// The transition table.
pub open spec fn transition_of(action: Action, status: Status) -> Transition {
    match (action, status) {
        (Action::On, Status::Online) => Transition::AlreadyOn,
        (Action::On, Status::Offline) => Transition::TurnOn,
        (Action::Off, Status::Online) => Transition::TurnOff,
        (Action::Off, Status::Offline) => Transition::AlreadyOff,
        (Action::Toggle, Status::Online) => Transition::TurnOff,
        (Action::Toggle, Status::Offline) => Transition::TurnOn,
    }
}

/// Picks what `action` does to a device whose status is `status`.
pub fn plan(action: Action, status: Status) -> (r: Transition)
    ensures
        r == transition_of(action, status),
{
    match (action, status) {
        (Action::On, Status::Online) => Transition::AlreadyOn,
        (Action::On, Status::Offline) => Transition::TurnOn,
        (Action::Off, Status::Online) => Transition::TurnOff,
        (Action::Off, Status::Offline) => Transition::AlreadyOff,
        (Action::Toggle, Status::Online) => Transition::TurnOff,
        (Action::Toggle, Status::Offline) => Transition::TurnOn,
    }
}

/// The driver control files.
#[derive(Debug, Clone, Copy, PartialEq, Eq, Structural)]
pub enum ControlFile {
    /// Writing a port here binds the default driver to that device.
    Bind,
    /// Writing a port here detaches the driver from that device.
    Unbind,
}

impl ControlFile {
    /// The control file's path.
    pub fn path(&self) -> (r: &'static str)
        ensures
            r@ == control_path(*self),
    {
        match self {
            ControlFile::Bind => "/sys/bus/usb/drivers/usb/bind",
            ControlFile::Unbind => "/sys/bus/usb/drivers/usb/unbind",
        }
    }
}

/// One write of a device's port to a control file.
#[derive(Debug, Clone, PartialEq, Eq)]
pub struct ControlWrite {
    /// Where to write.
    pub file: ControlFile,
    /// What to write: the device's port.
    pub data: Vec<u8>,
}

impl Device {
    /// The write that turns the device on: its port, to the bind control file.
    pub fn on(&self) -> (r: ControlWrite)
        ensures
            r.file == ControlFile::Bind,
            r.data@ == self.port@,
    {
        ControlWrite { file: ControlFile::Bind, data: self.port.clone() }
    }

    /// The write that turns the device off: its port, to the unbind control file.
    pub fn off(&self) -> (r: ControlWrite)
        ensures
            r.file == ControlFile::Unbind,
            r.data@ == self.port@,
    {
        ControlWrite { file: ControlFile::Unbind, data: self.port.clone() }
    }
}

/// Failure of the action pipeline.
#[derive(Debug, Clone, PartialEq, Eq)]
pub enum Error {
    /// Discovery failed on an entry.
    Fetch {
        /// The discovery failure.
        source: DiscoveryError,
    },
    /// A device could not be turned on.
    TurnOn {
        /// The device.
        device: Device,
        /// The write failure.
        source: StatusError,
    },
    /// A device could not be turned off.
    TurnOff {
        /// The device.
        device: Device,
        /// The write failure.
        source: StatusError,
    },
}

impl Error {
    /// The message for the error, without its cause.
    pub fn message(&self) -> (r: String)
        ensures
            r@ == (match *self {
                Error::Fetch { .. } => "Fetching a device"@,
                Error::TurnOn { device, .. } => "Unable to turn on "@ + description(device),
                Error::TurnOff { device, .. } => "Unable to turn off "@ + description(device),
            }),
    {
        match self {
            Error::Fetch { .. } => String::from_str("Fetching a device"),
            Error::TurnOn { device, .. } => {
                let mut r = String::from_str("Unable to turn on ");
                r.append(device.describe().as_str());
                r
            },
            Error::TurnOff { device, .. } => {
                let mut r = String::from_str("Unable to turn off ");
                r.append(device.describe().as_str());
                r
            },
        }
    }
}

/// What the pipeline decided for one device.
#[derive(Debug, Clone, PartialEq, Eq)]
pub struct Step {
    /// The device.
    pub device: Device,
    /// `None` when the filter rejected the device, else the transition that applies:
    /// a refusal is reported as a warning, a change as a confirmation.
    pub transition: Option<Transition>,
    /// The control write to perform: only for a change of status, and never in
    /// dry-run mode.
    pub write: Option<ControlWrite>,
}

/// The control write a transition calls for on device `d`, if any.
pub open spec fn write_matches(t: Transition, d: Device, w: Option<ControlWrite>) -> bool {
    match t {
        Transition::TurnOn => w matches Some(cw) && cw.file == ControlFile::Bind && cw.data@
            == d.port@,
        Transition::TurnOff => w matches Some(cw) && cw.file == ControlFile::Unbind && cw.data@
            == d.port@,
        _ => w is None,
    }
}

/// Applies an action to a sequence of devices, one device at a time.
pub struct Apply<F> {
    filter: F,
    dry_run: bool,
}

impl Apply<NoOpFilter> {
    /// A pipeline that selects every device and performs real writes.
    pub fn new() -> (r: Apply<NoOpFilter>)
        ensures
            !r.is_dry_run(),
    {
        Apply { filter: NoOpFilter::default(), dry_run: false }
    }
}

impl<F> Apply<F> {
    /// The pipeline's filter.
    pub closed spec fn selector(&self) -> F {
        self.filter
    }

    /// Whether writes are suppressed.
    pub closed spec fn is_dry_run(&self) -> bool {
        self.dry_run
    }

    /// The same pipeline with `filter` in place of its filter.
    pub fn filter<G: Filter>(self, filter: G) -> (r: Apply<G>)
        ensures
            r.selector() == filter,
            r.is_dry_run() == self.is_dry_run(),
    {
        Apply { filter, dry_run: self.dry_run }
    }

    /// The same pipeline with dry-run mode set to `dry_run`: in dry-run mode no write
    /// is performed.
    pub fn dry_run(self, dry_run: bool) -> (r: Self)
        ensures
            r.selector() == self.selector(),
            r.is_dry_run() == dry_run,
    {
        Apply { dry_run, ..self }
    }
}

impl<F: Filter> Apply<F> {
    /// Decides what `action` does to the next item of the device sequence.
    ///
    /// A discovery failure ends the run with `Error::Fetch`. A device that the filter
    /// rejects is skipped; for any other, the transition table decides, and a change of
    /// status asks for a control write unless the pipeline is in dry-run mode.
    pub fn step(&mut self, action: Action, item: Result<Device, DiscoveryError>) -> (r: Result<
        Step,
        Error,
    >)
        ensures
            final(self).is_dry_run() == old(self).is_dry_run(),
            item is Err ==> r == Err::<Step, Error>(Error::Fetch { source: item->Err_0 }),
            item is Ok ==> r is Ok,
            r matches Ok(s) ==> step_of(action, old(self).selector().selects(item->Ok_0), item->Ok_0, old(self).is_dry_run(), s),
    {
        match item {
            Err(source) => Err(Error::Fetch { source }),
            Ok(device) => {
                if !self.filter.filter(&device) {
                    return Ok(Step { device, transition: None, write: None });
                }
                let transition = plan(action, device.online);
                let write = if self.dry_run {
                    None
                } else {
                    match transition {
                        Transition::TurnOn => Some(device.on()),
                        Transition::TurnOff => Some(device.off()),
                        _ => None,
                    }
                };
                Ok(Step { device, transition: Some(transition), write })
            },
        }
    }
}

/// `s` is the step for device `d` under `action`, given whether the filter selected it
/// and whether the pipeline is in dry-run mode.
pub open spec fn step_of(action: Action, selected: bool, d: Device, dry_run: bool, s: Step) -> bool {
    &&& s.device == d
    &&& if !selected {
        s.transition is None && s.write is None
    } else {
        &&& s.transition == Some(transition_of(action, d.online))
        &&& if dry_run {
            s.write is None
        } else {
            write_matches(transition_of(action, d.online), d, s.write)
        }
    }
}

/// The outcome of performing a control write for `device`: `Ok` when the write
/// succeeded, else `Error::TurnOn` (bind) or `Error::TurnOff` (unbind) with the device,
/// the control file and the reason given.
pub fn write_outcome(device: Device, write: &ControlWrite, result: Result<(), String>) -> (r:
    Result<(), Error>)
    ensures
        result is Ok ==> r is Ok,
        result is Err ==> r is Err && is_failure(r->Err_0, device, write.file, result->Err_0),
{
    match result {
        Ok(()) => Ok(()),
        Err(reason) => {
            let path = String::from_str(write.file.path());
            match write.file {
                ControlFile::Bind => Err(
                    Error::TurnOn { device, source: StatusError::On { path, reason } },
                ),
                ControlFile::Unbind => Err(
                    Error::TurnOff { device, source: StatusError::Off { path, reason } },
                ),
            }
        },
    }
}

/// The path of a control file.
pub open spec fn control_path(file: ControlFile) -> Seq<char> {
    match file {
        ControlFile::Bind => "/sys/bus/usb/drivers/usb/bind"@,
        ControlFile::Unbind => "/sys/bus/usb/drivers/usb/unbind"@,
    }
}

/// `e` is the error for a failed write to `file` for `device`, for the reason given.
pub open spec fn is_failure(e: Error, device: Device, file: ControlFile, reason: String) -> bool {
    match file {
        ControlFile::Bind => e matches Error::TurnOn { device: d, source: StatusError::On { path, reason: why } }
            && d == device && path@ == control_path(file) && why == reason,
        ControlFile::Unbind => e matches Error::TurnOff { device: d, source: StatusError::Off { path, reason: why } }
            && d == device && path@ == control_path(file) && why == reason,
    }
}

/// Dry-run mode changes nothing but the writes: for the same action, device and filter
/// verdict, a dry run reports the same transition and asks for no write.
pub proof fn dry_run_only_drops_writes(
    action: Action,
    selected: bool,
    d: Device,
    simulated: Step,
    performed: Step,
)
    requires
        step_of(action, selected, d, true, simulated),
        step_of(action, selected, d, false, performed),
    ensures
        simulated.write is None,
        simulated.transition == performed.transition,
        simulated.device == performed.device,
{
}

/// The pipeline of the command line: devices matching any of `search` (exactly, or by
/// containment), "host" devices only with `allow_host`, and no writes with `dry_run`.
pub fn apply(search: Vec<String>, exact: bool, dry_run: bool, allow_host: bool) -> (r: Apply<
    DeviceMatch,
>)
    ensures
        r.selector().searches() == search@,
        r.selector().is_exact() == exact,
        r.selector().allows_host() == allow_host,
        r.is_dry_run() == dry_run,
{
    Apply::new().filter(DeviceMatch::new(search, exact, allow_host)).dry_run(dry_run)
}

} // verus!
