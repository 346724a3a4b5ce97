//! What the Z-Wave driver tells the adapter, as plain values.
//!
//! The driver identifies a controller by its home id and a value by its
//! home id and packed id. Everything else it knows of a value (its genre,
//! its type, whether it was ever set) is read at one moment and carried in a
//! [`ValueReport`].

use vstd::prelude::*;

verus! {

/// A handle of the driver that can be compared and copied.
pub trait DriverHandle: Copy {
    /// Whether the two handles name the same object of the driver.
    fn same(&self, other: &Self) -> (same: bool)
        ensures
            same == (*self == *other),
    ;
}

/// A Z-Wave controller, named by the home id of its network.
#[derive(Clone, Copy, Debug, PartialEq, Eq, Hash, Structural)]
pub struct Controller {
    pub home_id: u32,
}

impl Controller {
    /// The controller of the network `home_id`.
    pub fn new(home_id: u32) -> (controller: Controller)
        ensures
            controller == (Controller { home_id }),
    {
        Controller { home_id }
    }

    /// The home id of the controller's network.
    pub fn get_home_id(&self) -> (home_id: u32)
        ensures
            home_id == self.home_id,
    {
        self.home_id
    }
}

impl DriverHandle for Controller {
    fn same(&self, other: &Self) -> (same: bool) {
        self.home_id == other.home_id
    }
}

/// A node of a Z-Wave network.
#[derive(Clone, Copy, Debug, PartialEq, Eq, Hash, Structural)]
pub struct Node {
    pub home_id: u32,
    pub node_id: u8,
}

/// A data point of a device, named by its network and its packed id.
#[derive(Clone, Copy, Debug, PartialEq, Eq, Hash, Structural)]
pub struct ValueID {
    pub home_id: u32,
    pub id: u64,
}

impl ValueID {
    /// The value with the packed id `id` in the network `home_id`.
    pub fn from_packed_id(home_id: u32, id: u64) -> (value: ValueID)
        ensures
            value == (ValueID { home_id, id }),
    {
        ValueID { home_id, id }
    }

    /// The controller of the network this value lives in.
    pub fn get_controller(&self) -> (controller: Controller)
        ensures
            controller == (Controller { home_id: self.home_id }),
    {
        Controller { home_id: self.home_id }
    }

    /// The home id of the network this value lives in.
    pub fn get_home_id(&self) -> (home_id: u32)
        ensures
            home_id == self.home_id,
    {
        self.home_id
    }

    /// The packed id of the value.
    pub fn get_id(&self) -> (id: u64)
        ensures
            id == self.id,
    {
        self.id
    }
}

impl DriverHandle for ValueID {
    fn same(&self, other: &Self) -> (same: bool) {
        self.home_id == other.home_id && self.id == other.id
    }
}

/// The audience the driver sorts a value into.
#[derive(Clone, Copy, Debug, PartialEq, Eq, Hash, Structural)]
pub enum ValueGenre {
    Basic,
    User,
    Config,
    System,
    Count,
}

/// The type the driver declares for a value.
#[derive(Clone, Copy, Debug, PartialEq, Eq, Hash, Structural)]
pub enum ValueType {
    Bool,
    Byte,
    Decimal,
    Int,
    List,
    Schedule,
    Short,
    String,
    Button,
    Raw,
}

/// The code of the command class of binary sensors.
pub const SENSOR_BINARY: u8 = 0x30;

/// A Z-Wave command class, by its code.
#[derive(Clone, Copy, Debug, PartialEq, Eq, Hash, Structural)]
pub struct CommandClass {
    pub code: u8,
}

/// What the driver knows of one value at one moment.
#[derive(Clone, Debug, PartialEq, Eq)]
pub struct ValueReport {
    /// The value this report is about.
    pub id: ValueID,
    pub genre: ValueGenre,
    /// The command class the value belongs to, where the driver knows the
    /// class.
    pub command_class: Option<CommandClass>,
    pub value_type: ValueType,
    /// The name the device gives the value.
    pub label: String,
    pub read_only: bool,
    pub write_only: bool,
    /// Whether the device has ever reported the value.
    pub is_set: bool,
    /// The value read as a boolean, where the driver can read it so.
    pub as_bool: Option<bool>,
}

/// A [`ValueReport`] with its label as a sequence of characters.
pub struct ValueReportView {
    pub id: ValueID,
    pub genre: ValueGenre,
    pub command_class: Option<CommandClass>,
    pub value_type: ValueType,
    pub label: Seq<char>,
    pub read_only: bool,
    pub write_only: bool,
    pub is_set: bool,
    pub as_bool: Option<bool>,
}

impl View for ValueReport {
    type V = ValueReportView;

    open spec fn view(&self) -> ValueReportView {
        ValueReportView {
            id: self.id,
            genre: self.genre,
            command_class: self.command_class,
            value_type: self.value_type,
            label: self.label@,
            read_only: self.read_only,
            write_only: self.write_only,
            is_set: self.is_set,
            as_bool: self.as_bool,
        }
    }
}

/// An event of the driver's notification stream.
#[derive(Clone, Debug, PartialEq, Eq)]
pub enum Notification {
    /// A controller has finished starting.
    ControllerReady(Controller),
    NodeNew(Node),
    NodeAdded(Node),
    NodeRemoved(Node),
    /// A device has announced a value.
    ValueAdded(ValueReport),
    /// A value has a new state.
    ValueChanged(ValueReport),
    ValueRemoved(ValueID),
    Generic(String),
    /// Any other event.
    Other,
}

/// A [`Notification`] with its texts as sequences of characters.
pub enum NotificationView {
    ControllerReady(Controller),
    NodeNew(Node),
    NodeAdded(Node),
    NodeRemoved(Node),
    ValueAdded(ValueReportView),
    ValueChanged(ValueReportView),
    ValueRemoved(ValueID),
    Generic(Seq<char>),
    Other,
}

impl View for Notification {
    type V = NotificationView;

    open spec fn view(&self) -> NotificationView {
        match self {
            Notification::ControllerReady(controller) => NotificationView::ControllerReady(
                *controller,
            ),
            Notification::NodeNew(node) => NotificationView::NodeNew(*node),
            Notification::NodeAdded(node) => NotificationView::NodeAdded(*node),
            Notification::NodeRemoved(node) => NotificationView::NodeRemoved(*node),
            Notification::ValueAdded(report) => NotificationView::ValueAdded(report@),
            Notification::ValueChanged(report) => NotificationView::ValueChanged(report@),
            Notification::ValueRemoved(value) => NotificationView::ValueRemoved(*value),
            Notification::Generic(text) => NotificationView::Generic(text@),
            Notification::Other => NotificationView::Other,
        }
    }
}

/// Why the driver could not be started, with the driver's own account of
/// it.
#[derive(Clone, Debug, PartialEq, Eq)]
pub enum DriverError {
    /// No Z-Wave device is attached to this machine.
    NoDeviceFound(String),
    /// Any other failure.
    Failure(String),
}

impl DriverError {
    /// The account of the error in words.
    pub open spec fn message_of(&self) -> Seq<char> {
        match self {
            DriverError::NoDeviceFound(account) => account@,
            DriverError::Failure(account) => account@,
        }
    }

    /// The account of the error in words.
    pub fn message(&self) -> (text: String)
        ensures
            text@ == self.message_of(),
    {
        match self {
            DriverError::NoDeviceFound(account) => account.clone(),
            DriverError::Failure(account) => account.clone(),
        }
    }
}

} // verus!
