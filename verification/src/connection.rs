//! The connection manager: the state machine that brings one device from
//! `Disconnected` to `CharacteristicResolved` and back.
//!
//! A connect runs in four phases. A device that already holds a link asks
//! whether the link is still up, and is done if it is. Otherwise the adapter
//! scans until the wanted address appears; the link-level connect is attempted,
//! with a bounded number of retries; and the service and the characteristic
//! are looked up in the listing of the peer. A failure in any phase leaves the
//! device `Disconnected`.

use vstd::prelude::*;
use crate::address::{DeviceAddress, Uuid};
use crate::error::{DeviceError, DeviceErrorView, Target};
use crate::gatt::{
    find_characteristic, has_service, is_first_match, is_match, lemma_first_match_exists,
    lemma_resolve_first_match, listing_fits, lists_service, resolve, CharacteristicHandle,
    GattServiceView,
};
use crate::protocol::{AdapterEvent, Command, CommandView, Reply, ReplyView};

verus! {

/// How often a failed link-level connect is tried again.
pub const MAX_CONNECT_RETRIES: u8 = 2;

/// Where a device stands on its way to a usable characteristic.
#[derive(Clone, Copy, Debug, PartialEq, Eq, Structural)]
pub enum ConnectionState {
    /// No link, and no connect under way.
    Disconnected,
    /// The adapter is scanning for the device.
    Discovering,
    /// The device appeared in the scan; whether its link is already up is
    /// being asked.
    Found,
    /// A link-level connect is under way, after `failed` attempts that failed.
    Connecting { failed: u8 },
    /// The link is up; the listing of the peer is being fetched.
    LinkEstablished,
    /// The link is up and commands can be written to the characteristic at
    /// `handle`. While `verifying`, a new connect was asked for and whether
    /// the link is still up is being asked.
    CharacteristicResolved { handle: CharacteristicHandle, verifying: bool },
}

/// The outcome of the scan on one adapter event: whether the event announces
/// the wanted device.
pub open spec fn announces(target: DeviceAddress, event: AdapterEvent) -> bool {
    event == AdapterEvent::DeviceAdded(target)
}

/// The failure count to go on with after an attempt failed that `failed`
/// failures preceded, or `None` when the retries are used up.
pub open spec fn after_failure(failed: u8) -> Option<u8> {
    if failed < MAX_CONNECT_RETRIES {
        Some((failed + 1) as u8)
    } else {
        None
    }
}

/// Decides on one event of the scan whether the wanted device was found.
pub fn discover_device(target: DeviceAddress, event: AdapterEvent) -> (found: bool)
    ensures
        found == announces(target, event),
{
    match event {
        AdapterEvent::DeviceAdded(address) => address == target,
        AdapterEvent::DeviceRemoved(_) => false,
        AdapterEvent::PropertyChanged => false,
    }
}

/// Decides what follows a failed link-level connect: another attempt, with
/// the new failure count, or none.
pub fn connect_device(failed: u8) -> (next: Option<u8>)
    ensures
        next == after_failure(failed),
{
    if failed < MAX_CONNECT_RETRIES {
        Some(failed + 1)
    } else {
        None
    }
}

/// The connection of one device: who it is, which characteristic it is
/// after, and how far it got.
#[derive(Clone, Copy, Debug, PartialEq, Eq, Structural)]
pub struct Connection {
    pub addr: DeviceAddress,
    pub service_uuid: Uuid,
    pub characteristic_uuid: Uuid,
    pub state: ConnectionState,
}

impl Connection {
    /// The connection of a device that was never connected.
    pub open spec fn new_spec(
        addr: DeviceAddress,
        service_uuid: Uuid,
        characteristic_uuid: Uuid,
    ) -> Connection {
        Connection { addr, service_uuid, characteristic_uuid, state: ConnectionState::Disconnected }
    }

    /// The same connection in another state.
    pub open spec fn at(self, state: ConnectionState) -> Connection {
        Connection { state, ..self }
    }

    /// The device is connected, and no check of its link is under way.
    pub open spec fn is_settled(self) -> bool {
        self.state matches ConnectionState::CharacteristicResolved { verifying: false, .. }
    }

    /// The device holds a link to its peer and a characteristic to write to.
    pub open spec fn holds_link(self) -> bool {
        self.state is CharacteristicResolved
    }

    /// The error of a lookup that found nothing in `listing`: it names the
    /// service if the listing lacks it, and the characteristic otherwise.
    pub open spec fn missing(self, listing: Seq<GattServiceView>) -> DeviceErrorView {
        if has_service(listing, self.service_uuid) {
            DeviceErrorView::NotFound(Target::Attribute(self.characteristic_uuid))
        } else {
            DeviceErrorView::NotFound(Target::Attribute(self.service_uuid))
        }
    }

    /// What `connect` does.
    pub open spec fn connect_spec(self) -> (Connection, CommandView) {
        match self.state {
            ConnectionState::CharacteristicResolved { handle, .. } => (
                self.at(ConnectionState::CharacteristicResolved { handle, verifying: true }),
                CommandView::QueryLink,
            ),
            _ => (self.at(ConnectionState::Discovering), CommandView::Discover(self.addr)),
        }
    }

    /// What `disconnect` does.
    pub open spec fn disconnect_spec(self) -> (Connection, CommandView) {
        if self.state is Disconnected {
            (self, CommandView::Idle)
        } else {
            (self.at(ConnectionState::Disconnected), CommandView::Release)
        }
    }

    /// What `resume` does.
    pub open spec fn resume_spec(self, reply: ReplyView) -> (Connection, CommandView) {
        match (self.state, reply) {
            (
                ConnectionState::CharacteristicResolved { handle, verifying: true },
                ReplyView::LinkStatus(true),
            ) => (
                self.at(ConnectionState::CharacteristicResolved { handle, verifying: false }),
                CommandView::Idle,
            ),
            (
                ConnectionState::CharacteristicResolved { verifying: true, .. },
                ReplyView::LinkStatus(false),
            ) => (self.at(ConnectionState::Discovering), CommandView::Discover(self.addr)),
            (ConnectionState::Discovering, ReplyView::Adapter(event)) => if announces(
                self.addr,
                event,
            ) {
                (self.at(ConnectionState::Found), CommandView::QueryLink)
            } else {
                (self, CommandView::NextAdapterEvent)
            },
            (ConnectionState::Discovering, ReplyView::ScanEnded) => (
                self.at(ConnectionState::Disconnected),
                CommandView::Fail(DeviceErrorView::NotFound(Target::Device(self.addr))),
            ),
            (ConnectionState::Found, ReplyView::LinkStatus(true)) => (
                self.at(ConnectionState::LinkEstablished),
                CommandView::ListGatt,
            ),
            (ConnectionState::Found, ReplyView::LinkStatus(false)) => (
                self.at(ConnectionState::Connecting { failed: 0 }),
                CommandView::ConnectLink,
            ),
            (ConnectionState::Connecting { .. }, ReplyView::LinkConnected) => (
                self.at(ConnectionState::LinkEstablished),
                CommandView::ListGatt,
            ),
            (ConnectionState::Connecting { failed }, ReplyView::LinkConnectFailed(cause)) => {
                match after_failure(failed) {
                    Some(failed) => (
                        self.at(ConnectionState::Connecting { failed }),
                        CommandView::ConnectLink,
                    ),
                    None => (
                        self.at(ConnectionState::Disconnected),
                        CommandView::Fail(
                            DeviceErrorView::ConnectionError { address: self.addr, cause },
                        ),
                    ),
                }
            },
            (ConnectionState::LinkEstablished, ReplyView::Listing(listing)) => {
                match resolve(listing, self.service_uuid, self.characteristic_uuid) {
                    Some(handle) => (
                        self.at(
                            ConnectionState::CharacteristicResolved { handle, verifying: false },
                        ),
                        CommandView::Hold { handle, heartbeat: None },
                    ),
                    None => (
                        self.at(ConnectionState::Disconnected),
                        CommandView::Fail(self.missing(listing)),
                    ),
                }
            },
            (ConnectionState::LinkEstablished, ReplyView::ListingFailed) => (
                self.at(ConnectionState::Disconnected),
                CommandView::Fail(
                    DeviceErrorView::NotFound(Target::Attribute(self.characteristic_uuid)),
                ),
            ),
            (ConnectionState::CharacteristicResolved { .. }, ReplyView::Written) => (
                self,
                CommandView::Idle,
            ),
            (ConnectionState::CharacteristicResolved { .. }, ReplyView::WriteFailed(cause)) => (
                self,
                CommandView::Fail(DeviceErrorView::WriteFailure(cause)),
            ),
            _ => (self, CommandView::Ignored),
        }
    }

    /// The state reached, and the commands given, when the replies are handed
    /// in one after the other.
    pub open spec fn run(self, replies: Seq<ReplyView>) -> (Connection, Seq<CommandView>)
        decreases replies.len(),
    {
        if replies.len() == 0 {
            (self, Seq::empty())
        } else {
            let (next, command) = self.resume_spec(replies[0]);
            let (last, commands) = next.run(replies.drop_first());
            (last, seq![command] + commands)
        }
    }

    /// How many link-level connect attempts a connection in this state may
    /// still ask for.
    pub open spec fn attempts_left(self) -> nat {
        match self.state {
            ConnectionState::CharacteristicResolved { verifying: true, .. }
            | ConnectionState::Discovering
            | ConnectionState::Found => (MAX_CONNECT_RETRIES + 1) as nat,
            ConnectionState::Connecting { failed } => {
                if failed <= MAX_CONNECT_RETRIES {
                    (MAX_CONNECT_RETRIES - failed) as nat
                } else {
                    0
                }
            },
            _ => 0,
        }
    }

    /// A connection to the device at `addr` that is after the characteristic
    /// `characteristic_uuid` of the service `service_uuid`; it starts out
    /// `Disconnected`.
    pub fn new(addr: DeviceAddress, service_uuid: Uuid, characteristic_uuid: Uuid) -> (connection:
        Connection)
        ensures
            connection == Connection::new_spec(addr, service_uuid, characteristic_uuid),
    {
        Connection { addr, service_uuid, characteristic_uuid, state: ConnectionState::Disconnected }
    }

    /// Whether commands can be written: the state is `CharacteristicResolved`.
    pub fn is_resolved(&self) -> (resolved: bool)
        ensures
            resolved == (self.state is CharacteristicResolved),
    {
        match self.state {
            ConnectionState::CharacteristicResolved { .. } => true,
            _ => false,
        }
    }

    /// The resolved characteristic, while there is one to write to.
    pub fn characteristic(&self) -> (handle: Option<CharacteristicHandle>)
        ensures
            handle == match self.state {
                ConnectionState::CharacteristicResolved { handle, .. } => Some(handle),
                _ => None,
            },
    {
        match self.state {
            ConnectionState::CharacteristicResolved { handle, .. } => Some(handle),
            _ => None,
        }
    }

    /// Starts a connect.
    ///
    /// A device that holds a link asks whether the link is still up, and
    /// keeps the link until the answer says otherwise. Any other device drops
    /// what it was doing and starts over with a scan.
    pub fn connect(&mut self) -> (command: Command)
        ensures
            (*final(self), command@) == old(self).connect_spec(),
    {
        match self.state {
            ConnectionState::CharacteristicResolved { handle, .. } => {
                self.state = ConnectionState::CharacteristicResolved { handle, verifying: true };
                Command::QueryLink
            },
            _ => {
                self.state = ConnectionState::Discovering;
                Command::Discover(self.addr)
            },
        }
    }

    /// Disconnects. On a device that is `Disconnected` already this does nothing.
    pub fn disconnect(&mut self) -> (command: Command)
        ensures
            (*final(self), command@) == old(self).disconnect_spec(),
    {
        match self.state {
            ConnectionState::Disconnected => Command::Idle,
            _ => {
                self.state = ConnectionState::Disconnected;
                Command::Release
            },
        }
    }

    /// Takes the outcome of the last command and answers with the next one.
    pub fn resume(&mut self, reply: Reply) -> (command: Command)
        ensures
            (*final(self), command@) == old(self).resume_spec(reply@),
    {
        match reply {
            Reply::LinkStatus(up) => self.on_link_status(up),
            Reply::Adapter(event) => self.on_adapter_event(event),
            Reply::ScanEnded => match self.state {
                ConnectionState::Discovering => self.fail(
                    DeviceError::NotFound(Target::Device(self.addr)),
                ),
                _ => Command::Ignored,
            },
            Reply::LinkConnected => match self.state {
                ConnectionState::Connecting { .. } => {
                    self.state = ConnectionState::LinkEstablished;
                    Command::ListGatt
                },
                _ => Command::Ignored,
            },
            Reply::LinkConnectFailed(cause) => match self.state {
                ConnectionState::Connecting { failed } => match connect_device(failed) {
                    Some(failed) => {
                        self.state = ConnectionState::Connecting { failed };
                        Command::ConnectLink
                    },
                    None => self.fail(
                        DeviceError::ConnectionError { address: self.addr, cause },
                    ),
                },
                _ => Command::Ignored,
            },
            Reply::Listing(services) => match self.state {
                ConnectionState::LinkEstablished => {
                    match find_characteristic(
                        &services,
                        self.service_uuid,
                        self.characteristic_uuid,
                    ) {
                        Some(handle) => {
                            self.state = ConnectionState::CharacteristicResolved {
                                handle,
                                verifying: false,
                            };
                            Command::Hold { handle, heartbeat: None }
                        },
                        None => {
                            let absent = if lists_service(&services, self.service_uuid) {
                                self.characteristic_uuid
                            } else {
                                self.service_uuid
                            };
                            self.fail(DeviceError::NotFound(Target::Attribute(absent)))
                        },
                    }
                },
                _ => Command::Ignored,
            },
            Reply::ListingFailed => match self.state {
                ConnectionState::LinkEstablished => self.fail(
                    DeviceError::NotFound(Target::Attribute(self.characteristic_uuid)),
                ),
                _ => Command::Ignored,
            },
            Reply::Written => match self.state {
                ConnectionState::CharacteristicResolved { .. } => Command::Idle,
                _ => Command::Ignored,
            },
            Reply::WriteFailed(cause) => match self.state {
                ConnectionState::CharacteristicResolved { .. } => Command::Fail(
                    DeviceError::WriteFailure(cause),
                ),
                _ => Command::Ignored,
            },
        }
    }

    /// Gives the connect up: the device is `Disconnected` and the command
    /// reports `error`.
    fn fail(&mut self, error: DeviceError) -> (command: Command)
        ensures
            *final(self) == old(self).at(ConnectionState::Disconnected),
            command@ == CommandView::Fail(error@),
    {
        self.state = ConnectionState::Disconnected;
        Command::Fail(error)
    }

    /// The answer to whether the link of the peer at hand is up.
    fn on_link_status(&mut self, up: bool) -> (command: Command)
        ensures
            (*final(self), command@) == old(self).resume_spec(ReplyView::LinkStatus(up)),
    {
        match self.state {
            ConnectionState::CharacteristicResolved { handle, verifying: true } => {
                if up {
                    self.state = ConnectionState::CharacteristicResolved {
                        handle,
                        verifying: false,
                    };
                    Command::Idle
                } else {
                    self.state = ConnectionState::Discovering;
                    Command::Discover(self.addr)
                }
            },
            ConnectionState::Found => {
                if up {
                    self.state = ConnectionState::LinkEstablished;
                    Command::ListGatt
                } else {
                    self.state = ConnectionState::Connecting { failed: 0 };
                    Command::ConnectLink
                }
            },
            _ => Command::Ignored,
        }
    }

    /// One event of the scan.
    fn on_adapter_event(&mut self, event: AdapterEvent) -> (command: Command)
        ensures
            (*final(self), command@) == old(self).resume_spec(ReplyView::Adapter(event)),
    {
        match self.state {
            ConnectionState::Discovering => {
                if discover_device(self.addr, event) {
                    self.state = ConnectionState::Found;
                    Command::QueryLink
                } else {
                    Command::NextAdapterEvent
                }
            },
            _ => Command::Ignored,
        }
    }
}

/// How many of the commands ask for a link-level connect attempt.
pub open spec fn attempts(commands: Seq<CommandView>) -> nat
    decreases commands.len(),
{
    if commands.len() == 0 {
        0
    } else if commands[0] is ConnectLink {
        1 + attempts(commands.drop_first())
    } else {
        attempts(commands.drop_first())
    }
}

/// The replies that a scan gives for these adapter events.
pub open spec fn scan_replies(events: Seq<AdapterEvent>) -> Seq<ReplyView> {
    events.map_values(|event: AdapterEvent| ReplyView::Adapter(event))
}

/// A connect on a device whose characteristic is resolved and whose link is
/// up changes nothing: it asks for the state of the link and for nothing
/// else, neither a scan nor a connect attempt, and leaves the device as it
/// was.
pub proof fn lemma_connect_idempotent(connection: Connection)
    requires
        connection.is_settled(),
    ensures
        ({
            let (asked, first) = connection.connect_spec();
            let (back, second) = asked.resume_spec(ReplyView::LinkStatus(true));
            &&& first == CommandView::QueryLink
            &&& second == CommandView::Idle
            &&& back == connection
        }),
{
}

/// However the driver replies, starting a connect and resuming it never
/// asks for more link-level connect attempts than one plus the retries, and
/// from a state past the attempts it asks for none.
pub proof fn lemma_attempts_bounded(connection: Connection, replies: Seq<ReplyView>)
    ensures
        attempts(connection.run(replies).1) <= connection.attempts_left(),
        connection.attempts_left() <= MAX_CONNECT_RETRIES + 1,
    decreases replies.len(),
{
    if replies.len() > 0 {
        let (next, command) = connection.resume_spec(replies[0]);
        let rest = next.run(replies.drop_first()).1;
        lemma_attempts_bounded(next, replies.drop_first());
        assert((seq![command] + rest).drop_first() =~= rest);
        assert((seq![command] + rest)[0] == command);
    }
}

/// While the scan reports events that do not announce the device, the
/// connection goes on scanning.
pub proof fn lemma_scan_goes_on(
    connection: Connection,
    events: Seq<AdapterEvent>,
    then: Seq<ReplyView>,
)
    requires
        connection.state is Discovering,
        forall|k: int| 0 <= k < events.len() ==> !announces(connection.addr, #[trigger] events[k]),
    ensures
        connection.run(scan_replies(events) + then) == (
            connection.run(then).0,
            Seq::new(events.len(), |k: int| CommandView::NextAdapterEvent) + connection.run(
                then,
            ).1,
        ),
    decreases events.len(),
{
    let replies = scan_replies(events) + then;
    let skipped = Seq::new(events.len(), |k: int| CommandView::NextAdapterEvent);
    if events.len() == 0 {
        assert(replies =~= then);
        assert(skipped + connection.run(then).1 =~= connection.run(then).1);
    } else {
        let rest = events.drop_first();
        assert(replies[0] == ReplyView::Adapter(events[0]));
        assert(replies.drop_first() =~= scan_replies(rest) + then);
        assert forall|k: int| 0 <= k < rest.len() implies !announces(
            connection.addr,
            #[trigger] rest[k],
        ) by {
            assert(rest[k] == events[k + 1]);
        }
        lemma_scan_goes_on(connection, rest, then);
        let shorter = Seq::new(rest.len(), |k: int| CommandView::NextAdapterEvent);
        assert(seq![CommandView::NextAdapterEvent] + (shorter + connection.run(then).1) =~= skipped
            + connection.run(then).1);
    }
}

/// A device whose link-level connect fails every time is given up after
/// exactly three attempts.
///
/// The connect of a device that holds no link starts a scan. Whatever the
/// scan reports before the device appears, once it has appeared and its link
/// is down the connect is attempted, attempted again after the first and
/// after the second failure, and after the third failure the device is
/// `Disconnected` and the error carries its address and the last cause.
pub proof fn lemma_retry_bound(
    connection: Connection,
    events: Seq<AdapterEvent>,
    first_cause: Seq<char>,
    second_cause: Seq<char>,
    last_cause: Seq<char>,
)
    requires
        !connection.holds_link(),
        forall|k: int| 0 <= k < events.len() ==> !announces(connection.addr, #[trigger] events[k]),
    ensures
        ({
            let (started, first) = connection.connect_spec();
            let outcome = seq![
                ReplyView::Adapter(AdapterEvent::DeviceAdded(connection.addr)),
                ReplyView::LinkStatus(false),
                ReplyView::LinkConnectFailed(first_cause),
                ReplyView::LinkConnectFailed(second_cause),
                ReplyView::LinkConnectFailed(last_cause),
            ];
            let (ended, commands) = started.run(scan_replies(events) + outcome);
            &&& first == CommandView::Discover(connection.addr)
            &&& ended == connection.at(ConnectionState::Disconnected)
            &&& commands == Seq::new(events.len(), |k: int| CommandView::NextAdapterEvent) + seq![
                CommandView::QueryLink,
                CommandView::ConnectLink,
                CommandView::ConnectLink,
                CommandView::ConnectLink,
                CommandView::Fail(
                    DeviceErrorView::ConnectionError {
                        address: connection.addr,
                        cause: last_cause,
                    },
                ),
            ]
        }),
{
    let started = connection.connect_spec().0;
    let outcome = seq![
        ReplyView::Adapter(AdapterEvent::DeviceAdded(connection.addr)),
        ReplyView::LinkStatus(false),
        ReplyView::LinkConnectFailed(first_cause),
        ReplyView::LinkConnectFailed(second_cause),
        ReplyView::LinkConnectFailed(last_cause),
    ];
    lemma_scan_goes_on(started, events, outcome);
    let r1 = outcome.drop_first();
    let r2 = r1.drop_first();
    let r3 = r2.drop_first();
    let r4 = r3.drop_first();
    let r5 = r4.drop_first();
    let s1 = started.resume_spec(outcome[0]).0;
    let s2 = s1.resume_spec(r1[0]).0;
    let s3 = s2.resume_spec(r2[0]).0;
    let s4 = s3.resume_spec(r3[0]).0;
    let s5 = s4.resume_spec(r4[0]).0;
    assert(r5.len() == 0);
    assert(s5.run(r5) == (s5, Seq::<CommandView>::empty()));
    assert(s4.run(r4).1 =~= seq![s4.resume_spec(r4[0]).1]);
    assert(s3.run(r3).1 =~= seq![s3.resume_spec(r3[0]).1, s4.resume_spec(r4[0]).1]);
    assert(s2.run(r2).1 =~= seq![
        s2.resume_spec(r2[0]).1,
        s3.resume_spec(r3[0]).1,
        s4.resume_spec(r4[0]).1,
    ]);
    assert(s1.run(r1).1 =~= seq![
        s1.resume_spec(r1[0]).1,
        s2.resume_spec(r2[0]).1,
        s3.resume_spec(r3[0]).1,
        s4.resume_spec(r4[0]).1,
    ]);
    assert(started.run(outcome).1 =~= seq![
        started.resume_spec(outcome[0]).1,
        s1.resume_spec(r1[0]).1,
        s2.resume_spec(r2[0]).1,
        s3.resume_spec(r3[0]).1,
        s4.resume_spec(r4[0]).1,
    ]);
}

/// The replies of link-level connect attempts that failed for these causes.
pub open spec fn failure_replies(causes: Seq<Seq<char>>) -> Seq<ReplyView> {
    causes.map_values(|cause: Seq<char>| ReplyView::LinkConnectFailed(cause))
}

/// One reply is one step.
pub proof fn lemma_run_one(connection: Connection, reply: ReplyView)
    ensures
        connection.run(seq![reply]) == (
            connection.resume_spec(reply).0,
            seq![connection.resume_spec(reply).1],
        ),
{
    let next = connection.resume_spec(reply).0;
    assert(seq![reply].drop_first() =~= Seq::<ReplyView>::empty());
    assert(next.run(seq![reply].drop_first()) == (next, Seq::<CommandView>::empty()));
    assert(seq![connection.resume_spec(reply).1] + Seq::<CommandView>::empty() =~= seq![
        connection.resume_spec(reply).1,
    ]);
}

/// Replies handed in one batch after another do what they do in one batch.
pub proof fn lemma_run_append(connection: Connection, first: Seq<ReplyView>, then: Seq<ReplyView>)
    ensures
        connection.run(first + then) == (
            connection.run(first).0.run(then).0,
            connection.run(first).1 + connection.run(first).0.run(then).1,
        ),
    decreases first.len(),
{
    if first.len() == 0 {
        assert(first + then =~= then);
        assert(Seq::<CommandView>::empty() + connection.run(then).1 =~= connection.run(then).1);
    } else {
        let (next, command) = connection.resume_spec(first[0]);
        assert((first + then)[0] == first[0]);
        assert((first + then).drop_first() =~= first.drop_first() + then);
        lemma_run_append(next, first.drop_first(), then);
        let head = next.run(first.drop_first());
        assert(seq![command] + (head.1 + head.0.run(then).1) =~= (seq![command] + head.1)
            + head.0.run(then).1);
    }
}

/// The attempts of two runs of commands add up.
pub proof fn lemma_attempts_append(first: Seq<CommandView>, then: Seq<CommandView>)
    ensures
        attempts(first + then) == attempts(first) + attempts(then),
    decreases first.len(),
{
    if first.len() == 0 {
        assert(first + then =~= then);
    } else {
        assert((first + then)[0] == first[0]);
        assert((first + then).drop_first() =~= first.drop_first() + then);
        lemma_attempts_append(first.drop_first(), then);
    }
}

/// A connect under way answers each failed attempt that leaves a retry with
/// the next attempt.
pub proof fn lemma_failures_are_retried(connection: Connection, causes: Seq<Seq<char>>)
    requires
        connection.state matches ConnectionState::Connecting { failed },
        connection.state->failed + causes.len() <= MAX_CONNECT_RETRIES,
    ensures
        connection.run(failure_replies(causes)).0 == connection.at(
            ConnectionState::Connecting {
                failed: (connection.state->failed + causes.len()) as u8,
            },
        ),
        connection.run(failure_replies(causes)).1 == Seq::new(
            causes.len(),
            |k: int| CommandView::ConnectLink,
        ),
        attempts(connection.run(failure_replies(causes)).1) == causes.len(),
    decreases causes.len(),
{
    let replies = failure_replies(causes);
    let retries = Seq::new(causes.len(), |k: int| CommandView::ConnectLink);
    if causes.len() == 0 {
        assert(connection.run(replies).1 =~= retries);
    } else {
        let (next, command) = connection.resume_spec(replies[0]);
        assert(replies.drop_first() =~= failure_replies(causes.drop_first()));
        lemma_failures_are_retried(next, causes.drop_first());
        let rest = next.run(replies.drop_first()).1;
        assert(seq![command] + rest =~= retries);
        assert((seq![command] + rest).drop_first() =~= rest);
    }
}

/// A connect succeeds whenever the device appears in the scan, its link
/// comes up within the attempts allowed, and its listing holds the
/// characteristic.
///
/// Whatever the scan reports before the device appears and however the
/// attempts before the last one failed, the device ends up with the first
/// matching characteristic of the listing resolved, the last command hands
/// that characteristic over, and there was one attempt more than there were
/// failures.
pub proof fn lemma_connect_succeeds(
    connection: Connection,
    events: Seq<AdapterEvent>,
    causes: Seq<Seq<char>>,
    listing: Seq<GattServiceView>,
    i: int,
    j: int,
)
    requires
        !connection.holds_link(),
        forall|k: int| 0 <= k < events.len() ==> !announces(connection.addr, #[trigger] events[k]),
        causes.len() <= MAX_CONNECT_RETRIES,
        listing_fits(listing),
        is_first_match(listing, connection.service_uuid, connection.characteristic_uuid, i, j),
    ensures
        ({
            let started = connection.connect_spec().0;
            let replies = scan_replies(events) + seq![
                ReplyView::Adapter(AdapterEvent::DeviceAdded(connection.addr)),
                ReplyView::LinkStatus(false),
            ] + failure_replies(causes) + seq![
                ReplyView::LinkConnected,
                ReplyView::Listing(listing),
            ];
            let (ended, commands) = started.run(replies);
            let handle = CharacteristicHandle { service: i as usize, characteristic: j as usize };
            &&& ended == connection.at(
                ConnectionState::CharacteristicResolved { handle, verifying: false },
            )
            &&& commands.len() == replies.len()
            &&& commands.last() == (CommandView::Hold { handle, heartbeat: None })
            &&& attempts(commands) == causes.len() + 1
        }),
{
    let started = connection.connect_spec().0;
    let none = Seq::<ReplyView>::empty();
    let scanned = scan_replies(events);
    let found = ReplyView::Adapter(AdapterEvent::DeviceAdded(connection.addr));
    let down = ReplyView::LinkStatus(false);
    let failed = failure_replies(causes);
    let up = ReplyView::LinkConnected;
    let listed = ReplyView::Listing(listing);
    let handle = CharacteristicHandle { service: i as usize, characteristic: j as usize };
    lemma_resolve_first_match(
        listing,
        connection.service_uuid,
        connection.characteristic_uuid,
        i,
        j,
    );

    // the scan
    lemma_scan_goes_on(started, events, none);
    assert(scanned + none =~= scanned);
    let skipped = Seq::new(events.len(), |k: int| CommandView::NextAdapterEvent);
    assert(started.run(scanned).1 =~= skipped);
    lemma_no_attempts_in_scan(events.len());
    // the device appears and its link is down
    let s1 = started.resume_spec(found).0;
    let s2 = s1.resume_spec(down).0;
    lemma_run_one(started, found);
    lemma_run_one(s1, down);
    // the failed attempts
    lemma_failures_are_retried(s2, causes);
    let s3 = s2.run(failed).0;
    // the link comes up and the listing is read
    let s4 = s3.resume_spec(up).0;
    lemma_run_one(s3, up);
    lemma_run_one(s4, listed);

    let a = scanned;
    let b = a + seq![found];
    let c = b + seq![down];
    let d = c + failed;
    let e = d + seq![up];
    let f = e + seq![listed];
    lemma_run_append(started, a, seq![found]);
    lemma_run_append(started, b, seq![down]);
    lemma_run_append(started, c, failed);
    lemma_run_append(started, d, seq![up]);
    lemma_run_append(started, e, seq![listed]);
    assert(f =~= scanned + seq![found, down] + failed + seq![up, listed]);

    let ca = started.run(a).1;
    let cb = started.run(b).1;
    let cc = started.run(c).1;
    let cd = started.run(d).1;
    let ce = started.run(e).1;
    lemma_attempts_append(ca, seq![CommandView::QueryLink]);
    lemma_attempts_append(cb, seq![CommandView::ConnectLink]);
    lemma_attempts_append(cc, s2.run(failed).1);
    lemma_attempts_append(cd, seq![CommandView::ListGatt]);
    lemma_attempts_append(ce, seq![CommandView::Hold { handle, heartbeat: None }]);
    lemma_attempts_one(CommandView::QueryLink);
    lemma_attempts_one(CommandView::ConnectLink);
    lemma_attempts_one(CommandView::ListGatt);
    lemma_attempts_one(CommandView::Hold { handle, heartbeat: None });
}

/// One command is one attempt if it asks for one.
pub proof fn lemma_attempts_one(command: CommandView)
    ensures
        attempts(seq![command]) == if command is ConnectLink {
            1nat
        } else {
            0nat
        },
{
    let rest = seq![command].drop_first();
    assert(rest.len() == 0);
    assert(attempts(rest) == 0);
}

/// A scan that goes on asks for no connect attempt.
pub proof fn lemma_no_attempts_in_scan(count: nat)
    ensures
        attempts(Seq::new(count, |k: int| CommandView::NextAdapterEvent)) == 0,
    decreases count,
{
    let skipped = Seq::new(count, |k: int| CommandView::NextAdapterEvent);
    if count > 0 {
        assert(skipped.drop_first() =~= Seq::new(
            (count - 1) as nat,
            |k: int| CommandView::NextAdapterEvent,
        ));
        lemma_no_attempts_in_scan((count - 1) as nat);
    }
}

/// How far a state is on the way to a resolved characteristic.
pub open spec fn progress(state: ConnectionState) -> nat {
    match state {
        ConnectionState::Disconnected => 0,
        ConnectionState::Discovering => 1,
        ConnectionState::Found => 2,
        ConnectionState::Connecting { .. } => 3,
        ConnectionState::LinkEstablished => 4,
        ConnectionState::CharacteristicResolved { .. } => 5,
    }
}

/// What the driver reports moves a connection forward only, except that a
/// failure resets it to `Disconnected` and a lost link sends it back to the
/// scan.
pub proof fn lemma_resume_goes_forward(connection: Connection, reply: ReplyView)
    ensures
        ({
            let (next, command) = connection.resume_spec(reply);
            ||| progress(next.state) >= progress(connection.state)
            ||| next.state is Disconnected && command is Fail
            ||| connection.state matches ConnectionState::CharacteristicResolved {
                verifying: true,
                ..
            } && reply == ReplyView::LinkStatus(false) && next.state is Discovering
        }),
{
}

/// A connect that fails leaves no partial state: whenever `resume` reports
/// a failure other than a rejected write, the device is `Disconnected`.
pub proof fn lemma_failure_disconnects(connection: Connection, reply: ReplyView)
    ensures
        ({
            let (next, command) = connection.resume_spec(reply);
            command matches CommandView::Fail(error) ==> {
                ||| error is WriteFailure && next == connection
                ||| next == connection.at(ConnectionState::Disconnected)
            }
        }),
{
}

/// A characteristic is held only for the first match of the listing that
/// the peer gave, and only a listing that holds a match resolves it.
pub proof fn lemma_hold_is_first_match(connection: Connection, reply: ReplyView)
    requires
        reply matches ReplyView::Listing(listing) ==> listing_fits(listing),
    ensures
        ({
            let (next, command) = connection.resume_spec(reply);
            &&& command matches CommandView::Hold { handle, heartbeat } ==> {
                &&& connection.state is LinkEstablished
                &&& next.state == (ConnectionState::CharacteristicResolved {
                    handle,
                    verifying: false,
                })
                &&& reply matches ReplyView::Listing(listing)
                &&& is_first_match(
                    listing,
                    connection.service_uuid,
                    connection.characteristic_uuid,
                    handle.service as int,
                    handle.characteristic as int,
                )
            }
            &&& next.state is CharacteristicResolved ==> {
                ||| connection.state is CharacteristicResolved
                ||| command is Hold
            }
        }),
{
    let (next, command) = connection.resume_spec(reply);
    if command is Hold {
        let listing = reply->Listing_0;
        let service = connection.service_uuid;
        let characteristic = connection.characteristic_uuid;
        let (i, j) = choose|i: int, j: int| is_match(listing, service, characteristic, i, j);
        lemma_first_match_exists(listing, service, characteristic, i, j);
        let (a, b) = choose|a: int, b: int| is_first_match(listing, service, characteristic, a, b);
        assert(is_match(listing, service, characteristic, a, b));
    }
}

/// No operation changes who the device is or which characteristic it is after.
pub proof fn lemma_identity_is_fixed(connection: Connection, reply: ReplyView)
    ensures
        connection.connect_spec().0 == connection.at(connection.connect_spec().0.state),
        connection.disconnect_spec().0 == connection.at(connection.disconnect_spec().0.state),
        connection.resume_spec(reply).0 == connection.at(connection.resume_spec(reply).0.state),
{
}

} // verus!
