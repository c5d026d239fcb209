//! The topology service: what is asked of it, and what it answers.
//!
//! The service listens at service (1, 1). A subscription goes to it as one
//! record of 28 bytes; each answer comes as one record of 48 bytes.

use crate::addr::{
    Instance, Scope, ServiceAddr, ServiceRange, SocketAddr, ToInstanceRange, Type,
};
use crate::error::Error;
use crate::ffi::{
    tipc_event, tipc_name_seq, tipc_sioc_ln_req, tipc_subscr, TIPC_CFG_SRV, TIPC_EVENT_SIZE,
    TIPC_LINK_STATE, TIPC_PUBLISHED, TIPC_SUBSCR_SIZE, TIPC_SUBSCR_TIMEOUT, TIPC_SUB_CANCEL,
    TIPC_SUB_PORTS, TIPC_SUB_SERVICE, TIPC_TOP_SRV, TIPC_WITHDRAWN,
};
use crate::native::{lemma_ne_value_same, ne_value, u64_from_ne_bytes, u64_to_ne_bytes};
use crate::sock::BearerId;
use crate::time::Duration;
use vstd::prelude::*;
use vstd::std_specs::convert::FromSpecImpl;

verus! {

/// The timeout that stands for "never".
pub const WAIT_FOREVER: u32 = 0xffff_ffff;

/// How the topology service acts on a subscription.
#[derive(Clone, Copy, Debug, PartialEq, Eq, Hash, Structural)]
pub enum Filter {
    /// An event for each matching change of the binding table, so that every
    /// single matching binding can be followed.
    All,
    /// Edge events only: one when the first matching binding appears, one when
    /// the last is gone.
    Edge,
}

impl Filter {
    /// The filter bit of the subscription record.
    pub open spec fn value(self) -> u32 {
        match self {
            Filter::All => TIPC_SUB_PORTS,
            Filter::Edge => TIPC_SUB_SERVICE,
        }
    }

    /// The filter bit of the subscription record.
    pub fn bits(self) -> (r: u32)
        ensures
            r == self.value(),
    {
        match self {
            Filter::All => TIPC_SUB_PORTS,
            Filter::Edge => TIPC_SUB_SERVICE,
        }
    }
}

/// A subscription to the topology service.
#[derive(Clone, Copy, Debug, PartialEq, Eq, Hash, Structural)]
pub struct Subscription {
    /// The service, or range of services, of interest.
    pub service: ServiceRange,
    /// How long the subscription lives; `None` for ever.
    pub timeout: Option<Duration>,
    /// Which events are wanted.
    pub filter: Filter,
    /// 64 bits that come back with every event, for the subscriber's own use.
    pub userdata: u64,
}

impl Subscription {
    /// The subscription for `service` that lives for ever, wants edge events,
    /// and carries no user data.
    pub fn new(service: ServiceRange) -> (r: Self)
        ensures
            r == (Subscription { service, timeout: None, filter: Filter::Edge, userdata: 0 }),
    {
        Subscription { service, timeout: None, filter: Filter::Edge, userdata: 0 }
    }

    /// The same subscription, living for `timeout`.
    pub fn timeout(self, timeout: Duration) -> (r: Self)
        ensures
            r == (Subscription { timeout: Some(timeout), ..self }),
    {
        Subscription { timeout: Some(timeout), ..self }
    }

    /// The same subscription, for every event.
    pub fn all(self) -> (r: Self)
        ensures
            r == (Subscription { filter: Filter::All, ..self }),
    {
        Subscription { filter: Filter::All, ..self }
    }

    /// The same subscription, for edge events.
    pub fn edge(self) -> (r: Self)
        ensures
            r == (Subscription { filter: Filter::Edge, ..self }),
    {
        Subscription { filter: Filter::Edge, ..self }
    }

    /// The same subscription, carrying `userdata`.
    pub fn userdata(self, userdata: u64) -> (r: Self)
        ensures
            r == (Subscription { userdata, ..self }),
    {
        Subscription { userdata, ..self }
    }

    /// The timeout field of the record: the whole milliseconds of the
    /// timeout, as far as 32 bits hold them, or the number that stands for
    /// "never".
    pub open spec fn raw_timeout(self) -> u32 {
        match self.timeout {
            None => WAIT_FOREVER,
            Some(t) => (t.millis() % 0x1_0000_0000) as u32,
        }
    }

    /// `raw` is the record of this subscription: the range, the timeout, the
    /// filter bit, and the user data as eight bytes in the byte order of the
    /// machine.
    pub open spec fn is_encoded_by(self, raw: tipc_subscr) -> bool {
        &&& raw.seq == self.service.0
        &&& raw.timeout == self.raw_timeout()
        &&& raw.filter == self.filter.value()
        &&& ne_value(raw.usr_handle@) == self.userdata
    }

    /// The record of this subscription: the one that `is_encoded_by` holds of.
    pub open spec fn record(self) -> tipc_subscr {
        choose|raw: tipc_subscr| self.is_encoded_by(raw)
    }

    /// The record that asks for this subscription.
    pub fn encode(self) -> (r: tipc_subscr)
        ensures
            self.is_encoded_by(r),
            r == self.record(),
    {
        let timeout: u32 = match self.timeout {
            None => WAIT_FOREVER,
            Some(t) => (t.as_millis() % 0x1_0000_0000) as u32,
        };
        let r = tipc_subscr {
            seq: self.service.0,
            timeout,
            filter: self.filter.bits(),
            usr_handle: u64_to_ne_bytes(self.userdata),
        };
        proof {
            assert(self.is_encoded_by(r));
            assert(exists|raw: tipc_subscr| self.is_encoded_by(raw));
            lemma_subscription_record(self, r, self.record());
        }
        r
    }

    /// The subscription that a record holds. The timeout that stands for
    /// "never" reads as none; any other, zero too, as that many
    /// milliseconds. A filter with the bit for every event reads as `All`,
    /// any other as `Edge`.
    pub open spec fn decoded(raw: tipc_subscr) -> Subscription {
        Subscription {
            service: ServiceRange(raw.seq),
            timeout: if raw.timeout == WAIT_FOREVER {
                None
            } else {
                Some(
                    Duration {
                        secs: (raw.timeout / 1_000) as u64,
                        nanos: ((raw.timeout % 1_000) * 1_000_000) as u32,
                    },
                )
            },
            filter: if raw.filter & TIPC_SUB_PORTS == TIPC_SUB_PORTS {
                Filter::All
            } else {
                Filter::Edge
            },
            userdata: ne_value(raw.usr_handle@) as u64,
        }
    }

    /// Reads the subscription that a record holds.
    pub fn decode(raw: &tipc_subscr) -> (r: Subscription)
        ensures
            r == Self::decoded(*raw),
            raw.timeout == WAIT_FOREVER <==> r.timeout is None,
            raw.timeout != WAIT_FOREVER ==> r.timeout->Some_0.millis() == raw.timeout
                && r.timeout->Some_0.wf(),
    {
        Subscription {
            service: ServiceRange(raw.seq),
            timeout: if raw.timeout == WAIT_FOREVER {
                None
            } else {
                Some(Duration::from_millis(raw.timeout as u64))
            },
            filter: if raw.filter & TIPC_SUB_PORTS == TIPC_SUB_PORTS {
                Filter::All
            } else {
                Filter::Edge
            },
            userdata: u64_from_ne_bytes(raw.usr_handle),
        }
    }
}

impl From<ServiceRange> for Subscription {
    fn from(service: ServiceRange) -> (r: Self) {
        Subscription::new(service)
    }
}

impl FromSpecImpl<ServiceRange> for Subscription {
    open spec fn obeys_from_spec() -> bool {
        true
    }

    open spec fn from_spec(service: ServiceRange) -> Self {
        Subscription { service, timeout: None, filter: Filter::Edge, userdata: 0 }
    }
}

impl From<ServiceAddr> for Subscription {
    fn from(service: ServiceAddr) -> (r: Self) {
        Subscription::new(ServiceRange::from(service))
    }
}

impl FromSpecImpl<ServiceAddr> for Subscription {
    open spec fn obeys_from_spec() -> bool {
        true
    }

    open spec fn from_spec(service: ServiceAddr) -> Self {
        Subscription {
            service: ServiceRange::spec_new(service.0.type_, service.0.instance, service.0.instance),
            timeout: None,
            filter: Filter::Edge,
            userdata: 0,
        }
    }
}

/// A bare type is subscribed to with every instance of it.
impl From<Type> for Subscription {
    fn from(service: Type) -> (r: Self) {
        Subscription::new(ServiceRange::with_type(service))
    }
}

impl FromSpecImpl<Type> for Subscription {
    open spec fn obeys_from_spec() -> bool {
        true
    }

    open spec fn from_spec(service: Type) -> Self {
        Subscription { service: ServiceRange::spec_new(service, 0, u32::MAX), timeout: None, filter: Filter::Edge, userdata: 0 }
    }
}

/// A type with instances is subscribed to as the range of these.
impl<T: ToInstanceRange> From<(Type, T)> for Subscription {
    fn from(service: (Type, T)) -> (r: Self) {
        Subscription::new(ServiceRange::new(service.0, service.1.lower(), service.1.upper()))
    }
}

impl<T: ToInstanceRange> FromSpecImpl<(Type, T)> for Subscription {
    open spec fn obeys_from_spec() -> bool {
        true
    }

    open spec fn from_spec(service: (Type, T)) -> Self {
        Subscription { service: ServiceRange::spec_new(service.0, service.1.spec_lower(), service.1.spec_upper()), timeout: None, filter: Filter::Edge, userdata: 0 }
    }
}

/// A type with a lower and an upper instance is subscribed to as that range.
impl From<(Type, Instance, Instance)> for Subscription {
    fn from(service: (Type, Instance, Instance)) -> (r: Self) {
        Subscription::new(ServiceRange::new(service.0, service.1, service.2))
    }
}

impl FromSpecImpl<(Type, Instance, Instance)> for Subscription {
    open spec fn obeys_from_spec() -> bool {
        true
    }

    open spec fn from_spec(service: (Type, Instance, Instance)) -> Self {
        Subscription { service: ServiceRange::spec_new(service.0, service.1, service.2), timeout: None, filter: Filter::Edge, userdata: 0 }
    }
}

/// A range as the kernel holds it is subscribed to as it stands.
impl From<tipc_name_seq> for Subscription {
    fn from(service: tipc_name_seq) -> (r: Self) {
        Subscription::new(ServiceRange(service))
    }
}

impl FromSpecImpl<tipc_name_seq> for Subscription {
    open spec fn obeys_from_spec() -> bool {
        true
    }

    open spec fn from_spec(service: tipc_name_seq) -> Self {
        Subscription { service: ServiceRange(service), timeout: None, filter: Filter::Edge, userdata: 0 }
    }
}

impl From<tipc_subscr> for Subscription {
    fn from(raw: tipc_subscr) -> (r: Self) {
        Subscription::decode(&raw)
    }
}

impl FromSpecImpl<tipc_subscr> for Subscription {
    open spec fn obeys_from_spec() -> bool {
        true
    }

    open spec fn from_spec(raw: tipc_subscr) -> Self {
        Subscription::decoded(raw)
    }
}

impl From<Subscription> for tipc_subscr {
    /// The record that asks for the subscription.
    fn from(sub: Subscription) -> (r: Self)
        ensures
            sub.is_encoded_by(r),
    {
        sub.encode()
    }
}

/// The record of a subscription is the one record that encodes it.
impl FromSpecImpl<Subscription> for tipc_subscr {
    open spec fn obeys_from_spec() -> bool {
        true
    }

    open spec fn from_spec(sub: Subscription) -> Self {
        sub.record()
    }
}

/// Reading the record of a subscription gives the subscription back: the
/// range, the filter, the user data, and the timeout. No timeout comes back
/// as no timeout; a timeout comes back as its whole milliseconds, where these
/// are fewer than the number that stands for "never".
pub proof fn lemma_subscription_round_trip(sub: Subscription, raw: tipc_subscr)
    requires
        sub.is_encoded_by(raw),
    ensures
        Subscription::decoded(raw).service == sub.service,
        Subscription::decoded(raw).filter == sub.filter,
        Subscription::decoded(raw).userdata == sub.userdata,
        sub.timeout is None ==> Subscription::decoded(raw).timeout is None,
        sub.timeout is Some && sub.timeout->Some_0.millis() < WAIT_FOREVER ==> {
            let back = Subscription::decoded(raw).timeout;
            back is Some && back->Some_0.millis() == sub.timeout->Some_0.millis()
                && back->Some_0.wf()
        },
        sub.timeout is None || (sub.timeout->Some_0.wf() && sub.timeout->Some_0.nanos % 1_000_000
            == 0 && sub.timeout->Some_0.millis() < WAIT_FOREVER) ==> Subscription::decoded(raw)
            == sub,
{
    assert(1u32 & 1u32 == 1u32) by (bit_vector);
    assert(2u32 & 1u32 != 1u32) by (bit_vector);
}

/// A subscription has one record, and no other.
pub proof fn lemma_subscription_record(sub: Subscription, one: tipc_subscr, other: tipc_subscr)
    requires
        sub.is_encoded_by(one),
        sub.is_encoded_by(other),
    ensures
        one == other,
{
    lemma_ne_value_same(one.usr_handle@, other.usr_handle@);
    assert(one.usr_handle =~= other.usr_handle);
}

/// A subscription with no timeout, for edge events, is sent with the filter 2
/// and the timeout `0xFFFFFFFF`, and its eight bytes of user data spell the
/// user data in the byte order of the machine.
pub proof fn lemma_subscription_encoding(range: ServiceRange, userdata: u64, raw: tipc_subscr)
    requires
        (Subscription { service: range, timeout: None, filter: Filter::Edge, userdata }).is_encoded_by(
            raw,
        ),
    ensures
        raw.filter == 2,
        raw.timeout == 0xffff_ffff,
        raw.seq == range.0,
        ne_value(raw.usr_handle@) == userdata,
{
}

/// The subscription that follows the neighbour nodes.
pub fn neighbor_nodes() -> (r: Subscription)
    ensures
        r == (Subscription {
            service: ServiceRange::spec_new(TIPC_CFG_SRV, 0, u32::MAX),
            timeout: None,
            filter: Filter::All,
            userdata: 0,
        }),
{
    Subscription {
        service: ServiceRange::with_type(TIPC_CFG_SRV),
        timeout: None,
        filter: Filter::All,
        userdata: 0,
    }
}

/// The subscription that follows the links to the neighbours.
pub fn neighbor_links() -> (r: Subscription)
    ensures
        r == (Subscription {
            service: ServiceRange::spec_new(TIPC_LINK_STATE, 0, u32::MAX),
            timeout: None,
            filter: Filter::All,
            userdata: 0,
        }),
{
    Subscription {
        service: ServiceRange::with_type(TIPC_LINK_STATE),
        timeout: None,
        filter: Filter::All,
        userdata: 0,
    }
}

/// Where the topology service is reached: service (1, 1), looked up in `scope`.
pub fn connect(scope: Scope) -> (r: (ServiceAddr, Scope))
    ensures
        r == (ServiceAddr::spec_new(TIPC_TOP_SRV, TIPC_TOP_SRV), scope),
{
    (ServiceAddr::new(TIPC_TOP_SRV, TIPC_TOP_SRV), scope)
}

/// The record that subscribes.
pub fn subscribe(sub: Subscription) -> (r: tipc_subscr)
    ensures
        sub.is_encoded_by(r),
{
    sub.encode()
}

/// What sending a subscription came to: the subscription, where all 28 bytes
/// of its record were sent.
pub fn subscribed(sent: usize, sub: Subscription) -> (r: Result<Subscription, Error>)
    ensures
        sent == 28 ==> r == Ok::<Subscription, Error>(sub),
        sent != 28 ==> r == Err::<Subscription, Error>(Error::SubscribeFailed),
{
    if sent == TIPC_SUBSCR_SIZE {
        Ok(sub)
    } else {
        Err(Error::SubscribeFailed)
    }
}

/// The record that cancels a subscription: the record that subscribed, with
/// the cancel bit set in its filter.
pub fn unsubscribe(sub: Subscription) -> (r: tipc_subscr)
    ensures
        r.seq == sub.service.0,
        r.timeout == sub.raw_timeout(),
        r.filter == sub.filter.value() | TIPC_SUB_CANCEL,
        ne_value(r.usr_handle@) == sub.userdata,
{
    let raw = sub.encode();
    tipc_subscr { filter: raw.filter | TIPC_SUB_CANCEL, ..raw }
}

/// What sending a cancelling record came to.
pub fn unsubscribed(sent: usize) -> (r: Result<(), Error>)
    ensures
        sent == 28 ==> r == Ok::<(), Error>(()),
        sent != 28 ==> r == Err::<(), Error>(Error::UnsubscribeFailed),
{
    if sent == TIPC_SUBSCR_SIZE {
        Ok(())
    } else {
        Err(Error::UnsubscribeFailed)
    }
}

/// A change of the binding table, as the topology service reports it.
#[derive(Clone, Copy, Debug, PartialEq, Eq, Hash, Structural)]
pub enum Event {
    /// A matching binding was found in the binding table.
    Published {
        /// The part of the subscribed range that the binding covers.
        service: ServiceRange,
        /// The socket that is bound.
        sock: SocketAddr,
        /// The subscription that asked.
        subscription: Subscription,
    },
    /// A matching binding was removed from the binding table.
    Withdrawn {
        /// The part of the subscribed range that the binding covered.
        service: ServiceRange,
        /// The socket that was bound.
        sock: SocketAddr,
        /// The subscription that asked.
        subscription: Subscription,
    },
}

impl Event {
    /// Whether the event reports a binding that is there.
    pub open spec fn spec_available(&self) -> bool {
        self is Published
    }

    pub open spec fn spec_service(&self) -> ServiceRange {
        match self {
            Event::Published { service, .. } => *service,
            Event::Withdrawn { service, .. } => *service,
        }
    }

    pub open spec fn spec_sock(&self) -> SocketAddr {
        match self {
            Event::Published { sock, .. } => *sock,
            Event::Withdrawn { sock, .. } => *sock,
        }
    }

    pub open spec fn spec_subscription(&self) -> Subscription {
        match self {
            Event::Published { subscription, .. } => *subscription,
            Event::Withdrawn { subscription, .. } => *subscription,
        }
    }

    /// Whether the event reports a binding that is there.
    #[verifier::when_used_as_spec(spec_available)]
    pub fn available(&self) -> (r: bool)
        ensures
            r == self.spec_available(),
    {
        match self {
            Event::Published { .. } => true,
            Event::Withdrawn { .. } => false,
        }
    }

    /// The range of the binding.
    #[verifier::when_used_as_spec(spec_service)]
    pub fn service(&self) -> (r: ServiceRange)
        ensures
            r == self.spec_service(),
    {
        match self {
            Event::Published { service, .. } => *service,
            Event::Withdrawn { service, .. } => *service,
        }
    }

    /// The socket of the binding.
    #[verifier::when_used_as_spec(spec_sock)]
    pub fn sock(&self) -> (r: SocketAddr)
        ensures
            r == self.spec_sock(),
    {
        match self {
            Event::Published { sock, .. } => *sock,
            Event::Withdrawn { sock, .. } => *sock,
        }
    }

    /// The subscription that asked.
    pub fn subscription(&self) -> (r: &Subscription)
        ensures
            *r == self.spec_subscription(),
    {
        match self {
            Event::Published { subscription, .. } => subscription,
            Event::Withdrawn { subscription, .. } => subscription,
        }
    }

    /// What an event record says. The range of the event is of the subscribed
    /// type and runs from `found_lower` to `found_upper`.
    pub open spec fn decoded(raw: tipc_event) -> Result<Event, Error> {
        let service = ServiceRange::spec_new(raw.s.seq.type_, raw.found_lower, raw.found_upper);
        let sock = SocketAddr(raw.port);
        let subscription = Subscription::decoded(raw.s);
        if raw.event == TIPC_SUBSCR_TIMEOUT {
            Err(Error::TimedOut)
        } else if raw.event == TIPC_PUBLISHED {
            Ok(Event::Published { service, sock, subscription })
        } else if raw.event == TIPC_WITHDRAWN {
            Ok(Event::Withdrawn { service, sock, subscription })
        } else {
            Err(Error::UnexpectedEvent(raw.event))
        }
    }

    /// Reads an event record.
    pub fn decode(raw: &tipc_event) -> (r: Result<Event, Error>)
        ensures
            r == Self::decoded(*raw),
    {
        if raw.event == TIPC_SUBSCR_TIMEOUT {
            Err(Error::TimedOut)
        } else if raw.event == TIPC_PUBLISHED || raw.event == TIPC_WITHDRAWN {
            let service = ServiceRange::new(raw.s.seq.type_, raw.found_lower, raw.found_upper);
            let sock = SocketAddr(raw.port);
            let subscription = Subscription::decode(&raw.s);
            if raw.event == TIPC_PUBLISHED {
                Ok(Event::Published { service, sock, subscription })
            } else {
                Ok(Event::Withdrawn { service, sock, subscription })
            }
        } else {
            Err(Error::UnexpectedEvent(raw.event))
        }
    }

    /// What the event tells one who waits in `scope`: whether the service is
    /// there, or nothing where the scope is a node and the event is of
    /// another node.
    pub open spec fn spec_answer(&self, scope: Scope) -> Option<bool> {
        if scope is Node && scope.domain() != self.spec_sock().spec_node() {
            None
        } else {
            Some(self.spec_available())
        }
    }

    /// What the event tells one who waits in `scope`.
    #[verifier::when_used_as_spec(spec_answer)]
    pub fn answer(&self, scope: Scope) -> (r: Option<bool>)
        ensures
            r == self.spec_answer(scope),
    {
        match scope {
            Scope::Node(node) => {
                if node.get() != self.sock().node() {
                    return None;
                }
            },
            Scope::Global => {},
        }
        Some(self.available())
    }
}

/// What receiving an event came to: `size` bytes arrived, and `raw` holds
/// them. Anything but the 48 bytes of one record is a failure; a record that
/// reports the end of the subscription is the error `TimedOut`.
pub fn recv(size: usize, raw: &tipc_event) -> (r: Result<Event, Error>)
    ensures
        size != 48 ==> r == Err::<Event, Error>(Error::ReceiveFailed),
        size == 48 ==> r == Event::decoded(*raw),
{
    if size != TIPC_EVENT_SIZE {
        return Err(Error::ReceiveFailed);
    }
    Event::decode(raw)
}

/// A published event decodes to `Published`, a withdrawn one to `Withdrawn`,
/// each with the range from `found_lower` to `found_upper` of the subscribed
/// type; the end of a subscription decodes to an error of the kind `TimedOut`.
pub proof fn lemma_event_decoding(raw: tipc_event)
    ensures
        raw.event == 1 ==> Event::decoded(raw) == Ok::<Event, Error>(
            Event::Published {
                service: ServiceRange::spec_new(raw.s.seq.type_, raw.found_lower, raw.found_upper),
                sock: SocketAddr(raw.port),
                subscription: Subscription::decoded(raw.s),
            },
        ),
        raw.event == 2 ==> Event::decoded(raw) == Ok::<Event, Error>(
            Event::Withdrawn {
                service: ServiceRange::spec_new(raw.s.seq.type_, raw.found_lower, raw.found_upper),
                sock: SocketAddr(raw.port),
                subscription: Subscription::decoded(raw.s),
            },
        ),
        raw.event == 3 ==> Event::decoded(raw) is Err && Event::decoded(raw)->Err_0.spec_kind()
            == crate::error::ErrorKind::TimedOut,
        raw.event == 0 || raw.event > 3 ==> Event::decoded(raw) == Err::<Event, Error>(
            Error::UnexpectedEvent(raw.event),
        ),
{
}

/// The subscription that waiting for `service` sends: edge events for that
/// one service, for as long as `timeout` says.
pub fn wait_subscription(service: ServiceAddr, timeout: Option<Duration>) -> (r: Subscription)
    ensures
        r == (Subscription {
            service: ServiceRange::spec_new(service.0.type_, service.0.instance, service.0.instance),
            timeout,
            filter: Filter::Edge,
            userdata: 0,
        }),
{
    Subscription {
        service: ServiceRange::from(service),
        timeout,
        filter: Filter::Edge,
        userdata: 0,
    }
}

/// The answer that the events give, taken in their order: that of the first
/// event that has one.
pub open spec fn first_answer(scope: Scope, events: Seq<Event>) -> Option<bool>
    decreases events.len(),
{
    if events.len() == 0 {
        None
    } else {
        match events[0].spec_answer(scope) {
            Some(available) => Some(available),
            None => first_answer(scope, events.drop_first()),
        }
    }
}

/// Whether the service waited for in `scope` is there, going by the events
/// received so far in their order; `None` while no event has said so, and
/// more have to be received.
pub fn wait(scope: Scope, events: &[Event]) -> (r: Option<bool>)
    ensures
        r == first_answer(scope, events@),
{
    let mut i: usize = 0;
    proof {
        assert(events@.subrange(0, events.len() as int) =~= events@);
    }
    while i < events.len()
        invariant
            i <= events.len(),
            first_answer(scope, events@) == first_answer(
                scope,
                events@.subrange(i as int, events.len() as int),
            ),
        decreases events.len() - i,
    {
        let ghost rest = events@.subrange(i as int, events.len() as int);
        proof {
            assert(rest[0] == events[i as int]);
            assert(rest.drop_first() =~= events@.subrange(i + 1, events.len() as int));
        }
        match events[i].answer(scope) {
            Some(available) => {
                return Some(available);
            },
            None => {},
        }
        i = i + 1;
    }
    None
}

/// What one received record means to one who waits in `scope`: the end of
/// the waiting with its answer or with the error of the receive, or nothing
/// where the record is an event of another node and more have to be received.
pub open spec fn spec_wait_step(scope: Scope, size: usize, raw: tipc_event) -> Option<
    Result<bool, Error>,
> {
    if size != 48 {
        Some(Err(Error::ReceiveFailed))
    } else {
        match Event::decoded(raw) {
            Err(e) => Some(Err(e)),
            Ok(evt) => match evt.spec_answer(scope) {
                Some(available) => Some(Ok(available)),
                None => None,
            },
        }
    }
}

/// What one received record means to one who waits in `scope`: `size` bytes
/// arrived, and `raw` holds them. An error of the receive ends the waiting, a
/// subscription that ran out among them.
pub fn wait_step(scope: Scope, size: usize, raw: &tipc_event) -> (r: Option<Result<bool, Error>>)
    ensures
        r == spec_wait_step(scope, size, *raw),
{
    match recv(size, raw) {
        Err(e) => Some(Err(e)),
        Ok(evt) => match evt.answer(scope) {
            Some(available) => Some(Ok(available)),
            None => None,
        },
    }
}

/// Where the subscription runs out before a matching binding appears, the
/// record received says so, and the waiting ends with an error of the kind
/// `TimedOut`: it neither says that the service is not there nor goes on.
pub proof fn lemma_wait_timed_out(scope: Scope, raw: tipc_event)
    requires
        raw.event == 3,
    ensures
        spec_wait_step(scope, 48, raw) == Some(Err::<bool, Error>(Error::TimedOut)),
        Error::TimedOut.spec_kind() == crate::error::ErrorKind::TimedOut,
{
}

/// One who waits in the whole cluster is answered by the first event: with
/// `true` by a published one, with `false` by a withdrawn one.
pub proof fn lemma_wait_global(events: Seq<Event>)
    requires
        events.len() > 0,
    ensures
        first_answer(Scope::Global, events) == Some(events[0] is Published),
{
}

/// A neighbour node came up or went down.
#[derive(Clone, Copy, Debug, PartialEq, Eq, Hash, Structural)]
pub enum Node {
    Up(Instance),
    Down(Instance),
}

impl From<Event> for Node {
    fn from(event: Event) -> (r: Self) {
        let node = event.sock().node();
        if event.available() {
            Node::Up(node)
        } else {
            Node::Down(node)
        }
    }
}

/// The node of an event is the node of its socket.
impl FromSpecImpl<Event> for Node {
    open spec fn obeys_from_spec() -> bool {
        true
    }

    open spec fn from_spec(event: Event) -> Self {
        if event.spec_available() {
            Node::Up(event.spec_sock().spec_node())
        } else {
            Node::Down(event.spec_sock().spec_node())
        }
    }
}

impl Node {
    pub open spec fn spec_available(&self) -> bool {
        self is Up
    }

    pub open spec fn spec_instance(&self) -> Instance {
        match self {
            Node::Up(instance) => *instance,
            Node::Down(instance) => *instance,
        }
    }

    /// The node is available.
    #[verifier::when_used_as_spec(spec_available)]
    pub fn available(&self) -> (r: bool)
        ensures
            r == self.spec_available(),
    {
        match self {
            Node::Up(_) => true,
            Node::Down(_) => false,
        }
    }

    /// The node instance.
    #[verifier::when_used_as_spec(spec_instance)]
    pub fn instance(&self) -> (r: Instance)
        ensures
            r == self.spec_instance(),
    {
        match self {
            Node::Up(instance) => *instance,
            Node::Down(instance) => *instance,
        }
    }
}

/// A link to a neighbour came up or went down.
#[derive(Clone, Copy, Debug, PartialEq, Eq, Hash, Structural)]
pub enum Link {
    Up { local: BearerId, peer: BearerId, neighbor: Instance },
    Down { local: BearerId, peer: BearerId, neighbor: Instance },
}

impl From<Event> for Link {
    fn from(event: Event) -> (r: Self) {
        let port = event.sock().port();
        let local = port & 0xFFFF;
        let peer = (port >> 16) & 0xFFFF;
        let neighbor = event.service().lower();
        proof {
            assert(port & 0xFFFF == port % 0x1_0000) by (bit_vector);
            assert((port >> 16) & 0xFFFF == port / 0x1_0000) by (bit_vector);
        }
        if event.available() {
            Link::Up { local, peer, neighbor }
        } else {
            Link::Down { local, peer, neighbor }
        }
    }
}

/// The link of an event: the low half of the port is the local bearer, the
/// high half the peer's, and the lower end of the range is the neighbour.
impl FromSpecImpl<Event> for Link {
    open spec fn obeys_from_spec() -> bool {
        true
    }

    open spec fn from_spec(event: Event) -> Self {
        let port = event.spec_sock().spec_port();
        let local = port % 0x1_0000;
        let peer = port / 0x1_0000;
        let neighbor = event.spec_service().spec_lower();
        if event.spec_available() {
            Link::Up { local, peer, neighbor }
        } else {
            Link::Down { local, peer, neighbor }
        }
    }
}

impl Link {
    pub open spec fn spec_available(&self) -> bool {
        self is Up
    }

    pub open spec fn spec_local_bearer_id(&self) -> BearerId {
        match self {
            Link::Up { local, .. } => *local,
            Link::Down { local, .. } => *local,
        }
    }

    pub open spec fn spec_peer_bearer_id(&self) -> BearerId {
        match self {
            Link::Up { peer, .. } => *peer,
            Link::Down { peer, .. } => *peer,
        }
    }

    pub open spec fn spec_neighbor(&self) -> Instance {
        match self {
            Link::Up { neighbor, .. } => *neighbor,
            Link::Down { neighbor, .. } => *neighbor,
        }
    }

    /// The link is available.
    #[verifier::when_used_as_spec(spec_available)]
    pub fn available(&self) -> (r: bool)
        ensures
            r == self.spec_available(),
    {
        match self {
            Link::Up { .. } => true,
            Link::Down { .. } => false,
        }
    }

    /// The local link bearer id.
    #[verifier::when_used_as_spec(spec_local_bearer_id)]
    pub fn local_bearer_id(&self) -> (r: BearerId)
        ensures
            r == self.spec_local_bearer_id(),
    {
        match self {
            Link::Up { local, .. } => *local,
            Link::Down { local, .. } => *local,
        }
    }

    /// The peer link bearer id.
    #[verifier::when_used_as_spec(spec_peer_bearer_id)]
    pub fn peer_bearer_id(&self) -> (r: BearerId)
        ensures
            r == self.spec_peer_bearer_id(),
    {
        match self {
            Link::Up { peer, .. } => *peer,
            Link::Down { peer, .. } => *peer,
        }
    }

    /// The neighbour node at the other end.
    #[verifier::when_used_as_spec(spec_neighbor)]
    pub fn neighbor(&self) -> (r: Instance)
        ensures
            r == self.spec_neighbor(),
    {
        match self {
            Link::Up { neighbor, .. } => *neighbor,
            Link::Down { neighbor, .. } => *neighbor,
        }
    }

    /// The question for the name of the link at the local end: the neighbour
    /// as the peer, and the local bearer.
    pub fn local_link_name(&self) -> (r: tipc_sioc_ln_req)
        ensures
            r.peer == self.spec_neighbor(),
            r.bearer_id == self.spec_local_bearer_id(),
            forall|i: int| 0 <= i < 60 ==> r.linkname[i] == 0,
    {
        link_name(self.neighbor(), self.local_bearer_id())
    }

    /// The question for the name of the link at the peer's end: the neighbour
    /// as the peer, and the peer's bearer.
    pub fn peer_link_name(&self) -> (r: tipc_sioc_ln_req)
        ensures
            r.peer == self.spec_neighbor(),
            r.bearer_id == self.spec_peer_bearer_id(),
            forall|i: int| 0 <= i < 60 ==> r.linkname[i] == 0,
    {
        link_name(self.neighbor(), self.peer_bearer_id())
    }
}

/// The question for the name of the link to `peer` over the bearer
/// `bearer_id`, with the room for the answer zeroed.
pub fn link_name(peer: Instance, bearer_id: BearerId) -> (r: tipc_sioc_ln_req)
    ensures
        r.peer == peer,
        r.bearer_id == bearer_id,
        forall|i: int| 0 <= i < 60 ==> r.linkname[i] == 0,
{
    tipc_sioc_ln_req { peer, bearer_id, linkname: [0u8;60] }
}

} // verus!
