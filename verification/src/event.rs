//! The events that a supervisor sends out about its services.
//!
//! The stream is an explicit value that the owner of the supervisors holds
//! and hands to each call. This module decides whether an event goes out
//! and what it carries; connecting to the event service, encoding an event
//! and sending it are the caller's part.

use vstd::prelude::*;
use vstd::string::*;

verus! {

/// A point in time on the wall clock, as the standard library reports it.
/// Events carry it through to whoever encodes them.
#[verifier::external_type_specification]
#[verifier::external_body]
pub struct ExSystemTime(std::time::SystemTime);

/// Reads the wall clock with `std::time::SystemTime::now`. Nothing is
/// claimed of the value.
#[verifier::external_body]
fn wall_clock() -> (now: std::time::SystemTime) {
    std::time::SystemTime::now()
}

/// Why the event stream could not be set up.
#[derive(Debug, Clone, Copy, PartialEq, Eq, Structural)]
pub enum EventError {
    /// The connection to the event service could not be made.
    ConnectFailed,
}

/// The outcome of a health check of a service.
#[derive(Debug, Clone, Copy, PartialEq, Eq, Structural)]
pub enum HealthCheck {
    Healthy,
    Warning,
    Critical,
    Unknown,
}

/// What the user configures for the event stream.
#[derive(Debug)]
pub struct EventStreamConfig {
    pub environment: String,
    pub application: String,
    pub meta: Vec<(String, String)>,
    pub token: String,
    pub url: String,
}

/// What is needed to connect to the event service.
#[derive(Debug)]
pub struct EventConnectionInfo {
    pub name: String,
    pub verbose: bool,
    pub cluster_uri: String,
    pub cluster_id: String,
    pub auth_token: String,
}

/// What every event of one supervisor carries: who sends it and for which
/// application and environment.
#[derive(Debug)]
pub struct EventCore {
    pub supervisor_id: String,
    pub ip_address: String,
    pub fqdn: String,
    pub application: String,
    pub environment: String,
    pub meta: Vec<(String, String)>,
}

/// The sender's part of one event: the core, and when the event went out.
#[derive(Debug)]
pub struct EventMetadata {
    pub timestamp: Option<std::time::SystemTime>,
    pub supervisor_id: String,
    pub ip_address: String,
    pub fqdn: String,
    pub application: String,
    pub environment: String,
    pub meta: Vec<(String, String)>,
}

/// What an event reports.
#[derive(Debug)]
pub enum EventKind {
    /// A service has been started.
    ServiceStarted,
    /// A service has been stopped.
    ServiceStopped,
    /// A health check of a service has run.
    HealthCheck { result: HealthCheck, duration: Option<std::time::Duration>, has_hook: bool },
}

/// One event, about the service that `service_metadata` describes.
#[derive(Debug)]
pub struct Event<M> {
    pub kind: EventKind,
    pub service_metadata: Option<M>,
    pub event_metadata: Option<EventMetadata>,
}

/// The event stream of one supervisor process. It is set up at most once:
/// `attempted` is set by the first call of `init_stream`, and `core` is
/// filled only when the connection that this call asked for was made.
#[derive(Debug)]
pub struct EventStream {
    pub attempted: bool,
    pub core: Option<EventCore>,
}

/// A copy of a list of key and value pairs.
fn copy_pairs(pairs: &Vec<(String, String)>) -> (copy: Vec<(String, String)>)
    ensures
        copy@ == pairs@,
{
    let mut copy: Vec<(String, String)> = Vec::new();
    let mut i: usize = 0;
    while i < pairs.len()
        invariant
            i <= pairs.len(),
            copy@ == pairs@.take(i as int),
        decreases pairs.len() - i,
    {
        let pair = &pairs[i];
        copy.push((pair.0.clone(), pair.1.clone()));
        i = i + 1;
        assert(copy@ =~= pairs@.take(i as int));
    }
    assert(pairs@.take(pairs.len() as int) =~= pairs@);
    copy
}

impl EventStreamConfig {
    /// The configuration made of the five settings given.
    pub fn new(
        environment: String,
        application: String,
        meta: Vec<(String, String)>,
        token: String,
        url: String,
    ) -> (r: EventStreamConfig)
        ensures
            r.environment == environment,
            r.application == application,
            r.meta == meta,
            r.token == token,
            r.url == url,
    {
        EventStreamConfig { environment, application, meta, token, url }
    }
}

impl EventConnectionInfo {
    /// Whether these are the connection settings for a client that
    /// authenticates with `auth_token` at the cluster `cluster_uri`: the
    /// client is named `hab_client`, is verbose, and joins the cluster
    /// `event-service`.
    pub open spec fn connects(&self, auth_token: Seq<char>, cluster_uri: Seq<char>) -> bool {
        &&& self.name@ == "hab_client"@
        &&& self.verbose
        &&& self.cluster_uri@ == cluster_uri
        &&& self.cluster_id@ == "event-service"@
        &&& self.auth_token@ == auth_token
    }

    /// The connection settings for a client that authenticates with
    /// `auth_token` at the cluster `cluster_uri`.
    pub fn new(auth_token: String, cluster_uri: String) -> (r: EventConnectionInfo)
        ensures
            r.connects(auth_token@, cluster_uri@),
    {
        EventConnectionInfo {
            name: String::from_str("hab_client"),
            verbose: true,
            cluster_uri,
            cluster_id: String::from_str("event-service"),
            auth_token,
        }
    }
}

impl EventCore {
    /// Whether the core names the sender given and carries the application,
    /// the environment and the metadata of `config`.
    pub open spec fn is_of(
        &self,
        config: &EventStreamConfig,
        supervisor_id: Seq<char>,
        ip_address: Seq<char>,
        fqdn: Seq<char>,
    ) -> bool {
        &&& self.supervisor_id@ == supervisor_id
        &&& self.ip_address@ == ip_address
        &&& self.fqdn@ == fqdn
        &&& self.application@ == config.application@
        &&& self.environment@ == config.environment@
        &&& self.meta@ == config.meta@
    }

    /// The core for the events of the supervisor `supervisor_id`, which
    /// listens at `ip_address` on the host `fqdn`, under the configuration
    /// `config`.
    pub fn new(
        config: &EventStreamConfig,
        supervisor_id: String,
        ip_address: String,
        fqdn: String,
    ) -> (r: EventCore)
        ensures
            r.is_of(config, supervisor_id@, ip_address@, fqdn@),
    {
        EventCore {
            supervisor_id,
            ip_address,
            fqdn,
            application: config.application.clone(),
            environment: config.environment.clone(),
            meta: copy_pairs(&config.meta),
        }
    }

    /// The sender's part of an event, not yet stamped with a time.
    pub fn to_event_metadata(&self) -> (r: EventMetadata)
        ensures
            r.is_from(self, None),
    {
        EventMetadata {
            timestamp: None,
            supervisor_id: self.supervisor_id.clone(),
            ip_address: self.ip_address.clone(),
            fqdn: self.fqdn.clone(),
            application: self.application.clone(),
            environment: self.environment.clone(),
            meta: copy_pairs(&self.meta),
        }
    }
}

impl EventMetadata {
    /// Whether the metadata carries what `core` holds, field by field, and
    /// the time `timestamp`.
    pub open spec fn is_from(
        &self,
        core: &EventCore,
        timestamp: Option<std::time::SystemTime>,
    ) -> bool {
        &&& self.timestamp == timestamp
        &&& self.supervisor_id@ == core.supervisor_id@
        &&& self.ip_address@ == core.ip_address@
        &&& self.fqdn@ == core.fqdn@
        &&& self.application@ == core.application@
        &&& self.environment@ == core.environment@
        &&& self.meta@ == core.meta@
    }
}

impl<M> Event<M> {
    /// Whether this is the event that goes out when `event` is published at
    /// `timestamp` on a stream with the core `core`: the same report on the
    /// same service, with the sender's part filled in from the core and the
    /// time.
    pub open spec fn is_published(
        &self,
        event: Event<M>,
        core: &EventCore,
        timestamp: std::time::SystemTime,
    ) -> bool {
        &&& self.kind == event.kind
        &&& self.service_metadata == event.service_metadata
        &&& self.event_metadata matches Some(metadata)
        &&& metadata.is_from(core, Some(timestamp))
    }
}

impl EventStream {
    /// Whether events go out on the stream.
    pub open spec fn spec_initialized(&self) -> bool {
        self.core is Some
    }

    /// A stream that has not been set up: no event goes out on it.
    pub fn new() -> (r: EventStream)
        ensures
            !r.attempted,
            r.core is None,
    {
        EventStream { attempted: false, core: None }
    }

    /// Whether events go out on the stream.
    pub fn stream_initialized(&self) -> (r: bool)
        ensures
            r == self.spec_initialized(),
    {
        self.core.is_some()
    }
}

/// Sets out to set up the stream. The first call on a stream asks for the
/// connection that `config` describes; every later call asks for nothing,
/// whether or not the first connection was made.
pub fn init_stream(stream: &mut EventStream, config: EventStreamConfig) -> (r: Option<
    EventConnectionInfo,
>)
    ensures
        final(stream).attempted,
        final(stream).core == old(stream).core,
        old(stream).attempted ==> r is None,
        !old(stream).attempted ==> (r matches Some(info) && info.connects(config.token@, config.url@)),
{
    if stream.attempted {
        None
    } else {
        stream.attempted = true;
        Some(EventConnectionInfo::new(config.token, config.url))
    }
}

/// Takes in whether the connection that `init_stream` asked for was made.
/// If it was, the stream is set up with `event_core` and events go out from
/// now on; if not, the stream stays as it is and the failure is returned.
pub fn stream_connected(stream: &mut EventStream, event_core: EventCore, connected: bool) -> (r:
    Result<(), EventError>)
    ensures
        final(stream).attempted == old(stream).attempted,
        connected ==> r is Ok && final(stream).core == Some(event_core),
        !connected ==> r == Err::<(), EventError>(EventError::ConnectFailed) && final(stream).core
            == old(stream).core,
{
    if connected {
        stream.core = Some(event_core);
        Ok(())
    } else {
        Err(EventError::ConnectFailed)
    }
}

/// Publishes `event` at `timestamp`: on a stream that is set up the event
/// is returned for sending, with the sender's part filled in; on any other
/// stream nothing is returned.
pub fn publish_at<M>(stream: &EventStream, event: Event<M>, timestamp: std::time::SystemTime) -> (r:
    Option<Event<M>>)
    ensures
        stream.core is None ==> r is None,
        stream.core matches Some(core) ==> (r matches Some(out) && out.is_published(
            event,
            &core,
            timestamp,
        )),
{
    match &stream.core {
        Some(core) => {
            let mut metadata = core.to_event_metadata();
            metadata.timestamp = Some(timestamp);
            Some(
                Event {
                    kind: event.kind,
                    service_metadata: event.service_metadata,
                    event_metadata: Some(metadata),
                },
            )
        },
        None => None,
    }
}

/// Publishes `event`, stamped with the current reading of the wall clock.
pub fn publish<M>(stream: &EventStream, event: Event<M>) -> (r: Option<Event<M>>)
    ensures
        stream.core is None ==> r is None,
        stream.core matches Some(core) ==> (r matches Some(out) && exists|
            timestamp: std::time::SystemTime,
        | #[trigger] out.is_published(event, &core, timestamp)),
{
    let timestamp = wall_clock();
    publish_at(stream, event, timestamp)
}

/// The event for the start of the service that `service_metadata`
/// describes, as it is handed to `publish`.
pub open spec fn started_event<M>(service_metadata: M) -> Event<M> {
    Event {
        kind: EventKind::ServiceStarted,
        service_metadata: Some(service_metadata),
        event_metadata: None,
    }
}

/// The event for the stop of the service that `service_metadata`
/// describes, as it is handed to `publish`.
pub open spec fn stopped_event<M>(service_metadata: M) -> Event<M> {
    Event {
        kind: EventKind::ServiceStopped,
        service_metadata: Some(service_metadata),
        event_metadata: None,
    }
}

/// The event for a health check of the service that `service_metadata`
/// describes, as it is handed to `publish`.
pub open spec fn health_check_event<M>(
    service_metadata: M,
    check_result: HealthCheck,
    duration: std::time::Duration,
    has_hook: bool,
) -> Event<M> {
    Event {
        kind: EventKind::HealthCheck { result: check_result, duration: Some(duration), has_hook },
        service_metadata: Some(service_metadata),
        event_metadata: None,
    }
}

/// Sends an event for the start of a service, if the stream is set up.
pub fn service_started<M>(stream: &EventStream, service_metadata: M) -> (r: Option<Event<M>>)
    ensures
        stream.core is None ==> r is None,
        stream.core matches Some(core) ==> (r matches Some(out) && exists|
            timestamp: std::time::SystemTime,
        | #[trigger] out.is_published(started_event(service_metadata), &core, timestamp)),
{
    if stream.stream_initialized() {
        publish(
            stream,
            Event {
                kind: EventKind::ServiceStarted,
                service_metadata: Some(service_metadata),
                event_metadata: None,
            },
        )
    } else {
        None
    }
}

/// Sends an event for the stop of a service, if the stream is set up.
pub fn service_stopped<M>(stream: &EventStream, service_metadata: M) -> (r: Option<Event<M>>)
    ensures
        stream.core is None ==> r is None,
        stream.core matches Some(core) ==> (r matches Some(out) && exists|
            timestamp: std::time::SystemTime,
        | #[trigger] out.is_published(stopped_event(service_metadata), &core, timestamp)),
{
    if stream.stream_initialized() {
        publish(
            stream,
            Event {
                kind: EventKind::ServiceStopped,
                service_metadata: Some(service_metadata),
                event_metadata: None,
            },
        )
    } else {
        None
    }
}

/// Sends an event for a health check of a service, if the stream is set
/// up.
pub fn health_check<M>(
    stream: &EventStream,
    service_metadata: M,
    check_result: HealthCheck,
    duration: std::time::Duration,
    has_hook: bool,
) -> (r: Option<Event<M>>)
    ensures
        stream.core is None ==> r is None,
        stream.core matches Some(core) ==> (r matches Some(out) && exists|
            timestamp: std::time::SystemTime,
        | #[trigger]
            out.is_published(
                health_check_event(service_metadata, check_result, duration, has_hook),
                &core,
                timestamp,
            )),
{
    if stream.stream_initialized() {
        publish(
            stream,
            Event {
                kind: EventKind::HealthCheck {
                    result: check_result,
                    duration: Some(duration),
                    has_hook,
                },
                service_metadata: Some(service_metadata),
                event_metadata: None,
            },
        )
    } else {
        None
    }
}

} // verus!
