//! The producer facade: configuration, destination resolution, lazy sender
//! and management-link state, and the preparation of submissions.
//!
//! A send request resolves its target path (the destination's base URL, or
//! a partition-specific one), obtains the cached or newly attached sender
//! for that path, and is submitted with an explicit format tag — the
//! single-message tag for one message, the reserved batch tag for a batch
//! envelope. The network legs — transport handshake, token exchange,
//! session and link attach, the transfer itself — are driven by the caller
//! around these functions; everything decided here is decided exactly.

use vstd::prelude::*;

use crate::batch::{EventDataBatch, EventDataBatchOptions};
use crate::cache::{spec_find, SenderCache};
use crate::connection::{ConnectionManager, ConnectionState};
use crate::error::{ErrorKind, EventHubsError};
use crate::retry::RetryOptions;

verus! {

/// The link name suffix and default application identity used to name
/// sender links deterministically.
pub const DEFAULT_EVENTHUBS_APPLICATION: &'static str = "DefaultApplicationName";

/// The serialized form of the URL that `s` parses to, when it parses at
/// all. A URL's serialized form is a function of the text alone.
pub uninterp spec fn parsed_url(s: Seq<char>) -> Option<Seq<char>>;

/// Relies on `url::Url::parse` (through the service SDK's re-export),
/// whose result is rendered back to text with the URL's serialization:
/// absolute-URL text in, its serialized form out, or nothing when the text
/// does not parse. The outcome is a function of the text alone.
#[verifier::external_body]
fn normalize_url(s: &str) -> (r: Option<String>)
    ensures
        match r {
            Option::Some(u) => parsed_url(s@) == Option::Some(u@),
            Option::None => parsed_url(s@) is None,
        },
{
    match azure_core::http::Url::parse(s) {
        Ok(u) => Option::Some(u.to_string()),
        Err(_) => Option::None,
    }
}

/// Relies on `uuid::Uuid::new_v4` (through the service SDK's re-export): a
/// fresh random version-4 UUID, rendered in its hyphenated form of 36
/// characters. The value is random; nothing more is assumed of it.
#[verifier::external_body]
fn new_message_id() -> (r: String)
    ensures
        r@.len() == 36,
{
    azure_core::Uuid::new_v4().to_string()
}

/// One event, as a caller hands it in: an opaque payload and optional
/// application-level identity.
#[derive(Clone, Debug, PartialEq, Eq, Default)]
pub struct EventData {
    /// The payload.
    pub body: Vec<u8>,
    /// The application-level message id, used by the service for
    /// end-to-end duplicate detection.
    pub message_id: Option<String>,
}

/// A message ready for submission over a link.
#[derive(Clone, Debug, PartialEq, Eq)]
pub struct AmqpMessage {
    /// The payload.
    pub body: Vec<u8>,
    /// The application-level message id.
    pub message_id: Option<String>,
}

/// Readies an event for sending: the payload is taken unmodified, and an
/// event lacking a message id is assigned a freshly generated, non-empty
/// one. This happens once per logical send — retries of the same send
/// reuse the message, id included.
pub fn prepare_send_event(event: EventData) -> (m: AmqpMessage)
    ensures
        m.body == event.body,
        match event.message_id {
            Option::Some(id) => m.message_id == Option::Some(id),
            Option::None => m.message_id matches Option::Some(g) && g@.len() == 36,
        },
{
    let message_id = match event.message_id {
        Option::Some(id) => Option::Some(id),
        Option::None => Option::Some(new_message_id()),
    };
    AmqpMessage { body: event.body, message_id }
}

/// Options used when sending an event: the partition to pin the event to,
/// when the service should not pick one.
#[derive(Default, Debug)]
pub struct SendEventOptions {
    /// The id of the partition to which the event should be sent.
    pub partition_id: Option<String>,
}

/// Options used when sending a message: the partition to pin the message
/// to, when the service should not pick one.
#[derive(Default, Debug)]
pub struct SendMessageOptions {
    /// The id of the partition to which the message should be sent.
    pub partition_id: Option<String>,
}

impl From<SendEventOptions> for SendMessageOptions {
    fn from(options: SendEventOptions) -> (r: Self) {
        SendMessageOptions { partition_id: options.partition_id }
    }
}

impl vstd::std_specs::convert::FromSpecImpl<SendEventOptions> for SendMessageOptions {
    open spec fn obeys_from_spec() -> bool {
        true
    }

    open spec fn from_spec(options: SendEventOptions) -> Self {
        SendMessageOptions { partition_id: options.partition_id }
    }
}

/// Options that can be set when submitting a batch.
#[derive(Default, Debug, Clone)]
pub struct SendBatchOptions {}

/// The path of the partition-specific destination under `base`.
pub open spec fn spec_partition_path(base: Seq<char>, partition_id: Seq<char>) -> Seq<char> {
    base + "/Partitions/"@ + partition_id
}

/// The path of the management node under `base`.
pub open spec fn spec_management_path(base: Seq<char>) -> Seq<char> {
    base + "/$management"@
}

/// One submission, ready for the link: where it goes and how its payload
/// is tagged.
#[derive(Debug, PartialEq, Eq)]
pub struct Submission {
    /// The resolved destination path.
    pub target_path: String,
    /// The numeric format tag the payload carries.
    pub message_format: u32,
}

/// A client that sends events to one destination of an event streaming
/// service, over lazily-created, cached sender links.
pub struct ProducerClient {
    endpoint: String,
    eventhub: String,
    application_id: Option<String>,
    retry_options: RetryOptions,
    custom_endpoint: Option<String>,
    connection: ConnectionManager,
    senders: SenderCache,
    management_attached: bool,
}

impl ProducerClient {
    /// The destination's base URL text.
    pub closed spec fn spec_endpoint(&self) -> Seq<char> {
        self.endpoint@
    }

    /// The destination's name.
    pub closed spec fn spec_eventhub(&self) -> Seq<char> {
        self.eventhub@
    }

    /// The application identity, when the caller set one.
    pub closed spec fn spec_application_id(&self) -> Option<String> {
        self.application_id
    }

    /// The retry policy the producer was constructed with.
    pub closed spec fn spec_retry_options(&self) -> RetryOptions {
        self.retry_options
    }

    /// The custom endpoint override, when the caller set one.
    pub closed spec fn spec_custom_endpoint(&self) -> Option<String> {
        self.custom_endpoint
    }

    /// The paths with cached senders, in attach order.
    pub closed spec fn spec_senders(&self) -> Seq<Seq<char>> {
        self.senders.view()
    }

    /// The connection's place in its lifecycle.
    pub closed spec fn spec_connection_state(&self) -> ConnectionState {
        self.connection.spec_state()
    }

    /// The paths authorized on the connection, in request order.
    pub closed spec fn spec_authorized(&self) -> Seq<Seq<char>> {
        self.connection.spec_authorized()
    }

    /// Whether the management link has been attached.
    pub closed spec fn spec_management_attached(&self) -> bool {
        self.management_attached
    }

    /// The producer's configuration is unchanged between two states.
    pub open spec fn spec_config_unchanged(pre: &Self, post: &Self) -> bool {
        &&& post.spec_endpoint() == pre.spec_endpoint()
        &&& post.spec_eventhub() == pre.spec_eventhub()
        &&& post.spec_application_id() == pre.spec_application_id()
        &&& post.spec_retry_options() == pre.spec_retry_options()
        &&& post.spec_custom_endpoint() == pre.spec_custom_endpoint()
    }

    /// The retry policy is usable and no path has two cached senders.
    pub closed spec fn wf(&self) -> bool {
        &&& self.retry_options.wf()
        &&& self.senders.wf()
    }

    /// Creates a producer for the destination at `endpoint`, with no
    /// connection, no cached sender and no management link yet.
    pub fn new(
        endpoint: String,
        eventhub: String,
        application_id: Option<String>,
        retry_options: RetryOptions,
        custom_endpoint: Option<String>,
    ) -> (p: Self)
        requires
            retry_options.wf(),
        ensures
            p.wf(),
            p.spec_endpoint() == endpoint@,
            p.spec_eventhub() == eventhub@,
            p.spec_application_id() == application_id,
            p.spec_retry_options() == retry_options,
            p.spec_custom_endpoint() == custom_endpoint,
            p.spec_senders() == Seq::<Seq<char>>::empty(),
            p.spec_connection_state() == ConnectionState::Absent,
            p.spec_authorized() == Seq::<Seq<char>>::empty(),
            !p.spec_management_attached(),
    {
        ProducerClient {
            endpoint,
            eventhub,
            application_id,
            retry_options,
            custom_endpoint,
            connection: ConnectionManager::new(),
            senders: SenderCache::new(),
            management_attached: false,
        }
    }

    /// Returns a builder which can be used to create a new producer.
    pub fn builder() -> (b: ProducerClientBuilder)
        ensures
            b.spec_application_id() is None,
            b.spec_retry_options() is None,
            b.spec_custom_endpoint() is None,
    {
        ProducerClientBuilder::new()
    }

    /// The destination's base URL text.
    pub fn base_url(&self) -> (r: &String)
        ensures
            r@ == self.spec_endpoint(),
    {
        &self.endpoint
    }

    /// The retry policy the producer was constructed with.
    pub fn retry_options(&self) -> (r: &RetryOptions)
        ensures
            *r == self.spec_retry_options(),
    {
        &self.retry_options
    }

    /// The name under which this producer attaches sender links: derived
    /// deterministically from the application identity, or from the
    /// default identity when none was set.
    pub fn sender_link_name(&self) -> (r: String)
        ensures
            r@ == match self.spec_application_id() {
                Option::Some(a) => a@ + "-rust-sender"@,
                Option::None => "DefaultApplicationName"@ + "-rust-sender"@,
            },
    {
        let base = match &self.application_id {
            Option::Some(a) => a.clone(),
            Option::None => String::from_str(DEFAULT_EVENTHUBS_APPLICATION),
        };
        base.concat("-rust-sender")
    }

    /// Resolves the path a send targets: the destination's base URL, or
    /// its partition-specific resource when the caller pinned a partition.
    /// A partition path that does not parse as a URL is refused.
    pub fn resolve_target(&self, partition_id: &Option<String>) -> (r: Result<
        String,
        EventHubsError,
    >)
        ensures
            match *partition_id {
                Option::None => r matches Ok(u) && u@ == self.spec_endpoint(),
                Option::Some(pid) => match parsed_url(
                    spec_partition_path(self.spec_endpoint(), pid@),
                ) {
                    Option::Some(u) => r matches Ok(s) && s@ == u,
                    Option::None => r == Err::<String, EventHubsError>(EventHubsError {
                        kind: ErrorKind::InvalidUrl,
                    }),
                },
            },
    {
        match partition_id {
            Option::None => Ok(self.endpoint.clone()),
            Option::Some(pid) => {
                let candidate = self.endpoint.clone().concat("/Partitions/").concat(pid.as_str());
                match normalize_url(candidate.as_str()) {
                    Option::Some(u) => Ok(u),
                    Option::None => Err(EventHubsError { kind: ErrorKind::InvalidUrl }),
                }
            },
        }
    }

    /// Returns the sender for `path`, attaching one first when none is
    /// cached yet: for a new path the connection is ensured, the path is
    /// authorized, and the new sender is cached; a path already cached is
    /// returned as it stands, touching nothing. The result is the sender's
    /// identity and whether this call attached it.
    pub fn ensure_sender(&mut self, path: &String) -> (r: Result<(usize, bool), EventHubsError>)
        requires
            old(self).wf(),
        ensures
            final(self).wf(),
            Self::spec_config_unchanged(old(self), final(self)),
            final(self).spec_management_attached() == old(self).spec_management_attached(),
            match spec_find(old(self).spec_senders(), path@) {
                Option::Some(i) => {
                    &&& r matches Ok(v) && v.0 as int == i && v.1 == false
                    &&& final(self).spec_senders() == old(self).spec_senders()
                    &&& final(self).spec_connection_state() == old(self).spec_connection_state()
                    &&& final(self).spec_authorized() == old(self).spec_authorized()
                },
                Option::None => match old(self).spec_connection_state() {
                    ConnectionState::Closed => {
                        &&& r == Err::<(usize, bool), EventHubsError>(EventHubsError {
                            kind: ErrorKind::ConnectionClosed,
                        })
                        &&& final(self).spec_senders() == old(self).spec_senders()
                        &&& final(self).spec_connection_state() == ConnectionState::Closed
                        &&& final(self).spec_authorized() == old(self).spec_authorized()
                    },
                    _ => {
                        &&& r matches Ok(v) && v.0 as int == old(self).spec_senders().len()
                            && v.1 == true
                        &&& final(self).spec_senders() == old(self).spec_senders().push(path@)
                        &&& final(self).spec_connection_state() == ConnectionState::Open
                        &&& final(self).spec_authorized() == old(self).spec_authorized().push(
                            path@,
                        )
                    },
                },
            },
    {
        match self.senders.lookup(path) {
            Option::Some(i) => Ok((i, false)),
            Option::None => {
                match self.connection.ensure_connection() {
                    Ok(_) => {},
                    Err(e) => {
                        return Err(e);
                    },
                }
                match self.connection.authorize_path(path) {
                    Ok(()) => {},
                    Err(e) => {
                        return Err(e);
                    },
                }
                let r = self.senders.ensure_sender(path);
                Ok(r)
            },
        }
    }

    /// Ensures the management link is attached: if it already is, nothing
    /// happens; otherwise the management path is authorized on the open
    /// connection and the link is recorded as attached. The management
    /// link requires a live connection: callers must have ensured the
    /// connection first.
    pub fn ensure_management_client(&mut self) -> (r: Result<bool, EventHubsError>)
        ensures
            Self::spec_config_unchanged(old(self), final(self)),
            final(self).spec_senders() == old(self).spec_senders(),
            final(self).spec_connection_state() == old(self).spec_connection_state(),
            final(self).wf() == old(self).wf(),
            if old(self).spec_management_attached() {
                &&& r == Ok::<bool, EventHubsError>(false)
                &&& final(self).spec_management_attached()
                &&& final(self).spec_authorized() == old(self).spec_authorized()
            } else if old(self).spec_connection_state() != ConnectionState::Open {
                &&& r == Err::<bool, EventHubsError>(EventHubsError {
                    kind: ErrorKind::ConnectionClosed,
                })
                &&& !final(self).spec_management_attached()
                &&& final(self).spec_authorized() == old(self).spec_authorized()
            } else {
                match parsed_url(spec_management_path(old(self).spec_endpoint())) {
                    Option::Some(u) => {
                        &&& r == Ok::<bool, EventHubsError>(true)
                        &&& final(self).spec_management_attached()
                        &&& final(self).spec_authorized() == old(self).spec_authorized().push(u)
                    },
                    Option::None => {
                        &&& r == Err::<bool, EventHubsError>(EventHubsError {
                            kind: ErrorKind::InvalidUrl,
                        })
                        &&& !final(self).spec_management_attached()
                        &&& final(self).spec_authorized() == old(self).spec_authorized()
                    },
                }
            },
    {
        if self.management_attached {
            return Ok(false);
        }
        if !self.connection.connection_ready() {
            return Err(EventHubsError { kind: ErrorKind::ConnectionClosed });
        }
        let candidate = self.endpoint.clone().concat("/$management");
        match normalize_url(candidate.as_str()) {
            Option::None => Err(EventHubsError { kind: ErrorKind::InvalidUrl }),
            Option::Some(management_path) => {
                match self.connection.authorize_path(&management_path) {
                    Ok(()) => {},
                    Err(e) => {
                        return Err(e);
                    },
                }
                self.management_attached = true;
                Ok(true)
            },
        }
    }

    /// Creates a new, empty batch targeting this producer's destination.
    /// `negotiated_max` is the envelope size the link allows; the options
    /// may narrow it or pin a partition.
    pub fn create_batch(&self, batch_options: EventDataBatchOptions, negotiated_max: u64) -> (b:
        EventDataBatch)
        ensures
            b.wf(),
            b.view() == Seq::<Seq<u8>>::empty(),
            b.spec_max_size() == match batch_options.max_size_in_bytes {
                Option::Some(m) => m,
                Option::None => negotiated_max,
            },
            b.spec_partition_id() == batch_options.partition_id,
    {
        EventDataBatch::new(batch_options, negotiated_max)
    }

    /// Readies a single-message submission: the target path resolved from
    /// the options, and the single-message format tag.
    pub fn prepare_message_submission(&self, options: &SendMessageOptions) -> (r: Result<
        Submission,
        EventHubsError,
    >)
        ensures
            r matches Ok(s) ==> s.message_format == crate::SINGLE_MESSAGE_FORMAT,
            match options.partition_id {
                Option::None => r matches Ok(s) && s.target_path@ == self.spec_endpoint(),
                Option::Some(pid) => match parsed_url(
                    spec_partition_path(self.spec_endpoint(), pid@),
                ) {
                    Option::Some(u) => r matches Ok(s) && s.target_path@ == u,
                    Option::None => r == Err::<Submission, EventHubsError>(EventHubsError {
                        kind: ErrorKind::InvalidUrl,
                    }),
                },
            },
    {
        match self.resolve_target(&options.partition_id) {
            Ok(target_path) => Ok(
                Submission { target_path, message_format: crate::SINGLE_MESSAGE_FORMAT },
            ),
            Err(e) => Err(e),
        }
    }

    /// Readies a batch submission: the target path resolved from the
    /// partition the batch was created for, and always the reserved batch
    /// format tag.
    pub fn prepare_batch_submission(&self, batch: &EventDataBatch) -> (r: Result<
        Submission,
        EventHubsError,
    >)
        ensures
            r matches Ok(s) ==> s.message_format == crate::BATCH_MESSAGE_FORMAT,
            match batch.spec_partition_id() {
                Option::None => r matches Ok(s) && s.target_path@ == self.spec_endpoint(),
                Option::Some(pid) => match parsed_url(
                    spec_partition_path(self.spec_endpoint(), pid@),
                ) {
                    Option::Some(u) => r matches Ok(s) && s.target_path@ == u,
                    Option::None => r == Err::<Submission, EventHubsError>(EventHubsError {
                        kind: ErrorKind::InvalidUrl,
                    }),
                },
            },
    {
        match self.resolve_target(batch.partition_id()) {
            Ok(target_path) => Ok(
                Submission { target_path, message_format: crate::BATCH_MESSAGE_FORMAT },
            ),
            Err(e) => Err(e),
        }
    }

    /// Closes the producer: the connection is torn down, and the paths of
    /// all cached senders are handed back, in attach order, so the caller
    /// can detach each link. Every sender opened over the producer's life
    /// is in the list exactly once.
    pub fn close(self) -> (paths: Vec<String>)
        ensures
            paths@.map_values(|p: String| p@) == self.spec_senders(),
    {
        let ProducerClient { senders, mut connection, .. } = self;
        connection.close_connection();
        senders.into_paths()
    }
}

/// A builder for creating a producer: optional application identity, retry
/// policy, and custom endpoint override.
#[derive(Default)]
pub struct ProducerClientBuilder {
    application_id: Option<String>,
    retry_options: Option<RetryOptions>,
    custom_endpoint: Option<String>,
}

/// The service URL composed from a namespace and a destination name.
pub open spec fn spec_service_url(namespace: Seq<char>, eventhub: Seq<char>) -> Seq<char> {
    "amqps://"@ + namespace + "/"@ + eventhub
}

impl ProducerClientBuilder {
    /// The application identity set so far.
    pub closed spec fn spec_application_id(&self) -> Option<String> {
        self.application_id
    }

    /// The retry policy set so far.
    pub closed spec fn spec_retry_options(&self) -> Option<RetryOptions> {
        self.retry_options
    }

    /// The custom endpoint set so far.
    pub closed spec fn spec_custom_endpoint(&self) -> Option<String> {
        self.custom_endpoint
    }

    /// Creates a builder with nothing set.
    pub fn new() -> (b: Self)
        ensures
            b.spec_application_id() is None,
            b.spec_retry_options() is None,
            b.spec_custom_endpoint() is None,
    {
        ProducerClientBuilder {
            application_id: Option::None,
            retry_options: Option::None,
            custom_endpoint: Option::None,
        }
    }

    /// Sets the application id that will be used to identify the client.
    pub fn with_application_id(self, application_id: String) -> (b: Self)
        ensures
            b.spec_application_id() == Option::Some(application_id),
            b.spec_retry_options() == self.spec_retry_options(),
            b.spec_custom_endpoint() == self.spec_custom_endpoint(),
    {
        ProducerClientBuilder { application_id: Option::Some(application_id), ..self }
    }

    /// Sets the options used to configure retry operations.
    pub fn with_retry_options(self, retry_options: RetryOptions) -> (b: Self)
        ensures
            b.spec_retry_options() == Option::Some(retry_options),
            b.spec_application_id() == self.spec_application_id(),
            b.spec_custom_endpoint() == self.spec_custom_endpoint(),
    {
        ProducerClientBuilder { retry_options: Option::Some(retry_options), ..self }
    }

    /// Sets a custom endpoint, such as a protocol proxy that forwards to
    /// the actual service.
    pub fn with_custom_endpoint(self, endpoint: String) -> (b: Self)
        ensures
            b.spec_custom_endpoint() == Option::Some(endpoint),
            b.spec_application_id() == self.spec_application_id(),
            b.spec_retry_options() == self.spec_retry_options(),
    {
        ProducerClientBuilder { custom_endpoint: Option::Some(endpoint), ..self }
    }

    /// Builds the producer for the destination `eventhub` under
    /// `fully_qualified_namespace`: the service URL is composed and
    /// parsed, the custom endpoint — when one was set — is parsed too, and
    /// the producer starts with no connection. A URL that does not parse
    /// is refused.
    pub fn build(self, fully_qualified_namespace: &str, eventhub: &str) -> (r: Result<
        ProducerClient,
        EventHubsError,
    >)
        requires
            self.spec_retry_options() matches Some(o) ==> o.wf(),
        ensures
            match parsed_url(spec_service_url(fully_qualified_namespace@, eventhub@)) {
                Option::None => r == Err::<ProducerClient, EventHubsError>(EventHubsError {
                    kind: ErrorKind::InvalidUrl,
                }),
                Option::Some(u) => {
                    let custom = match self.spec_custom_endpoint() {
                        Option::Some(ce) => parsed_url(ce@),
                        Option::None => Option::None,
                    };
                    if self.spec_custom_endpoint() is Some && custom is None {
                        r == Err::<ProducerClient, EventHubsError>(EventHubsError {
                            kind: ErrorKind::InvalidUrl,
                        })
                    } else {
                        &&& r matches Ok(p)
                        &&& p.wf()
                        &&& p.spec_endpoint() == u
                        &&& p.spec_eventhub() == eventhub@
                        &&& p.spec_application_id() == self.spec_application_id()
                        &&& p.spec_retry_options() == match self.spec_retry_options() {
                            Option::Some(o) => o,
                            Option::None => RetryOptions {
                                max_attempts: 4,
                                initial_delay_ms: 800,
                                max_delay_ms: 60000,
                                try_timeout_ms: Option::None,
                            },
                        }
                        &&& match self.spec_custom_endpoint() {
                            Option::Some(ce) => p.spec_custom_endpoint() matches Some(cu)
                                && parsed_url(ce@) == Option::Some(cu@),
                            Option::None => p.spec_custom_endpoint() is None,
                        }
                        &&& p.spec_senders() == Seq::<Seq<char>>::empty()
                        &&& p.spec_connection_state() == ConnectionState::Absent
                        &&& !p.spec_management_attached()
                    }
                },
            },
    {
        let url = String::from_str("amqps://").concat(fully_qualified_namespace).concat(
            "/",
        ).concat(eventhub);
        let endpoint = match normalize_url(url.as_str()) {
            Option::Some(u) => u,
            Option::None => {
                return Err(EventHubsError { kind: ErrorKind::InvalidUrl });
            },
        };
        let custom_endpoint = match &self.custom_endpoint {
            Option::Some(ce) => match normalize_url(ce.as_str()) {
                Option::Some(cu) => Option::Some(cu),
                Option::None => {
                    return Err(EventHubsError { kind: ErrorKind::InvalidUrl });
                },
            },
            Option::None => Option::None,
        };
        let retry_options = match self.retry_options {
            Option::Some(o) => o,
            Option::None => RetryOptions::default(),
        };
        Ok(
            ProducerClient::new(
                endpoint,
                String::from_str(eventhub),
                self.application_id,
                retry_options,
                custom_endpoint,
            ),
        )
    }
}

} // verus!
