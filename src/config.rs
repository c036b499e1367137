//! Webhook targets and the routing slots that hold them.
use vstd::prelude::*;

verus! {

/// Default time a delivery may take before it counts as failed.
pub const DEFAULT_TIMEOUT_MS: u64 = 30000;

/// Which deployment a target belongs to; production is tried first.
#[derive(Clone, Copy, Debug, PartialEq, Eq, Structural)]
pub enum Stage {
    Production,
    Development,
}

/// The kinds of inbound events.
#[derive(Clone, Copy, Debug, PartialEq, Eq, Structural)]
pub enum EventKind {
    /// A slash command; it expects one textual reply.
    Command,
    /// A push notification; nothing is replied.
    Callback,
    /// An interactive-component event; nothing is routed or replied.
    Interaction,
}

/// Whether events of this kind wait for a reply.
pub open spec fn expects_reply(kind: EventKind) -> bool {
    kind == EventKind::Command
}

impl EventKind {
    pub fn expects_reply(&self) -> (r: bool)
        ensures
            r == expects_reply(*self),
    {
        match self {
            EventKind::Command => true,
            _ => false,
        }
    }
}

/// A webhook endpoint that events are posted to.
#[derive(Debug, PartialEq, Eq)]
pub struct DeliveryTarget {
    pub name: String,
    pub url: String,
    pub stage: Stage,
    pub timeout_ms: u64,
    /// Skip validation of the endpoint's TLS certificate chain. Only for
    /// internal endpoints: it lets anyone on the path impersonate the target.
    pub accept_invalid_certs: bool,
}

impl DeliveryTarget {
    /// A target with the default timeout that validates certificates.
    pub fn new(name: String, url: String, stage: Stage) -> (r: DeliveryTarget)
        ensures
            r.name == name,
            r.url == url,
            r.stage == stage,
            r.timeout_ms == DEFAULT_TIMEOUT_MS,
            !r.accept_invalid_certs,
    {
        DeliveryTarget { name, url, stage, timeout_ms: DEFAULT_TIMEOUT_MS, accept_invalid_certs: false }
    }

    pub fn with_timeout_ms(self, timeout_ms: u64) -> (r: DeliveryTarget)
        ensures
            r == (DeliveryTarget { timeout_ms, ..self }),
    {
        DeliveryTarget { timeout_ms, ..self }
    }

    pub fn with_accept_invalid_certs(self, accept: bool) -> (r: DeliveryTarget)
        ensures
            r == (DeliveryTarget { accept_invalid_certs: accept, ..self }),
    {
        DeliveryTarget { accept_invalid_certs: accept, ..self }
    }

    pub fn duplicate(&self) -> (r: DeliveryTarget)
        ensures
            r == *self,
    {
        DeliveryTarget {
            name: self.name.clone(),
            url: self.url.clone(),
            stage: self.stage,
            timeout_ms: self.timeout_ms,
            accept_invalid_certs: self.accept_invalid_certs,
        }
    }
}

/// The relay's targets: one optional slot per kind and stage. A slot that
/// holds no target is not configured.
#[derive(Debug, PartialEq, Eq)]
pub struct RelayConfig {
    pub command_prod: Option<DeliveryTarget>,
    pub command_dev: Option<DeliveryTarget>,
    pub callback_prod: Option<DeliveryTarget>,
    pub callback_dev: Option<DeliveryTarget>,
}

/// The targets held by a first and a second slot, in that order.
pub open spec fn present(first: Option<DeliveryTarget>, second: Option<DeliveryTarget>) -> Seq<DeliveryTarget> {
    match (first, second) {
        (Some(a), Some(b)) => seq![a, b],
        (Some(a), None) => seq![a],
        (None, Some(b)) => seq![b],
        (None, None) => seq![],
    }
}

/// The configured targets for `kind`, in priority order: production, then
/// development.
pub open spec fn routes(c: RelayConfig, kind: EventKind) -> Seq<DeliveryTarget> {
    match kind {
        EventKind::Command => present(c.command_prod, c.command_dev),
        EventKind::Callback => present(c.callback_prod, c.callback_dev),
        EventKind::Interaction => seq![],
    }
}

/// `slot` holds a target made by `DeliveryTarget::new` from `name`, `url` and
/// `stage` exactly when a URL is given.
pub open spec fn slot_from_url(slot: Option<DeliveryTarget>, name: Seq<char>, url: Option<String>, stage: Stage) -> bool {
    match url {
        Some(u) => slot matches Some(t) && t.name@ == name && t.url == u && t.stage == stage
            && t.timeout_ms == DEFAULT_TIMEOUT_MS && !t.accept_invalid_certs,
        None => slot is None,
    }
}

pub open spec fn command_prod_name() -> Seq<char> {
    "command-production"@
}

pub open spec fn command_dev_name() -> Seq<char> {
    "command-development"@
}

pub open spec fn callback_prod_name() -> Seq<char> {
    "callback-production"@
}

pub open spec fn callback_dev_name() -> Seq<char> {
    "callback-development"@
}

fn slot_target(name: &str, url: Option<String>, stage: Stage) -> (r: Option<DeliveryTarget>)
    ensures
        slot_from_url(r, name@, url, stage),
{
    match url {
        Some(u) => Some(DeliveryTarget::new(String::from_str(name), u, stage)),
        None => None,
    }
}

impl RelayConfig {
    /// The configuration given by the URL of each slot; a missing URL leaves
    /// its slot unconfigured.
    pub fn from_urls(
        command_prod: Option<String>,
        command_dev: Option<String>,
        callback_prod: Option<String>,
        callback_dev: Option<String>,
    ) -> (r: RelayConfig)
        ensures
            slot_from_url(r.command_prod, command_prod_name(), command_prod, Stage::Production),
            slot_from_url(r.command_dev, command_dev_name(), command_dev, Stage::Development),
            slot_from_url(r.callback_prod, callback_prod_name(), callback_prod, Stage::Production),
            slot_from_url(r.callback_dev, callback_dev_name(), callback_dev, Stage::Development),
    {
        RelayConfig {
            command_prod: slot_target("command-production", command_prod, Stage::Production),
            command_dev: slot_target("command-development", command_dev, Stage::Development),
            callback_prod: slot_target("callback-production", callback_prod, Stage::Production),
            callback_dev: slot_target("callback-development", callback_dev, Stage::Development),
        }
    }

    /// The configured targets for `kind`, in priority order.
    pub fn targets(&self, kind: EventKind) -> (r: Vec<DeliveryTarget>)
        ensures
            r@ == routes(*self, kind),
    {
        let mut r: Vec<DeliveryTarget> = Vec::new();
        let (first, second) = match kind {
            EventKind::Command => (&self.command_prod, &self.command_dev),
            EventKind::Callback => (&self.callback_prod, &self.callback_dev),
            EventKind::Interaction => {
                assert(routes(*self, kind) =~= seq![]);
                return r;
            },
        };
        if let Some(t) = first {
            r.push(t.duplicate());
        }
        if let Some(t) = second {
            r.push(t.duplicate());
        }
        assert(r@ =~= routes(*self, kind));
        r
    }
}

} // verus!
