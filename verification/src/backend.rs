//! Capability-based backend composition: a closed registry of backend kinds,
//! per-account configuration, and a builder that wires one backend instance
//! per requested capability into a context.

use vstd::prelude::*;

verus! {

/// The closed set of backend kinds. A kind is purely a selector; the
/// connection or storage parameters live in the matching [`BackendConfig`]
/// variant.
#[derive(Clone, Copy, Debug, PartialEq, Eq, Structural)]
pub enum BackendKind {
    Imap,
    Maildir,
    Notmuch,
    Smtp,
    Sendmail,
}

/// The fixed set of named operations a backend may support. A backend kind
/// declares which capabilities it can satisfy (see [`BackendKind::serves`]).
#[derive(Clone, Copy, Debug, PartialEq, Eq, Structural)]
pub enum Capability {
    SendMessage,
    ListMailboxes,
    ReadEmails,
    ReadEmailBody,
}

/// Connection parameters of a server-backed kind (protocol access or
/// sending). Credentials are opaque strings; resolving them is the caller's
/// concern.
#[derive(Debug)]
pub struct ServerInfo {
    pub host: String,
    pub port: u16,
    pub login: String,
    pub password: String,
}

impl ServerInfo {
    /// An identical copy.
    pub fn duplicate(&self) -> (r: ServerInfo)
        ensures
            r == *self,
    {
        ServerInfo {
            host: self.host.clone(),
            port: self.port,
            login: self.login.clone(),
            password: self.password.clone(),
        }
    }
}

/// Parameters of the Maildir storage kind: the mailbox root.
#[derive(Debug)]
pub struct MaildirConfig {
    pub root: String,
}

/// Parameters of the Notmuch storage kind: the database path.
#[derive(Debug)]
pub struct NotmuchConfig {
    pub db_path: String,
}

/// Parameters of the Sendmail sending kind: the command to run.
#[derive(Debug)]
pub struct SendmailConfig {
    pub command: String,
}

impl BackendKind {
    /// Whether this kind is a retrieval kind (storage or protocol access),
    /// as opposed to a sending kind.
    pub open spec fn spec_is_retrieval(self) -> bool {
        self is Imap || self is Maildir || self is Notmuch
    }

    /// Whether this kind can satisfy the given capability: retrieval kinds
    /// serve the listing and fetching capabilities, sending kinds serve the
    /// send capability.
    pub open spec fn spec_serves(self, cap: Capability) -> bool {
        if cap is SendMessage {
            !self.spec_is_retrieval()
        } else {
            self.spec_is_retrieval()
        }
    }

    /// Whether this kind can satisfy the given capability.
    pub fn serves(self, cap: Capability) -> (r: bool)
        ensures
            r == self.spec_serves(cap),
    {
        match cap {
            Capability::SendMessage => match self {
                BackendKind::Smtp => true,
                BackendKind::Sendmail => true,
                _ => false,
            },
            _ => match self {
                BackendKind::Imap => true,
                BackendKind::Maildir => true,
                BackendKind::Notmuch => true,
                _ => false,
            },
        }
    }
}

/// A tagged union of backend parameters, one variant per kind.
#[derive(Debug)]
pub enum BackendConfig {
    Imap(ServerInfo),
    Maildir(MaildirConfig),
    Notmuch(NotmuchConfig),
    Smtp(ServerInfo),
    Sendmail(SendmailConfig),
}

/// Per-account settings: which kind answers each capability (the sending
/// capability by its own assignment, the retrieval capabilities by the
/// account's default kind), and the parameters of each configured kind.
/// The surrounding configuration system owns these values; this core only
/// reads them.
#[derive(Debug)]
pub struct AccountConfig {
    pub default_kind: Option<BackendKind>,
    pub send_message_kind: Option<BackendKind>,
    pub imap: Option<ServerInfo>,
    pub maildir: Option<MaildirConfig>,
    pub notmuch: Option<NotmuchConfig>,
    pub smtp: Option<ServerInfo>,
    pub sendmail: Option<SendmailConfig>,
}

impl AccountConfig {
    /// Which kind is assigned to the capability; `None` means no backend is
    /// available for it.
    pub open spec fn spec_kind_for(self, cap: Capability) -> Option<BackendKind> {
        if cap is SendMessage {
            self.send_message_kind
        } else {
            self.default_kind
        }
    }

    /// Which kind is assigned to the capability.
    pub fn kind_for(&self, cap: Capability) -> (r: Option<BackendKind>)
        ensures
            r == self.spec_kind_for(cap),
    {
        match cap {
            Capability::SendMessage => self.send_message_kind,
            _ => self.default_kind,
        }
    }

    /// The configuration section of the kind, wrapped in its variant;
    /// `None` when the section is missing.
    pub open spec fn spec_config_for(self, kind: BackendKind) -> Option<BackendConfig> {
        match kind {
            BackendKind::Imap => match self.imap {
                Option::Some(c) => Option::Some(BackendConfig::Imap(c)),
                Option::None => Option::None,
            },
            BackendKind::Maildir => match self.maildir {
                Option::Some(c) => Option::Some(BackendConfig::Maildir(c)),
                Option::None => Option::None,
            },
            BackendKind::Notmuch => match self.notmuch {
                Option::Some(c) => Option::Some(BackendConfig::Notmuch(c)),
                Option::None => Option::None,
            },
            BackendKind::Smtp => match self.smtp {
                Option::Some(c) => Option::Some(BackendConfig::Smtp(c)),
                Option::None => Option::None,
            },
            BackendKind::Sendmail => match self.sendmail {
                Option::Some(c) => Option::Some(BackendConfig::Sendmail(c)),
                Option::None => Option::None,
            },
        }
    }

    /// The configuration section of the kind.
    pub fn config_for(&self, kind: BackendKind) -> (r: Option<BackendConfig>)
        ensures
            r == self.spec_config_for(kind),
    {
        match kind {
            BackendKind::Imap => match &self.imap {
                Some(c) => Some(BackendConfig::Imap(c.duplicate())),
                None => None,
            },
            BackendKind::Maildir => match &self.maildir {
                Some(c) => Some(BackendConfig::Maildir(MaildirConfig { root: c.root.clone() })),
                None => None,
            },
            BackendKind::Notmuch => match &self.notmuch {
                Some(c) => Some(
                    BackendConfig::Notmuch(NotmuchConfig { db_path: c.db_path.clone() }),
                ),
                None => None,
            },
            BackendKind::Smtp => match &self.smtp {
                Some(c) => Some(BackendConfig::Smtp(c.duplicate())),
                None => None,
            },
            BackendKind::Sendmail => match &self.sendmail {
                Some(c) => Some(
                    BackendConfig::Sendmail(SendmailConfig { command: c.command.clone() }),
                ),
                None => None,
            },
        }
    }
}

/// The failures of composition: a capability whose resolved kind cannot
/// serve it or has no configuration section, and the invocation of a
/// capability that was never wired.
#[derive(Clone, Copy, Debug, PartialEq, Eq, Structural)]
pub enum BackendError {
    ConfigurationMismatch(Capability, BackendKind),
    CapabilityUnavailable(Capability),
}

/// Which capabilities one build call shall wire.
#[derive(Clone, Copy, Debug, PartialEq, Eq, Structural)]
pub struct CapabilityRequest {
    pub send_message: bool,
    pub list_mailboxes: bool,
    pub read_emails: bool,
    pub read_email_body: bool,
}

/// One constructed backend instance: the kind and the parameters it was
/// built from. The live connection it stands for is opened by the caller
/// from these parameters.
#[derive(Debug)]
pub struct BackendInstance {
    pub kind: BackendKind,
    pub config: BackendConfig,
}

/// The assembled, account-scoped context: the constructed instances and,
/// per capability, which instance (if any) answers it.
#[derive(Debug)]
pub struct BackendContext {
    pub instances: Vec<BackendInstance>,
    pub send_message: Option<usize>,
    pub list_mailboxes: Option<usize>,
    pub read_emails: Option<usize>,
    pub read_email_body: Option<usize>,
}

/// No two instances share a kind: construction is de-duplicated per kind
/// within one build call.
pub open spec fn spec_dedup(s: Seq<BackendInstance>) -> bool {
    forall|i: int, j: int|
        0 <= i < s.len() && 0 <= j < s.len() && #[trigger] s[i].kind == #[trigger] s[j].kind
            ==> i == j
}

/// Every instance carries exactly the configuration section of its kind.
pub open spec fn spec_instances_configured(account: AccountConfig, s: Seq<BackendInstance>) -> bool {
    forall|i: int|
        0 <= i < s.len() ==> account.spec_config_for(#[trigger] s[i].kind) == Option::Some(
            s[i].config,
        )
}

impl BackendContext {
    /// The slot of the capability: the index of the instance wired to it.
    pub open spec fn spec_slot(self, cap: Capability) -> Option<usize> {
        match cap {
            Capability::SendMessage => self.send_message,
            Capability::ListMailboxes => self.list_mailboxes,
            Capability::ReadEmails => self.read_emails,
            Capability::ReadEmailBody => self.read_email_body,
        }
    }

    /// Every wired slot points at an instance.
    pub open spec fn wf(self) -> bool {
        &&& (self.send_message matches Some(i) ==> i < self.instances@.len())
        &&& (self.list_mailboxes matches Some(i) ==> i < self.instances@.len())
        &&& (self.read_emails matches Some(i) ==> i < self.instances@.len())
        &&& (self.read_email_body matches Some(i) ==> i < self.instances@.len())
    }

    /// Pure dispatch: the instance wired to the capability, or the
    /// capability-unavailable condition when none was — never a panic.
    pub fn backend_for(&self, cap: Capability) -> (r: Result<&BackendInstance, BackendError>)
        requires
            self.wf(),
        ensures
            self.spec_slot(cap) matches Some(i) ==> r matches Ok(b) && *b == self.instances@[
                i as int
            ],
            self.spec_slot(cap) is None <==> (r matches Err(e) && e
                == BackendError::CapabilityUnavailable(cap)),
    {
        let slot = match cap {
            Capability::SendMessage => &self.send_message,
            Capability::ListMailboxes => &self.list_mailboxes,
            Capability::ReadEmails => &self.read_emails,
            Capability::ReadEmailBody => &self.read_email_body,
        };
        match slot {
            Some(i) => Ok(&self.instances[*i]),
            None => Err(BackendError::CapabilityUnavailable(cap)),
        }
    }

    /// The backend that sends messages.
    pub fn send_message_backend(&self) -> (r: Result<&BackendInstance, BackendError>)
        requires
            self.wf(),
        ensures
            self.spec_slot(Capability::SendMessage) matches Some(i) ==> r matches Ok(b) && *b
                == self.instances@[i as int],
            self.spec_slot(Capability::SendMessage) is None <==> (r matches Err(e) && e
                == BackendError::CapabilityUnavailable(Capability::SendMessage)),
    {
        self.backend_for(Capability::SendMessage)
    }

    /// The backend that lists mailboxes.
    pub fn list_mailboxes_backend(&self) -> (r: Result<&BackendInstance, BackendError>)
        requires
            self.wf(),
        ensures
            self.spec_slot(Capability::ListMailboxes) matches Some(i) ==> r matches Ok(b) && *b
                == self.instances@[i as int],
            self.spec_slot(Capability::ListMailboxes) is None <==> (r matches Err(e) && e
                == BackendError::CapabilityUnavailable(Capability::ListMailboxes)),
    {
        self.backend_for(Capability::ListMailboxes)
    }

    /// The backend that searches and fetches summaries.
    pub fn read_emails_backend(&self) -> (r: Result<&BackendInstance, BackendError>)
        requires
            self.wf(),
        ensures
            self.spec_slot(Capability::ReadEmails) matches Some(i) ==> r matches Ok(b) && *b
                == self.instances@[i as int],
            self.spec_slot(Capability::ReadEmails) is None <==> (r matches Err(e) && e
                == BackendError::CapabilityUnavailable(Capability::ReadEmails)),
    {
        self.backend_for(Capability::ReadEmails)
    }

    /// The backend that fetches full bodies.
    pub fn read_email_body_backend(&self) -> (r: Result<&BackendInstance, BackendError>)
        requires
            self.wf(),
        ensures
            self.spec_slot(Capability::ReadEmailBody) matches Some(i) ==> r matches Ok(b) && *b
                == self.instances@[i as int],
            self.spec_slot(Capability::ReadEmailBody) is None <==> (r matches Err(e) && e
                == BackendError::CapabilityUnavailable(Capability::ReadEmailBody)),
    {
        self.backend_for(Capability::ReadEmailBody)
    }
}

/// The capability resolves to a kind that cannot serve it or that has no
/// configuration section: the configuration-mismatch condition.
pub open spec fn spec_cap_mismatch(account: AccountConfig, cap: Capability) -> bool {
    match account.spec_kind_for(cap) {
        Option::None => false,
        Option::Some(k) => !k.spec_serves(cap) || account.spec_config_for(k) is None,
    }
}

/// Some requested capability is mismatched.
pub open spec fn spec_request_mismatch(account: AccountConfig, request: CapabilityRequest) -> bool {
    ||| request.send_message && spec_cap_mismatch(account, Capability::SendMessage)
    ||| request.list_mailboxes && spec_cap_mismatch(account, Capability::ListMailboxes)
    ||| request.read_emails && spec_cap_mismatch(account, Capability::ReadEmails)
    ||| request.read_email_body && spec_cap_mismatch(account, Capability::ReadEmailBody)
}

/// The capability is wired as the account assigns it: absent when it was
/// not requested or no kind is assigned to it, and otherwise pointing at an
/// instance of the resolved kind.
pub open spec fn spec_wired(
    account: AccountConfig,
    requested: bool,
    cap: Capability,
    ctx: BackendContext,
) -> bool {
    if !requested {
        ctx.spec_slot(cap) is None
    } else {
        match account.spec_kind_for(cap) {
            Option::None => ctx.spec_slot(cap) is None,
            Option::Some(k) => ctx.spec_slot(cap) matches Some(idx) && idx < ctx.instances@.len()
                && ctx.instances@[idx as int].kind == k,
        }
    }
}

/// Some capability slot of the context points at the instance.
pub open spec fn spec_points_at(ctx: BackendContext, i: int) -> bool {
    ||| ctx.send_message matches Some(s) && s as int == i
    ||| ctx.list_mailboxes matches Some(s) && s as int == i
    ||| ctx.read_emails matches Some(s) && s as int == i
    ||| ctx.read_email_body matches Some(s) && s as int == i
}

/// Every instance answers some wired capability: nothing is constructed
/// beyond what the request asked for.
pub open spec fn spec_instances_used(ctx: BackendContext) -> bool {
    forall|i: int| 0 <= i < ctx.instances@.len() ==> #[trigger] spec_points_at(ctx, i)
}

/// What a successful build guarantees: instances de-duplicated per kind,
/// each carrying its kind's configuration section, none constructed beyond
/// the request, and every capability wired exactly as requested and
/// assigned.
pub open spec fn spec_built(
    account: AccountConfig,
    request: CapabilityRequest,
    ctx: BackendContext,
) -> bool {
    &&& spec_dedup(ctx.instances@)
    &&& spec_instances_configured(account, ctx.instances@)
    &&& spec_instances_used(ctx)
    &&& spec_wired(account, request.send_message, Capability::SendMessage, ctx)
    &&& spec_wired(account, request.list_mailboxes, Capability::ListMailboxes, ctx)
    &&& spec_wired(account, request.read_emails, Capability::ReadEmails, ctx)
    &&& spec_wired(account, request.read_email_body, Capability::ReadEmailBody, ctx)
}

/// The instance of the kind, if one was already constructed.
fn find_instance(instances: &Vec<BackendInstance>, kind: BackendKind) -> (r: Option<usize>)
    ensures
        r matches Some(i) ==> i < instances@.len() && instances@[i as int].kind == kind,
        r is None ==> forall|j: int| 0 <= j < instances@.len() ==> instances@[j].kind != kind,
{
    let mut i: usize = 0;
    while i < instances.len()
        invariant
            i <= instances@.len(),
            forall|j: int| 0 <= j < i ==> instances@[j].kind != kind,
        decreases instances@.len() - i,
    {
        if instances[i].kind == kind {
            return Some(i);
        }
        i = i + 1;
    }
    None
}

/// Resolves and constructs (or reuses) the instance for one capability:
/// no assigned kind leaves the capability absent; a kind that cannot serve
/// the capability or lacks its configuration section is a
/// configuration-mismatch failure; otherwise the kind's instance is found
/// or constructed once.
fn wire_capability(
    account: &AccountConfig,
    cap: Capability,
    instances: &mut Vec<BackendInstance>,
) -> (r: Result<Option<usize>, BackendError>)
    requires
        spec_dedup(old(instances)@),
        spec_instances_configured(*account, old(instances)@),
    ensures
        spec_dedup(final(instances)@),
        spec_instances_configured(*account, final(instances)@),
        old(instances)@.len() <= final(instances)@.len(),
        forall|j: int|
            0 <= j < old(instances)@.len() ==> final(instances)@[j] == old(instances)@[j],
        final(instances)@.len() == old(instances)@.len() || (final(instances)@.len()
            == old(instances)@.len() + 1 && match r {
            Result::Ok(Option::Some(idx)) => idx as int == old(instances)@.len(),
            _ => false,
        }),
        match account.spec_kind_for(cap) {
            Option::None => r matches Ok(s) && s is None && final(instances)@ == old(instances)@,
            Option::Some(k) => if k.spec_serves(cap) && account.spec_config_for(k) is Some {
                r matches Ok(s) && (s matches Some(idx) && idx < final(instances)@.len()
                    && final(instances)@[idx as int].kind == k)
            } else {
                r matches Err(e) && e == BackendError::ConfigurationMismatch(cap, k)
                    && final(instances)@ == old(instances)@
            },
        },
{
    let kind = match account.kind_for(cap) {
        None => return Ok(None),
        Some(k) => k,
    };
    if !kind.serves(cap) {
        return Err(BackendError::ConfigurationMismatch(cap, kind));
    }
    let config = match account.config_for(kind) {
        None => return Err(BackendError::ConfigurationMismatch(cap, kind)),
        Some(c) => c,
    };
    match find_instance(instances, kind) {
        Some(i) => Ok(Some(i)),
        None => {
            instances.push(BackendInstance { kind, config });
            Ok(Some(instances.len() - 1))
        },
    }
}

/// Assembles the context for one account: for each requested capability,
/// resolves the assigned kind, constructs (or reuses) that kind's instance,
/// and wires it in. A capability with no assigned kind is simply absent —
/// invoking it later fails with capability-unavailable. A resolved kind
/// that cannot serve its capability or has no configuration section fails
/// the whole build with a configuration-mismatch error.
///
/// A caller that substitutes implementations (for testing, say) replaces
/// the instances of the returned context; the kind-to-capability mapping
/// itself always comes from the account configuration through this builder.
pub fn build_backend_context(account: &AccountConfig, request: &CapabilityRequest) -> (r: Result<
    BackendContext,
    BackendError,
>)
    ensures
        r matches Ok(ctx) ==> ctx.wf() && spec_built(*account, *request, ctx),
        r is Ok <==> !spec_request_mismatch(*account, *request),
        r matches Err(e) ==> e is ConfigurationMismatch,
{
    let mut instances: Vec<BackendInstance> = Vec::new();
    let mut send_message: Option<usize> = None;
    let mut list_mailboxes: Option<usize> = None;
    let mut read_emails: Option<usize> = None;
    let mut read_email_body: Option<usize> = None;
    if request.send_message {
        match wire_capability(account, Capability::SendMessage, &mut instances) {
            Ok(s) => send_message = s,
            Err(e) => return Err(e),
        }
    }
    let ghost n1 = instances@.len() as int;
    if request.list_mailboxes {
        match wire_capability(account, Capability::ListMailboxes, &mut instances) {
            Ok(s) => list_mailboxes = s,
            Err(e) => return Err(e),
        }
    }
    let ghost n2 = instances@.len() as int;
    if request.read_emails {
        match wire_capability(account, Capability::ReadEmails, &mut instances) {
            Ok(s) => read_emails = s,
            Err(e) => return Err(e),
        }
    }
    let ghost n3 = instances@.len() as int;
    if request.read_email_body {
        match wire_capability(account, Capability::ReadEmailBody, &mut instances) {
            Ok(s) => read_email_body = s,
            Err(e) => return Err(e),
        }
    }
    let ctx = BackendContext { instances, send_message, list_mailboxes, read_emails, read_email_body };
    proof {
        assert forall|i: int| 0 <= i < ctx.instances@.len() implies spec_points_at(ctx, i) by {
            if i < n1 {
                assert(ctx.send_message matches Some(s) && s as int == i);
            } else if i < n2 {
                assert(ctx.list_mailboxes matches Some(s) && s as int == i);
            } else if i < n3 {
                assert(ctx.read_emails matches Some(s) && s as int == i);
            } else {
                assert(ctx.read_email_body matches Some(s) && s as int == i);
            }
        }
    }
    Ok(ctx)
}

/// Law: a capability to which the account assigns no backend kind is absent
/// from every context built for it, so invoking that capability goes to the
/// capability-unavailable condition of dispatch (see
/// [`BackendContext::backend_for`]) — never a panic.
pub proof fn lemma_unassigned_capability_unavailable(
    account: AccountConfig,
    request: CapabilityRequest,
    ctx: BackendContext,
    cap: Capability,
)
    requires
        spec_built(account, request, ctx),
        account.spec_kind_for(cap) is None,
    ensures
        ctx.spec_slot(cap) is None,
{
}

/// Law: within one build call, at most one instance of each kind is
/// constructed, even when several capabilities resolve to the same kind.
pub proof fn lemma_instance_deduplication(
    account: AccountConfig,
    request: CapabilityRequest,
    ctx: BackendContext,
    i: int,
    j: int,
)
    requires
        spec_built(account, request, ctx),
        0 <= i < ctx.instances@.len(),
        0 <= j < ctx.instances@.len(),
        ctx.instances@[i].kind == ctx.instances@[j].kind,
    ensures
        i == j,
{
}

} // verus!
