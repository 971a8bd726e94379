//! The IMAP protocol connector: the session state machine, the error
//! taxonomy, and the decision logic that turns server responses into domain
//! values (mailboxes, email summaries, body text).
//!
//! The connector owns the protocol state; the surrounding program performs
//! the network exchanges and hands each outcome back as a value. Every
//! decision — state transitions, the summary window, the error taxonomy,
//! MIME text extraction — is made and verified here.

use vstd::prelude::*;
use vstd::math::min;
use vstd::string::StringExecFns;

use crate::backend::ServerInfo;
use crate::text::join_all;
use crate::text::spec_join;

verus! {

/// The states of one authenticated, encrypted protocol session.
#[derive(Debug)]
pub enum SessionState {
    Disconnected,
    ConnectedTls,
    Authenticated,
    MailboxSelected(String),
    Closed,
}

/// The error taxonomy of the connector. Transport, authentication and
/// protocol failures carry the underlying message; the two domain-absence
/// conditions carry the UID (and requested MIME type) they are about.
#[derive(Debug)]
pub enum Error {
    CreateTlsConnectorError(String),
    CreateImapSession(String),
    ParseEmailError(String),
    ReadEmailNotFoundError(String),
    ReadEmailEmptyPartError(String, String),
}

impl Error {
    /// The rendering of this error, prefixed with the connector's name.
    pub open spec fn spec_display(self) -> Seq<char> {
        "(imap): "@ + match self {
            Error::CreateTlsConnectorError(d) => d@,
            Error::CreateImapSession(d) => d@,
            Error::ParseEmailError(d) => d@,
            Error::ReadEmailNotFoundError(uid) => "no email found for uid "@ + uid@,
            Error::ReadEmailEmptyPartError(uid, mime) => {
                "no "@ + mime@ + " content found for uid "@ + uid@
            },
        }
    }

    /// Renders the error as text.
    pub fn display(&self) -> (r: String)
        ensures
            r@ == self.spec_display(),
    {
        let mut r = String::from_str("(imap): ");
        match self {
            Error::CreateTlsConnectorError(d) => {
                r.append(d.as_str());
            },
            Error::CreateImapSession(d) => {
                r.append(d.as_str());
            },
            Error::ParseEmailError(d) => {
                r.append(d.as_str());
            },
            Error::ReadEmailNotFoundError(uid) => {
                r.append("no email found for uid ");
                r.append(uid.as_str());
            },
            Error::ReadEmailEmptyPartError(uid, mime) => {
                r.append("no ");
                r.append(mime.as_str());
                r.append(" content found for uid ");
                r.append(uid.as_str());
            },
        }
        r
    }
}

/// A mailbox name derived from one raw protocol listing entry.
#[derive(Debug)]
pub struct Mailbox {
    pub name: String,
}

impl Mailbox {
    /// Maps a raw listing entry to a mailbox value.
    pub fn from_name(name: &String) -> (m: Mailbox)
        ensures
            m.name@ == name@,
    {
        Mailbox { name: name.clone() }
    }
}

/// An email summary: the server-assigned UID (session- and mailbox-scoped)
/// and envelope metadata, passed through untouched.
#[derive(Debug)]
pub struct Email {
    pub uid: String,
    pub subject: String,
    pub sender: String,
    pub recipients: Vec<String>,
    pub date: String,
}

/// The outcome of one protocol step that either succeeds or fails with a
/// server message (TLS handshake, login, mailbox select).
pub enum StepOutcome {
    Done,
    Failed(String),
}

/// The outcome of a UID search: the matching UIDs in server order, or a
/// protocol failure.
pub enum SearchOutcome {
    Found(Vec<String>),
    Failed(String),
}

/// The outcome of a mailbox listing: the raw entries in server order, or a
/// protocol failure.
pub enum ListOutcome {
    Listed(Vec<String>),
    Failed(String),
}

/// The outcome of a summary fetch: one summary per fetched UID in server
/// order, or a protocol failure.
pub enum SummaryFetchOutcome {
    Fetched(Vec<Email>),
    Failed(String),
}

/// The outcome of a full-body fetch for one UID: no fetch result at all,
/// one result whose payload may be absent, or a protocol failure.
pub enum BodyFetchOutcome {
    NoResult,
    Payload(Option<Vec<u8>>),
    Failed(String),
}

/// How many summaries one search may yield: a deliberate bandwidth bound,
/// not a pagination cursor.
pub const SUMMARY_CAP: usize = 20;

/// The first `SUMMARY_CAP` entries of a search result, in server order.
pub open spec fn spec_window<T>(items: Seq<T>) -> Seq<T> {
    items.take(min(SUMMARY_CAP as int, items.len() as int))
}

/// How many fetched summaries are kept: never more than were planned, and
/// never more than the cap.
pub open spec fn spec_fetch_limit(planned: int, fetched: int) -> int {
    min(min(planned, SUMMARY_CAP as int), fetched)
}

/// The pending summary fetch after a search: the windowed UIDs and the
/// comma-joined UID set of the fetch command.
#[derive(Debug)]
pub struct FetchPlan {
    pub uids: Vec<String>,
    pub set: String,
}

/// One part of a parsed MIME message: its type and its decoded text, in
/// document order relative to its siblings.
#[derive(Debug)]
pub struct MimePart {
    pub mime: String,
    pub body: String,
}

/// What parsing a raw message yields: `None` when the bytes are not a
/// well-formed MIME message, otherwise every part's type and decoded text in
/// document order. The value is fixed by the bytes alone.
pub uninterp spec fn parsed_mime(bytes: Seq<u8>) -> Option<Seq<(Seq<char>, Seq<char>)>>;

/// Relies on `mailparse::parse_mail` (parsing the raw message),
/// `mailparse::ParsedMail::parts` (a depth-first pre-order traversal, the
/// message itself first — document order) and `mailparse::ParsedMail::get_body`
/// (undoing the transfer encoding of one part): hands back each part's MIME
/// type and decoded text. All three depend on the bytes alone.
#[verifier::external_body]
fn parse_mime_parts(bytes: &Vec<u8>) -> (r: Result<Vec<MimePart>, String>)
    ensures
        r is Ok <==> parsed_mime(bytes@) is Some,
        r matches Ok(parts) ==> Some(
            parts@.map_values(|p: MimePart| (p.mime@, p.body@)),
        ) == parsed_mime(bytes@),
{
    let root = match mailparse::parse_mail(bytes.as_slice()) {
        Ok(m) => m,
        Err(e) => return Err(format!("{}", e)),
    };
    let mut out = Vec::new();
    for part in root.parts() {
        match part.get_body() {
            Ok(body) => out.push(MimePart { mime: part.ctype.mimetype.clone(), body }),
            Err(e) => return Err(format!("{}", e)),
        }
    }
    Ok(out)
}

/// The views of the parts: each part as (type, text).
pub open spec fn parts_view(parts: Seq<MimePart>) -> Seq<(Seq<char>, Seq<char>)> {
    parts.map_values(|p: MimePart| (p.mime@, p.body@))
}

/// Whether some part has the requested MIME type.
pub open spec fn spec_has_part(parts: Seq<(Seq<char>, Seq<char>)>, mime: Seq<char>) -> bool {
    exists|i: int| 0 <= i < parts.len() && #[trigger] parts[i].0 == mime
}

/// The texts of all parts of the requested MIME type, concatenated in
/// document order.
pub open spec fn spec_text_bodies(
    parts: Seq<(Seq<char>, Seq<char>)>,
    mime: Seq<char>,
) -> Seq<char>
    decreases parts.len(),
{
    if parts.len() == 0 {
        Seq::empty()
    } else {
        let rest = spec_text_bodies(parts.drop_last(), mime);
        if parts.last().0 == mime {
            rest + parts.last().1
        } else {
            rest
        }
    }
}

proof fn lemma_has_part_step(parts: Seq<(Seq<char>, Seq<char>)>, mime: Seq<char>, i: int)
    requires
        0 <= i < parts.len(),
    ensures
        spec_has_part(parts.take(i + 1), mime) == (spec_has_part(parts.take(i), mime)
            || parts[i].0 == mime),
{
    if spec_has_part(parts.take(i), mime) {
        let w = choose|j: int| 0 <= j < parts.take(i).len() && #[trigger] parts.take(i)[j].0 == mime;
        assert(parts.take(i + 1)[w].0 == mime);
    }
    if parts[i].0 == mime {
        assert(parts.take(i + 1)[i].0 == mime);
    }
    if spec_has_part(parts.take(i + 1), mime) && !spec_has_part(parts.take(i), mime) && parts[i].0
        != mime {
        let w = choose|j: int|
            0 <= j < parts.take(i + 1).len() && #[trigger] parts.take(i + 1)[j].0 == mime;
        if w < i {
            assert(parts.take(i)[w].0 == mime);
        }
        assert(false);
    }
}

/// Extracts every text part of the requested MIME type: `None` when the
/// message has no part of that type, otherwise the matching texts
/// concatenated in document order.
pub fn extract_text_bodies(mime: &String, parts: &Vec<MimePart>) -> (r: Option<String>)
    ensures
        r is Some <==> spec_has_part(parts_view(parts@), mime@),
        r matches Some(s) ==> s@ == spec_text_bodies(parts_view(parts@), mime@),
{
    let mut found = false;
    let mut text = String::new();
    let mut i: usize = 0;
    while i < parts.len()
        invariant
            i <= parts@.len(),
            found == spec_has_part(parts_view(parts@.take(i as int)), mime@),
            text@ == spec_text_bodies(parts_view(parts@.take(i as int)), mime@),
        decreases parts@.len() - i,
    {
        if parts[i].mime == *mime {
            found = true;
            text.append(parts[i].body.as_str());
        }
        proof {
            let all = parts_view(parts@);
            assert(parts_view(parts@.take(i as int)) =~= all.take(i as int));
            assert(parts_view(parts@.take(i + 1)) =~= all.take(i + 1));
            assert(all.take(i + 1).drop_last() =~= all.take(i as int));
            lemma_has_part_step(all, mime@, i as int);
        }
        i = i + 1;
    }
    proof {
        assert(parts@.take(parts@.len() as int) =~= parts@);
    }
    if found {
        Some(text)
    } else {
        None
    }
}

/// The protocol connector: the account's server parameters and the state of
/// its one session. The session is exclusively owned; every operation goes
/// through `&mut self`, so no two exchanges can ever be in flight at once.
#[derive(Debug)]
pub struct ImapConnector {
    pub config: ServerInfo,
    pub state: SessionState,
}

impl ImapConnector {
    /// Whether the session is at least authenticated, as every mailbox
    /// operation requires.
    pub open spec fn is_ready(self) -> bool {
        self.state is Authenticated || self.state is MailboxSelected
    }

    /// A fresh connector: no connection has been attempted yet.
    pub fn new(config: ServerInfo) -> (c: Self)
        ensures
            c.config == config,
            c.state is Disconnected,
    {
        ImapConnector { config, state: SessionState::Disconnected }
    }

    /// Disconnected to Connected-TLS: records the outcome of establishing the
    /// TLS-wrapped transport. A failure is a transport error, distinct from
    /// every later protocol error, and discards the session.
    pub fn tls_handshake_done(&mut self, outcome: StepOutcome) -> (r: Result<(), Error>)
        requires
            old(self).state is Disconnected,
        ensures
            final(self).config == old(self).config,
            outcome is Done ==> r is Ok && final(self).state is ConnectedTls,
            outcome matches StepOutcome::Failed(d) ==> final(self).state is Closed && (
            r matches Err(e) && e == Error::CreateTlsConnectorError(d)),
    {
        match outcome {
            StepOutcome::Done => {
                self.state = SessionState::ConnectedTls;
                Ok(())
            },
            StepOutcome::Failed(d) => {
                self.state = SessionState::Closed;
                Err(Error::CreateTlsConnectorError(d))
            },
        }
    }

    /// Connected-TLS to Authenticated: records the outcome of the login
    /// exchange. A rejected login is an authentication error and discards
    /// the session.
    pub fn login_done(&mut self, outcome: StepOutcome) -> (r: Result<(), Error>)
        requires
            old(self).state is ConnectedTls,
        ensures
            final(self).config == old(self).config,
            outcome is Done ==> r is Ok && final(self).state is Authenticated,
            outcome matches StepOutcome::Failed(d) ==> final(self).state is Closed && (
            r matches Err(e) && e == Error::CreateImapSession(d)),
    {
        match outcome {
            StepOutcome::Done => {
                self.state = SessionState::Authenticated;
                Ok(())
            },
            StepOutcome::Failed(d) => {
                self.state = SessionState::Closed;
                Err(Error::CreateImapSession(d))
            },
        }
    }

    /// Ends the session: the command that owned the connector has completed,
    /// or an in-flight exchange was abandoned. No partial protocol state is
    /// ever reused — a later exchange starts from a fresh connector.
    pub fn close(&mut self)
        ensures
            final(self).config == old(self).config,
            final(self).state is Closed,
    {
        self.state = SessionState::Closed;
    }

    /// Authenticated (or already selected) to MailboxSelected: records the
    /// outcome of a select. A repeated select simply re-targets the session;
    /// a rejected select leaves the previous target in place and surfaces
    /// the server message as a protocol error.
    pub fn mailbox_selected(&mut self, mbox: &String, outcome: StepOutcome) -> (r: Result<
        (),
        Error,
    >)
        requires
            old(self).is_ready(),
        ensures
            final(self).config == old(self).config,
            final(self).is_ready(),
            outcome is Done ==> r is Ok && (final(self).state
                matches SessionState::MailboxSelected(n) && n@ == mbox@),
            outcome matches StepOutcome::Failed(d) ==> final(self).state == old(self).state && (
            r matches Err(e) && e == Error::CreateImapSession(d)),
    {
        match outcome {
            StepOutcome::Done => {
                self.state = SessionState::MailboxSelected(mbox.clone());
                Ok(())
            },
            StepOutcome::Failed(d) => Err(Error::CreateImapSession(d)),
        }
    }

    /// Lists the mailboxes of the root namespace: maps each raw listing
    /// entry to a mailbox value, in server order. Zero entries yield an
    /// empty sequence, never an error.
    pub fn list_mailboxes(&mut self, listing: ListOutcome) -> (r: Result<Vec<Mailbox>, Error>)
        requires
            old(self).is_ready(),
        ensures
            *final(self) == *old(self),
            listing matches ListOutcome::Listed(names) ==> r matches Ok(ms) && ms@.len()
                == names@.len() && (forall|j: int|
                0 <= j < names@.len() ==> #[trigger] ms@[j].name@ == names@[j]@),
            listing matches ListOutcome::Failed(d) ==> r matches Err(e) && e
                == Error::CreateImapSession(d),
    {
        match listing {
            ListOutcome::Failed(d) => Err(Error::CreateImapSession(d)),
            ListOutcome::Listed(names) => {
                let mut ms: Vec<Mailbox> = Vec::new();
                let mut i: usize = 0;
                while i < names.len()
                    invariant
                        i <= names@.len(),
                        ms@.len() == i,
                        forall|j: int| 0 <= j < i ==> #[trigger] ms@[j].name@ == names@[j]@,
                    decreases names@.len() - i,
                {
                    ms.push(Mailbox::from_name(&names[i]));
                    i = i + 1;
                }
                Ok(ms)
            },
        }
    }

    /// Selects the mailbox and turns the search outcome into the pending
    /// summary fetch: the first `SUMMARY_CAP` matching UIDs in server order,
    /// and the comma-joined UID set of the fetch command. The remainder of
    /// the matches is discarded, a deliberate bandwidth bound.
    pub fn search_summaries(
        &mut self,
        mbox: &String,
        select: StepOutcome,
        search: SearchOutcome,
    ) -> (r: Result<FetchPlan, Error>)
        requires
            old(self).is_ready(),
        ensures
            final(self).config == old(self).config,
            final(self).is_ready(),
            select matches StepOutcome::Failed(d) ==> final(self).state == old(self).state && (
            r matches Err(e) && e == Error::CreateImapSession(d)),
            select is Done ==> (final(self).state matches SessionState::MailboxSelected(n) && n@
                == mbox@),
            select is Done ==> (search matches SearchOutcome::Failed(d) ==> r matches Err(e) && e
                == Error::CreateImapSession(d)),
            select is Done ==> (search matches SearchOutcome::Found(uids) ==> r matches Ok(plan)
                && plan.uids@ == spec_window(uids@) && plan.set@ == spec_join(
                spec_window(uids@).map_values(|s: String| s@),
                seq![','],
            )),
    {
        match self.mailbox_selected(mbox, select) {
            Err(e) => return Err(e),
            Ok(()) => {},
        }
        match search {
            SearchOutcome::Failed(d) => Err(Error::CreateImapSession(d)),
            SearchOutcome::Found(mut uids) => {
                let cap = if uids.len() < SUMMARY_CAP {
                    uids.len()
                } else {
                    SUMMARY_CAP
                };
                uids.truncate(cap);
                proof {
                    reveal_strlit(",");
                    assert(","@ =~= seq![',']);
                }
                let set = join_all(&uids, ",");
                Ok(FetchPlan { uids, set })
            },
        }
    }

    /// Turns the summary fetch outcome into the returned summaries: the
    /// fetched summaries in server order, never more than were planned and
    /// never more than `SUMMARY_CAP`. An empty plan yields an empty
    /// sequence, never an error.
    pub fn read_emails(&self, plan: &FetchPlan, fetch: SummaryFetchOutcome) -> (r: Result<
        Vec<Email>,
        Error,
    >)
        requires
            self.state is MailboxSelected,
        ensures
            fetch matches SummaryFetchOutcome::Failed(d) ==> r matches Err(e) && e
                == Error::CreateImapSession(d),
            fetch matches SummaryFetchOutcome::Fetched(es) ==> r matches Ok(v) && v@ == es@.take(
                spec_fetch_limit(plan.uids@.len() as int, es@.len() as int),
            ),
            r matches Ok(v) ==> v@.len() <= SUMMARY_CAP,
    {
        match fetch {
            SummaryFetchOutcome::Failed(d) => Err(Error::CreateImapSession(d)),
            SummaryFetchOutcome::Fetched(mut es) => {
                let mut limit = plan.uids.len();
                if limit > SUMMARY_CAP {
                    limit = SUMMARY_CAP;
                }
                if limit > es.len() {
                    limit = es.len();
                }
                es.truncate(limit);
                Ok(es)
            },
        }
    }

    /// Selects the mailbox and turns the full-body fetch outcome for one UID
    /// into body text of the requested MIME type. The error conditions, in
    /// order of check: a protocol failure surfaces the server message; no
    /// fetch result at all means the email is not found (the mailbox may
    /// have changed concurrently); an absent payload is treated as an empty
    /// body, not an error; bytes that are no MIME message are a parse error;
    /// a message without a part of the requested type is the distinct
    /// empty-part condition (the email exists but lacks that
    /// representation). Otherwise the matching texts, concatenated in
    /// document order.
    pub fn read_email_body(
        &mut self,
        mbox: &String,
        select: StepOutcome,
        uid: &String,
        mime: &String,
        fetch: BodyFetchOutcome,
    ) -> (r: Result<String, Error>)
        requires
            old(self).is_ready(),
        ensures
            final(self).config == old(self).config,
            final(self).is_ready(),
            select matches StepOutcome::Failed(d) ==> final(self).state == old(self).state && (
            r matches Err(e) && e == Error::CreateImapSession(d)),
            select is Done ==> (final(self).state matches SessionState::MailboxSelected(n) && n@
                == mbox@),
            select is Done ==> (fetch matches BodyFetchOutcome::Failed(d) ==> r matches Err(e)
                && e == Error::CreateImapSession(d)),
            select is Done && fetch is NoResult ==> match r {
                Result::Err(Error::ReadEmailNotFoundError(u)) => u@ == uid@,
                _ => false,
            },
            select is Done ==> (fetch matches BodyFetchOutcome::Payload(body) ==> match parsed_mime(
                spec_payload_bytes(body),
            ) {
                Option::None => r matches Err(e) && e is ParseEmailError,
                Option::Some(parts) => if !spec_has_part(parts, mime@) {
                    match r {
                        Result::Err(Error::ReadEmailEmptyPartError(u, m)) => u@ == uid@ && m@
                            == mime@,
                        _ => false,
                    }
                } else {
                    r matches Ok(s) && s@ == spec_text_bodies(parts, mime@)
                },
            }),
    {
        match self.mailbox_selected(mbox, select) {
            Err(e) => return Err(e),
            Ok(()) => {},
        }
        match fetch {
            BodyFetchOutcome::Failed(d) => Err(Error::CreateImapSession(d)),
            BodyFetchOutcome::NoResult => Err(Error::ReadEmailNotFoundError(uid.clone())),
            BodyFetchOutcome::Payload(body) => {
                let ghost payload = body;
                let bytes = match body {
                    Some(b) => b,
                    None => Vec::new(),
                };
                proof {
                    assert(bytes@ =~= spec_payload_bytes(payload));
                }
                match parse_mime_parts(&bytes) {
                    Err(d) => Err(Error::ParseEmailError(d)),
                    Ok(parts) => match extract_text_bodies(mime, &parts) {
                        None => Err(
                            Error::ReadEmailEmptyPartError(uid.clone(), mime.clone()),
                        ),
                        Some(text) => Ok(text),
                    },
                }
            },
        }
    }
}

/// The bytes of a fetch payload: an absent payload is an empty body.
pub open spec fn spec_payload_bytes(body: Option<Vec<u8>>) -> Seq<u8> {
    match body {
        Option::None => Seq::empty(),
        Option::Some(b) => b@,
    }
}

/// Law: one search yields at most `SUMMARY_CAP` summaries however many UIDs
/// matched; when no more than `SUMMARY_CAP` matched, every match is planned,
/// and — with one summary fetched per planned UID — every one is kept; zero
/// matches give an empty plan and an empty result, never an error.
pub proof fn lemma_summary_cap(uids: Seq<String>, fetched: int)
    requires
        fetched == spec_window(uids).len(),
    ensures
        spec_window(uids).len() == min(SUMMARY_CAP as int, uids.len() as int),
        spec_fetch_limit(spec_window(uids).len() as int, fetched) <= SUMMARY_CAP as int,
        uids.len() <= SUMMARY_CAP ==> spec_window(uids) == uids,
        uids.len() == 0 ==> spec_window(uids).len() == 0,
        spec_fetch_limit(spec_window(uids).len() as int, fetched) == spec_window(uids).len(),
{
    if uids.len() <= SUMMARY_CAP {
        assert(spec_window(uids) =~= uids);
    }
}

} // verus!
