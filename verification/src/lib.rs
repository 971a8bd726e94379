//! Core of an email client runtime: capability-based backend composition
//! and the decision logic of an IMAP protocol session.

pub mod account;
mod backend;
mod imap;
mod send;
mod text;
mod wizard;

pub use account::AccountSubcmd;
pub use account::Cmd;
pub use account::FolderStrategy;
pub use account::SyncArgs;
pub use account::folders_strategy;
pub use backend::AccountConfig;
pub use backend::BackendConfig;
pub use backend::BackendContext;
pub use backend::BackendError;
pub use backend::BackendInstance;
pub use backend::BackendKind;
pub use backend::Capability;
pub use backend::CapabilityRequest;
pub use backend::MaildirConfig;
pub use backend::NotmuchConfig;
pub use backend::SendmailConfig;
pub use backend::ServerInfo;
pub use backend::build_backend_context;
pub use imap::BodyFetchOutcome;
pub use imap::Email;
pub use imap::Error;
pub use imap::FetchPlan;
pub use imap::ImapConnector;
pub use imap::ListOutcome;
pub use imap::Mailbox;
pub use imap::MimePart;
pub use imap::SUMMARY_CAP;
pub use imap::SearchOutcome;
pub use imap::SessionState;
pub use imap::StepOutcome;
pub use imap::SummaryFetchOutcome;
pub use imap::extract_text_bodies;
pub use send::MessageSendCommand;
pub use text::join_all;
pub use wizard::default_backend_kinds;
pub use wizard::selected_kind;
pub use wizard::send_message_backend_kinds;
