//! Ticket management: validated ticket data, configuration, and the
//! decisions of the ticket service, with contracts checked by Verus.
pub mod config;
pub mod data;
pub mod error;
pub mod id_order;
pub mod paging;
pub mod state;
pub mod text;
pub mod tickets;

pub use config::{
    AppConfig, AppConfigError, ConfigFailure, Environment, LoadPlan, ServerConfig, Settings,
    TelemetryConfig,
};
pub use data::{
    Description, DescriptionError, Status, Ticket, TicketDraft, TicketId, TicketPatch, Timestamp,
    Title, TitleError,
};
pub use error::{ApiError, DatabaseFailure, DbFailure, StoreError};
pub use paging::TicketPage;
pub use tickets::CacheAction;
