//! Client-side telemetry: events are built with defaults, gathered by a
//! session that lends them its identity and user properties, and buffered by a
//! client that hands them out in batches for delivery.

pub mod buffer;
pub mod client;
pub mod clock;
pub mod event;
pub mod json;
pub mod properties;
pub mod session;
pub mod wire;

pub use client::Delivery;
pub use client::FlushAction;
pub use client::WhalyticsClient;
pub use client::WhalyticsClientBuilder;
pub use event::BuilderError;
pub use event::WhalyticsEvent;
pub use event::WhalyticsEventBuilder;
pub use properties::Properties;
pub use session::WhalyticsSession;
pub use session::WhalyticsSessionBuilder;
