pub mod auth;
pub mod effect;
pub mod event;
pub mod guarantee;
pub mod ingress;
pub mod mode;
pub mod model;
pub mod policy;
pub mod router;
pub mod shell;
pub mod store;
pub mod text;
pub mod tray;
