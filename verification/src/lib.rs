pub mod backend;
pub mod error;
pub mod gateway;
pub mod helper;
pub mod ice;
pub mod json;
pub mod request;
pub mod response;
pub mod session;
pub mod plugin;
pub mod proxy;
pub mod state;
pub mod videoroom;
pub mod videoroom_request;
pub mod videoroom_state;
