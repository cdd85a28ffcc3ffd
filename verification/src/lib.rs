//! Client-side core of an AWS IoT device connection: a fan-out of inbound
//! MQTT events to independently paced consumer handles, and a device-shadow
//! manager that mirrors a named thing's shadow document and drives the
//! get/update/delete request protocol over the shadow topics.
//!
//! The network transport itself (connection setup, TLS, the MQTT engine) is
//! an outside collaborator; this crate holds the distribution and shadow
//! logic, each function with a verified contract.

pub mod decode;
pub mod distributor;
pub mod error;
pub mod event;
pub mod json;
pub mod settings;
pub mod shadow;
pub mod topic;

pub use error::AWSIoTError;
pub use event::InboundEvent;
pub use event::QosLevel;
pub use settings::MQTTMaxPacketSize;
pub use shadow::AWSShadowManager;
