//! Control logic of a remotely steered wheeled robot: the instruction
//! decoder and dispatcher, the actuation layer that turns steering and
//! throttle intents into motor levels, and the decision logic of the
//! button-gated connection supervisor.

pub mod activation;
pub mod actuator;
pub mod advert;
pub mod chassis;
pub mod driver;
pub mod flag;
pub mod instruction;
pub mod queue;
pub mod remap;
pub mod session;
