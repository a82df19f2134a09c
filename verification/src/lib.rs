//! Capture of keyboard and mouse input at the operating-system level, with a
//! verified lifecycle and fan-out layer.
//!
//! The library models the capture subsystem itself: a session that is started
//! exactly once no matter how many subscribers race to be first, a registry of
//! event consumers, a dispatcher that delivers every captured event to every
//! registered consumer in production order, and a teardown that runs exactly
//! when the last subscriber leaves.  The operating-system calls themselves
//! (hook installation, the raw callback, input synthesis) live outside the
//! library and hand it plain values.

pub mod error;
pub mod vk;
pub mod events;
pub mod registry;
pub mod translate;
pub mod coordinator;
pub mod message_loop;
pub mod laws;
pub mod input;
pub mod keylike;
pub mod hooks;
pub mod mouse;

pub use error::WindowsError;
pub use vk::Vk;
pub use input::Action;
pub use input::Button;
pub use input::Input;
pub use input::MouseMotion;
pub use input::WheelDirection;
pub use keylike::Keylike;
pub use mouse::Mouse;
pub use events::Event;
pub use events::EventConsumer;
pub use events::EventLog;
pub use events::HandlerHandle;
pub use message_loop::MessageLoop;
pub use message_loop::MessageLoopError;
