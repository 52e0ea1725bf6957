//! `Ren` is a library that provides basic access
//! to the client windowing system. There is
//! support for rendering primitive drawing operations to
//! the window surface. All communication is done via messages:
//! a `Connection` multiplexes typed `Message`s between the
//! caller and one `Session` per open window, and hands backend
//! events back out.

pub mod context;
pub mod display;
pub mod event;
pub mod graphics;
pub mod message;
pub mod render;
pub mod system;

mod connection;
mod session;

pub use connection::Connection;
pub use context::ConnectionError;
pub use context::SystemContext;
pub use context::WindowContext;
pub use session::stat_reply;
pub use session::Session;
pub use system::SystemType;
pub use event::input::KeyEvent;
pub use event::input::MouseEvent;
pub use event::DisplayEvent;
pub use event::Event;
pub use event::InputEvent;
pub use message::data;
pub use message::data::Data;
pub use message::stat;
pub use message::stat::Stat;
pub use message::Body;
pub use message::Command;
pub use message::Error;
pub use message::Message;
pub use message::MessageQueue;
pub use message::Status;
pub use message::Token;
pub use message::Type;
pub use message::WindowCommand;
