//! An in-process terminal session core: a dimensions model, a keystroke
//! encoder, a content-snapshot model, a hyperlink locator and the session
//! state machine, together with the surrounding application's domain
//! models, editor buffer and multiplexer integration.

pub mod bounds;
pub mod colors;
pub mod content;
pub mod context;
pub mod editor;
pub mod event;
pub mod hyperlinks;
pub mod keys;
pub mod models;
pub mod strutil;
pub mod terminal;
pub mod theme;
pub mod tui;

pub use bounds::TerminalBounds;
pub use content::TerminalContent;
pub use event::Event;
pub use terminal::Terminal;
