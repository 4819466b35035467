//! Process-lifecycle supervisor for a locally served web application.
//!
//! The library models the launcher core of a desktop shell that embeds a
//! local web server: allocating a free TCP port, planning the spawn of the
//! backend server process, polling the port until the server is ready,
//! owning the child-process handle with take-once termination semantics,
//! orchestrating the startup sequence, and reacting to the outcome of a
//! background self-update check. All operating-system work (sockets,
//! processes, timers, the windowing shell, the update service) happens
//! outside the library; the library receives plain values describing what
//! happened and decides, with verified contracts, what must happen next.

pub mod port;
pub mod probe;
pub mod startup;
pub mod supervisor;
pub mod text;
pub mod update;
