//! Resolution of the Grain language-server binary.
//!
//! Given a development workspace, the library decides which executable to
//! launch as the Grain language server, falling back through an ordered
//! chain of strategies: an explicit path from user configuration, a probe
//! of the workspace's search path, a previously provisioned binary held in
//! a process-lifetime cache, and finally the download of a versioned
//! release asset matched to the host operating system and architecture.
//!
//! All interaction with the host (settings lookup, path probing, stat
//! calls, release queries, downloads) happens outside this crate: the
//! resolution pipeline is a state machine that emits the next host request
//! as a [`machine::Effect`] and consumes the host's answer as an
//! [`machine::Event`], so every decision the pipeline makes is verified.

pub mod laws;
pub mod machine;
pub mod release;
pub mod tag;
pub mod tokens;
