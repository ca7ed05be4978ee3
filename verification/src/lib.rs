//! Resolves a repository reference (SSH form, HTTP(S) URL, or bare
//! `org/project` shorthand) into a `(host, organization, project)` triple,
//! and drives the clone-into-deterministic-path workflow as a verified
//! state machine whose filesystem, prompt and git effects are performed
//! by the surrounding program.

pub mod orchestrator;
pub mod resolver;
pub mod text;

pub use resolver::{parse_http_url, parse_ssh_url, repository, ParseRepoError};
