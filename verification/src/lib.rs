//! Audits a Bundler lockfile: which sources are fetched over an insecure
//! protocol, which locked gems and which Ruby interpreter have known advisories,
//! and what the command line tool does with the answer.
//!
//! Every executable function carries a contract that Verus proves. Reading
//! files, asking the network and running git are left to the front end, which
//! hands their outcomes in as plain values.

pub mod advisory;
pub mod audit;
pub mod check;
pub mod conduct;
pub mod configuration;
pub mod exit;
pub mod fixes;
pub mod guarantees;
pub mod ids;
pub mod laws;
pub mod lockfile;
pub mod maintenance;
pub mod options;
pub mod report;
pub mod scanner;
pub mod severity;
pub mod text;
