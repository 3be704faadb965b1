//! Core of a repository manager: a remote-locator parser that normalizes
//! several URL dialects and a legacy shorthand into one structured value, a
//! layout resolver that maps (kind, host, account, path) tuples to and from
//! concrete filesystem paths under a configured root, and a repository
//! scanner that walks a directory tree and yields the roots of managed
//! repositories without double-counting nested ones.

pub mod cli;
pub mod layout;
pub mod scan;
pub mod settings;
pub mod locator;
pub mod text;
pub mod urlspec;
