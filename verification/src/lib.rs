//! Decision layer of automatic node failover for a proxy client.
//!
//! While the core runs, a heartbeat probes the current exit through an inbound that is pinned to
//! it. Three failures in a row trigger a round of failover: the nodes that the running core has
//! loaded are sifted, the survivors are measured, and the fastest is switched to without a restart,
//! in a transaction that either proves itself or takes itself back.
//!
//! Nothing in this crate performs I/O. It decides what to do next from what was observed:
//!
//! - [`machine`] keeps the state of the heartbeat: failures, cooldown, circuit breaker;
//! - [`heartbeat`] leads from beat to beat, [`tick`] decides what one of them does;
//! - [`probe`] decides what a beat sends and how it reads the answers;
//! - [`candidates`] and [`sweep`] sift the nodes, [`selection`] picks the fastest;
//! - [`round`] holds the steps of one round, [`failover`] strings them together;
//! - [`transaction`] carries out the switch;
//! - [`config`], [`mesh`] and [`json`] read the configuration;
//! - [`report`] words what the user is told.
//!
//! Each module states what it does over mathematical models. The `law_` functions state what holds
//! across calls, and what each decision is worth in terms of what was read.
pub mod candidates;
pub mod choice_laws;
pub mod config;
pub mod course_laws;
pub mod failover;
pub mod heartbeat;
pub mod json;
pub mod machine;
pub mod machine_effects;
pub mod machine_laws;
pub mod mesh;
pub mod node_map;
pub mod plan_laws;
pub mod probe;
pub mod probe_laws;
pub mod reading_laws;
pub mod report;
pub mod round;
pub mod selection;
pub mod sequences;
pub mod sweep;
pub mod sweep_laws;
pub mod text;
pub mod tick;
pub mod transaction;
pub mod transaction_effects;
pub mod transaction_laws;
pub mod view_laws;
