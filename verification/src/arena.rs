//! The handoff to the external tournament engine.
//!
//! The engine is consumed only through its builder: a validated
//! [`LaunchConfig`](crate::launch::LaunchConfig) is translated into the
//! engine's own configuration value here, one setter at a time.  The builder
//! is opaque to this library, so what it carries is spoken of through
//! uninterpreted observers — one per builder field — and each trusted
//! setter states which observer it fixes and that it leaves the others as
//! they were, exactly as the builder's source shows.  The launch itself (a
//! long-lived blocking wait for tournament completion) is performed by the
//! surrounding program, which takes ownership of the prepared builder.

use crate::launch::LaunchConfig;
use vstd::prelude::*;

verus! {

#[verifier::external_type_specification]
#[verifier::external_body]
pub struct ExArenaBuilder(splendor_arena::ArenaBuilder);

/// The web server port the builder carries.
pub uninterp spec fn arena_port_of(b: splendor_arena::ArenaBuilder) -> u16;

/// The initial clock duration the builder carries, in seconds.
pub uninterp spec fn arena_initial_time_of(b: splendor_arena::ArenaBuilder) -> u64;

/// The per-move clock increment the builder carries, in seconds.
pub uninterp spec fn arena_increment_of(b: splendor_arena::ArenaBuilder) -> u64;

/// The competitor count the builder carries, once one was set.
pub uninterp spec fn arena_num_players_of(b: splendor_arena::ArenaBuilder) -> Option<usize>;

/// Whether the builder marks the run for remote live-reporting.
pub uninterp spec fn arena_send_to_web_of(b: splendor_arena::ArenaBuilder) -> bool;

/// The reporting credential the builder carries, once one was set.
pub uninterp spec fn arena_api_key_of(b: splendor_arena::ArenaBuilder) -> Option<Seq<char>>;

/// Relies on splendor_arena::ArenaBuilder::new: a builder holding the
/// engine's defaults — port 3030, a 60 s initial clock, no increment, no
/// player count yet, and no remote reporting.
#[verifier::external_body]
fn arena_builder_new() -> (r: splendor_arena::ArenaBuilder)
    ensures
        arena_port_of(r) == 3030u16,
        arena_initial_time_of(r) == 60u64,
        arena_increment_of(r) == 0u64,
        arena_num_players_of(r) is None,
        arena_send_to_web_of(r) == false,
        arena_api_key_of(r) is None,
{
    splendor_arena::ArenaBuilder::new()
}

/// Relies on splendor_arena::ArenaBuilder::port, which sets the port field
/// alone and returns the builder otherwise unchanged.
#[verifier::external_body]
fn arena_builder_port(b: splendor_arena::ArenaBuilder, port: u16) -> (r:
    splendor_arena::ArenaBuilder)
    ensures
        arena_port_of(r) == port,
        arena_initial_time_of(r) == arena_initial_time_of(b),
        arena_increment_of(r) == arena_increment_of(b),
        arena_num_players_of(r) == arena_num_players_of(b),
        arena_send_to_web_of(r) == arena_send_to_web_of(b),
        arena_api_key_of(r) == arena_api_key_of(b),
{
    b.port(port)
}

/// Relies on splendor_arena::ArenaBuilder::initial_time, which sets the
/// initial clock field alone — here from the given seconds — and returns
/// the builder otherwise unchanged.
#[verifier::external_body]
fn arena_builder_initial_time(b: splendor_arena::ArenaBuilder, secs: u64) -> (r:
    splendor_arena::ArenaBuilder)
    ensures
        arena_initial_time_of(r) == secs,
        arena_port_of(r) == arena_port_of(b),
        arena_increment_of(r) == arena_increment_of(b),
        arena_num_players_of(r) == arena_num_players_of(b),
        arena_send_to_web_of(r) == arena_send_to_web_of(b),
        arena_api_key_of(r) == arena_api_key_of(b),
{
    b.initial_time(core::time::Duration::from_secs(secs))
}

/// Relies on splendor_arena::ArenaBuilder::increment, which sets the
/// increment field alone — here from the given seconds — and returns the
/// builder otherwise unchanged.
#[verifier::external_body]
fn arena_builder_increment(b: splendor_arena::ArenaBuilder, secs: u64) -> (r:
    splendor_arena::ArenaBuilder)
    ensures
        arena_increment_of(r) == secs,
        arena_port_of(r) == arena_port_of(b),
        arena_initial_time_of(r) == arena_initial_time_of(b),
        arena_num_players_of(r) == arena_num_players_of(b),
        arena_send_to_web_of(r) == arena_send_to_web_of(b),
        arena_api_key_of(r) == arena_api_key_of(b),
{
    b.increment(core::time::Duration::from_secs(secs))
}

/// Relies on splendor_arena::ArenaBuilder::num_players, which sets the
/// player-count field alone and returns the builder otherwise unchanged.
#[verifier::external_body]
fn arena_builder_num_players(b: splendor_arena::ArenaBuilder, n: usize) -> (r:
    splendor_arena::ArenaBuilder)
    ensures
        arena_num_players_of(r) == Some(n),
        arena_port_of(r) == arena_port_of(b),
        arena_initial_time_of(r) == arena_initial_time_of(b),
        arena_increment_of(r) == arena_increment_of(b),
        arena_send_to_web_of(r) == arena_send_to_web_of(b),
        arena_api_key_of(r) == arena_api_key_of(b),
{
    b.num_players(n)
}

/// Relies on splendor_arena::ArenaBuilder::send_to_web, which sets the
/// reporting flag to the given value, stores the given credential, and
/// returns the builder otherwise unchanged.
#[verifier::external_body]
fn arena_builder_send_to_web(b: splendor_arena::ArenaBuilder, active: bool, api_key: &str) -> (r:
    splendor_arena::ArenaBuilder)
    ensures
        arena_send_to_web_of(r) == active,
        arena_api_key_of(r) == Some(api_key@),
        arena_port_of(r) == arena_port_of(b),
        arena_initial_time_of(r) == arena_initial_time_of(b),
        arena_increment_of(r) == arena_increment_of(b),
        arena_num_players_of(r) == arena_num_players_of(b),
{
    b.send_to_web(active, api_key)
}

/// The credential the engine receives for a run marked for reporting: the
/// stored one, or the empty credential when none is configured.
pub open spec fn reporting_key_view(api_key: Option<String>) -> Seq<char> {
    match api_key {
        Option::Some(k) => k@,
        Option::None => Seq::empty(),
    }
}

/// Translate a validated launch configuration into the engine's builder.
///
/// The prepared builder carries the configuration's port, both clock
/// parameters and one player per competitor artifact.  A configuration
/// marked for remote reporting is flagged as such, with its credential when
/// one is set and with the empty credential otherwise; an unmarked one
/// leaves reporting off.  The caller hands the returned builder to the
/// engine's launch entry point; control does not return from that handoff
/// until the tournament ends.
pub fn prepare_arena(cfg: &LaunchConfig) -> (r: splendor_arena::ArenaBuilder)
    requires
        cfg.valid(),
    ensures
        arena_port_of(r) == cfg.port,
        arena_initial_time_of(r) == cfg.initial_time_secs,
        arena_increment_of(r) == cfg.increment_secs,
        arena_num_players_of(r) == Some(cfg.binaries@.len() as usize),
        arena_send_to_web_of(r) == cfg.watch,
        cfg.watch ==> arena_api_key_of(r) == Some(reporting_key_view(cfg.api_key)),
        !cfg.watch ==> arena_api_key_of(r) is None,
{
    let b = arena_builder_new();
    let b = arena_builder_port(b, cfg.port);
    let b = arena_builder_initial_time(b, cfg.initial_time_secs);
    let b = arena_builder_increment(b, cfg.increment_secs);
    let b = arena_builder_num_players(b, cfg.binaries.len());
    if cfg.watch {
        match &cfg.api_key {
            Some(key) => arena_builder_send_to_web(b, true, key.as_str()),
            None => {
                let r = arena_builder_send_to_web(b, true, "");
                proof {
                    reveal_strlit("");
                    assert(""@ =~= Seq::<char>::empty());
                }
                r
            },
        }
    } else {
        b
    }
}

} // verus!
