//! The ban registry: which addresses are refused for now, and until when.
//!
//! Time is a number of nanoseconds since some fixed instant, the same for
//! every call; the caller reads the clock.

use crate::address::Address;
use crate::clienthandle::{
    after_publish, after_read, closing, DisconnectError, ExitKind, OutcomeModel, Session,
    SessionState, StepModel, BANTIME,
};
use crate::connection::{trimmed, trimmed_has_no_outer_whitespace};
use std::collections::HashMap;
use vstd::prelude::*;
use vstd::std_specs::hash::*;

verus! {

/// Whether `ip` is banned at the instant `now`: it has an entry, and the
/// entry has not expired. An entry that has expired counts as absent.
pub open spec fn banned_at(bans: Map<Address, u128>, ip: Address, now: u128) -> bool {
    bans.contains_key(ip) && now < bans[ip]
}

/// The registry after `ip` is banned at `now` for `duration`: its entry
/// expires at `now + duration`, whatever it held before.
pub open spec fn after_ban(bans: Map<Address, u128>, ip: Address, now: u128, duration: u128) -> Map<
    Address,
    u128,
> {
    bans.insert(ip, (now + duration) as u128)
}

/// The registry after `ip` is looked up at `now`: a ban that holds stays,
/// an entry that has expired is removed.
pub open spec fn after_lookup(bans: Map<Address, u128>, ip: Address, now: u128) -> Map<
    Address,
    u128,
> {
    if banned_at(bans, ip, now) {
        bans
    } else {
        bans.remove(ip)
    }
}

/// The addresses that are refused for now, each with the instant at which
/// its ban expires.
pub struct IpBanner {
    v4: HashMap<u32, u128>,
    v6: HashMap<u128, u128>,
}

impl View for IpBanner {
    type V = Map<Address, u128>;

    closed spec fn view(&self) -> Map<Address, u128> {
        Map::new(
            |ip: Address|
                match ip {
                    Address::V4(bits) => self.v4@.contains_key(bits),
                    Address::V6(bits) => self.v6@.contains_key(bits),
                },
            |ip: Address|
                match ip {
                    Address::V4(bits) => self.v4@[bits],
                    Address::V6(bits) => self.v6@[bits],
                },
        )
    }
}

/// Looks `key` up in one family's entries at `now`, and removes its entry if
/// that has expired.
fn lookup<K: Copy + Eq + std::hash::Hash>(entries: &mut HashMap<K, u128>, key: K, now: u128) -> (bled:
    bool)
    requires
        obeys_key_model::<K>(),
    ensures
        bled == (old(entries)@.contains_key(key) && now < old(entries)@[key]),
        final(entries)@ == (if bled {
            old(entries)@
        } else {
            old(entries)@.remove(key)
        }),
{
    let expiry = match entries.get(&key) {
        Some(expiry) => Some(*expiry),
        None => None,
    };
    match expiry {
        None => {
            assert(entries@ =~= old(entries)@.remove(key));
            false
        },
        Some(expiry) => {
            let bled = now < expiry;
            if !bled {
                entries.remove(&key);
            }
            bled
        },
    }
}

impl IpBanner {
    /// A registry without entries.
    pub fn new() -> (banner: IpBanner)
        ensures
            banner@ == Map::<Address, u128>::empty(),
    {
        let banner = IpBanner { v4: HashMap::new(), v6: HashMap::new() };
        assert(banner@ =~= Map::<Address, u128>::empty());
        banner
    }

    /// Bans `ip` from `now` for `duration`. A ban that `ip` already has is
    /// replaced.
    pub fn add(&mut self, ip: Address, now: u128, duration: u128)
        requires
            now + duration <= u128::MAX,
        ensures
            final(self)@ == after_ban(old(self)@, ip, now, duration),
    {
        let expiry = now + duration;
        match ip {
            Address::V4(bits) => {
                self.v4.insert(bits, expiry);
            },
            Address::V6(bits) => {
                self.v6.insert(bits, expiry);
            },
        }
        assert(self@ =~= after_ban(old(self)@, ip, now, duration));
    }

    /// Whether `ip` is banned at `now`. An entry that has expired is
    /// removed.
    pub fn is_blacklisted(&mut self, ip: &Address, now: u128) -> (bled: bool)
        ensures
            bled == banned_at(old(self)@, *ip, now),
            final(self)@ == after_lookup(old(self)@, *ip, now),
    {
        let bled = match ip {
            Address::V4(bits) => lookup(&mut self.v4, *bits, now),
            Address::V6(bits) => lookup(&mut self.v6, *bits, now),
        };
        assert(self@ =~= after_lookup(old(self)@, *ip, now));
        bled
    }

    /// Decides on a connection from `ip` that is accepted at `now`. A banned
    /// address gets nothing: no session, and so no event. Any other
    /// address gets its session, which has yet to start.
    pub fn accept(&mut self, ip: Address, now: u128) -> (session: Option<Session>)
        ensures
            session is None <==> banned_at(old(self)@, ip, now),
            final(self)@ == after_lookup(old(self)@, ip, now),
            session matches Some(session) ==> session.address() == ip && session.state()
                == SessionState::Starting,
    {
        if self.is_blacklisted(&ip, now) {
            None
        } else {
            Some(Session::new(ip))
        }
    }
}

/// A ban holds at every instant before it expires, whatever the registry
/// held before.
pub proof fn ban_holds_for_its_duration(
    bans: Map<Address, u128>,
    ip: Address,
    now: u128,
    duration: u128,
    at: u128,
)
    requires
        now + duration <= u128::MAX,
        at < now + duration,
    ensures
        banned_at(after_ban(bans, ip, now, duration), ip, at),
        after_lookup(after_ban(bans, ip, now, duration), ip, at) == after_ban(
            bans,
            ip,
            now,
            duration,
        ),
{
}

/// Once its duration has passed, a ban holds no more: the address is not
/// banned at any such instant, and the first lookup removes its entry, so
/// that it stays unbanned at every instant until it is banned again.
pub proof fn ban_ends_with_its_duration(
    bans: Map<Address, u128>,
    ip: Address,
    now: u128,
    duration: u128,
    at: u128,
    later: u128,
)
    requires
        now + duration <= u128::MAX,
        now + duration <= at,
    ensures
        !banned_at(after_ban(bans, ip, now, duration), ip, at),
        !after_lookup(after_ban(bans, ip, now, duration), ip, at).contains_key(ip),
        !banned_at(after_lookup(after_ban(bans, ip, now, duration), ip, at), ip, later),
{
}

/// A ban and a lookup concern one address: no other address is banned or
/// freed by them.
pub proof fn other_addresses_are_untouched(
    bans: Map<Address, u128>,
    ip: Address,
    other: Address,
    now: u128,
    duration: u128,
    at: u128,
)
    requires
        ip != other,
    ensures
        banned_at(after_ban(bans, ip, now, duration), other, at) == banned_at(bans, other, at),
        banned_at(after_lookup(bans, ip, now), other, at) == banned_at(bans, other, at),
{
}

/// A peer that sends a line while its bucket is empty is kicked for
/// flooding, and banned: the active session closes with that reason, its
/// departure is published as such, it terminates whether or not the bus
/// takes the event, and once the ban that its outcome asks for is entered
/// at `now`, the address is refused at every instant of the next `BANTIME`.
pub proof fn flood_is_kicked_and_banned(
    bans: Map<Address, u128>,
    ip: Address,
    raw: Seq<char>,
    sent: bool,
    now: u128,
    at: u128,
)
    requires
        trimmed(raw).len() > 0,
        now + BANTIME <= u128::MAX,
        now <= at < now + BANTIME,
    ensures
        after_read(SessionState::Active, ip, Some(raw), 0) == closing(ip, DisconnectError::Spam),
        after_publish(SessionState::Closing(DisconnectError::Spam), sent) == (
            SessionState::Terminated,
            StepModel::Exit(
                OutcomeModel {
                    exit: ExitKind::Disconnect(DisconnectError::Spam),
                    ban: Some(BANTIME),
                    announced: sent,
                },
            ),
        ),
        banned_at(after_ban(bans, ip, now, BANTIME), ip, at),
{
    trimmed_has_no_outer_whitespace(raw);
}

} // verus!
