//! The presence notifier: tells other live sessions when an identity joins
//! or leaves.
//!
//! Presence notices are best-effort side information: the functions here only
//! decide who is told what, as pushes against registry handles; a push whose
//! connection has meanwhile closed is silently dropped by the transport.

use vstd::prelude::*;

use crate::messages::Delivery;
use crate::messages::DeliveryV;
use crate::messages::Message;
use crate::messages::MessageV;
use crate::registry::ConnectionRegistry;

verus! {

/// One delivery of `message` per registry entry, in registration order.
pub open spec fn broadcast_deliveries(
    entries: Seq<(Seq<char>, u64)>,
    message: MessageV,
) -> Seq<DeliveryV> {
    entries.map_values(|p: (Seq<char>, u64)| DeliveryV { handle: p.1, message })
}

/// The join notices: one `UserConnected` per registry entry other than the
/// newly joined identity itself, in registration order.
pub open spec fn join_deliveries(
    entries: Seq<(Seq<char>, u64)>,
    username: Seq<char>,
) -> Seq<DeliveryV>
    decreases entries.len(),
{
    if entries.len() == 0 {
        Seq::empty()
    } else {
        let rest = join_deliveries(entries.drop_last(), username);
        if entries.last().0 == username {
            rest
        } else {
            rest.push(
                DeliveryV {
                    handle: entries.last().1,
                    message: MessageV::UserConnected { username },
                },
            )
        }
    }
}

/// Fans `message` out to every currently registered connection, in
/// registration order.
pub fn broadcast_to_connections(registry: &ConnectionRegistry, message: &Message) -> (r: Vec<
    Delivery,
>)
    ensures
        r.deep_view() == broadcast_deliveries(registry.entries_seq(), message@),
{
    let ghost entries = registry.entries_seq();
    let n = registry.len();
    let mut r: Vec<Delivery> = Vec::new();
    let mut i: usize = 0;
    while i < n
        invariant
            n as nat == registry.spec_len(),
            i <= n,
            entries == registry.entries_seq(),
            r.deep_view() == broadcast_deliveries(entries.take(i as int), message@),
        decreases n - i,
    {
        let e = registry.entry_at(i);
        let ghost prev = r.deep_view();
        let d = Delivery { handle: e.handle, message: message.clone() };
        proof {
            assert(d@ == (DeliveryV { handle: entries[i as int].1, message: message@ }));
        }
        r.push(d);
        proof {
            assert(r.deep_view() =~= prev.push(
                DeliveryV { handle: entries[i as int].1, message: message@ },
            ));
            assert(broadcast_deliveries(entries.take(i + 1 as int), message@) =~= prev.push(
                DeliveryV { handle: entries[i as int].1, message: message@ },
            ));
        }
        i += 1;
    }
    proof {
        assert(entries.take(n as int) =~= entries);
    }
    r
}

/// Delivers a `UserConnected` notice for `username` to every other currently
/// registered connection; the newly joined identity is excluded.
pub fn announce_join(registry: &ConnectionRegistry, username: &str) -> (r: Vec<Delivery>)
    ensures
        r.deep_view() == join_deliveries(registry.entries_seq(), username@),
{
    let ghost entries = registry.entries_seq();
    let n = registry.len();
    let mut r: Vec<Delivery> = Vec::new();
    let mut i: usize = 0;
    while i < n
        invariant
            n as nat == registry.spec_len(),
            i <= n,
            entries == registry.entries_seq(),
            r.deep_view() == join_deliveries(entries.take(i as int), username@),
        decreases n - i,
    {
        let e = registry.entry_at(i);
        let ghost prev = r.deep_view();
        if !crate::registry::str_eq(e.identity.as_str(), username) {
            r.push(
                Delivery {
                    handle: e.handle,
                    message: Message::UserConnected { username: username.to_owned() },
                },
            );
            proof {
                assert(r.deep_view() =~= prev.push(
                    DeliveryV {
                        handle: entries[i as int].1,
                        message: MessageV::UserConnected { username: username@ },
                    },
                ));
            }
        }
        proof {
            assert(entries.take(i + 1 as int).drop_last() =~= entries.take(i as int));
            assert(entries.take(i + 1 as int).last() == entries[i as int]);
        }
        i += 1;
    }
    proof {
        assert(entries.take(n as int) =~= entries);
    }
    r
}

/// Delivers a `UserDisconnected` notice for `username` to every connection
/// still registered at call time; the departing identity has already left the
/// registry, so no exclusion is needed.
pub fn announce_leave(registry: &ConnectionRegistry, username: &str) -> (r: Vec<Delivery>)
    ensures
        r.deep_view() == broadcast_deliveries(
            registry.entries_seq(),
            MessageV::UserDisconnected { username: username@ },
        ),
{
    let m = Message::UserDisconnected { username: username.to_owned() };
    broadcast_to_connections(registry, &m)
}

} // verus!
