//! Key and relay-set commands.
//!
//! The stored signing key and the stored relay address set live in the
//! caller's persistence layer; what the library owns is the decision: what
//! each command means for the stored state. The caller reads the current
//! state, applies the decision computed here, and writes the result back.

use vstd::prelude::*;

use crate::hex::contains_bytes;
use crate::hex::copy_bytes;
use crate::hex::deep_view_of;
use crate::hex::seq_contains_bytes;
use crate::obligations::id_set;
use crate::obligations::no_dup_ids;

verus! {

/// A command on the stored signing key.
#[derive(Debug)]
pub enum KeyCommand {
    /// Reveal the public half of the stored key.
    Public,
    /// Reveal the secret half of the stored key.
    Secret,
    /// Replace the stored key with the given secret key material.
    Store { secret_key: Vec<u8> },
    /// Remove the stored key.
    Delete,
}

/// What a key command asks the persistence layer to do.
#[derive(Debug)]
pub enum KeyAction {
    /// Show the public half; the store is unchanged.
    RevealPublicKey,
    /// Show the secret half; the store is unchanged.
    RevealSecretKey,
    /// Store this secret key material.
    StoreSecretKey { secret_key: Vec<u8> },
    /// Delete the stored key.
    DeleteSecretKey,
}

/// Decides what a key command means for the stored key.
pub fn key_command_action(cmd: KeyCommand) -> (r: KeyAction)
    ensures
        match cmd {
            KeyCommand::Public => r is RevealPublicKey,
            KeyCommand::Secret => r is RevealSecretKey,
            KeyCommand::Store { secret_key: s } => r matches KeyAction::StoreSecretKey {
                secret_key: t,
            } && t@ == s@,
            KeyCommand::Delete => r is DeleteSecretKey,
        },
{
    match cmd {
        KeyCommand::Public => KeyAction::RevealPublicKey,
        KeyCommand::Secret => KeyAction::RevealSecretKey,
        KeyCommand::Store { secret_key } => KeyAction::StoreSecretKey { secret_key },
        KeyCommand::Delete => KeyAction::DeleteSecretKey,
    }
}

/// A command on the stored relay address set.
#[derive(Debug)]
pub enum RelayCommands {
    /// Add one address.
    Add { url: Vec<u8> },
    /// Remove one address.
    Remove { url: Vec<u8> },
    /// Remove every address.
    RemoveAll,
    /// List the stored addresses; the store is unchanged.
    ListAll,
    /// Add every address of the supplied recommended list.
    AddRecommendedRelayList,
}

/// Inserts `url` into the address set if it is not yet there.
fn insert_url(relays: &mut Vec<Vec<u8>>, url: &Vec<u8>)
    requires
        no_dup_ids(old(relays)@),
    ensures
        no_dup_ids(final(relays)@),
        id_set(final(relays)@) == id_set(old(relays)@).insert(url@),
{
    let ghost prev = relays@;
    if !contains_bytes(relays, url) {
        let c = copy_bytes(url);
        relays.push(c);
        proof {
            assert(relays@[prev.len() as int]@ == url@);
            assert(forall|k: int|
                0 <= k < prev.len() ==> deep_view_of(relays@)[k] == deep_view_of(prev)[k]);
            assert(deep_view_of(relays@) =~= deep_view_of(prev).push(url@));
            assert(no_dup_ids(relays@)) by {
                assert(forall|k: int| 0 <= k < prev.len() ==> deep_view_of(prev)[k] != url@);
            }
            assert(id_set(relays@) =~= id_set(prev).insert(url@)) by {
                assert forall|x: Seq<u8>|
                    seq_contains_bytes(deep_view_of(relays@), x) <==> (seq_contains_bytes(
                        deep_view_of(prev),
                        x,
                    ) || x == url@) by {
                    if seq_contains_bytes(deep_view_of(relays@), x) {
                        let k = choose|k: int|
                            0 <= k < deep_view_of(relays@).len() && deep_view_of(relays@)[k] == x;
                        if k < prev.len() {
                            assert(deep_view_of(prev)[k] == x);
                        }
                    }
                    if seq_contains_bytes(deep_view_of(prev), x) {
                        let k = choose|k: int|
                            0 <= k < deep_view_of(prev).len() && deep_view_of(prev)[k] == x;
                        assert(deep_view_of(relays@)[k] == x);
                    }
                    if x == url@ {
                        assert(deep_view_of(relays@)[prev.len() as int] == x);
                    }
                }
            }
        }
    } else {
        proof {
            assert(id_set(relays@) =~= id_set(prev).insert(url@));
        }
    }
}

/// Removes `url` from the address set, wherever it occurs.
fn remove_url(relays: &Vec<Vec<u8>>, url: &Vec<u8>) -> (r: Vec<Vec<u8>>)
    requires
        no_dup_ids(relays@),
    ensures
        no_dup_ids(r@),
        id_set(r@) == id_set(relays@).remove(url@),
{
    let mut r: Vec<Vec<u8>> = Vec::new();
    let mut i: usize = 0;
    while i < relays.len()
        invariant
            0 <= i <= relays@.len(),
            no_dup_ids(relays@),
            no_dup_ids(r@),
            forall|x: Seq<u8>|
                seq_contains_bytes(deep_view_of(r@), x) <==> ((exists|k: int|
                    0 <= k < i && deep_view_of(relays@)[k] == x) && x != url@),
        decreases relays@.len() - i,
    {
        let ghost prev = r@;
        let ghost h = deep_view_of(relays@)[i as int];
        proof {
            assert(h == relays@[i as int]@);
        }
        if !crate::hex::bytes_eq(&relays[i], url) {
            proof {
                assert(!seq_contains_bytes(deep_view_of(prev), h)) by {
                    if seq_contains_bytes(deep_view_of(prev), h) {
                        let k = choose|k: int| 0 <= k < i && deep_view_of(relays@)[k] == h;
                        assert(deep_view_of(relays@)[k] == deep_view_of(relays@)[i as int]);
                        assert(false);
                    }
                }
            }
            let c = copy_bytes(&relays[i]);
            r.push(c);
            proof {
                assert(r@[prev.len() as int]@ == h);
                assert(forall|k: int|
                    0 <= k < prev.len() ==> deep_view_of(r@)[k] == deep_view_of(prev)[k]);
                assert(deep_view_of(r@) =~= deep_view_of(prev).push(h));
                assert(no_dup_ids(r@)) by {
                    assert(forall|k: int| 0 <= k < prev.len() ==> deep_view_of(prev)[k] != h);
                }
                assert forall|x: Seq<u8>|
                    seq_contains_bytes(deep_view_of(r@), x) <==> (seq_contains_bytes(
                        deep_view_of(prev),
                        x,
                    ) || x == h) by {
                    if seq_contains_bytes(deep_view_of(r@), x) {
                        let k = choose|k: int|
                            0 <= k < deep_view_of(r@).len() && deep_view_of(r@)[k] == x;
                        if k < prev.len() {
                            assert(deep_view_of(prev)[k] == x);
                        }
                    }
                    if seq_contains_bytes(deep_view_of(prev), x) {
                        let k = choose|k: int|
                            0 <= k < deep_view_of(prev).len() && deep_view_of(prev)[k] == x;
                        assert(deep_view_of(r@)[k] == x);
                    }
                    if x == h {
                        assert(deep_view_of(r@)[prev.len() as int] == x);
                    }
                }
                assert forall|x: Seq<u8>|
                    seq_contains_bytes(deep_view_of(r@), x) <==> ((exists|k: int|
                        0 <= k < i + 1 && deep_view_of(relays@)[k] == x) && x != url@) by {
                    crate::obligations::lemma_exists_extend(deep_view_of(relays@), i as int, x);
                    assert(h != url@);
                    assert(seq_contains_bytes(deep_view_of(r@), x) <==> (seq_contains_bytes(
                        deep_view_of(prev),
                        x,
                    ) || x == h));
                    assert(seq_contains_bytes(deep_view_of(prev), x) <==> ((exists|k: int|
                        0 <= k < i && deep_view_of(relays@)[k] == x) && x != url@));
                }
            }
        } else {
            proof {
                assert forall|x: Seq<u8>|
                    seq_contains_bytes(deep_view_of(r@), x) <==> ((exists|k: int|
                        0 <= k < i + 1 && deep_view_of(relays@)[k] == x) && x != url@) by {
                    crate::obligations::lemma_exists_extend(deep_view_of(relays@), i as int, x);
                }
            }
        }
        i = i + 1;
    }
    proof {
        assert(id_set(r@) =~= id_set(relays@).remove(url@));
    }
    r
}

/// Decides what a relay command means for the stored address set and
/// returns the new set: adding inserts (the set keeps one copy of each
/// address), removing deletes, removing all clears, listing changes
/// nothing, and adding the recommended list inserts each of its
/// addresses.
pub fn apply_relay_command(
    relays: &Vec<Vec<u8>>,
    cmd: &RelayCommands,
    recommended: &Vec<Vec<u8>>,
) -> (r: Vec<Vec<u8>>)
    requires
        no_dup_ids(relays@),
    ensures
        no_dup_ids(r@),
        match *cmd {
            RelayCommands::Add { url: u } => id_set(r@) == id_set(relays@).insert(u@),
            RelayCommands::Remove { url: u } => id_set(r@) == id_set(relays@).remove(u@),
            RelayCommands::RemoveAll => id_set(r@) == Set::<Seq<u8>>::empty() && r@.len() == 0,
            RelayCommands::ListAll => id_set(r@) == id_set(relays@),
            RelayCommands::AddRecommendedRelayList => id_set(r@) == id_set(relays@).union(
                id_set(recommended@),
            ),
        },
{
    match cmd {
        RelayCommands::Add { url } => {
            let mut r = copy_url_set(relays);
            insert_url(&mut r, url);
            r
        },
        RelayCommands::Remove { url } => remove_url(relays, url),
        RelayCommands::RemoveAll => {
            let r: Vec<Vec<u8>> = Vec::new();
            proof {
                assert(id_set(r@) =~= Set::<Seq<u8>>::empty());
            }
            r
        },
        RelayCommands::ListAll => copy_url_set(relays),
        RelayCommands::AddRecommendedRelayList => {
            let mut r = copy_url_set(relays);
            let mut i: usize = 0;
            while i < recommended.len()
                invariant
                    0 <= i <= recommended@.len(),
                    no_dup_ids(r@),
                    forall|x: Seq<u8>|
                        id_set(r@).contains(x) <==> (id_set(relays@).contains(x) || (exists|k: int|
                            0 <= k < i && deep_view_of(recommended@)[k] == x)),
                decreases recommended@.len() - i,
            {
                let ghost before = r@;
                insert_url(&mut r, &recommended[i]);
                proof {
                    assert(id_set(r@) == id_set(before).insert(recommended@[i as int]@));
                    assert forall|x: Seq<u8>|
                        id_set(r@).contains(x) <==> (id_set(relays@).contains(x) || (exists|k: int|
                            0 <= k < i + 1 && deep_view_of(recommended@)[k] == x)) by {
                        crate::obligations::lemma_exists_extend(
                            deep_view_of(recommended@),
                            i as int,
                            x,
                        );
                    }
                }
                i = i + 1;
            }
            proof {
                assert(id_set(r@) =~= id_set(relays@).union(id_set(recommended@)));
            }
            r
        },
    }
}

/// A fresh copy of the address set.
fn copy_url_set(relays: &Vec<Vec<u8>>) -> (r: Vec<Vec<u8>>)
    ensures
        r@.len() == relays@.len(),
        deep_view_of(r@) == deep_view_of(relays@),
        no_dup_ids(relays@) ==> no_dup_ids(r@),
        id_set(r@) == id_set(relays@),
{
    let mut r: Vec<Vec<u8>> = Vec::new();
    let mut i: usize = 0;
    while i < relays.len()
        invariant
            0 <= i <= relays@.len(),
            r@.len() == i,
            forall|k: int| 0 <= k < i ==> deep_view_of(r@)[k] == deep_view_of(relays@)[k],
        decreases relays@.len() - i,
    {
        let c = copy_bytes(&relays[i]);
        r.push(c);
        i = i + 1;
    }
    proof {
        assert(deep_view_of(r@) =~= deep_view_of(relays@));
        assert(id_set(r@) =~= id_set(relays@));
    }
    r
}

} // verus!
