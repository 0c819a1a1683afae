//! Wallet provisioning: which node-side step makes a named wallet usable.

use vstd::prelude::*;

verus! {

/// The node-side step that makes a wallet usable.
#[derive(Debug, Clone, Copy, PartialEq, Eq, Structural)]
pub enum WalletAction {
    /// The wallet is not in the node's wallet directory: create it (this also loads it).
    Create,
    /// The wallet is on disk but not loaded in the running node: load it.
    Load,
    /// The wallet is on disk and loaded: nothing to do.
    AlreadyLoaded,
}

/// The names held by a list of wallet names.
pub open spec fn names_of(v: Seq<String>) -> Seq<Seq<char>> {
    v.map_values(|s: String| s@)
}

/// The provisioning policy, first match wins: absent on disk, then not loaded.
pub open spec fn spec_wallet_action(
    name: Seq<char>,
    on_disk: Seq<Seq<char>>,
    loaded: Seq<Seq<char>>,
) -> WalletAction {
    if !on_disk.contains(name) {
        WalletAction::Create
    } else if !loaded.contains(name) {
        WalletAction::Load
    } else {
        WalletAction::AlreadyLoaded
    }
}

/// The wallets on disk and the wallets loaded once `action` has been carried out for `name`.
pub open spec fn wallets_after(
    action: WalletAction,
    name: Seq<char>,
    on_disk: Seq<Seq<char>>,
    loaded: Seq<Seq<char>>,
) -> (Seq<Seq<char>>, Seq<Seq<char>>) {
    match action {
        WalletAction::Create => (on_disk.push(name), loaded.push(name)),
        WalletAction::Load => (on_disk, loaded.push(name)),
        WalletAction::AlreadyLoaded => (on_disk, loaded),
    }
}

/// Whether `names` holds `name`.
fn contains_name(names: &Vec<String>, name: &String) -> (r: bool)
    ensures
        r == names_of(names@).contains(name@),
{
    let mut i: usize = 0;
    while i < names.len()
        invariant
            i <= names.len(),
            forall|k: int| 0 <= k < i ==> names@[k]@ != name@,
        decreases names.len() - i,
    {
        if names[i] == *name {
            assert(names_of(names@)[i as int] == name@);
            return true;
        }
        i += 1;
    }
    assert(!names_of(names@).contains(name@)) by {
        if names_of(names@).contains(name@) {
            let k = choose|k: int| 0 <= k < names_of(names@).len() && names_of(names@)[k] == name@;
            assert(names@[k]@ == name@);
        }
    }
    false
}

/// Decides how to make the wallet `name` usable, given the wallets in the
/// node's wallet directory and the wallets loaded in the running node.
pub fn wallet_action(name: &String, on_disk: &Vec<String>, loaded: &Vec<String>) -> (r:
    WalletAction)
    ensures
        r == spec_wallet_action(name@, names_of(on_disk@), names_of(loaded@)),
{
    if !contains_name(on_disk, name) {
        WalletAction::Create
    } else if !contains_name(loaded, name) {
        WalletAction::Load
    } else {
        WalletAction::AlreadyLoaded
    }
}

/// Provisioning is idempotent: once the step chosen for a wallet has been
/// carried out, provisioning the same wallet again asks nothing of the node.
pub proof fn lemma_provisioning_idempotent(
    name: Seq<char>,
    on_disk: Seq<Seq<char>>,
    loaded: Seq<Seq<char>>,
)
    ensures
        ({
            let (d, l) = wallets_after(
                spec_wallet_action(name, on_disk, loaded),
                name,
                on_disk,
                loaded,
            );
            spec_wallet_action(name, d, l) == WalletAction::AlreadyLoaded
        }),
{
    assert(on_disk.push(name)[on_disk.len() as int] == name);
    assert(loaded.push(name)[loaded.len() as int] == name);
}

/// A wallet that is on disk and loaded needs no step.
pub proof fn lemma_loaded_wallet_untouched(
    name: Seq<char>,
    on_disk: Seq<Seq<char>>,
    loaded: Seq<Seq<char>>,
)
    requires
        on_disk.contains(name),
        loaded.contains(name),
    ensures
        spec_wallet_action(name, on_disk, loaded) == WalletAction::AlreadyLoaded,
        wallets_after(spec_wallet_action(name, on_disk, loaded), name, on_disk, loaded) == (
        on_disk,
        loaded,
        ),
{
}

} // verus!
