//! The well-known development accounts that a flag of the `run` command can
//! select.

use vstd::prelude::*;

verus! {

/// A well-known development account.
#[derive(Debug, Copy, Clone, PartialEq, Eq, Hash, Structural)]
pub enum Keyring {
    Alice,
    Bob,
    Charlie,
    Dave,
    Eve,
    Ferdie,
    One,
    Two,
}

impl Keyring {
    /// The name of the account, as it is displayed.
    pub open spec fn spec_name(self) -> Seq<char> {
        match self {
            Keyring::Alice => "Alice"@,
            Keyring::Bob => "Bob"@,
            Keyring::Charlie => "Charlie"@,
            Keyring::Dave => "Dave"@,
            Keyring::Eve => "Eve"@,
            Keyring::Ferdie => "Ferdie"@,
            Keyring::One => "One"@,
            Keyring::Two => "Two"@,
        }
    }

    /// Displays the account of `sp_keyring::Sr25519Keyring` that this one
    /// stands for, with its `to_string`.
    ///
    /// Not proved: that each of these accounts is displayed as the name of
    /// its variant.
    #[verifier::external_body]
    pub(crate) fn display(self) -> (name: String)
        ensures
            name@ == self.spec_name(),
    {
        let account = match self {
            Keyring::Alice => sp_keyring::Sr25519Keyring::Alice,
            Keyring::Bob => sp_keyring::Sr25519Keyring::Bob,
            Keyring::Charlie => sp_keyring::Sr25519Keyring::Charlie,
            Keyring::Dave => sp_keyring::Sr25519Keyring::Dave,
            Keyring::Eve => sp_keyring::Sr25519Keyring::Eve,
            Keyring::Ferdie => sp_keyring::Sr25519Keyring::Ferdie,
            Keyring::One => sp_keyring::Sr25519Keyring::One,
            Keyring::Two => sp_keyring::Sr25519Keyring::Two,
        };
        account.to_string()
    }
}

} // verus!
