//! The store of the one live secret.

use crate::error::EngineError;
use crate::hotp::usable_key;
use crate::secret::Secret;
use vstd::prelude::*;

verus! {

/// The holder of the current secret. It is viewed as the bytes of that secret.
///
/// The store always holds a usable secret. It hands out copies only, and it is
/// changed through `replace` alone, which takes it by exclusive reference:
/// whoever reads sees one whole secret, the one before a change or the one
/// after it.
pub struct SecretStore {
    current: Secret,
}

impl View for SecretStore {
    type V = Seq<u8>;

    closed spec fn view(&self) -> Seq<u8> {
        self.current@
    }
}

impl SecretStore {
    #[verifier::type_invariant]
    spec fn holds_usable_secret(self) -> bool {
        usable_key(self.current@)
    }

    /// Makes a store that holds `initial`.
    ///
    /// Fails with `InvalidSecret` exactly when `initial` is not usable.
    pub fn new(initial: Secret) -> (result: Result<SecretStore, EngineError>)
        ensures
            match result {
                Ok(store) => usable_key(initial@) && store@ == initial@,
                Err(error) => !usable_key(initial@) && error == EngineError::InvalidSecret,
            },
    {
        if initial.is_usable() {
            Ok(SecretStore { current: initial })
        } else {
            Err(EngineError::InvalidSecret)
        }
    }

    /// Puts `new_secret` in the place of the current secret.
    ///
    /// Fails with `InvalidSecret` exactly when `new_secret` is not usable, and
    /// then keeps the current secret.
    pub fn replace(&mut self, new_secret: Secret) -> (result: Result<(), EngineError>)
        ensures
            match result {
                Ok(_) => usable_key(new_secret@) && final(self)@ == new_secret@,
                Err(error) => !usable_key(new_secret@) && error == EngineError::InvalidSecret
                    && final(self)@ == old(self)@,
            },
    {
        if new_secret.is_usable() {
            self.current = new_secret;
            Ok(())
        } else {
            Err(EngineError::InvalidSecret)
        }
    }

    /// Gives a copy of the current secret, which is usable.
    pub fn read(&self) -> (secret: Secret)
        ensures
            secret@ == self@,
            usable_key(secret@),
    {
        proof {
            use_type_invariant(self);
        }
        self.current.clone()
    }
}

} // verus!
