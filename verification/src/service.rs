//! The commands that callers see: set the secret, read it back, get the
//! current code.

use crate::clock::Clock;
use crate::error::EngineError;
use crate::hotp::usable_key;
use crate::secret::{
    external_text, lemma_empty_text_is_empty_secret, lemma_text_round_trip, secret_bytes, Secret,
};
use crate::store::SecretStore;
use crate::totp::{lemma_same_window_same_code, same_window, totp, totp_code, TotpParams};
use vstd::prelude::*;

verus! {

/// The secret that is kept after `set_secret` was given `raw` while `kept` was
/// the secret: the one that `raw` stands for where that is usable, else `kept`.
pub open spec fn secret_after_set(kept: Seq<u8>, raw: Seq<char>) -> Seq<u8> {
    if usable_key(secret_bytes(raw)) {
        secret_bytes(raw)
    } else {
        kept
    }
}

/// The secret that is kept after `set_secret` was given each text of `raws` in
/// turn, while `kept` was the secret at the start.
pub open spec fn secret_after_sets(kept: Seq<u8>, raws: Seq<Seq<char>>) -> Seq<u8>
    decreases raws.len(),
{
    if raws.len() == 0 {
        kept
    } else {
        secret_after_set(secret_after_sets(kept, raws.drop_last()), raws.last())
    }
}

/// What `get_code` answers to a reading of the clock while `secret` is kept:
/// the code of the instant read, or `ClockUnavailable` where there is none.
pub open spec fn code_for_reading(
    secret: Seq<u8>,
    params: TotpParams,
    reading: Option<u64>,
) -> Result<Seq<char>, EngineError> {
    match reading {
        Some(now) => Ok(totp_code(secret, now, params)),
        None => Err(EngineError::ClockUnavailable),
    }
}

/// An answer of `get_code`, with its code viewed as a sequence of characters.
pub open spec fn viewed(answer: Result<String, EngineError>) -> Result<Seq<char>, EngineError> {
    match answer {
        Ok(code) => Ok(code@),
        Err(error) => Err(error),
    }
}

/// The command service: a secret store and the parameters of the codes.
pub struct CommandService {
    store: SecretStore,
    params: TotpParams,
}

impl CommandService {
    /// The bytes of the secret that the service keeps.
    pub closed spec fn secret(&self) -> Seq<u8> {
        self.store@
    }

    /// The parameters that the service derives its codes with.
    pub closed spec fn params(&self) -> TotpParams {
        self.params
    }

    /// Starts a service that keeps the secret with the outside form `initial`.
    ///
    /// Fails with `InvalidSecret` exactly when that secret is not usable.
    pub fn new(initial: &str, params: TotpParams) -> (result: Result<CommandService, EngineError>)
        ensures
            match result {
                Ok(service) => usable_key(secret_bytes(initial@)) && service.secret()
                    == secret_bytes(initial@) && service.params() == params,
                Err(error) => !usable_key(secret_bytes(initial@)) && error
                    == EngineError::InvalidSecret,
            },
    {
        match SecretStore::new(Secret::from_external(initial)) {
            Ok(store) => Ok(CommandService { store, params }),
            Err(error) => Err(error),
        }
    }

    /// Sets the secret to the one with the outside form `raw`.
    ///
    /// Fails with `InvalidSecret` exactly when that secret is not usable, and
    /// then keeps the secret that it had.
    pub fn set_secret(&mut self, raw: &str) -> (result: Result<(), EngineError>)
        ensures
            final(self).secret() == secret_after_set(old(self).secret(), raw@),
            final(self).params() == old(self).params(),
            match result {
                Ok(_) => usable_key(secret_bytes(raw@)),
                Err(error) => !usable_key(secret_bytes(raw@)) && error
                    == EngineError::InvalidSecret,
            },
    {
        self.store.replace(Secret::from_external(raw))
    }

    /// Gives the outside form of the secret, which is always a usable one.
    pub fn get_secret(&self) -> (raw: String)
        ensures
            raw@ == external_text(self.secret()),
            secret_bytes(raw@) == self.secret(),
            usable_key(self.secret()),
    {
        self.store.read().to_external()
    }

    /// Gives the code of the instant `now`.
    pub fn get_code_at(&self, now: u64) -> (code: String)
        ensures
            code@ == totp_code(self.secret(), now, self.params()),
    {
        let secret = self.store.read();
        totp(secret.as_bytes(), now, self.params).unwrap()
    }

    /// Answers a reading of the clock: the code of the instant read, or
    /// `ClockUnavailable` where there is none.
    pub fn get_code_for(&self, reading: Option<u64>) -> (answer: Result<String, EngineError>)
        ensures
            viewed(answer) == code_for_reading(self.secret(), self.params(), reading),
    {
        match reading {
            Some(now) => Ok(self.get_code_at(now)),
            None => Err(EngineError::ClockUnavailable),
        }
    }

    /// Gives the current code: reads `clock` once, and answers that reading.
    pub fn get_code<C: Clock>(&self, clock: &C) -> (answer: Result<String, EngineError>)
        ensures
            exists|reading: Option<u64>|
                clock.may_read(reading) && viewed(answer) == #[trigger] code_for_reading(
                    self.secret(),
                    self.params(),
                    reading,
                ),
    {
        let reading = clock.unix_seconds();
        self.get_code_for(reading)
    }
}

/// Whatever secrets are set, and in whatever order the callers take their
/// turns, the service keeps one whole usable secret at every moment: the one
/// that it started with, or one of those that it was given.
pub proof fn lemma_kept_secret_is_whole(kept: Seq<u8>, raws: Seq<Seq<char>>)
    requires
        usable_key(kept),
    ensures
        usable_key(secret_after_sets(kept, raws)),
        secret_after_sets(kept, raws) == kept || exists|i: int|
            0 <= i < raws.len() && secret_after_sets(kept, raws) == secret_bytes(#[trigger] raws[i]),
    decreases raws.len(),
{
    if raws.len() > 0 {
        let before = raws.drop_last();
        lemma_kept_secret_is_whole(kept, before);
        let last: int = raws.len() - 1;
        if usable_key(secret_bytes(raws.last())) {
            assert(secret_after_sets(kept, raws) == secret_bytes(raws[last]));
        } else if secret_after_sets(kept, before) != kept {
            let i: int = choose|i: int|
                0 <= i < before.len() && secret_after_sets(kept, before) == secret_bytes(
                    #[trigger] before[i],
                );
            assert(before[i] == raws[i]);
        }
    }
}

/// After a usable secret was set, `get_secret` gives back the very text that
/// was set, which stands for the very bytes that are kept.
pub proof fn lemma_set_secret_reads_back(kept: Seq<u8>, raw: Seq<char>)
    requires
        usable_key(secret_bytes(raw)),
    ensures
        external_text(secret_after_set(kept, raw)) == raw,
        secret_bytes(external_text(secret_after_set(kept, raw))) == secret_after_set(kept, raw),
{
    lemma_text_round_trip(raw);
}

/// The empty text is no usable secret: setting it leaves the secret as it was,
/// and so what `get_secret` and `get_code` give.
pub proof fn lemma_empty_secret_is_refused(kept: Seq<u8>, raw: Seq<char>)
    requires
        raw.len() == 0,
    ensures
        !usable_key(secret_bytes(raw)),
        secret_after_set(kept, raw) == kept,
{
    lemma_empty_text_is_empty_secret(raw);
}

/// The code is a function of the secret, the parameters and the instant: two
/// answers to the same reading are the same, and after a usable secret was set
/// they are the code of that secret.
pub proof fn lemma_code_is_determined(
    service: CommandService,
    raw: Seq<char>,
    kept: Seq<u8>,
    now: u64,
    first: Result<String, EngineError>,
    second: Result<String, EngineError>,
)
    requires
        usable_key(secret_bytes(raw)),
        service.secret() == secret_after_set(kept, raw),
        viewed(first) == code_for_reading(service.secret(), service.params(), Some(now)),
        viewed(second) == code_for_reading(service.secret(), service.params(), Some(now)),
    ensures
        viewed(first) == viewed(second),
        viewed(first) == Ok::<Seq<char>, EngineError>(
            totp_code(secret_bytes(raw), now, service.params()),
        ),
{
}

/// Within one time step the code does not change.
pub proof fn lemma_code_holds_within_window(
    service: CommandService,
    earlier: u64,
    later: u64,
    first: Result<String, EngineError>,
    second: Result<String, EngineError>,
)
    requires
        earlier < later,
        same_window(earlier, later, service.params()),
        viewed(first) == code_for_reading(service.secret(), service.params(), Some(earlier)),
        viewed(second) == code_for_reading(service.secret(), service.params(), Some(later)),
    ensures
        first is Ok,
        viewed(first) == viewed(second),
{
    lemma_same_window_same_code(service.secret(), earlier, later, service.params());
}

} // verus!
