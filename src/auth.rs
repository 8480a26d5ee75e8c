use vstd::prelude::*;

use crate::models::Tokens;

verus! {

/// The credentials validated since the process started. Entries are never
/// evicted: a credential is an append-only fact of the store.
pub struct CredentialCache {
    entries: Vec<String>,
}

impl View for CredentialCache {
    type V = Set<Seq<char>>;

    closed spec fn view(&self) -> Set<Seq<char>> {
        Set::new(
            |v: Seq<char>| exists|i: int| 0 <= i < self.entries@.len() && #[trigger] self.entries@[i]@ == v,
        )
    }
}

/// The outcome of checking a presented credential without the store.
#[derive(Clone, Copy, Debug, PartialEq, Eq)]
pub enum Validation {
    /// Admitted without a store lookup.
    Admitted,
    /// Only the store can decide.
    NeedsLookup,
}

/// Why a request was not admitted.
#[derive(Clone, Copy, Debug, PartialEq, Eq)]
pub enum AuthError {
    /// The request carries no credential.
    MissingCredential,
    /// The credential is not a live credential of the store.
    InvalidCredential,
    /// The store could not be asked; a server-side failure, not a denial.
    StorageUnavailable,
}

/// The persistent store could not answer.
#[derive(Clone, Copy, Debug, PartialEq, Eq)]
pub struct StorageFault;

/// What happens to a request next.
#[derive(Clone, Debug, PartialEq, Eq)]
pub enum AccessStep {
    /// Run the wrapped call.
    Admit,
    /// Answer with this error without running the wrapped call.
    Reject(AuthError),
    /// Look the credential up in the store and hand the answer to `complete_lookup`.
    LookUp(String),
}

/// The bypass secret and cached credentials are admitted; anything else needs the store.
pub open spec fn validation_of(cache: Set<Seq<char>>, presented: Seq<char>, bypass: Seq<char>) -> Validation {
    if presented == bypass || cache.contains(presented) {
        Validation::Admitted
    } else {
        Validation::NeedsLookup
    }
}

/// The text of an optional header value.
pub open spec fn text_of(header: Option<String>) -> Option<Seq<char>> {
    match header {
        Some(h) => Some(h@),
        None => None,
    }
}

/// The decision on a request whose credential header is `header`.
pub open spec fn access_step_of(cache: Set<Seq<char>>, header: Option<Seq<char>>, bypass: Seq<char>) -> Option<
    Result<(), AuthError>,
> {
    match header {
        None => Some(Err(AuthError::MissingCredential)),
        Some(h) => match validation_of(cache, h, bypass) {
            Validation::Admitted => Some(Ok(())),
            Validation::NeedsLookup => None,
        },
    }
}

/// A stored credential admits the presented value when it carries that value
/// and has not been revoked.
pub open spec fn credential_admits(stored: Tokens, presented: Seq<char>) -> bool {
    stored.token@ == presented && !stored.tomestoned
}

/// The answer to a request once the store has been asked.
pub open spec fn lookup_outcome(found: Result<Option<Tokens>, StorageFault>, presented: Seq<char>) -> Result<
    (),
    AuthError,
> {
    match found {
        Err(_) => Err(AuthError::StorageUnavailable),
        Ok(Some(t)) => if credential_admits(t, presented) {
            Ok(())
        } else {
            Err(AuthError::InvalidCredential)
        },
        Ok(None) => Err(AuthError::InvalidCredential),
    }
}

/// The cache once the store has been asked: only an admitted credential is added.
pub open spec fn cache_after_lookup(
    cache: Set<Seq<char>>,
    presented: Seq<char>,
    found: Result<Option<Tokens>, StorageFault>,
) -> Set<Seq<char>> {
    if lookup_outcome(found, presented) is Ok {
        cache.insert(presented)
    } else {
        cache
    }
}

impl CredentialCache {
    /// An empty cache.
    pub fn new() -> (r: CredentialCache)
        ensures
            r@ == Set::<Seq<char>>::empty(),
    {
        let r = CredentialCache { entries: Vec::new() };
        assert(r@ =~= Set::<Seq<char>>::empty());
        r
    }

    /// Whether `value` has been validated before.
    pub fn contains(&self, value: &String) -> (r: bool)
        ensures
            r == self@.contains(value@),
    {
        let mut i: usize = 0;
        while i < self.entries.len()
            invariant
                i <= self.entries@.len(),
                forall|j: int| 0 <= j < i ==> self.entries@[j]@ != value@,
            decreases self.entries@.len() - i,
        {
            if self.entries[i] == *value {
                assert(self@.contains(value@));
                return true;
            }
            i = i + 1;
        }
        false
    }

    /// Remembers `value` as validated.
    pub fn insert(&mut self, value: String)
        ensures
            final(self)@ == old(self)@.insert(value@),
    {
        if !self.contains(&value) {
            let ghost v = value@;
            let ghost before = self.entries@;
            self.entries.push(value);
            assert forall|w: Seq<char>| #[trigger] old(self)@.insert(v).contains(w) implies self@.contains(w) by {
                if w == v {
                    assert(self.entries@[before.len() as int]@ == w);
                } else {
                    let i = choose|i: int| 0 <= i < before.len() && #[trigger] before[i]@ == w;
                    assert(self.entries@[i]@ == w);
                }
            }
            assert forall|w: Seq<char>| #[trigger] self@.contains(w) implies old(self)@.insert(v).contains(w) by {
                let i = choose|i: int| 0 <= i < self.entries@.len() && #[trigger] self.entries@[i]@ == w;
                if i < before.len() {
                    assert(before[i]@ == w);
                }
            }
        }
        assert(self@ =~= old(self)@.insert(value@));
    }

    /// Checks a presented credential against the bypass secret and the cache,
    /// without the store. The bypass secret is admitted before the cache is read.
    pub fn validate(&self, presented: &String, bypass: &String) -> (r: Validation)
        ensures
            r == validation_of(self@, presented@, bypass@),
    {
        if *presented == *bypass {
            Validation::Admitted
        } else if self.contains(presented) {
            Validation::Admitted
        } else {
            Validation::NeedsLookup
        }
    }

    /// The first step of authorizing a request whose credential header is
    /// `header`: admit, reject, or ask the store.
    pub fn authorize(&self, header: Option<String>, bypass: &String) -> (r: AccessStep)
        ensures
            match access_step_of(self@, text_of(header), bypass@) {
                Some(Ok(())) => r == AccessStep::Admit,
                Some(Err(e)) => r == AccessStep::Reject(e),
                None => r matches AccessStep::LookUp(v) && header == Some(v),
            },
    {
        match header {
            None => AccessStep::Reject(AuthError::MissingCredential),
            Some(h) => match self.validate(&h, bypass) {
                Validation::Admitted => AccessStep::Admit,
                Validation::NeedsLookup => AccessStep::LookUp(h),
            },
        }
    }

    /// Takes the store's answer for `presented`: a live credential is admitted
    /// and cached, a missing or revoked one is refused and not cached, and a
    /// store failure is reported as such.
    pub fn complete_lookup(
        &mut self,
        presented: String,
        found: Result<Option<Tokens>, StorageFault>,
    ) -> (r: Result<(), AuthError>)
        ensures
            r == lookup_outcome(found, presented@),
            final(self)@ == cache_after_lookup(old(self)@, presented@, found),
    {
        match found {
            Err(_) => Err(AuthError::StorageUnavailable),
            Ok(None) => Err(AuthError::InvalidCredential),
            Ok(Some(t)) => {
                if t.token == presented && !t.tomestoned {
                    self.insert(presented);
                    Ok(())
                } else {
                    Err(AuthError::InvalidCredential)
                }
            },
        }
    }
}

/// The bypass secret is admitted whatever the cache holds, without a store
/// lookup, and a request that carries it is admitted.
pub proof fn lemma_bypass_always_admitted(cache: Set<Seq<char>>, bypass: Seq<char>)
    ensures
        validation_of(cache, bypass, bypass) == Validation::Admitted,
        access_step_of(cache, Some(bypass), bypass) == Some(Ok::<(), AuthError>(())),
{
}

/// A credential that the store does not hold is refused and not remembered, so
/// the next attempt asks the store again; once the store holds it, that next
/// attempt is admitted, and every attempt after it is admitted from the cache
/// without the store.
pub proof fn lemma_credential_admitted_once_stored(
    cache: Set<Seq<char>>,
    presented: Seq<char>,
    bypass: Seq<char>,
    stored: Tokens,
)
    requires
        validation_of(cache, presented, bypass) == Validation::NeedsLookup,
        credential_admits(stored, presented),
    ensures
        lookup_outcome(Ok(None), presented) == Err::<(), AuthError>(AuthError::InvalidCredential),
        cache_after_lookup(cache, presented, Ok(None)) == cache,
        validation_of(cache_after_lookup(cache, presented, Ok(None)), presented, bypass)
            == Validation::NeedsLookup,
        lookup_outcome(Ok(Some(stored)), presented) == Ok::<(), AuthError>(()),
        validation_of(cache_after_lookup(cache, presented, Ok(Some(stored))), presented, bypass)
            == Validation::Admitted,
{
}

/// A store failure is never turned into a denial, and leaves the cache as it was.
pub proof fn lemma_store_failure_not_a_denial(cache: Set<Seq<char>>, presented: Seq<char>)
    ensures
        lookup_outcome(Err(StorageFault), presented) == Err::<(), AuthError>(
            AuthError::StorageUnavailable,
        ),
        cache_after_lookup(cache, presented, Err(StorageFault)) == cache,
{
}

} // verus!
