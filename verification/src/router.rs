//! HTTP route groups and the ownership of storage.

use vstd::prelude::*;
use vstd::utf8::encode_utf8;
use crate::config::error::ConfigValidationError;
use crate::http::{check_header_value, is_value_bytes};
use crate::protocol::error::Error;
use crate::text::{joined, same, split, split_spec, texts, trim, trim_spec};

verus! {

/// Default mount path for the Durable Streams protocol routes.
pub const DEFAULT_STREAM_BASE_PATH: &'static str = "/v1/stream";

/// Construction or startup failure for an embedded server.
#[derive(Debug)]
pub enum ServerError {
    /// An HTTP route or middleware setting is invalid.
    Configuration(ConfigValidationError),
    /// An independent server already owns this storage instance.
    StorageAlreadyOwned,
    /// A backend operation failed while loading or persisting control state.
    Storage(Error),
    /// Persisted subscription state or signing-key initialization failed.
    Initialization(String),
    /// Worker startup requires an entered Tokio runtime.
    RuntimeRequired,
    /// The supplied cancellation source was already cancelled before startup.
    ShutdownRequested,
}

impl ServerError {
    /// The error in words.
    pub open spec fn text(self) -> Seq<char> {
        match self {
            ServerError::Configuration(e) => "invalid HTTP configuration: "@ + e.text(),
            ServerError::StorageAlreadyOwned =>
            "storage already has a server owner; clone the existing server or its routers"@,
            ServerError::Storage(e) => "server storage initialization failed: "@ + e.message(),
            ServerError::Initialization(m) => "subscription initialization failed: "@ + m@,
            ServerError::RuntimeRequired =>
            "start the server inside the Tokio runtime that will serve it"@,
            ServerError::ShutdownRequested => "server shutdown was requested before startup"@,
        }
    }

    /// The error in words.
    pub fn to_string(&self) -> (r: String)
        ensures
            r@ == self.text(),
    {
        match self {
            ServerError::Configuration(e) => joined(
                "invalid HTTP configuration: ",
                e.to_string().as_str(),
            ),
            ServerError::StorageAlreadyOwned => {
                "storage already has a server owner; clone the existing server or its routers".to_owned()
            },
            ServerError::Storage(e) => joined(
                "server storage initialization failed: ",
                e.to_string().as_str(),
            ),
            ServerError::Initialization(m) => joined(
                "subscription initialization failed: ",
                m.as_str(),
            ),
            ServerError::RuntimeRequired => {
                "start the server inside the Tokio runtime that will serve it".to_owned()
            },
            ServerError::ShutdownRequested => {
                "server shutdown was requested before startup".to_owned()
            },
        }
    }
}

/// Whether a server can start: shutdown must not have been requested, and there must be a
/// runtime to run it.
pub fn check_start(cancelled: bool, has_runtime: bool) -> (r: Result<(), ServerError>)
    ensures
        r is Ok <==> !cancelled && has_runtime,
        cancelled ==> r == Err::<(), ServerError>(ServerError::ShutdownRequested),
        !cancelled && !has_runtime ==> r == Err::<(), ServerError>(ServerError::RuntimeRequired),
{
    if cancelled {
        return Err(ServerError::ShutdownRequested);
    }
    if !has_runtime {
        return Err(ServerError::RuntimeRequired);
    }
    Ok(())
}

/// Whether a storage instance can be taken while these have an owner.
pub open spec fn is_free(owned: Set<usize>, identity: usize) -> bool {
    !owned.contains(identity)
}

/// The storage instances that have an owner, each by a number of its own.
#[derive(Debug)]
pub struct StorageOwners {
    owned: Vec<usize>,
}

impl View for StorageOwners {
    type V = Set<usize>;

    closed spec fn view(&self) -> Set<usize> {
        self.owned@.to_set()
    }
}

impl StorageOwners {
    /// Nothing is owned twice.
    pub closed spec fn is_valid(self) -> bool {
        self.owned@.no_duplicates()
    }

    /// Nothing has an owner.
    pub fn new() -> (r: Self)
        ensures
            r.is_valid(),
            r@ == Set::<usize>::empty(),
    {
        let r = StorageOwners { owned: Vec::new() };
        assert(r.owned@.to_set() =~= Set::<usize>::empty());
        r
    }

    fn position(&self, identity: usize) -> (r: Option<usize>)
        ensures
            match r {
                Some(i) => i < self.owned@.len() && self.owned@[i as int] == identity,
                None => !self.owned@.contains(identity),
            },
    {
        let mut i: usize = 0;
        while i < self.owned.len()
            invariant
                i <= self.owned@.len(),
                forall|k: int| 0 <= k < i ==> #[trigger] self.owned@[k] != identity,
            decreases self.owned.len() - i,
        {
            if self.owned[i] == identity {
                return Some(i);
            }
            i += 1;
        }
        None
    }

    /// Takes ownership of a storage instance, where it has no owner.
    pub fn acquire(&mut self, identity: usize) -> (r: Result<(), ServerError>)
        requires
            old(self).is_valid(),
        ensures
            final(self).is_valid(),
            r is Ok <==> is_free(old(self)@, identity),
            r is Ok ==> final(self)@ == old(self)@.insert(identity),
            r is Err ==> r == Err::<(), ServerError>(ServerError::StorageAlreadyOwned)
                && final(self)@ == old(self)@,
    {
        match self.position(identity) {
            Some(i) => {
                assert(self.owned@.contains(self.owned@[i as int]));
                Err(ServerError::StorageAlreadyOwned)
            },
            None => {
                let ghost before = self.owned@;
                self.owned.push(identity);
                proof {
                    assert(self.owned@.to_set() =~= before.to_set().insert(identity)) by {
                        assert forall|x: usize| #[trigger] self.owned@.contains(x) implies before.contains(
                            x,
                        ) || x == identity by {
                            let k = choose|k: int| 0 <= k < self.owned@.len() && self.owned@[k] == x;
                            if k < before.len() {
                                assert(before[k] == x);
                            }
                        }
                        assert forall|x: usize| before.contains(x) || x == identity implies #[trigger] self.owned@.contains(
                            x,
                        ) by {
                            if x == identity {
                                assert(self.owned@[before.len() as int] == x);
                            } else {
                                let k = choose|k: int| 0 <= k < before.len() && before[k] == x;
                                assert(self.owned@[k] == x);
                            }
                        }
                    }
                }
                Ok(())
            },
        }
    }

    /// Gives a storage instance back.
    pub fn release(&mut self, identity: usize)
        requires
            old(self).is_valid(),
        ensures
            final(self).is_valid(),
            final(self)@ == old(self)@.remove(identity),
    {
        match self.position(identity) {
            Some(i) => {
                let ghost before = self.owned@;
                self.owned.remove(i);
                proof {
                    let after = self.owned@;
                    assert(after =~= before.remove(i as int));
                    assert forall|j: int, k: int| 0 <= j < after.len() && 0 <= k < after.len() && j != k implies
                        after[j] != after[k] by {
                        let a = if j < i { j } else { j + 1 };
                        let b = if k < i { k } else { k + 1 };
                        assert(before[a] == after[j] && before[b] == after[k]);
                    }
                    assert(after.to_set() =~= before.to_set().remove(identity)) by {
                        assert forall|x: usize| #[trigger] after.contains(x) implies before.contains(x)
                            && x != identity by {
                            let k = choose|k: int| 0 <= k < after.len() && after[k] == x;
                            let b = if k < i { k } else { k + 1 };
                            assert(before[b] == x);
                            assert(before[i as int] == identity);
                        }
                        assert forall|x: usize| before.contains(x) && x != identity implies #[trigger] after.contains(
                            x,
                        ) by {
                            let b = choose|b: int| 0 <= b < before.len() && before[b] == x;
                            let k = if b < i { b } else { b - 1 };
                            assert(after[k] == x);
                        }
                    }
                }
            },
            None => {
                assert(self@.remove(identity) =~= self@);
            },
        }
    }
}

/// A storage instance has one owner at a time: while it is taken nobody else can take it, and
/// once it is given back it can be taken again. Other instances are not touched.
pub proof fn law_one_owner_at_a_time(owned: Set<usize>, identity: usize, other: usize)
    requires
        is_free(owned, identity),
    ensures
        !is_free(owned.insert(identity), identity),
        is_free(owned.insert(identity).remove(identity), identity),
        other != identity ==> is_free(owned.insert(identity), other) == is_free(owned, other),
        other != identity ==> is_free(owned.remove(identity), other) == is_free(owned, other),
{
}

/// Who may read responses from other origins.
#[derive(Debug, Clone)]
pub enum CorsPolicy {
    /// Any origin.
    Any,
    /// These origins.
    Origins(Vec<String>),
}

/// The origins of a list that can stand in a header.
pub open spec fn usable_origins(pieces: Seq<Seq<char>>) -> Seq<Seq<char>>
    decreases pieces.len(),
{
    if pieces.len() == 0 {
        Seq::empty()
    } else {
        let rest = usable_origins(pieces.drop_last());
        let origin = trim_spec(pieces.last());
        if is_value_bytes(encode_utf8(origin)) {
            rest.push(origin)
        } else {
            rest
        }
    }
}

/// The CORS policy for the configured origins string.
///
/// Accepts `"*"` for permissive (any origin) or a comma-separated list of
/// allowed origins (e.g. `"http://localhost:3000,https://app.example.com"`).
pub fn cors_layer(origins: &str) -> (r: CorsPolicy)
    ensures
        match r {
            CorsPolicy::Any => origins@ == "*"@,
            CorsPolicy::Origins(list) => origins@ != "*"@ && texts(list@) == usable_origins(
                split_spec(origins@, ','),
            ),
        },
{
    if same(origins, "*") {
        return CorsPolicy::Any;
    }
    let pieces = split(origins, ',');
    let mut list: Vec<String> = Vec::new();
    let mut i: usize = 0;
    let ghost all = texts(pieces@);
    assert(all.take(0) =~= Seq::<Seq<char>>::empty());
    assert(texts(list@) =~= usable_origins(all.take(0)));
    while i < pieces.len()
        invariant
            i <= pieces@.len(),
            all == texts(pieces@),
            texts(list@) == usable_origins(all.take(i as int)),
        decreases pieces.len() - i,
    {
        let ghost before = list@;
        assert(all.take(i + 1).drop_last() =~= all.take(i as int));
        assert(all.take(i + 1).last() == pieces@[i as int]@);
        let origin = trim(pieces[i].as_str());
        if check_header_value(origin).is_ok() {
            list.push(origin.to_owned());
            assert(texts(list@) =~= texts(before).push(origin@));
        }
        i += 1;
    }
    assert(all.take(all.len() as int) =~= all);
    CorsPolicy::Origins(list)
}

} // verus!
