//! The session store: the binding between an opaque session token and one
//! backend's live cryptographic state. A session is created with a chosen
//! backend and scheme parameters, holds that backend's context and keys
//! behind exactly-once handle guards, and serves every later operation under
//! the same backend tag; an operand that crosses a backend or context
//! boundary is rejected with `BackendMismatch`, never silently coerced.
//!
//! Sessions persist until explicitly closed; closing a session releases its
//! three native handles — context, secret key, public key — exactly once.
//!
//! Tokens are correlation handles: the store guarantees that a token is never
//! reused, but it issues them from a sequential counter, and the context
//! identity every ciphertext carries follows the handle-allocation order, so
//! tokens are predictable from either. A deployment that needs unguessable
//! session identifiers must map tokens to random identifiers at its own
//! boundary; nothing in this store depends on a token being secret.

use vstd::prelude::*;

use crate::backend::initial_budget;
use crate::backend::params_plain_modulus;
use crate::backend::params_valid;
use crate::backend::slot_capacity;
use crate::backend::BackendTag;
use crate::backend::SchemeParams;
use crate::codec::decode_ciphertext;
use crate::codec::encode_ciphertext;
use crate::codec::spec_decode;
use crate::codec::spec_encode;
use crate::codec::view_wf;
use crate::codec::CipherBlob;
use crate::codec::CipherView;
use crate::errors::HeError;
use crate::handles::HandleGuard;
use crate::handles::HandleRegistry;
use crate::handles::HandleState;
use crate::helib::helib_initial_budget;
use crate::helib::helib_params_ok;
use crate::helib::HEContext;
use crate::helib::HECiphertext;
use crate::helib::HEPlaintext;
use crate::helib::HEPublicKey;
use crate::helib::HESecretKey;
use crate::modring::add_slots_spec;
use crate::modring::min_budget;
use crate::modring::modulus_ok;
use crate::modring::mul_budget;
use crate::modring::mul_slots_spec;
use crate::modring::slots_ok;
use crate::openfhe::openfhe_initial_budget;
use crate::openfhe::openfhe_params_ok;
use crate::openfhe::OpenFHEContext;
use crate::openfhe::OpenFHEPublicKey;
use crate::openfhe::OpenFHESecretKey;
use crate::openfhe::OpenFHECiphertext;
use crate::seal::seal_initial_budget;
use crate::seal::seal_params_ok;
use crate::seal::Context;
use crate::seal::SEALCiphertext;
use crate::seal::SEALDecryptor;
use crate::seal::SEALEncryptor;

verus! {

broadcast use crate::handles::HandleGuard::lemma_id_bounds;

/// The mathematical content of one live session.
#[verifier::ext_equal]
pub ghost struct SessionView {
    /// The opaque token the session is addressed by.
    pub token: u64,
    /// The backend the session was created with and never switches from.
    pub tag: BackendTag,
    /// The identity of the session's context: the registry identifier of its
    /// context handle, which no two contexts share.
    pub context_id: u64,
    /// The registry identifier of the secret-key handle.
    pub secret_id: int,
    /// The registry identifier of the public-key handle.
    pub public_id: int,
    /// The plaintext modulus of the session's context.
    pub plain_modulus: u64,
    /// How many values one plaintext of this session packs.
    pub capacity: u64,
    /// The noise budget a fresh ciphertext of this session starts with.
    pub initial_budget: u32,
}

/// The live key material of one session: the context and keys of exactly one
/// backend, chosen at creation time.
enum SessionKeys {
    Seal { context: Context, encryptor: SEALEncryptor, decryptor: SEALDecryptor },
    Helib { context: HEContext, secret: HESecretKey, public: HEPublicKey },
    OpenFhe { context: OpenFHEContext, secret: OpenFHESecretKey, public: OpenFHEPublicKey },
}

/// One live session: a token bound to one backend's context and keys, each
/// native resource held by an exactly-once handle guard.
struct Session {
    token: u64,
    tag: BackendTag,
    plain_modulus: u64,
    capacity: u64,
    initial_budget: u32,
    keys: SessionKeys,
    context_handle: HandleGuard,
    secret_handle: HandleGuard,
    public_handle: HandleGuard,
}

impl View for Session {
    type V = SessionView;

    closed spec fn view(&self) -> SessionView {
        SessionView {
            token: self.token,
            tag: self.tag,
            context_id: self.context_handle.id() as u64,
            secret_id: self.secret_handle.id(),
            public_id: self.public_handle.id(),
            plain_modulus: self.plain_modulus,
            capacity: self.capacity,
            initial_budget: self.initial_budget,
        }
    }
}

impl Session {
    /// The cached shape fields agree with the stored key material, and the
    /// key material is internally consistent: keys derived from the stored
    /// context, parameters valid for the stored backend.
    spec fn keys_wf(self) -> bool {
        match self.keys {
            SessionKeys::Seal { context, encryptor, decryptor } => {
                &&& self.tag == BackendTag::Seal
                &&& seal_params_ok(context.degree(), context.plain_modulus())
                &&& self.plain_modulus == context.plain_modulus()
                &&& self.capacity == context.degree()
                &&& self.initial_budget == seal_initial_budget(context.degree())
                &&& encryptor.degree() == context.degree()
                &&& encryptor.plain_modulus() == context.plain_modulus()
                &&& decryptor.degree() == context.degree()
                &&& decryptor.plain_modulus() == context.plain_modulus()
            },
            SessionKeys::Helib { context, secret, public } => {
                &&& self.tag == BackendTag::Helib
                &&& helib_params_ok(
                    context.cyclotomic_index(),
                    context.plain_modulus(),
                    context.lifting(),
                )
                &&& self.plain_modulus == context.plain_modulus()
                &&& self.capacity == 1
                &&& self.initial_budget == helib_initial_budget(context.cyclotomic_index())
                &&& secret.cyclotomic_index() == context.cyclotomic_index()
                &&& secret.plain_modulus() == context.plain_modulus()
                &&& public.cyclotomic_index() == context.cyclotomic_index()
                &&& public.plain_modulus() == context.plain_modulus()
            },
            SessionKeys::OpenFhe { context, secret, public } => {
                &&& self.tag == BackendTag::OpenFhe
                &&& openfhe_params_ok(context.degree(), context.plain_modulus())
                &&& self.plain_modulus == context.plain_modulus()
                &&& self.capacity == context.degree()
                &&& self.initial_budget == openfhe_initial_budget(context.degree())
                &&& secret.degree() == context.degree()
                &&& secret.plain_modulus() == context.plain_modulus()
                &&& public.degree() == context.degree()
                &&& public.plain_modulus() == context.plain_modulus()
            },
        }
    }

    /// The session holds this registry identifier through one of its three
    /// handle guards.
    spec fn uses_handle(self, id: int) -> bool {
        id == self.context_handle.id() || id == self.secret_handle.id() || id
            == self.public_handle.id()
    }

    /// The session is consistent with the registry and the token source: its
    /// key material is well formed, its token was issued in the past, and its
    /// three handles are distinct and live.
    spec fn wf_in(self, registry: Seq<HandleState>, next_token: u64) -> bool {
        &&& self.keys_wf()
        &&& self.token < next_token
        &&& 0 <= self.context_handle.id() < registry.len()
        &&& 0 <= self.secret_handle.id() < registry.len()
        &&& 0 <= self.public_handle.id() < registry.len()
        &&& registry[self.context_handle.id()] is Live
        &&& registry[self.secret_handle.id()] is Live
        &&& registry[self.public_handle.id()] is Live
        &&& self.context_handle.id() != self.secret_handle.id()
        &&& self.context_handle.id() != self.public_handle.id()
        &&& self.secret_handle.id() != self.public_handle.id()
    }

    /// No handle is shared between two sessions.
    spec fn disjoint_handles(self, other: Session) -> bool {
        &&& !other.uses_handle(self.context_handle.id())
        &&& !other.uses_handle(self.secret_handle.id())
        &&& !other.uses_handle(self.public_handle.id())
    }
}

/// The first session of the given token, searching from the front.
pub open spec fn find_session(views: Seq<SessionView>, token: u64) -> Option<SessionView>
    decreases views.len(),
{
    if views.len() == 0 {
        None
    } else if views[0].token == token {
        Some(views[0])
    } else {
        find_session(views.skip(1), token)
    }
}

/// Appending a session leaves every other token's lookup unchanged, and
/// resolves the appended token if it was unknown.
proof fn lemma_find_push(views: Seq<SessionView>, sv: SessionView, token: u64)
    ensures
        find_session(views.push(sv), token) == (if find_session(views, token) is Some {
            find_session(views, token)
        } else if sv.token == token {
            Some(sv)
        } else {
            None
        }),
    decreases views.len(),
{
    if views.len() == 0 {
        assert(views.push(sv).skip(1) =~= views);
        assert(views.push(sv)[0] == sv);
    } else {
        assert(views.push(sv)[0] == views[0]);
        assert(views.push(sv).skip(1) =~= views.skip(1).push(sv));
        lemma_find_push(views.skip(1), sv, token);
    }
}

/// A lookup misses exactly when no session carries the token.
proof fn lemma_find_none(views: Seq<SessionView>, token: u64)
    ensures
        find_session(views, token) is None <==> (forall|i: int|
            0 <= i < views.len() ==> (#[trigger] views[i]).token != token),
    decreases views.len(),
{
    if views.len() > 0 {
        lemma_find_none(views.skip(1), token);
        if find_session(views, token) is None {
            assert forall|i: int| 0 <= i < views.len() implies (#[trigger] views[i]).token
                != token by {
                if i > 0 {
                    assert(views[i] == views.skip(1)[i - 1]);
                }
            }
        } else {
            if views[0].token != token {
                let j = choose|j: int|
                    0 <= j < views.skip(1).len() && (#[trigger] views.skip(1)[j]).token == token;
                assert(views[j + 1].token == token);
            }
        }
    }
}

/// Removing one session leaves every other token's lookup unchanged, when no
/// two sessions share a token.
proof fn lemma_find_remove(views: Seq<SessionView>, at: int, token: u64)
    requires
        0 <= at < views.len(),
        views[at].token != token,
    ensures
        find_session(views.remove(at), token) == find_session(views, token),
    decreases views.len(),
{
    if at == 0 {
        assert(views.remove(0) =~= views.skip(1));
    } else {
        assert(views.remove(at)[0] == views[0]);
        assert(views.remove(at).skip(1) =~= views.skip(1).remove(at - 1));
        if views[0].token != token {
            lemma_find_remove(views.skip(1), at - 1, token);
        }
    }
}

/// The session store: every live session, keyed by its opaque token, plus
/// the registry of every native handle ever acquired and the source of fresh
/// tokens.
pub struct SessionStore {
    sessions: Vec<Session>,
    registry: HandleRegistry,
    next_token: u64,
}

impl SessionStore {
    /// The recorded state of every native handle ever acquired.
    pub closed spec fn registry_view(self) -> Seq<HandleState> {
        self.registry@
    }

    /// The views of the live sessions, in storage order.
    pub closed spec fn sessions_view(self) -> Seq<SessionView> {
        self.sessions@.map_values(|s: Session| s@)
    }

    /// The next token the store will issue.
    pub closed spec fn spec_next_token(self) -> u64 {
        self.next_token
    }

    /// The live session carrying this token, if any.
    pub open spec fn spec_session(self, token: u64) -> Option<SessionView> {
        find_session(self.sessions_view(), token)
    }

    /// The store is consistent: sessions are well formed against the registry
    /// and the token source, no two sessions share a token, and no two
    /// sessions share a native handle.
    pub closed spec fn wf(self) -> bool {
        &&& forall|i: int|
            0 <= i < self.sessions@.len() ==> (#[trigger] self.sessions@[i]).wf_in(
                self.registry@,
                self.next_token,
            )
        &&& forall|i: int, j: int|
            #![trigger self.sessions@[i], self.sessions@[j]]
            0 <= i < j < self.sessions@.len() ==> self.sessions@[i].token
                != self.sessions@[j].token
        &&& forall|i: int, j: int|
            #![trigger self.sessions@[i], self.sessions@[j]]
            0 <= i < self.sessions@.len() && 0 <= j < self.sessions@.len() && i != j
                ==> self.sessions@[i].disjoint_handles(self.sessions@[j])
    }

    /// An empty store: no session, no handle ever acquired.
    pub fn new() -> (store: SessionStore)
        ensures
            store.wf(),
            store.sessions_view() == Seq::<SessionView>::empty(),
            store.registry_view() == Seq::<HandleState>::empty(),
            store.spec_next_token() == 1,
    {
        let store = SessionStore {
            sessions: Vec::new(),
            registry: HandleRegistry::new(),
            next_token: 1,
        };
        proof {
            assert(store.sessions_view() =~= Seq::<SessionView>::empty());
        }
        store
    }

    /// Borrows the handle registry, so a caller can audit lifecycle states.
    pub fn registry(&self) -> (r: &HandleRegistry)
        ensures
            r@ == self.registry_view(),
    {
        &self.registry
    }

    /// Looks up the backend a live session was created with: the one
    /// token-scoped accessor beside the operations themselves.
    ///
    /// Fails with `SessionNotFound` when no live session carries the token.
    pub fn backend_of(&self, token: u64) -> (r: Result<BackendTag, HeError>)
        requires
            self.wf(),
        ensures
            r is Ok <==> self.spec_session(token) is Some,
            r is Ok ==> r->Ok_0 == self.spec_session(token)->0.tag,
            r is Err ==> r->Err_0 is SessionNotFound,
    {
        match self.find_index(token) {
            Some(at) => Ok(self.sessions[at].tag),
            None => Err(HeError::SessionNotFound),
        }
    }

    /// The index of the session carrying this token, if any.
    fn find_index(&self, token: u64) -> (r: Option<usize>)
        ensures
            r is Some ==> 0 <= r->0 < self.sessions@.len() && self.sessions@[r->0 as int]@.token
                == token && self.spec_session(token) == Some(self.sessions@[r->0 as int]@),
            r is None <==> self.spec_session(token) is None,
    {
        let ghost views = self.sessions_view();
        let n = self.sessions.len();
        proof {
            assert(views.skip(0) =~= views);
        }
        let mut i: usize = 0;
        while i < n
            invariant
                n == self.sessions@.len(),
                i <= n,
                views == self.sessions_view(),
                find_session(views.skip(i as int), token) == find_session(views, token),
                forall|j: int| 0 <= j < i ==> (#[trigger] views[j]).token != token,
            decreases n - i,
        {
            proof {
                assert(views.skip(i as int)[0] == views[i as int]);
                assert(views.skip(i as int).skip(1) =~= views.skip(i as int + 1));
            }
            if self.sessions[i].token == token {
                return Some(i);
            }
            i += 1;
        }
        proof {
            assert(views.skip(n as int) =~= Seq::<SessionView>::empty());
        }
        None
    }

    /// Creates a session: builds the chosen backend's context and key pair,
    /// wraps each native resource in a fresh exactly-once handle, and stores
    /// everything behind a fresh token. The token is unique for the life of
    /// the store, but sequential, not unguessable — see the module notes.
    ///
    /// Fails with `InvalidParameter`, issuing no token and acquiring no
    /// handle, when the parameters do not fit the chosen backend; fails with
    /// `NullPointer` when no further token can be issued.
    pub fn generate_keys(&mut self, backend: BackendTag, params: SchemeParams) -> (r: Result<
        u64,
        HeError,
    >)
        requires
            old(self).wf(),
        ensures
            final(self).wf(),
            r is Ok <==> (params_valid(backend, params) && old(self).spec_next_token() < u64::MAX),
            !params_valid(backend, params) ==> r == Err::<u64, HeError>(HeError::InvalidParameter),
            params_valid(backend, params) && old(self).spec_next_token() == u64::MAX ==> r == Err::<
                u64,
                HeError,
            >(HeError::NullPointer),
            r is Err ==> *final(self) == *old(self),
            r is Ok ==> {
                let token = r->Ok_0;
                let sv = final(self).spec_session(token)->0;
                &&& token == old(self).spec_next_token()
                &&& old(self).spec_session(token) is None
                &&& final(self).spec_session(token) is Some
                &&& sv.tag == backend
                &&& sv.plain_modulus == params_plain_modulus(params)
                &&& sv.capacity == slot_capacity(backend, params)
                &&& sv.initial_budget == initial_budget(backend, params)
                &&& sv.context_id == old(self).registry_view().len() as u64
                &&& final(self).registry_view() == old(self).registry_view() + seq![
                    HandleState::Live,
                    HandleState::Live,
                    HandleState::Live,
                ]
                &&& final(self).spec_next_token() == old(self).spec_next_token() + 1
                &&& forall|t: u64|
                    t != token ==> #[trigger] final(self).spec_session(t) == old(self).spec_session(
                        t,
                    )
            },
    {
        let keys = match backend {
            BackendTag::Seal => {
                match params {
                    SchemeParams::Bfv { poly_modulus_degree, plain_modulus } => {
                        match Context::new(poly_modulus_degree, plain_modulus) {
                            Ok(context) => {
                                let encryptor = context.encryptor();
                                let decryptor = context.decryptor();
                                SessionKeys::Seal { context, encryptor, decryptor }
                            },
                            Err(_) => {
                                return Err(HeError::InvalidParameter);
                            },
                        }
                    },
                    SchemeParams::Bgv { .. } => {
                        return Err(HeError::InvalidParameter);
                    },
                }
            },
            BackendTag::Helib => {
                match params {
                    SchemeParams::Bfv { .. } => {
                        return Err(HeError::InvalidParameter);
                    },
                    SchemeParams::Bgv { cyclotomic_index, plain_modulus, lifting } => {
                        match HEContext::new(cyclotomic_index, plain_modulus, lifting) {
                            Ok(context) => {
                                let secret = match HESecretKey::generate(&context) {
                                    Ok(secret) => secret,
                                    Err(_) => {
                                        return Err(HeError::NullPointer);
                                    },
                                };
                                let public = match secret.public_key() {
                                    Ok(public) => public,
                                    Err(_) => {
                                        return Err(HeError::NullPointer);
                                    },
                                };
                                SessionKeys::Helib { context, secret, public }
                            },
                            Err(_) => {
                                return Err(HeError::InvalidParameter);
                            },
                        }
                    },
                }
            },
            BackendTag::OpenFhe => {
                match params {
                    SchemeParams::Bfv { poly_modulus_degree, plain_modulus } => {
                        match OpenFHEContext::new(poly_modulus_degree, plain_modulus) {
                            Ok(context) => {
                                let (secret, public) = match context.generate_keys() {
                                    Ok(pair) => pair,
                                    Err(_) => {
                                        return Err(HeError::NullPointer);
                                    },
                                };
                                SessionKeys::OpenFhe { context, secret, public }
                            },
                            Err(_) => {
                                return Err(HeError::InvalidParameter);
                            },
                        }
                    },
                    SchemeParams::Bgv { .. } => {
                        return Err(HeError::InvalidParameter);
                    },
                }
            },
        };
        if self.next_token == u64::MAX {
            return Err(HeError::NullPointer);
        }
        let token = self.next_token;
        let (plain_modulus, capacity, budget): (u64, u64, u32) = match (&keys, params) {
            (SessionKeys::Seal { .. }, SchemeParams::Bfv { poly_modulus_degree, plain_modulus }) => {
                let budget: u32 = if poly_modulus_degree >= 8192 {
                    120
                } else if poly_modulus_degree >= 4096 {
                    60
                } else {
                    20
                };
                (plain_modulus, poly_modulus_degree, budget)
            },
            (
                SessionKeys::Helib { .. },
                SchemeParams::Bgv { cyclotomic_index, plain_modulus, .. },
            ) => {
                let budget: u32 = if cyclotomic_index >= 8191 {
                    90
                } else if cyclotomic_index >= 4095 {
                    60
                } else {
                    30
                };
                (plain_modulus, 1, budget)
            },
            (
                SessionKeys::OpenFhe { .. },
                SchemeParams::Bfv { poly_modulus_degree, plain_modulus },
            ) => {
                let budget: u32 = if poly_modulus_degree >= 8192 {
                    100
                } else if poly_modulus_degree >= 4096 {
                    50
                } else {
                    16
                };
                (plain_modulus, poly_modulus_degree, budget)
            },
            _ => {
                return Err(HeError::InvalidParameter);
            },
        };
        let ghost old_views = self.sessions_view();
        let ghost old_registry = self.registry@;
        let context_handle = self.registry.create_handle();
        let secret_handle = self.registry.create_handle();
        let public_handle = self.registry.create_handle();
        let session = Session {
            token,
            tag: backend,
            plain_modulus,
            capacity,
            initial_budget: budget,
            keys,
            context_handle,
            secret_handle,
            public_handle,
        };
        let ghost sv = session@;
        self.sessions.push(session);
        self.next_token = token + 1;
        proof {
            assert(self.registry@ =~= old_registry + seq![
                HandleState::Live,
                HandleState::Live,
                HandleState::Live,
            ]);
            assert(self.sessions_view() =~= old_views.push(sv));
            lemma_find_none(old_views, token);
            lemma_find_push(old_views, sv, token);
            assert forall|t: u64| t != token implies #[trigger] self.spec_session(t) == find_session(
                old_views,
                t,
            ) by {
                lemma_find_push(old_views, sv, t);
            }
            assert(self.wf());
        }
        Ok(token)
    }

    /// Closes a session: removes it from the store and fires the destroy
    /// call of each of its three native handles, exactly once each. Every
    /// other session, and every handle it holds, is untouched.
    ///
    /// Fails with `SessionNotFound`, changing nothing, when no live session
    /// carries the token.
    pub fn close(&mut self, token: u64) -> (r: Result<(), HeError>)
        requires
            old(self).wf(),
        ensures
            final(self).wf(),
            r is Ok <==> old(self).spec_session(token) is Some,
            r is Err ==> r == Err::<(), HeError>(HeError::SessionNotFound) && *final(self) == *old(self),
            r is Ok ==> {
                let sv = old(self).spec_session(token)->0;
                &&& final(self).spec_session(token) is None
                &&& forall|t: u64|
                    t != token ==> #[trigger] final(self).spec_session(t) == old(self).spec_session(
                        t,
                    )
                &&& final(self).registry_view() == old(self).registry_view().update(
                    sv.context_id as int,
                    HandleState::Released,
                ).update(sv.secret_id, HandleState::Released).update(
                    sv.public_id,
                    HandleState::Released,
                )
                &&& final(self).spec_next_token() == old(self).spec_next_token()
            },
    {
        let at = match self.find_index(token) {
            Some(at) => at,
            None => {
                return Err(HeError::SessionNotFound);
            },
        };
        let ghost old_views = self.sessions_view();
        let ghost old_sessions = self.sessions@;
        let ghost old_registry = self.registry@;
        let ghost svg = old_sessions[at as int]@;
        let session = self.sessions.remove(at);
        let Session {
            token: _,
            tag: _,
            plain_modulus: _,
            capacity: _,
            initial_budget: _,
            keys: _,
            context_handle,
            secret_handle,
            public_handle,
        } = session;
        self.registry.release(context_handle);
        self.registry.release(secret_handle);
        self.registry.release(public_handle);
        proof {
            assert(self.registry@ =~= old_registry.update(
                svg.context_id as int,
                HandleState::Released,
            ).update(svg.secret_id, HandleState::Released).update(
                svg.public_id,
                HandleState::Released,
            ));
            assert(self.sessions_view() =~= old_views.remove(at as int));
            lemma_find_none(self.sessions_view(), token);
            assert forall|i: int| 0 <= i < self.sessions@.len() implies (
            #[trigger] self.sessions@[i]).token != token by {
                if i < at {
                    assert(self.sessions@[i] == old_sessions[i]);
                } else {
                    assert(self.sessions@[i] == old_sessions[i + 1]);
                }
            }
            assert forall|t: u64| t != token implies #[trigger] self.spec_session(t) == find_session(
                old_views,
                t,
            ) by {
                lemma_find_remove(old_views, at as int, t);
            }
            assert forall|i: int| 0 <= i < self.sessions@.len() implies (
            #[trigger] self.sessions@[i]).wf_in(self.registry@, self.next_token) by {
                if i < at {
                    assert(self.sessions@[i] == old_sessions[i]);
                    assert(old_sessions[i].disjoint_handles(old_sessions[at as int]));
                } else {
                    assert(self.sessions@[i] == old_sessions[i + 1]);
                    assert(old_sessions[i + 1].disjoint_handles(old_sessions[at as int]));
                }
            }
            assert forall|i: int, j: int|
                #![trigger self.sessions@[i], self.sessions@[j]]
                0 <= i < self.sessions@.len() && 0 <= j < self.sessions@.len() && i != j
                implies self.sessions@[i].disjoint_handles(self.sessions@[j]) by {
                let oi = if i < at {
                    i
                } else {
                    i + 1
                };
                let oj = if j < at {
                    j
                } else {
                    j + 1
                };
                assert(self.sessions@[i] == old_sessions[oi]);
                assert(self.sessions@[j] == old_sessions[oj]);
            }
            assert(self.wf());
        }
        Ok(())
    }
}

/// The slots a sequence of caller values encodes to.
pub open spec fn slots_of_values(values: Seq<i64>) -> Seq<u64> {
    values.map_values(|v: i64| v as u64)
}

/// The caller values a sequence of slots decodes to.
pub open spec fn values_of_slots(slots: Seq<u64>) -> Seq<i64> {
    slots.map_values(|u: u64| u as i64)
}

/// The values fit the session: at least one, at most the slot capacity, and
/// every one a residue of the session's message space.
pub open spec fn spec_values_ok(sv: SessionView, values: Seq<i64>) -> bool {
    &&& 1 <= values.len() <= sv.capacity
    &&& forall|i: int| 0 <= i < values.len() ==> 0 <= #[trigger] values[i] < sv.plain_modulus
}

/// The ciphertext a session's encrypt operation produces: the values in the
/// session's message space, stamped with the session's backend tag and
/// context identity, carrying the full initial noise budget.
pub open spec fn spec_fresh_cipher(sv: SessionView, values: Seq<i64>) -> CipherView {
    CipherView {
        tag: sv.tag,
        context_id: sv.context_id,
        modulus: sv.plain_modulus,
        noise_budget: sv.initial_budget,
        slots: slots_of_values(values),
    }
}

/// What the encrypt operation returns, for every session lookup and every
/// value sequence.
pub open spec fn spec_encrypt_outcome(s: Option<SessionView>, values: Seq<i64>) -> Result<
    Seq<u8>,
    HeError,
> {
    match s {
        Option::None => Result::Err(HeError::SessionNotFound),
        Option::Some(sv) => if !spec_values_ok(sv, values) {
            Result::Err(HeError::InvalidParameter)
        } else {
            Result::Ok(spec_encode(spec_fresh_cipher(sv, values)))
        },
    }
}

/// The ciphertext belongs to this session: same backend tag, same context
/// identity, same plaintext modulus, and no more slots than the session's
/// plaintexts pack.
pub open spec fn cipher_matches(sv: SessionView, c: CipherView) -> bool {
    &&& c.tag == sv.tag
    &&& c.context_id == sv.context_id
    &&& c.modulus == sv.plain_modulus
    &&& c.slots.len() <= sv.capacity
}

/// What the decrypt operation returns, for every session lookup and every
/// byte string: the carried values exactly when the bytes decode to a
/// ciphertext of this session whose noise budget is not exhausted.
pub open spec fn spec_decrypt_outcome(s: Option<SessionView>, bytes: Seq<u8>) -> Result<
    Seq<i64>,
    HeError,
> {
    match s {
        Option::None => Result::Err(HeError::SessionNotFound),
        Option::Some(sv) => match spec_decode(bytes) {
            Option::None => Result::Err(HeError::DecryptionFailed),
            Option::Some(c) => if !cipher_matches(sv, c) {
                Result::Err(HeError::BackendMismatch)
            } else if c.noise_budget == 0 {
                Result::Err(HeError::DecryptionFailed)
            } else {
                Result::Ok(values_of_slots(c.slots))
            },
        },
    }
}

/// The slotwise sum of two ciphertexts of one context: addition consumes no
/// multiplicative depth, so the sum keeps the smaller noise budget.
pub open spec fn spec_add_cipher(c1: CipherView, c2: CipherView) -> CipherView {
    CipherView {
        tag: c1.tag,
        context_id: c1.context_id,
        modulus: c1.modulus,
        noise_budget: min_budget(c1.noise_budget, c2.noise_budget),
        slots: add_slots_spec(c1.slots, c2.slots, c1.modulus),
    }
}

/// The slotwise product of two ciphertexts of one context: multiplication
/// consumes one unit of multiplicative depth below the smaller budget.
pub open spec fn spec_mul_cipher(c1: CipherView, c2: CipherView) -> CipherView {
    CipherView {
        tag: c1.tag,
        context_id: c1.context_id,
        modulus: c1.modulus,
        noise_budget: mul_budget(c1.noise_budget, c2.noise_budget),
        slots: mul_slots_spec(c1.slots, c2.slots, c1.modulus),
    }
}

/// What a binary operation — addition or multiplication — returns, for every
/// session lookup and every pair of byte strings.
pub open spec fn spec_binop_outcome(
    s: Option<SessionView>,
    b1: Seq<u8>,
    b2: Seq<u8>,
    multiply: bool,
) -> Result<Seq<u8>, HeError> {
    match s {
        Option::None => Result::Err(HeError::SessionNotFound),
        Option::Some(sv) => match (spec_decode(b1), spec_decode(b2)) {
            (Option::Some(c1), Option::Some(c2)) => if !cipher_matches(sv, c1)
                || !cipher_matches(sv, c2) {
                Result::Err(HeError::BackendMismatch)
            } else if c1.slots.len() != c2.slots.len() {
                Result::Err(HeError::OperationFailed)
            } else {
                Result::Ok(
                    spec_encode(
                        if multiply {
                            spec_mul_cipher(c1, c2)
                        } else {
                            spec_add_cipher(c1, c2)
                        },
                    ),
                )
            },
            _ => Result::Err(HeError::OperationFailed),
        },
    }
}

impl SessionStore {
    /// Encrypts a sequence of values under the session's public key and
    /// returns the serialized ciphertext.
    ///
    /// Fails with `SessionNotFound` for an unknown token and with
    /// `InvalidParameter` when the value count exceeds the backend's slot
    /// capacity — in particular, more than one value for the scalar-only
    /// backend — or a value lies outside the message space.
    #[verifier::loop_isolation(false)]
    pub fn encrypt(&self, token: u64, values: &Vec<i64>) -> (r: Result<Vec<u8>, HeError>)
        requires
            self.wf(),
        ensures
            ({
                let outcome = spec_encrypt_outcome(self.spec_session(token), values@);
                &&& (r is Ok <==> outcome is Ok)
                &&& (r is Ok ==> r->Ok_0@ == outcome->Ok_0)
                &&& (r is Err ==> r->Err_0 == outcome->Err_0)
            }),
    {
        let at = match self.find_index(token) {
            Some(at) => at,
            None => {
                return Err(HeError::SessionNotFound);
            },
        };
        let session = &self.sessions[at];
        let ghost sv = session@;
        if values.len() == 0 || values.len() as u64 > session.capacity {
            return Err(HeError::InvalidParameter);
        }
        let mut slots: Vec<u64> = Vec::new();
        let mut i: usize = 0;
        while i < values.len()
            invariant
                i <= values@.len(),
                slots@ == slots_of_values(values@.subrange(0, i as int)),
                forall|j: int| 0 <= j < i ==> 0 <= #[trigger] values@[j] < sv.plain_modulus,
            decreases values@.len() - i,
        {
            let v = values[i];
            if v < 0 || v as u64 >= session.plain_modulus {
                return Err(HeError::InvalidParameter);
            }
            slots.push(v as u64);
            proof {
                assert(slots@ =~= slots_of_values(values@.subrange(0, i as int + 1)));
            }
            i += 1;
        }
        proof {
            assert(values@.subrange(0, values@.len() as int) =~= values@);
            assert(spec_values_ok(sv, values@));
        }
        let context_id = session.context_handle.handle_id() as u64;
        let blob = match &session.keys {
            SessionKeys::Helib { context, public, .. } => {
                let plain = match HEPlaintext::new(context, values[0]) {
                    Ok(plain) => plain,
                    Err(_) => {
                        return Err(HeError::EncryptionFailed);
                    },
                };
                let cipher = match public.encrypt(&plain) {
                    Ok(cipher) => cipher,
                    Err(_) => {
                        return Err(HeError::EncryptionFailed);
                    },
                };
                let (value, modulus, budget) = cipher.export();
                let mut one_slot: Vec<u64> = Vec::new();
                one_slot.push(value);
                proof {
                    assert(one_slot@ =~= slots_of_values(values@));
                }
                CipherBlob::assemble(BackendTag::Helib, context_id, modulus, budget, one_slot)
            },
            SessionKeys::Seal { context, encryptor, .. } => {
                let plain = match context.encode(&slots) {
                    Ok(plain) => plain,
                    Err(_) => {
                        return Err(HeError::EncryptionFailed);
                    },
                };
                let cipher = match encryptor.encrypt(&plain) {
                    Ok(cipher) => cipher,
                    Err(_) => {
                        return Err(HeError::EncryptionFailed);
                    },
                };
                let (out_slots, modulus, budget) = cipher.export();
                CipherBlob::assemble(BackendTag::Seal, context_id, modulus, budget, out_slots)
            },
            SessionKeys::OpenFhe { context, public, .. } => {
                let plain = match context.encode(&slots) {
                    Ok(plain) => plain,
                    Err(_) => {
                        return Err(HeError::EncryptionFailed);
                    },
                };
                let cipher = match public.encrypt(&plain) {
                    Ok(cipher) => cipher,
                    Err(_) => {
                        return Err(HeError::EncryptionFailed);
                    },
                };
                let (out_slots, modulus, budget) = cipher.export();
                CipherBlob::assemble(BackendTag::OpenFhe, context_id, modulus, budget, out_slots)
            },
        };
        proof {
            assert(blob@ =~= spec_fresh_cipher(sv, values@));
        }
        Ok(encode_ciphertext(&blob))
    }

    /// Decrypts a serialized ciphertext under the session's secret key and
    /// returns the carried values.
    ///
    /// Fails with `SessionNotFound` for an unknown token, with
    /// `BackendMismatch` when the ciphertext was produced under another
    /// backend or context, and with `DecryptionFailed` when the bytes decode
    /// to no ciphertext or the noise budget is exhausted.
    #[verifier::loop_isolation(false)]
    pub fn decrypt(&self, token: u64, bytes: &Vec<u8>) -> (r: Result<Vec<i64>, HeError>)
        requires
            self.wf(),
        ensures
            ({
                let outcome = spec_decrypt_outcome(self.spec_session(token), bytes@);
                &&& (r is Ok <==> outcome is Ok)
                &&& (r is Ok ==> r->Ok_0@ == outcome->Ok_0)
                &&& (r is Err ==> r->Err_0 == outcome->Err_0)
            }),
    {
        let at = match self.find_index(token) {
            Some(at) => at,
            None => {
                return Err(HeError::SessionNotFound);
            },
        };
        let session = &self.sessions[at];
        let ghost sv = session@;
        let blob = match decode_ciphertext(bytes) {
            Some(blob) => blob,
            None => {
                return Err(HeError::DecryptionFailed);
            },
        };
        let ghost c = blob@;
        let slots = blob.slots();
        if blob.tag() != session.tag || blob.context_id() != session.context_handle.handle_id()
            as u64 || blob.modulus() != session.plain_modulus || slots.len() as u64
            > session.capacity {
            return Err(HeError::BackendMismatch);
        }
        if blob.noise_budget() == 0 {
            return Err(HeError::DecryptionFailed);
        }
        match &session.keys {
            SessionKeys::Helib { secret, .. } => {
                let cipher = HECiphertext::from_parts(
                    slots[0],
                    blob.modulus(),
                    blob.noise_budget(),
                );
                let plain = match secret.decrypt(&cipher) {
                    Ok(plain) => plain,
                    Err(_) => {
                        return Err(HeError::DecryptionFailed);
                    },
                };
                let mut out: Vec<i64> = Vec::new();
                out.push(plain.value());
                proof {
                    assert(out@ =~= values_of_slots(c.slots));
                }
                Ok(out)
            },
            SessionKeys::Seal { decryptor, .. } => {
                let cipher = SEALCiphertext::from_parts(slots, blob.modulus(), blob.noise_budget());
                let plain = match decryptor.decrypt(&cipher) {
                    Ok(plain) => plain,
                    Err(_) => {
                        return Err(HeError::DecryptionFailed);
                    },
                };
                let raw = plain.values();
                Ok(widen_slots(&raw, session.plain_modulus))
            },
            SessionKeys::OpenFhe { secret, .. } => {
                let cipher = OpenFHECiphertext::from_parts(
                    slots,
                    blob.modulus(),
                    blob.noise_budget(),
                );
                let plain = match secret.decrypt(&cipher) {
                    Ok(plain) => plain,
                    Err(_) => {
                        return Err(HeError::DecryptionFailed);
                    },
                };
                let raw = plain.values();
                Ok(widen_slots(&raw, session.plain_modulus))
            },
        }
    }

    /// Homomorphic addition of two serialized ciphertexts of this session.
    ///
    /// Fails with `SessionNotFound` for an unknown token, with
    /// `BackendMismatch` when either operand crosses a backend or context
    /// boundary, and with `OperationFailed` when either operand decodes to no
    /// ciphertext or the slot counts disagree.
    pub fn add(&self, token: u64, bytes1: &Vec<u8>, bytes2: &Vec<u8>) -> (r: Result<
        Vec<u8>,
        HeError,
    >)
        requires
            self.wf(),
        ensures
            ({
                let outcome = spec_binop_outcome(self.spec_session(token), bytes1@, bytes2@, false);
                &&& (r is Ok <==> outcome is Ok)
                &&& (r is Ok ==> r->Ok_0@ == outcome->Ok_0)
                &&& (r is Err ==> r->Err_0 == outcome->Err_0)
            }),
    {
        self.run_binary_op(token, bytes1, bytes2, false)
    }

    /// Homomorphic multiplication of two serialized ciphertexts of this
    /// session; the result's noise budget is strictly below both operands'
    /// budgets whenever those are positive.
    ///
    /// Fails like addition.
    pub fn multiply(&self, token: u64, bytes1: &Vec<u8>, bytes2: &Vec<u8>) -> (r: Result<
        Vec<u8>,
        HeError,
    >)
        requires
            self.wf(),
        ensures
            ({
                let outcome = spec_binop_outcome(self.spec_session(token), bytes1@, bytes2@, true);
                &&& (r is Ok <==> outcome is Ok)
                &&& (r is Ok ==> r->Ok_0@ == outcome->Ok_0)
                &&& (r is Err ==> r->Err_0 == outcome->Err_0)
            }),
    {
        self.run_binary_op(token, bytes1, bytes2, true)
    }

    /// The shared body of the two binary operations: decode both operands,
    /// reject boundary crossings, dispatch to the session's backend adapter,
    /// and serialize the result.
    fn run_binary_op(&self, token: u64, bytes1: &Vec<u8>, bytes2: &Vec<u8>, multiply: bool) -> (r:
        Result<Vec<u8>, HeError>)
        requires
            self.wf(),
        ensures
            ({
                let outcome = spec_binop_outcome(
                    self.spec_session(token),
                    bytes1@,
                    bytes2@,
                    multiply,
                );
                &&& (r is Ok <==> outcome is Ok)
                &&& (r is Ok ==> r->Ok_0@ == outcome->Ok_0)
                &&& (r is Err ==> r->Err_0 == outcome->Err_0)
            }),
    {
        let at = match self.find_index(token) {
            Some(at) => at,
            None => {
                return Err(HeError::SessionNotFound);
            },
        };
        let session = &self.sessions[at];
        let ghost sv = session@;
        let blob1 = match decode_ciphertext(bytes1) {
            Some(blob) => blob,
            None => {
                return Err(HeError::OperationFailed);
            },
        };
        let blob2 = match decode_ciphertext(bytes2) {
            Some(blob) => blob,
            None => {
                return Err(HeError::OperationFailed);
            },
        };
        let ghost c1 = blob1@;
        let ghost c2 = blob2@;
        let context_id = session.context_handle.handle_id() as u64;
        let slots1 = blob1.slots();
        let slots2 = blob2.slots();
        if blob1.tag() != session.tag || blob1.context_id() != context_id || blob1.modulus()
            != session.plain_modulus || slots1.len() as u64 > session.capacity {
            return Err(HeError::BackendMismatch);
        }
        if blob2.tag() != session.tag || blob2.context_id() != context_id || blob2.modulus()
            != session.plain_modulus || slots2.len() as u64 > session.capacity {
            return Err(HeError::BackendMismatch);
        }
        if slots1.len() != slots2.len() {
            return Err(HeError::OperationFailed);
        }
        let blob = match &session.keys {
            SessionKeys::Helib { .. } => {
                let cipher1 = HECiphertext::from_parts(
                    slots1[0],
                    blob1.modulus(),
                    blob1.noise_budget(),
                );
                let cipher2 = HECiphertext::from_parts(
                    slots2[0],
                    blob2.modulus(),
                    blob2.noise_budget(),
                );
                let combined = if multiply {
                    cipher1.multiply(&cipher2)
                } else {
                    cipher1.add(&cipher2)
                };
                let cipher = match combined {
                    Ok(cipher) => cipher,
                    Err(_) => {
                        return Err(HeError::OperationFailed);
                    },
                };
                let (value, modulus, budget) = cipher.export();
                let mut one_slot: Vec<u64> = Vec::new();
                one_slot.push(value);
                CipherBlob::assemble(BackendTag::Helib, context_id, modulus, budget, one_slot)
            },
            SessionKeys::Seal { .. } => {
                let cipher1 = SEALCiphertext::from_parts(
                    slots1,
                    blob1.modulus(),
                    blob1.noise_budget(),
                );
                let cipher2 = SEALCiphertext::from_parts(
                    slots2,
                    blob2.modulus(),
                    blob2.noise_budget(),
                );
                let combined = if multiply {
                    cipher1.multiply(&cipher2)
                } else {
                    cipher1.add(&cipher2)
                };
                let cipher = match combined {
                    Ok(cipher) => cipher,
                    Err(_) => {
                        return Err(HeError::OperationFailed);
                    },
                };
                let (out_slots, modulus, budget) = cipher.export();
                CipherBlob::assemble(BackendTag::Seal, context_id, modulus, budget, out_slots)
            },
            SessionKeys::OpenFhe { .. } => {
                let cipher1 = OpenFHECiphertext::from_parts(
                    slots1,
                    blob1.modulus(),
                    blob1.noise_budget(),
                );
                let cipher2 = OpenFHECiphertext::from_parts(
                    slots2,
                    blob2.modulus(),
                    blob2.noise_budget(),
                );
                let combined = if multiply {
                    cipher1.multiply(&cipher2)
                } else {
                    cipher1.add(&cipher2)
                };
                let cipher = match combined {
                    Ok(cipher) => cipher,
                    Err(_) => {
                        return Err(HeError::OperationFailed);
                    },
                };
                let (out_slots, modulus, budget) = cipher.export();
                CipherBlob::assemble(BackendTag::OpenFhe, context_id, modulus, budget, out_slots)
            },
        };
        proof {
            let expected = if multiply {
                spec_mul_cipher(c1, c2)
            } else {
                spec_add_cipher(c1, c2)
            };
            assert(blob@ =~= expected);
        }
        Ok(encode_ciphertext(&blob))
    }
}

/// Widens decrypted residues back into caller values; every residue fits,
/// because the message space is bounded by the largest plaintext modulus.
#[verifier::loop_isolation(false)]
fn widen_slots(slots: &Vec<u64>, modulus: u64) -> (r: Vec<i64>)
    requires
        modulus_ok(modulus),
        slots_ok(slots@, modulus),
    ensures
        r@ == values_of_slots(slots@),
{
    let mut r: Vec<i64> = Vec::new();
    let mut i: usize = 0;
    while i < slots.len()
        invariant
            i <= slots@.len(),
            r@ == values_of_slots(slots@.subrange(0, i as int)),
        decreases slots@.len() - i,
    {
        r.push(slots[i] as i64);
        proof {
            assert(r@ =~= values_of_slots(slots@.subrange(0, i as int + 1)));
        }
        i += 1;
    }
    proof {
        assert(slots@.subrange(0, slots@.len() as int) =~= slots@);
    }
    r
}


/// A session shape the store can produce: a workable modulus, at least one
/// slot of capacity, and an initial noise budget that survives at least one
/// multiplication.
pub open spec fn session_view_wf(sv: SessionView) -> bool {
    &&& modulus_ok(sv.plain_modulus)
    &&& 1 <= sv.capacity
    &&& 2 <= sv.initial_budget <= 0x7FFF_FFFF
}

/// A successful lookup returns one of the stored sessions.
proof fn lemma_find_some_index(views: Seq<SessionView>, token: u64)
    requires
        find_session(views, token) is Some,
    ensures
        exists|i: int|
            0 <= i < views.len() && #[trigger] views[i] == find_session(views, token)->0
                && views[i].token == token,
    decreases views.len(),
{
    if views[0].token == token {
        assert(views[0] == find_session(views, token)->0);
    } else {
        lemma_find_some_index(views.skip(1), token);
        let j = choose|j: int|
            0 <= j < views.skip(1).len() && #[trigger] views.skip(1)[j] == find_session(
                views.skip(1),
                token,
            )->0 && views.skip(1)[j].token == token;
        assert(views[j + 1] == find_session(views, token)->0);
    }
}

/// Every session a well-formed store serves has a well-formed shape.
pub proof fn lemma_store_session_wf(store: SessionStore, token: u64)
    requires
        store.wf(),
        store.spec_session(token) is Some,
    ensures
        session_view_wf(store.spec_session(token)->0),
{
    lemma_find_some_index(store.sessions_view(), token);
    let i = choose|i: int|
        0 <= i < store.sessions_view().len() && #[trigger] store.sessions_view()[i]
            == store.spec_session(token)->0 && store.sessions_view()[i].token == token;
    assert(store.sessions@[i].wf_in(store.registry_view(), store.spec_next_token()));
}

/// Two live sessions of one store never share a context identity, so a
/// ciphertext of one is never a ciphertext of the other.
pub proof fn lemma_distinct_sessions_distinct_contexts(store: SessionStore, t1: u64, t2: u64)
    requires
        store.wf(),
        t1 != t2,
        store.spec_session(t1) is Some,
        store.spec_session(t2) is Some,
    ensures
        store.spec_session(t1)->0.context_id != store.spec_session(t2)->0.context_id,
{
    let views = store.sessions_view();
    lemma_find_some_index(views, t1);
    lemma_find_some_index(views, t2);
    let i = choose|i: int|
        0 <= i < views.len() && #[trigger] views[i] == store.spec_session(t1)->0 && views[i].token
            == t1;
    let j = choose|j: int|
        0 <= j < views.len() && #[trigger] views[j] == store.spec_session(t2)->0 && views[j].token
            == t2;
    assert(store.sessions@[i].disjoint_handles(store.sessions@[j]));
    assert(store.sessions@[i].wf_in(store.registry_view(), store.spec_next_token()));
    assert(store.sessions@[j].wf_in(store.registry_view(), store.spec_next_token()));
}

/// Decrypting what encrypt produced under the same session returns exactly
/// the values that went in, for every backend shape and every value sequence
/// within the session's message-space bounds.
pub proof fn lemma_round_trip(sv: SessionView, values: Seq<i64>)
    requires
        session_view_wf(sv),
        spec_values_ok(sv, values),
    ensures
        ({
            let enc = spec_encrypt_outcome(Some(sv), values);
            &&& enc is Ok
            &&& spec_decrypt_outcome(Some(sv), enc->Ok_0) == Result::<Seq<i64>, HeError>::Ok(values)
        }),
{
    let c = spec_fresh_cipher(sv, values);
    assert(view_wf(c));
    crate::codec::lemma_codec_round_trip(c);
    let dec = spec_decrypt_outcome(Some(sv), spec_encode(c));
    assert(dec is Ok);
    assert(dec->Ok_0 =~= values);
}

/// Adding two fresh ciphertexts of one session and decrypting the sum yields
/// the elementwise sums of the plaintexts, reduced modulo the plaintext
/// modulus.
pub proof fn lemma_add_homomorphic(sv: SessionView, a: Seq<i64>, b: Seq<i64>)
    requires
        session_view_wf(sv),
        spec_values_ok(sv, a),
        spec_values_ok(sv, b),
        a.len() == b.len(),
    ensures
        ({
            let ca = spec_fresh_cipher(sv, a);
            let cb = spec_fresh_cipher(sv, b);
            let sum = spec_binop_outcome(Some(sv), spec_encode(ca), spec_encode(cb), false);
            let dec = spec_decrypt_outcome(Some(sv), sum->Ok_0);
            &&& sum is Ok
            &&& dec is Ok
            &&& dec->Ok_0.len() == a.len()
            &&& forall|i: int|
                0 <= i < a.len() ==> #[trigger] dec->Ok_0[i] == (a[i] + b[i]) % (
                sv.plain_modulus as int)
        }),
{
    let ca = spec_fresh_cipher(sv, a);
    let cb = spec_fresh_cipher(sv, b);
    assert(view_wf(ca));
    assert(view_wf(cb));
    crate::codec::lemma_codec_round_trip(ca);
    crate::codec::lemma_codec_round_trip(cb);
    let cc = spec_add_cipher(ca, cb);
    let t = sv.plain_modulus;
    assert forall|i: int| 0 <= i < a.len() implies #[trigger] cc.slots[i] < t && cc.slots[i] == (
    a[i] + b[i]) % (t as int) by {
        vstd::arithmetic::div_mod::lemma_mod_bound(a[i] + b[i], t as int);
    }
    assert(view_wf(cc));
    crate::codec::lemma_codec_round_trip(cc);
    let dec = spec_decrypt_outcome(Some(sv), spec_encode(cc));
    assert(dec is Ok);
    assert forall|i: int| 0 <= i < a.len() implies #[trigger] dec->Ok_0[i] == (a[i] + b[i]) % (
    t as int) by {
        vstd::arithmetic::div_mod::lemma_mod_bound(a[i] + b[i], t as int);
    }
}

/// Multiplying two fresh ciphertexts of one session and decrypting the
/// product yields the elementwise products of the plaintexts, reduced modulo
/// the plaintext modulus; the noise budget is still positive after one
/// multiplication of fresh ciphertexts.
pub proof fn lemma_multiply_homomorphic(sv: SessionView, a: Seq<i64>, b: Seq<i64>)
    requires
        session_view_wf(sv),
        spec_values_ok(sv, a),
        spec_values_ok(sv, b),
        a.len() == b.len(),
    ensures
        ({
            let ca = spec_fresh_cipher(sv, a);
            let cb = spec_fresh_cipher(sv, b);
            let product = spec_binop_outcome(Some(sv), spec_encode(ca), spec_encode(cb), true);
            let dec = spec_decrypt_outcome(Some(sv), product->Ok_0);
            &&& product is Ok
            &&& dec is Ok
            &&& dec->Ok_0.len() == a.len()
            &&& forall|i: int|
                0 <= i < a.len() ==> #[trigger] dec->Ok_0[i] == (a[i] * b[i]) % (
                sv.plain_modulus as int)
        }),
{
    let ca = spec_fresh_cipher(sv, a);
    let cb = spec_fresh_cipher(sv, b);
    assert(view_wf(ca));
    assert(view_wf(cb));
    crate::codec::lemma_codec_round_trip(ca);
    crate::codec::lemma_codec_round_trip(cb);
    let cc = spec_mul_cipher(ca, cb);
    let t = sv.plain_modulus;
    assert forall|i: int| 0 <= i < a.len() implies #[trigger] cc.slots[i] < t && cc.slots[i] == (
    a[i] * b[i]) % (t as int) by {
        vstd::arithmetic::div_mod::lemma_mod_bound(a[i] * b[i], t as int);
    }
    assert(view_wf(cc));
    crate::codec::lemma_codec_round_trip(cc);
    let dec = spec_decrypt_outcome(Some(sv), spec_encode(cc));
    assert(dec is Ok);
    assert forall|i: int| 0 <= i < a.len() implies #[trigger] dec->Ok_0[i] == (a[i] * b[i]) % (
    t as int) by {
        vstd::arithmetic::div_mod::lemma_mod_bound(a[i] * b[i], t as int);
    }
}

/// The noise budget after a multiplication is strictly below both operand
/// budgets, whenever those are positive; addition keeps exactly the smaller
/// operand budget.
pub proof fn lemma_multiply_consumes_budget(c1: CipherView, c2: CipherView)
    requires
        c1.noise_budget > 0,
        c2.noise_budget > 0,
    ensures
        spec_mul_cipher(c1, c2).noise_budget < c1.noise_budget,
        spec_mul_cipher(c1, c2).noise_budget < c2.noise_budget,
        spec_add_cipher(c1, c2).noise_budget == min_budget(c1.noise_budget, c2.noise_budget),
{
}

/// Once a ciphertext's noise budget reaches zero, a subsequent decrypt fails
/// with `DecryptionFailed`.
pub proof fn lemma_exhausted_budget_rejected(sv: SessionView, c: CipherView)
    requires
        view_wf(c),
        cipher_matches(sv, c),
        c.noise_budget == 0,
    ensures
        spec_decrypt_outcome(Some(sv), spec_encode(c)) == Result::<Seq<i64>, HeError>::Err(
            HeError::DecryptionFailed,
        ),
{
    crate::codec::lemma_codec_round_trip(c);
}

/// A ciphertext produced under one session is rejected with `BackendMismatch`
/// by the decrypt and binary operations of any session with a different
/// backend tag or a different context identity.
pub proof fn lemma_cross_session_rejected(sva: SessionView, svb: SessionView, values: Seq<i64>)
    requires
        session_view_wf(sva),
        spec_values_ok(sva, values),
        sva.tag != svb.tag || sva.context_id != svb.context_id,
    ensures
        ({
            let enc = spec_encrypt_outcome(Some(sva), values);
            &&& enc is Ok
            &&& spec_decrypt_outcome(Some(svb), enc->Ok_0) == Result::<Seq<i64>, HeError>::Err(
                HeError::BackendMismatch,
            )
            &&& spec_binop_outcome(Some(svb), enc->Ok_0, enc->Ok_0, false) == Result::<
                Seq<u8>,
                HeError,
            >::Err(HeError::BackendMismatch)
            &&& spec_binop_outcome(Some(svb), enc->Ok_0, enc->Ok_0, true) == Result::<
                Seq<u8>,
                HeError,
            >::Err(HeError::BackendMismatch)
        }),
{
    let c = spec_fresh_cipher(sva, values);
    assert(view_wf(c));
    crate::codec::lemma_codec_round_trip(c);
}


} // verus!
