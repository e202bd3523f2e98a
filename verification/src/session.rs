//! The session state machine: creation, authentication by bearer secret,
//! and the two forward transitions.

use crate::annex_c;
use crate::annex_d;
use crate::encoding::{
    base64_bytes, base64_decode, base64_encode, base64_text, sha512, sha512_digest,
};
use crate::identifiers::{generate_session_uuid, is_session_uuid};
use crate::rng::RngError;
use isomdl::presentation::authentication::ResponseAuthenticationOutcome;
use vstd::prelude::*;
use vstd::utf8::encode_utf8;

verus! {

/// Where a session stands. A session only ever moves forward: from
/// `Created` to `Initiated`, and from `Initiated` to `Completed`.
#[derive(Clone, Debug)]
pub enum SessionState {
    Created,
    Initiated { annex_c: annex_c::InitiatedSessionState, annex_d: annex_d::InitiatedSessionState },
    Completed(ResponseAuthenticationOutcome),
}

/// A session as the store keeps it: the hash of its bearer secret and its
/// state. The secret itself is never kept.
#[derive(Clone, Debug)]
pub struct Session {
    pub client_secret_hash: String,
    pub state: SessionState,
}

/// What the creator of a session is told, once: the session's id and its
/// bearer secret.
#[derive(Clone, Debug)]
pub struct SessionCreationResponse {
    id: String,
    client_secret: String,
}

/// A new session together with what its creator is told.
#[derive(Clone, Debug)]
pub struct SessionCreation {
    pub session: Session,
    pub session_creation_response: SessionCreationResponse,
}

/// A transition was asked of a session that is not in the state it leaves
/// from.
#[derive(Clone, Copy, Debug, PartialEq, Eq, Structural)]
pub enum SessionError {
    InvalidState,
}

/// Why a bearer secret was not accepted.
#[derive(Clone, Copy, Debug, PartialEq, Eq, Structural)]
pub enum SecretError {
    /// The stored hash is not base64 text.
    UnreadableHash,
    /// The secret does not hash to the stored hash.
    Mismatch,
}

/// The hash under which a bearer secret is stored: the standard base64 text
/// of the SHA-512 digest of its UTF-8 bytes.
pub open spec fn secret_hash(client_secret: Seq<char>) -> Seq<char> {
    base64_text(sha512_digest(encode_utf8(client_secret)))
}

/// A bearer secret matches a stored hash when the hash is base64 text for
/// the SHA-512 digest of the secret's UTF-8 bytes.
pub open spec fn secret_matches(client_secret: Seq<char>, hash: Seq<char>) -> bool {
    base64_bytes(hash) == Some(sha512_digest(encode_utf8(client_secret)))
}

/// What `Session::authenticate` answers: the session that was found, if one
/// was found and the secret matches its hash.
pub open spec fn authenticated(found: Option<Session>, client_secret: Seq<char>) -> Option<
    Session,
> {
    match found {
        Some(session) => if secret_matches(client_secret, session.client_secret_hash@) {
            Some(session)
        } else {
            None
        },
        None => None,
    }
}

/// How far a state is along the life of a session.
pub open spec fn rank(state: SessionState) -> nat {
    match state {
        SessionState::Created => 0,
        SessionState::Initiated { .. } => 1,
        SessionState::Completed(_) => 2,
    }
}

/// The session after `Session::initiate`: initiated if it was `Created`,
/// else as it was.
pub open spec fn after_initiate(
    session: Session,
    annex_c: annex_c::InitiatedSessionState,
    annex_d: annex_d::InitiatedSessionState,
) -> Session {
    if session.state is Created {
        Session {
            client_secret_hash: session.client_secret_hash,
            state: SessionState::Initiated { annex_c, annex_d },
        }
    } else {
        session
    }
}

/// What `Session::initiate` answers.
pub open spec fn initiate_result(session: Session) -> Result<(), SessionError> {
    if session.state is Created {
        Ok(())
    } else {
        Err(SessionError::InvalidState)
    }
}

/// The session after `Session::complete`: completed with the outcome if it
/// was `Initiated`, else as it was.
pub open spec fn after_complete(
    session: Session,
    outcome: ResponseAuthenticationOutcome,
) -> Session {
    if session.state is Initiated {
        Session {
            client_secret_hash: session.client_secret_hash,
            state: SessionState::Completed(outcome),
        }
    } else {
        session
    }
}

/// What `Session::complete` answers.
pub open spec fn complete_result(session: Session) -> Result<(), SessionError> {
    if session.state is Initiated {
        Ok(())
    } else {
        Err(SessionError::InvalidState)
    }
}

impl SessionCreationResponse {
    /// The id of the session.
    #[verifier::when_used_as_spec(spec_id)]
    pub fn id(&self) -> (r: &String)
        ensures
            r == self.spec_id(),
    {
        &self.id
    }

    pub closed spec fn spec_id(&self) -> &String {
        &self.id
    }

    /// The bearer secret of the session.
    #[verifier::when_used_as_spec(spec_client_secret)]
    pub fn client_secret(&self) -> (r: &String)
        ensures
            r == self.spec_client_secret(),
    {
        &self.client_secret
    }

    pub closed spec fn spec_client_secret(&self) -> &String {
        &self.client_secret
    }
}

impl Session {
    /// A session in state `Created` for the given id and bearer secret. Only
    /// the hash of the secret goes into the session.
    pub fn with_secret(id: String, client_secret: String) -> (r: SessionCreation)
        ensures
            r.session.state is Created,
            r.session.client_secret_hash@ == secret_hash(client_secret@),
            secret_matches(client_secret@, r.session.client_secret_hash@),
            r.session_creation_response.id()@ == id@,
            r.session_creation_response.client_secret()@ == client_secret@,
    {
        let digest = sha512(client_secret.as_str().as_bytes());
        let client_secret_hash = base64_encode(digest.as_slice());
        let session = Session { client_secret_hash, state: SessionState::Created };
        SessionCreation {
            session,
            session_creation_response: SessionCreationResponse { id, client_secret },
        }
    }

    /// A new session with a fresh random id and a fresh random bearer
    /// secret, drawn separately. Without random bytes there is no session.
    pub fn new_with_creation_response() -> (r: Result<SessionCreation, RngError>)
        ensures
            r matches Ok(creation) ==> newly_created(
                creation.session,
                creation.session_creation_response.id()@,
                creation.session_creation_response.client_secret()@,
            ),
    {
        let session_id = match generate_session_uuid() {
            Ok(text) => text,
            Err(e) => {
                return Err(e);
            },
        };
        let client_secret = match generate_session_uuid() {
            Ok(text) => text,
            Err(e) => {
                return Err(e);
            },
        };
        Ok(Session::with_secret(session_id, client_secret))
    }

    /// Accepts a bearer secret exactly when it hashes to the stored hash.
    pub fn check_client_secret(client_secret: &str, hash: &str) -> (r: Result<(), SecretError>)
        ensures
            r is Ok <==> secret_matches(client_secret@, hash@),
            r == Err::<(), SecretError>(SecretError::UnreadableHash) <==> base64_bytes(hash@)
                is None,
    {
        let digest = sha512(client_secret.as_bytes());
        match base64_decode(hash) {
            Ok(stored) => {
                let same = stored == digest;
                assert(same <==> stored@ =~= digest@);
                if same {
                    Ok(())
                } else {
                    Err(SecretError::Mismatch)
                }
            },
            Err(_) => Err(SecretError::UnreadableHash),
        }
    }

    /// Hands back the session that the store found only if the bearer secret
    /// matches its hash. A session that does not exist and a secret that
    /// does not match give the same answer.
    pub fn authenticate(found: Option<Session>, client_secret: &str) -> (r: Option<Session>)
        ensures
            r == authenticated(found, client_secret@),
    {
        match found {
            Some(session) => {
                match Session::check_client_secret(client_secret, session.client_secret_hash.as_str()) {
                    Ok(()) => Some(session),
                    Err(_) => None,
                }
            },
            None => None,
        }
    }

    /// Whether the session has not been initiated yet.
    pub fn is_created(&self) -> (r: bool)
        ensures
            r == (self.state is Created),
    {
        match self.state {
            SessionState::Created => true,
            _ => false,
        }
    }

    /// Moves a session from `Created` to `Initiated`, storing the
    /// continuation states of both exchanges. In any other state the
    /// session is left as it is.
    pub fn initiate(
        &mut self,
        annex_c: annex_c::InitiatedSessionState,
        annex_d: annex_d::InitiatedSessionState,
    ) -> (r: Result<(), SessionError>)
        ensures
            r == initiate_result(*old(self)),
            *final(self) == after_initiate(*old(self), annex_c, annex_d),
    {
        match self.state {
            SessionState::Created => {
                self.state = SessionState::Initiated { annex_c, annex_d };
                Ok(())
            },
            _ => Err(SessionError::InvalidState),
        }
    }

    /// The continuation states of an initiated session. A session in any
    /// other state has none to give.
    pub fn initiated(&self) -> (r: Result<
        (&annex_c::InitiatedSessionState, &annex_d::InitiatedSessionState),
        SessionError,
    >)
        ensures
            match r {
                Ok((c, d)) => self.state == (SessionState::Initiated { annex_c: *c, annex_d: *d }),
                Err(e) => e == SessionError::InvalidState && !(self.state is Initiated),
            },
    {
        match &self.state {
            SessionState::Initiated { annex_c, annex_d } => Ok((annex_c, annex_d)),
            _ => Err(SessionError::InvalidState),
        }
    }

    /// Moves a session from `Initiated` to `Completed`, storing the outcome.
    /// In any other state the session is left as it is: a completed session
    /// keeps the outcome it has.
    pub fn complete(&mut self, outcome: ResponseAuthenticationOutcome) -> (r: Result<
        (),
        SessionError,
    >)
        ensures
            r == complete_result(*old(self)),
            *final(self) == after_complete(*old(self), outcome),
    {
        match self.state {
            SessionState::Initiated { .. } => {
                self.state = SessionState::Completed(outcome);
                Ok(())
            },
            _ => Err(SessionError::InvalidState),
        }
    }
}

/// The store that keeps sessions by id. Implementations are supplied by the
/// embedding application; nothing is assumed of them.
///
/// For each operation the store has a relation that says which answers it
/// may give to which call. The relations are the store's own: a store that
/// does not define them says nothing of its answers, and every answer is
/// one. They give the answers of a store a name, so that what is built on
/// the store can say which call it made, with which arguments, and what it
/// made of the answer.
pub trait DcApiSessionEngine {
    /// What the store reports when it fails.
    type Error;

    /// Whether `answer` is an answer of this store to being asked to store
    /// `session` under `session_id`.
    open spec fn answers_new_session(
        &self,
        session_id: String,
        session: Session,
        answer: Result<(), Self::Error>,
    ) -> bool {
        true
    }

    /// Whether `answer` is an answer of this store to a lookup of `id` by a
    /// caller that presents `client_secret`.
    open spec fn answers_get_session(
        &self,
        id: String,
        client_secret: String,
        answer: Result<Option<Session>, Self::Error>,
    ) -> bool {
        true
    }

    /// Whether `answer` is an answer of this store to a lookup of `id` for
    /// reading only.
    open spec fn answers_get_session_unauthenticated(
        &self,
        id: String,
        answer: Result<Option<Session>, Self::Error>,
    ) -> bool {
        true
    }

    /// Whether `answer` is an answer of this store to being asked to replace
    /// what is stored under `session_id` by `session`.
    open spec fn answers_update_session(
        &self,
        session_id: String,
        session: Session,
        answer: Result<(), Self::Error>,
    ) -> bool {
        true
    }

    /// Whether `answer` is an answer of this store to being asked to remove
    /// what is stored under `session_id`.
    open spec fn answers_remove_session(
        &self,
        session_id: String,
        answer: Result<(), Self::Error>,
    ) -> bool {
        true
    }

    /// Stores a new session under its id.
    fn new_session(&self, session_id: String, session: Session) -> (answer: Result<
        (),
        Self::Error,
    >)
        ensures
            self.answers_new_session(session_id, session, answer),
    ;

    /// Looks a session up for a caller that presents a bearer secret.
    fn get_session(&self, id: String, client_secret: String) -> (answer: Result<
        Option<Session>,
        Self::Error,
    >)
        ensures
            self.answers_get_session(id, client_secret, answer),
    ;

    /// Looks a session up for reading only.
    fn get_session_unauthenticated(&self, id: String) -> (answer: Result<
        Option<Session>,
        Self::Error,
    >)
        ensures
            self.answers_get_session_unauthenticated(id, answer),
    ;

    /// Replaces the session stored under an id.
    fn update_session(&self, session_id: String, session: Session) -> (answer: Result<
        (),
        Self::Error,
    >)
        ensures
            self.answers_update_session(session_id, session, answer),
    ;

    /// Removes the session stored under an id.
    fn remove_session(&self, session_id: String) -> (answer: Result<(), Self::Error>)
        ensures
            self.answers_remove_session(session_id, answer),
    ;
}

/// Sessions in a store, reached only through creation, authentication and
/// explicit update. Failures of the store are handed on as they are.
pub struct SessionStorage<E: DcApiSessionEngine>(E);

/// Whether a session is a new one for an id and a bearer secret: in state
/// `Created`, holding the hash of the secret and not the secret, with the id
/// and the secret each a random UUID in its canonical text.
pub open spec fn newly_created(session: Session, id: Seq<char>, client_secret: Seq<char>) -> bool {
    &&& session.state is Created
    &&& session.client_secret_hash@ == secret_hash(client_secret)
    &&& secret_matches(client_secret, session.client_secret_hash@)
    &&& is_session_uuid(id)
    &&& is_session_uuid(client_secret)
}

/// Why no session was created.
#[derive(Debug)]
pub enum CreateError<X> {
    /// The operating system's random source did not deliver.
    Randomness,
    /// The store failed.
    Store(X),
}

/// Why a session was not moved on at the store.
#[derive(Debug)]
pub enum TransitionError<X> {
    /// There is no session under the id, or the bearer secret does not
    /// match; the two are not told apart.
    NotFound,
    /// The session is not in the state that the transition leaves from.
    InvalidState,
    /// The store failed.
    Store(X),
}

/// What comes of writing a session back: the store's answer to being asked
/// to replace what is under `id` by `session`, with a failure of the store
/// handed on as it is.
pub open spec fn written_back<E: DcApiSessionEngine>(
    engine: E,
    id: String,
    session: Session,
    r: Result<(), TransitionError<E::Error>>,
) -> bool {
    exists|written: Result<(), E::Error>| #[trigger]
        engine.answers_update_session(id, session, written) && r == (match written {
            Ok(_) => Ok::<(), TransitionError<E::Error>>(()),
            Err(e) => Err(TransitionError::Store(e)),
        })
}

/// What comes of a transition at the store, given what the lookup found:
/// a failure of the store is handed on; no session, or a secret that does
/// not match, is `NotFound`; a session from which the transition is not
/// legal is `InvalidState`, and nothing is written; else the session as it
/// stands after the transition is written back, and only that.
pub open spec fn moved_on<E: DcApiSessionEngine>(
    engine: E,
    id: String,
    looked: Result<Option<Session>, E::Error>,
    legal: spec_fn(Session) -> bool,
    after: spec_fn(Session) -> Session,
    r: Result<(), TransitionError<E::Error>>,
) -> bool {
    match looked {
        Err(e) => r == Err::<(), TransitionError<E::Error>>(TransitionError::Store(e)),
        Ok(None) => r == Err::<(), TransitionError<E::Error>>(TransitionError::NotFound),
        Ok(Some(found)) => if legal(found) {
            written_back(engine, id, after(found), r)
        } else {
            r == Err::<(), TransitionError<E::Error>>(TransitionError::InvalidState)
        },
    }
}

/// Whether `r` is what comes of a transition at the store for a caller that
/// presents `client_secret`: the store is asked once for the session, and
/// the check and the write both go by what that one lookup found.
pub open spec fn transition_at_store<E: DcApiSessionEngine>(
    engine: E,
    id: String,
    client_secret: String,
    legal: spec_fn(Session) -> bool,
    after: spec_fn(Session) -> Session,
    r: Result<(), TransitionError<E::Error>>,
) -> bool {
    exists|answer: Result<Option<Session>, E::Error>| #[trigger]
        engine.answers_get_session(id, client_secret, answer) && moved_on(
            engine,
            id,
            authenticated_answer(answer, client_secret@),
            legal,
            after,
            r,
        )
}

/// What `SessionStorage::get_session` makes of an answer of the store: a
/// session that was found is handed back only if the bearer secret matches
/// its hash, and a failure of the store is handed on as it is.
pub open spec fn authenticated_answer<X>(
    answer: Result<Option<Session>, X>,
    client_secret: Seq<char>,
) -> Result<Option<Session>, X> {
    match answer {
        Ok(found) => Ok(authenticated(found, client_secret)),
        Err(e) => Err(e),
    }
}

/// Whether `answer` is what a store answered when it was asked to store,
/// under `id`, a new session for `id` and a bearer secret.
pub open spec fn asked_to_store_new<E: DcApiSessionEngine>(
    engine: E,
    id: String,
    client_secret: Seq<char>,
    answer: Result<(), E::Error>,
) -> bool {
    exists|session: Session| #[trigger]
        engine.answers_new_session(id, session, answer) && newly_created(
            session,
            id@,
            client_secret,
        )
}

impl<E: DcApiSessionEngine> SessionStorage<E> {
    /// The store that the sessions are kept in.
    pub closed spec fn engine(&self) -> E {
        self.0
    }

    /// The sessions of a store.
    pub fn new(engine: E) -> (r: Self)
        ensures
            r.engine() == engine,
    {
        SessionStorage(engine)
    }

    /// Creates a session, stores it under its id, and returns the id and the
    /// bearer secret. The store is asked once, to store a new session under
    /// the id; only the hash of the secret reaches it. The id and the secret
    /// are returned if the store accepts, else the failure of the store is
    /// handed on as it is. Without random bytes there is no session, and
    /// the store is not asked.
    pub fn new_session(&self) -> (r: Result<SessionCreationResponse, CreateError<E::Error>>)
        ensures
            match r {
                Ok(response) => asked_to_store_new(
                    self.engine(),
                    *response.id(),
                    response.client_secret()@,
                    Ok(()),
                ),
                Err(CreateError::Store(e)) => exists|id: String, client_secret: Seq<char>|
                    #[trigger] asked_to_store_new(self.engine(), id, client_secret, Err(e)),
                Err(CreateError::Randomness) => true,
            },
    {
        let creation = match Session::new_with_creation_response() {
            Ok(creation) => creation,
            Err(_) => {
                return Err(CreateError::Randomness);
            },
        };
        let SessionCreation { session, session_creation_response } = creation;
        let id = session_creation_response.id().clone();
        let ghost stored = session;
        let ghost secret = session_creation_response.client_secret()@;
        let answer = self.0.new_session(id, session);
        assert(self.engine().answers_new_session(id, stored, answer) && newly_created(
            stored,
            id@,
            secret,
        ));
        assert(asked_to_store_new(self.engine(), id, secret, answer));
        match answer {
            Ok(done) => {
                assert(answer == Ok::<(), E::Error>(done));
                assert(done == ());
                return Ok(session_creation_response);
            },
            Err(e) => {
                let r: Result<SessionCreationResponse, CreateError<E::Error>> = Err(
                    CreateError::Store(e),
                );
                assert(asked_to_store_new(self.engine(), id, secret, Err(e)));
                assert(r matches Err(CreateError::Store(x)) && x == e);
                return r;
            },
        }
    }

    /// Looks a session up and hands it back only if the bearer secret
    /// matches its hash. The store is asked once, for the id and with the
    /// secret as they were given. A session that does not exist and a secret
    /// that does not match both give `Ok(None)`; a failure of the store is
    /// handed on as it is.
    pub fn get_session(&self, id: String, client_secret: String) -> (r: Result<
        Option<Session>,
        E::Error,
    >)
        ensures
            exists|answer: Result<Option<Session>, E::Error>|
                {
                    &&& #[trigger] self.engine().answers_get_session(id, client_secret, answer)
                    &&& r == authenticated_answer(answer, client_secret@)
                },
            r matches Ok(Some(session)) ==> secret_matches(
                client_secret@,
                session.client_secret_hash@,
            ),
    {
        let secret = client_secret.clone();
        let answer = self.0.get_session(id, secret);
        assert(self.engine().answers_get_session(id, client_secret, answer));
        match answer {
            Ok(found) => Ok(Session::authenticate(found, client_secret.as_str())),
            Err(e) => Err(e),
        }
    }

    /// Looks a session up without proof of the bearer secret: the answer is
    /// the store's to exactly this lookup. What it returns is for reading
    /// only.
    pub fn get_session_unauthenticated(&self, id: String) -> (r: Result<
        Option<Session>,
        E::Error,
    >)
        ensures
            self.engine().answers_get_session_unauthenticated(id, r),
    {
        self.0.get_session_unauthenticated(id)
    }

    /// Replaces the session stored under an id: the answer is the store's to
    /// exactly this replacement. Which transitions are legal is decided on
    /// the session, before it comes here.
    pub fn update_session(&self, session_id: String, session: Session) -> (r: Result<
        (),
        E::Error,
    >)
        ensures
            self.engine().answers_update_session(session_id, session, r),
    {
        self.0.update_session(session_id, session)
    }

    /// Removes the session stored under an id: the answer is the store's to
    /// exactly this removal.
    pub fn remove_session(&self, session_id: String) -> (r: Result<(), E::Error>)
        ensures
            self.engine().answers_remove_session(session_id, r),
    {
        self.0.remove_session(session_id)
    }

    /// Writes a session back under its id and hands a failure of the store
    /// on as it is.
    fn write_back(&self, id: String, session: Session) -> (r: Result<
        (),
        TransitionError<E::Error>,
    >)
        ensures
            written_back(self.engine(), id, session, r),
    {
        let written = self.0.update_session(id, session);
        assert(self.engine().answers_update_session(id, session, written));
        match written {
            Ok(done) => {
                assert(written == Ok::<(), E::Error>(done));
                Ok(())
            },
            Err(e) => Err(TransitionError::Store(e)),
        }
    }

    /// Moves the session under an id from `Created` to `Initiated`, for a
    /// caller that presents the bearer secret. The session is looked up
    /// once; the check that it is `Created` and the write both go by that
    /// one lookup. Nothing is written unless the transition is legal.
    pub fn initiate_session(
        &self,
        id: String,
        client_secret: String,
        annex_c: annex_c::InitiatedSessionState,
        annex_d: annex_d::InitiatedSessionState,
    ) -> (r: Result<(), TransitionError<E::Error>>)
        ensures
            transition_at_store(
                self.engine(),
                id,
                client_secret,
                |s: Session| s.state is Created,
                |s: Session| after_initiate(s, annex_c, annex_d),
                r,
            ),
    {
        let ghost legal = |s: Session| s.state is Created;
        let ghost after = |s: Session| after_initiate(s, annex_c, annex_d);
        let key = id.clone();
        let looked = self.get_session(id, client_secret);
        let ghost answer = choose|answer: Result<Option<Session>, E::Error>|
            {
                &&& #[trigger] self.engine().answers_get_session(id, client_secret, answer)
                &&& looked == authenticated_answer(answer, client_secret@)
            };
        let r = match looked {
            Err(e) => Err(TransitionError::Store(e)),
            Ok(None) => Err(TransitionError::NotFound),
            Ok(Some(found)) => {
                let mut session = found;
                match session.initiate(annex_c, annex_d) {
                    Ok(_) => self.write_back(key, session),
                    Err(_) => Err(TransitionError::InvalidState),
                }
            },
        };
        assert(moved_on(self.engine(), id, looked, legal, after, r));
        assert(self.engine().answers_get_session(id, client_secret, answer));
        r
    }

    /// Moves the session under an id from `Initiated` to `Completed`, for a
    /// caller that presents the bearer secret. The session is looked up
    /// once; the check that it is `Initiated` and the write both go by that
    /// one lookup. Nothing is written unless the transition is legal: a
    /// completed session keeps the outcome it has.
    pub fn complete_session(
        &self,
        id: String,
        client_secret: String,
        outcome: ResponseAuthenticationOutcome,
    ) -> (r: Result<(), TransitionError<E::Error>>)
        ensures
            transition_at_store(
                self.engine(),
                id,
                client_secret,
                |s: Session| s.state is Initiated,
                |s: Session| after_complete(s, outcome),
                r,
            ),
    {
        let ghost legal = |s: Session| s.state is Initiated;
        let ghost after = |s: Session| after_complete(s, outcome);
        let key = id.clone();
        let looked = self.get_session(id, client_secret);
        let ghost answer = choose|answer: Result<Option<Session>, E::Error>|
            {
                &&& #[trigger] self.engine().answers_get_session(id, client_secret, answer)
                &&& looked == authenticated_answer(answer, client_secret@)
            };
        let r = match looked {
            Err(e) => Err(TransitionError::Store(e)),
            Ok(None) => Err(TransitionError::NotFound),
            Ok(Some(found)) => {
                let mut session = found;
                match session.complete(outcome) {
                    Ok(_) => self.write_back(key, session),
                    Err(_) => Err(TransitionError::InvalidState),
                }
            },
        };
        assert(moved_on(self.engine(), id, looked, legal, after, r));
        assert(self.engine().answers_get_session(id, client_secret, answer));
        r
    }
}

/// A session that does not exist and a session whose secret does not match
/// are answered alike: with nothing.
pub proof fn lemma_wrong_secret_is_like_no_session(session: Session, client_secret: Seq<char>)
    requires
        !secret_matches(client_secret, session.client_secret_hash@),
    ensures
        authenticated(Some(session), client_secret) == authenticated(None, client_secret),
        authenticated(Some(session), client_secret) is None,
{
}

/// Authentication never alters a session: what it hands back is the session
/// that was found.
pub proof fn lemma_authentication_returns_what_was_found(
    found: Option<Session>,
    client_secret: Seq<char>,
)
    ensures
        authenticated(found, client_secret) is Some ==> authenticated(found, client_secret)
            == found,
{
}

/// Completion is terminal: once a session is completed, a further
/// completion is refused as an invalid state and the stored outcome stays.
pub proof fn lemma_completion_is_terminal(
    session: Session,
    first: ResponseAuthenticationOutcome,
    second: ResponseAuthenticationOutcome,
)
    requires
        session.state is Initiated,
    ensures
        complete_result(session) is Ok,
        after_complete(session, first).state == SessionState::Completed(first),
        complete_result(after_complete(session, first)) == Err::<(), SessionError>(
            SessionError::InvalidState,
        ),
        after_complete(after_complete(session, first), second) == after_complete(session, first),
{
}

/// A completed session can be neither initiated nor completed again, and
/// both attempts leave it as it is.
pub proof fn lemma_completed_session_is_frozen(
    session: Session,
    annex_c: annex_c::InitiatedSessionState,
    annex_d: annex_d::InitiatedSessionState,
    outcome: ResponseAuthenticationOutcome,
)
    requires
        session.state is Completed,
    ensures
        initiate_result(session) is Err,
        complete_result(session) is Err,
        after_initiate(session, annex_c, annex_d) == session,
        after_complete(session, outcome) == session,
{
}

/// Initiation happens once: an initiated session refuses to be initiated
/// again and keeps the continuation states it has.
pub proof fn lemma_initiation_happens_once(
    session: Session,
    annex_c: annex_c::InitiatedSessionState,
    annex_d: annex_d::InitiatedSessionState,
    other_c: annex_c::InitiatedSessionState,
    other_d: annex_d::InitiatedSessionState,
)
    requires
        session.state is Created,
    ensures
        initiate_result(session) is Ok,
        initiate_result(after_initiate(session, annex_c, annex_d)) == Err::<(), SessionError>(
            SessionError::InvalidState,
        ),
        after_initiate(after_initiate(session, annex_c, annex_d), other_c, other_d)
            == after_initiate(session, annex_c, annex_d),
{
}

/// A session only moves forward, one step at a time, and its secret hash
/// never changes.
pub proof fn lemma_transitions_move_forward(
    session: Session,
    annex_c: annex_c::InitiatedSessionState,
    annex_d: annex_d::InitiatedSessionState,
    outcome: ResponseAuthenticationOutcome,
)
    ensures
        rank(session.state) <= rank(after_initiate(session, annex_c, annex_d).state) <= rank(
            session.state,
        ) + 1,
        rank(session.state) <= rank(after_complete(session, outcome).state) <= rank(
            session.state,
        ) + 1,
        after_initiate(session, annex_c, annex_d).client_secret_hash
            == session.client_secret_hash,
        after_complete(session, outcome).client_secret_hash == session.client_secret_hash,
        initiate_result(session) is Err ==> after_initiate(session, annex_c, annex_d) == session,
        complete_result(session) is Err ==> after_complete(session, outcome) == session,
{
}

} // verus!
