//! The layered capability model over a transport session, and the query
//! facade that every handle exposes.
//!
//! A [`Connection`] wraps a [`Session`] and grants query-only capability;
//! a [`SignedConnection`] wraps a `Connection` plus a signing key pair and
//! additionally grants submission; a [`RootConnection`] wraps a
//! `SignedConnection` whose account is asserted to hold the privileged
//! role on the remote ledger. Capability is restricted statically, by
//! which operations each type carries, never by runtime checks: every
//! handle can step down to the bare view it embeds, and the bare view
//! exposes only queries.
//!
//! The transport itself is asynchronous and lives outside this crate. The
//! driver performs each fetch or raw call and hands the outcome back as a
//! plain value; the functions here classify that outcome exactly as the
//! protocol demands.

use vstd::prelude::*;

use crate::error::Error;
use crate::key_pair::KeyPair;
use crate::primitives::{AccountId, BlockHash, TxHash};
use crate::scale::ScaleDecode;

verus! {

/// A live transport session, identified by the endpoint it was opened
/// against. The transport socket itself is owned by the driver; this
/// value is the session as the protocol logic sees it. Created once by
/// the bootstrap procedure and never silently reconnected.
#[derive(Clone, Debug)]
pub struct Session {
    endpoint: String,
}

impl Session {
    /// The endpoint the session was opened against.
    pub closed spec fn view(self) -> Seq<char> {
        self.endpoint@
    }

    /// Wraps a freshly opened transport connection to `endpoint`.
    pub fn new(endpoint: String) -> (r: Session)
        ensures
            r@ == endpoint@,
    {
        Session { endpoint }
    }

    /// The endpoint this session was opened against.
    pub fn endpoint(&self) -> (r: &String)
        ensures
            r@ == self@,
    {
        &self.endpoint
    }
}

/// Capable of communicating with a live chain: the bare, query-only
/// handle.
#[derive(Clone, Debug)]
pub struct Connection {
    session: Session,
}

/// Any connection that is signed by some key: grants query plus
/// submission capability for that key's account.
#[derive(Clone, Debug)]
pub struct SignedConnection {
    connection: Connection,
    signer: KeyPair,
}

/// Specific connection whose account is asserted to hold the privileged
/// role on the remote ledger. The node is the sole authority enforcing
/// the privilege: a wrong assertion surfaces only as a remote rejection
/// at submission time.
#[derive(Clone, Debug)]
pub struct RootConnection {
    connection: SignedConnection,
}

/// Castability to a plain connection.
pub trait AsConnection {
    /// The embedded bare connection.
    spec fn spec_connection(&self) -> Connection;

    /// Allows cast to a [`Connection`] reference.
    fn as_connection(&self) -> (r: &Connection)
        ensures
            r == self.spec_connection(),
    ;
}

/// Castability to a signed connection.
pub trait AsSigned {
    /// The embedded signed connection.
    spec fn spec_signed(&self) -> SignedConnection;

    /// Allows cast to a [`SignedConnection`] reference.
    fn as_signed(&self) -> (r: &SignedConnection)
        ensures
            r == self.spec_signed(),
    ;
}

impl AsConnection for Connection {
    open spec fn spec_connection(&self) -> Connection {
        *self
    }

    fn as_connection(&self) -> (r: &Connection) {
        self
    }
}

impl<S: AsSigned> AsConnection for S {
    open spec fn spec_connection(&self) -> Connection {
        self.spec_signed().spec_bare()
    }

    fn as_connection(&self) -> (r: &Connection) {
        &self.as_signed().connection
    }
}

impl AsSigned for SignedConnection {
    open spec fn spec_signed(&self) -> SignedConnection {
        *self
    }

    fn as_signed(&self) -> (r: &SignedConnection) {
        self
    }
}

impl AsSigned for RootConnection {
    closed spec fn spec_signed(&self) -> SignedConnection {
        self.connection
    }

    fn as_signed(&self) -> (r: &SignedConnection) {
        &self.connection
    }
}

impl Connection {
    /// The endpoint of the underlying session.
    pub closed spec fn view(self) -> Seq<char> {
        self.session@
    }

    /// Wraps a session opened by the bootstrap procedure into a bare,
    /// query-only handle.
    pub fn new(session: Session) -> (r: Connection)
        ensures
            r@ == session@,
    {
        Connection { session }
    }

    /// Casts self to the underlying transport session.
    pub fn as_client(&self) -> (r: &Session)
        ensures
            r@ == self@,
    {
        &self.session
    }
}

impl SignedConnection {
    /// The embedded bare connection.
    pub closed spec fn spec_bare(self) -> Connection {
        self.connection
    }

    /// The key pair that signs this connection.
    pub closed spec fn spec_signer(self) -> KeyPair {
        self.signer
    }

    /// The account this connection signs for, as bytes.
    pub open spec fn spec_account(self) -> Seq<u8> {
        self.spec_signer()@
    }

    /// Creates a new signed connection from an existing [`Connection`].
    /// * `connection` - existing connection
    /// * `signer` - a [`KeyPair`] of the signing account
    pub fn from_connection(connection: Connection, signer: KeyPair) -> (r: SignedConnection)
        ensures
            r.spec_bare() == connection,
            r.spec_signer() == signer,
    {
        SignedConnection { connection, signer }
    }

    /// Returns the account id which signs this connection.
    pub fn account_id(&self) -> (r: &AccountId)
        ensures
            r@ == self.spec_account(),
    {
        self.signer.account_id()
    }

    /// Returns the [`KeyPair`] which signs this connection.
    pub fn signer(&self) -> (r: &KeyPair)
        ensures
            r == self.spec_signer(),
    {
        &self.signer
    }

    /// Tries to upgrade this connection to a [`RootConnection`].
    ///
    /// The remote node is the sole authority on privilege, so the caller
    /// first asks it whether this connection's account holds the
    /// privileged role and passes the verdict in; the upgrade never
    /// silently downgrades: it yields a privileged handle exactly when
    /// the verdict confirms the role, and an explicit error otherwise.
    /// * `is_privileged` - the node's verdict on this account's role
    pub fn try_as_root(self, is_privileged: bool) -> (r: Result<RootConnection, Error>)
        ensures
            is_privileged ==> (r matches Ok(root) && root.spec_signed() == self),
            !is_privileged ==> r == Err::<RootConnection, Error>(Error::NotPrivileged),
    {
        if is_privileged {
            Ok(RootConnection { connection: self })
        } else {
            Err(Error::NotPrivileged)
        }
    }
}

/// Capability monotonicity for signed handles: the bare view of a signed
/// connection is exactly the bare connection it embeds — a handle
/// exposing the query operations and nothing above them.
pub proof fn lemma_signed_bare_view(c: SignedConnection)
    ensures
        c.spec_connection() == c.spec_bare(),
{
}

/// Capability monotonicity for privileged handles: the bare view of a
/// privileged connection is exactly the bare connection embedded in its
/// signed handle — again a handle exposing only the query operations.
pub proof fn lemma_root_bare_view(r: RootConnection)
    ensures
        r.spec_connection() == r.spec_signed().spec_bare(),
        r.spec_signed().spec_connection() == r.spec_connection(),
{
}

/// Data regarding a submitted transaction.
#[derive(Copy, Clone, Debug, PartialEq, Eq)]
pub struct TxInfo {
    /// Hash of the block containing the tx. Meaningful only when the
    /// chosen acceptance target waited for a block; all-zero otherwise.
    pub block_hash: BlockHash,
    /// Hash of the transaction itself.
    pub tx_hash: TxHash,
}

/// The outcome the driver hands back after fetching a storage cell.
pub enum StorageFetched {
    /// The cell held a value, arriving as its encoded bytes.
    Value(Vec<u8>),
    /// The cell has never been written: a valid outcome, not a failure.
    Absent,
    /// The fetch itself failed: the address was malformed or the
    /// transport broke.
    Failed,
}

/// What a required read of a fetched cell must return: the decoded value
/// when the cell held a valid encoding, and a fatal error when the fetch
/// failed, when the bytes did not decode, or when the cell — whose shape
/// guarantees a value — held none.
pub open spec fn query_required_post<T: ScaleDecode>(
    fetched: StorageFetched,
    r: Result<T, Error>,
) -> bool {
    &&& fetched is Failed ==> r == Err::<T, Error>(Error::StorageAccessFailed)
    &&& fetched is Absent ==> r == Err::<T, Error>(Error::StorageValueMissing)
    &&& fetched matches StorageFetched::Value(bytes) ==> {
        if T::spec_decode_ok(bytes@) {
            r matches Ok(v) && T::spec_decodes(bytes@, v)
        } else {
            r == Err::<T, Error>(Error::StorageDecodeFailed)
        }
    }
    &&& r matches Err(e) ==> e.spec_is_fatal()
}

/// What an optional read of a fetched cell must return: absence is a
/// normal result, while a failed fetch or an undecodable value remain
/// fatal, exactly as for a required read.
pub open spec fn query_maybe_post<T: ScaleDecode>(
    fetched: StorageFetched,
    r: Result<Option<T>, Error>,
) -> bool {
    &&& fetched is Failed ==> r == Err::<Option<T>, Error>(Error::StorageAccessFailed)
    &&& fetched is Absent ==> r == Ok::<Option<T>, Error>(None)
    &&& fetched matches StorageFetched::Value(bytes) ==> {
        if T::spec_decode_ok(bytes@) {
            r matches Ok(Some(v)) && T::spec_decodes(bytes@, v)
        } else {
            r == Err::<Option<T>, Error>(Error::StorageDecodeFailed)
        }
    }
    &&& r matches Err(e) ==> e.spec_is_fatal()
}

impl Connection {
    /// Reads a storage cell whose shape guarantees a value.
    ///
    /// The driver fetches the cell over the transport and hands the
    /// outcome in as `fetched`; this function decodes it as `T`. Absence
    /// is fatal here: callers use this only for addresses known to always
    /// resolve.
    /// * `fetched` - the outcome of fetching the storage cell
    pub fn get_storage_entry<T: ScaleDecode>(&self, fetched: &StorageFetched) -> (r: Result<
        T,
        Error,
    >)
        ensures
            query_required_post::<T>(*fetched, r),
    {
        match self.get_storage_entry_maybe::<T>(fetched) {
            Ok(Some(v)) => Ok(v),
            Ok(None) => Err(Error::StorageValueMissing),
            Err(e) => Err(e),
        }
    }

    /// Reads a storage cell that may validly be absent.
    ///
    /// The driver fetches the cell over the transport and hands the
    /// outcome in as `fetched`; this function decodes it as `T`. Absence
    /// of a value is a normal, non-error outcome; a malformed address or
    /// a decode failure remain fatal.
    /// * `fetched` - the outcome of fetching the storage cell
    pub fn get_storage_entry_maybe<T: ScaleDecode>(&self, fetched: &StorageFetched) -> (r: Result<
        Option<T>,
        Error,
    >)
        ensures
            query_maybe_post::<T>(*fetched, r),
    {
        match fetched {
            StorageFetched::Failed => Err(Error::StorageAccessFailed),
            StorageFetched::Absent => Ok(None),
            StorageFetched::Value(bytes) => match T::decode_from(bytes.as_slice()) {
                Some(v) => Ok(Some(v)),
                None => Err(Error::StorageDecodeFailed),
            },
        }
    }
}

/// The outcome the driver hands back after submitting a raw procedure
/// call over the transport.
pub enum RpcReply {
    /// The node replied with these encoded bytes.
    Reply(Vec<u8>),
    /// The call could not be transported.
    TransportFailed,
}

impl Connection {
    /// Completes a raw procedure call: decodes the node's reply against
    /// the caller-specified shape.
    ///
    /// The driver submits the named procedure with its parameters and
    /// hands the reply in; transport and decode failures are recoverable
    /// here, since callers may retry arbitrary procedure calls
    /// themselves.
    /// * `reply` - the outcome of transporting the call
    pub fn rpc_call<R: ScaleDecode>(&self, reply: &RpcReply) -> (r: Result<R, Error>)
        ensures
            reply is TransportFailed ==> r == Err::<R, Error>(Error::RpcTransportFailed),
            reply matches RpcReply::Reply(bytes) ==> {
                if R::spec_decode_ok(bytes@) {
                    r matches Ok(v) && R::spec_decodes(bytes@, v)
                } else {
                    r == Err::<R, Error>(Error::RpcDecodeFailed)
                }
            },
            r matches Err(e) ==> !e.spec_is_fatal(),
    {
        match reply {
            RpcReply::TransportFailed => Err(Error::RpcTransportFailed),
            RpcReply::Reply(bytes) => match R::decode_from(bytes.as_slice()) {
                Some(v) => Ok(v),
                None => Err(Error::RpcDecodeFailed),
            },
        }
    }

    /// Same as [`Connection::rpc_call`] but for procedures that return no
    /// value: only the transport outcome matters.
    /// * `reply` - the outcome of transporting the call
    pub fn rpc_call_no_return(&self, reply: &RpcReply) -> (r: Result<(), Error>)
        ensures
            r is Ok <==> reply is Reply,
            r matches Err(e) ==> e == Error::RpcTransportFailed && !e.spec_is_fatal(),
    {
        match reply {
            RpcReply::TransportFailed => Err(Error::RpcTransportFailed),
            RpcReply::Reply(_) => Ok(()),
        }
    }
}

/// Reading is idempotent: a query returns a pure function of the fetched
/// cell, so two required reads (and two optional reads) of the same cell
/// at the same point in history return the same result — reading mutates
/// nothing.
pub proof fn lemma_query_idempotent<T: ScaleDecode>(
    fetched: StorageFetched,
    r1: Result<T, Error>,
    r2: Result<T, Error>,
    m1: Result<Option<T>, Error>,
    m2: Result<Option<T>, Error>,
)
    requires
        query_required_post::<T>(fetched, r1),
        query_required_post::<T>(fetched, r2),
        query_maybe_post::<T>(fetched, m1),
        query_maybe_post::<T>(fetched, m2),
    ensures
        r1 == r2,
        m1 == m2,
{
    if let StorageFetched::Value(bytes) = fetched {
        if T::spec_decode_ok(bytes@) {
            let v1 = r1->Ok_0;
            let v2 = r2->Ok_0;
            T::lemma_decode_deterministic(bytes@, v1, v2);
            let w1 = m1->Ok_0->Some_0;
            let w2 = m2->Ok_0->Some_0;
            T::lemma_decode_deterministic(bytes@, w1, w2);
        }
    }
}

/// A required read and an optional read of the same fetched cell agree:
/// the required read succeeds exactly when the optional one finds a
/// value, and then with the same value; absence turns the optional
/// read's `None` into the required read's fatal missing-value error.
pub proof fn lemma_required_optional_agree<T: ScaleDecode>(
    fetched: StorageFetched,
    r: Result<T, Error>,
    m: Result<Option<T>, Error>,
)
    requires
        query_required_post::<T>(fetched, r),
        query_maybe_post::<T>(fetched, m),
    ensures
        r is Ok <==> m matches Ok(Some(_)),
        r is Ok ==> r->Ok_0 == m->Ok_0->Some_0,
        fetched is Absent ==> r == Err::<T, Error>(Error::StorageValueMissing) && m == Ok::<
            Option<T>,
            Error,
        >(None),
{
    if let StorageFetched::Value(bytes) = fetched {
        if T::spec_decode_ok(bytes@) {
            T::lemma_decode_deterministic(bytes@, r->Ok_0, m->Ok_0->Some_0);
        }
    }
}

} // verus!
