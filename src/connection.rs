use vstd::prelude::*;

use crate::options::Auth;

verus! {

#[verifier::external_type_specification]
#[verifier::external_body]
pub struct ExSession(ssh2::Session);

/// Relies on `ssh2::Session::set_timeout`: it sets the timeout of later
/// blocking calls and reports nothing back.
pub assume_specification[ ssh2::Session::set_timeout ](s: &ssh2::Session, timeout_ms: u32);

/// The timeout, in milliseconds, that a new connection starts with.
pub const DEFAULT_TIMEOUT_MS: u32 = 60000;

/// A session to one host, with what it was opened with.
pub struct Connection {
    host: String,
    port: u16,
    user: String,
    auth: Auth,
    timeout: u32,
    session: ssh2::Session,
}

/// What a `Connection` holds, but for its session.
pub struct ConnectionView {
    pub host: Seq<char>,
    pub port: u16,
    pub user: Seq<char>,
    pub auth: Auth,
    pub timeout: u32,
}

impl View for Connection {
    type V = ConnectionView;

    closed spec fn view(&self) -> ConnectionView {
        ConnectionView {
            host: self.host@,
            port: self.port,
            user: self.user@,
            auth: self.auth,
            timeout: self.timeout,
        }
    }
}

impl Connection {
    /// Takes over a session whose transport is set up, and gives it the
    /// default timeout. Authentication goes through `session` afterwards.
    pub fn new(host: String, port: u16, user: String, auth: Auth, session: ssh2::Session) -> (r:
        Connection)
        ensures
            r@ == (ConnectionView {
                host: host@,
                port,
                user: user@,
                auth,
                timeout: DEFAULT_TIMEOUT_MS,
            }),
    {
        session.set_timeout(DEFAULT_TIMEOUT_MS);
        Connection { host, port, user, auth, timeout: DEFAULT_TIMEOUT_MS, session }
    }

    pub fn session(&self) -> &ssh2::Session {
        &self.session
    }

    pub fn get_host(&mut self) -> (r: String)
        ensures
            r@ == old(self)@.host,
            final(self)@ == old(self)@,
    {
        self.host.clone()
    }

    pub fn get_port(&mut self) -> (r: u16)
        ensures
            r == old(self)@.port,
            final(self)@ == old(self)@,
    {
        self.port
    }

    pub fn get_user(&mut self) -> (r: String)
        ensures
            r@ == old(self)@.user,
            final(self)@ == old(self)@,
    {
        self.user.clone()
    }

    pub fn get_auth(&mut self) -> (r: Auth)
        ensures
            r == old(self)@.auth,
            final(self)@ == old(self)@,
    {
        self.auth.clone()
    }

    pub fn get_timeout(&mut self) -> (r: u32)
        ensures
            r == old(self)@.timeout,
            final(self)@ == old(self)@,
    {
        self.timeout
    }

    /// Sets the timeout of the blocking calls that follow.
    pub fn set_timeout(&mut self, timeout: u32)
        ensures
            final(self)@ == (ConnectionView { timeout, ..old(self)@ }),
    {
        self.timeout = timeout;
        self.session.set_timeout(timeout);
    }
}

/// A connection reads back the host, port, user and credential it was opened
/// with, and starts with the default timeout.
pub proof fn opened_values_read_back(
    c: ConnectionView,
    host: String,
    port: u16,
    user: String,
    auth: Auth,
)
    requires
        c == (ConnectionView { host: host@, port, user: user@, auth, timeout: DEFAULT_TIMEOUT_MS }),
    ensures
        c.host == host@,
        c.port == port,
        c.user == user@,
        c.auth == auth,
        c.timeout == DEFAULT_TIMEOUT_MS,
{
}

/// After the timeout is set to `t`, it reads back as `t`, and the rest of the
/// connection is as it was.
pub proof fn timeout_reads_back(before: ConnectionView, after: ConnectionView, t: u32)
    requires
        after == (ConnectionView { timeout: t, ..before }),
    ensures
        after.timeout == t,
        after.host == before.host,
        after.port == before.port,
        after.user == before.user,
        after.auth == before.auth,
{
}

} // verus!
