//! The auth controller: login, logout and the login landing page, as
//! transitions on the cookie-jar model. The HTTP layer outside the
//! crate turns each returned `Redirect` into a 302 and each returned
//! flash text into the rendered `login` template.

use crate::db::Database;
use crate::session::{
    begin_session, end_session, flash, is_authenticated, spec_begin_session, spec_end_session,
    spec_flash, spec_take_flash, take_flash, Jar, JarModel,
};
use crate::token::is_uuid_v4;
use vstd::prelude::*;

verus! {

/// User login form data: the submitted credentials, alive for one
/// login request.
#[derive(Debug, PartialEq, Eq)]
pub struct User {
    pub username: String,
    pub password: String,
}

/// Where a handler sends the browser next.
#[derive(Debug, Clone, Copy, PartialEq, Eq, Structural)]
pub enum Redirect {
    ToLoginPage,
    ToProxy,
}

/// The flash text set when a login attempt fails, whatever the reason:
/// the message never discloses which factor was wrong.
pub open spec fn incorrect_msg() -> Seq<char> {
    "Password or username is incorrect"@
}

/// The flash text set by logout.
pub open spec fn logged_out_msg() -> Seq<char> {
    "Logged out"@
}

/// What a login attempt does to the jar and where it redirects, as a
/// function of whether the username was found, whether the password
/// matched, and the token a successful attempt would install: on
/// success the session cookie is set to the token and the flash is left
/// alone; on any failure the session cookie is cleared and the generic
/// failure message is flashed.
pub open spec fn spec_login(j: JarModel, user_found: bool, password_ok: bool, token: Seq<char>) -> (
    JarModel,
    Redirect,
) {
    if user_found && password_ok {
        (spec_begin_session(j, token), Redirect::ToProxy)
    } else {
        (spec_flash(spec_end_session(j), incorrect_msg()), Redirect::ToLoginPage)
    }
}

/// A failed login is observationally identical whether the username was
/// unknown, the stored password differed, or the store itself failed:
/// the jar ends in the same state and the browser is sent to the same
/// place, for any prior jar and any tokens.
pub proof fn lemma_login_failure_indistinguishable(
    j: JarModel,
    password_ok: bool,
    t1: Seq<char>,
    t2: Seq<char>,
)
    ensures
        spec_login(j, false, password_ok, t1) == spec_login(j, true, false, t2),
{
}

/// After any failed login the session cookie is gone, the generic
/// failure message is flashed, and the browser is sent back to the
/// login page.
pub proof fn lemma_login_failure_state(
    j: JarModel,
    user_found: bool,
    password_ok: bool,
    token: Seq<char>,
)
    requires
        !(user_found && password_ok),
    ensures
        spec_login(j, user_found, password_ok, token).0.session is None,
        spec_login(j, user_found, password_ok, token).0.msg == Some(incorrect_msg()),
        spec_login(j, user_found, password_ok, token).1 == Redirect::ToLoginPage,
{
}

/// After a successful login the session cookie holds exactly the fresh
/// token, the flash is untouched, and the browser is sent to the proxy.
pub proof fn lemma_login_success_state(j: JarModel, token: Seq<char>)
    ensures
        spec_login(j, true, true, token).0.session == Some(token),
        spec_login(j, true, true, token).0.msg == j.msg,
        spec_login(j, true, true, token).1 == Redirect::ToProxy,
{
}

/// Entry probe: send an authenticated browser to the proxy and an
/// anonymous one to the login page, touching no cookies.
pub fn login_check(jar: &Jar) -> (r: Redirect)
    ensures
        r == if jar@.session is Some {
            Redirect::ToProxy
        } else {
            Redirect::ToLoginPage
        },
{
    if is_authenticated(jar) {
        return Redirect::ToProxy;
    }
    Redirect::ToLoginPage
}

/// The login landing page: consume the flash message and hand back the
/// text to bind to the `msg` field of the `login` template (empty when
/// no message was pending).
pub fn login_page(jar: &mut Jar) -> (msg: String)
    ensures
        final(jar)@ == spec_take_flash(old(jar)@).0,
        msg@ == spec_take_flash(old(jar)@).1,
{
    take_flash(jar)
}

/// Logout: clear the session cookie, flash `Logged out`, and send the
/// browser to the login page. Always succeeds, whatever the prior state.
pub fn logout(jar: &mut Jar) -> (r: Redirect)
    ensures
        final(jar)@ == spec_flash(spec_end_session(old(jar)@), logged_out_msg()),
        r == Redirect::ToLoginPage,
{
    end_session(jar);
    flash(jar, "Logged out".to_owned());
    Redirect::ToLoginPage
}

/// Reject a login attempt: clear the session, flash the generic failure
/// message, and send the browser back to the login page.
fn reject_login(jar: &mut Jar) -> (r: Redirect)
    ensures
        final(jar)@ == spec_flash(spec_end_session(old(jar)@), incorrect_msg()),
        r == Redirect::ToLoginPage,
{
    end_session(jar);
    flash(jar, "Password or username is incorrect".to_owned());
    Redirect::ToLoginPage
}

/// Whether the password check accepts: only a definite match does. A
/// storage-backend failure during the check counts as a failed match,
/// so no backend detail can reach the client through this answer.
pub fn password_accepted(checked: Result<bool, crate::db::DatabaseError>) -> (r: bool)
    ensures
        r == (checked matches Ok(true)),
{
    match checked {
        Ok(b) => b,
        Err(_) => false,
    }
}

/// Settle a login attempt from the store's answers: exactly when the
/// user was found and the password matched, install a fresh session
/// token and send the browser to the proxy; on every other pair of
/// answers, clear the session, flash the generic failure message, and
/// send it back to the login page.
pub fn settle_login(jar: &mut Jar, user_found: bool, password_ok: bool) -> (r: Redirect)
    ensures
        user_found && password_ok ==> (exists|t: Seq<char>|
            is_uuid_v4(t) && (final(jar)@, r) == spec_login(old(jar)@, true, true, t)),
        !(user_found && password_ok) ==> (final(jar)@, r) == spec_login(
            old(jar)@,
            false,
            false,
            Seq::empty(),
        ),
{
    if user_found && password_ok {
        begin_session(jar);
        proof {
            let t = jar@.session.unwrap();
            assert(is_uuid_v4(t) && (jar@, Redirect::ToProxy) == spec_login(
                old(jar)@,
                true,
                true,
                t,
            ));
        }
        Redirect::ToProxy
    } else {
        reject_login(jar)
    }
}

/// Login: look the user up, check the password, and settle the attempt
/// from those two answers through `settle_login`. A missing user, a
/// wrong password and a storage-backend failure all take the rejection
/// path, so the response never discloses which it was.
pub fn login(db: &Database, user: &User, jar: &mut Jar) -> (r: Redirect)
    ensures
        r == Redirect::ToProxy || r == Redirect::ToLoginPage,
        r == Redirect::ToProxy ==> (exists|t: Seq<char>|
            is_uuid_v4(t) && (final(jar)@, r) == spec_login(old(jar)@, true, true, t)),
        r == Redirect::ToLoginPage ==> (final(jar)@, r) == spec_login(
            old(jar)@,
            false,
            false,
            Seq::empty(),
        ),
{
    let (user_found, password_ok): (bool, bool) = match db.get_user_by_username(
        user.username.as_str(),
    ) {
        Ok(record) => (true, password_accepted(db.check_password(&record, user.password.as_str()))),
        Err(_) => (false, false),
    };
    settle_login(jar, user_found, password_ok)
}

} // verus!
