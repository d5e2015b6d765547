//! The session gate: a model of the client's cookie jar and the
//! operations that decide "authenticated" vs "anonymous" and maintain
//! the `session` and `msg` (flash) cookies.

use vstd::prelude::*;

verus! {

/// The client's cookie jar: at most one `session` cookie and at most
/// one `msg` (flash) cookie. A request counts as authenticated exactly
/// when a `session` cookie is present, whatever its value.
#[derive(Debug, Clone, PartialEq, Eq)]
pub struct Jar {
    pub session: Option<String>,
    pub msg: Option<String>,
}

/// Mathematical model of a cookie jar: the two cookie values as
/// character sequences.
#[verifier::ext_equal]
pub struct JarModel {
    pub session: Option<Seq<char>>,
    pub msg: Option<Seq<char>>,
}

impl View for Jar {
    type V = JarModel;

    open spec fn view(&self) -> JarModel {
        JarModel {
            session: match self.session {
                Some(s) => Some(s@),
                None => None,
            },
            msg: match self.msg {
                Some(m) => Some(m@),
                None => None,
            },
        }
    }
}

/// Removing the `session` cookie leaves the flash cookie alone.
pub open spec fn spec_end_session(j: JarModel) -> JarModel {
    JarModel { session: None, msg: j.msg }
}

/// Setting the `session` cookie to a token leaves the flash cookie alone.
pub open spec fn spec_begin_session(j: JarModel, token: Seq<char>) -> JarModel {
    JarModel { session: Some(token), msg: j.msg }
}

/// Setting the flash cookie overwrites any prior message.
pub open spec fn spec_flash(j: JarModel, text: Seq<char>) -> JarModel {
    JarModel { session: j.session, msg: Some(text) }
}

/// Consuming the flash cookie: the jar afterwards, and the message that
/// was read (empty when none was present).
pub open spec fn spec_take_flash(j: JarModel) -> (JarModel, Seq<char>) {
    (
        JarModel { session: j.session, msg: None },
        match j.msg {
            Some(m) => m,
            None => Seq::empty(),
        },
    )
}

/// A request is authenticated exactly when a `session` cookie is present.
pub fn is_authenticated(jar: &Jar) -> (r: bool)
    ensures
        r == (jar@.session is Some),
{
    jar.session.is_some()
}

/// Remove the `session` cookie, if any.
pub fn end_session(jar: &mut Jar)
    ensures
        final(jar)@ == spec_end_session(old(jar)@),
{
    jar.session = None;
}

/// Set the `session` cookie to a freshly generated random token,
/// leaving the flash cookie alone. The token's shape is guaranteed (a
/// lowercase hyphenated version-4 UUID); its value is unpredictable.
pub fn begin_session(jar: &mut Jar)
    ensures
        final(jar)@.msg == old(jar)@.msg,
        final(jar)@.session matches Some(t) && crate::token::is_uuid_v4(t),
        final(jar)@ == spec_begin_session(old(jar)@, final(jar)@.session.unwrap()),
{
    jar.session = Some(crate::token::fresh_token());
}

/// Set the flash cookie to `text`, overwriting any prior message.
pub fn flash(jar: &mut Jar, text: String)
    ensures
        final(jar)@ == spec_flash(old(jar)@, text@),
{
    jar.msg = Some(text);
}

/// Read and remove the flash cookie; an absent message reads as the
/// empty string.
pub fn take_flash(jar: &mut Jar) -> (r: String)
    ensures
        final(jar)@ == spec_take_flash(old(jar)@).0,
        r@ == spec_take_flash(old(jar)@).1,
{
    match jar.msg.take() {
        Some(m) => m,
        None => String::new(),
    }
}

/// The flash message is one-shot: after one consuming read, a second
/// read yields the empty string, and no message is left behind.
pub proof fn lemma_flash_one_shot(j: JarModel)
    ensures
        spec_take_flash(spec_take_flash(j).0).1 == Seq::<char>::empty(),
        spec_take_flash(spec_take_flash(j).0).0.msg is None,
{
}

} // verus!
