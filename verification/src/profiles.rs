//! User profiles: the acting principal's chosen nickname, and the
//! decisions of the profile calls made over the signed-call channel.

use vstd::prelude::*;
use crate::codec::PayloadValue;
use crate::codec::PayloadValueView;
use crate::errors::Error;
use crate::errors::ErrorKind;

verus! {

/// A user profile: the agent's chosen nickname, as UTF-8 bytes.
#[derive(Clone, Debug, PartialEq, Eq)]
pub struct Profile {
    pub nickname: Vec<u8>,
}

impl View for Profile {
    type V = Seq<u8>;

    open spec fn view(&self) -> Seq<u8> {
        self.nickname@
    }
}

/// Build the profile to store for this nickname, together with the payload
/// of the create-profile call that stores it.
pub fn create_profile(nickname: Vec<u8>) -> (r: (Profile, PayloadValue))
    ensures
        r.0@ == nickname@,
        r.1@ == PayloadValueView::Text(nickname@),
{
    let payload = PayloadValue::Text(vstd::slice::slice_to_vec(nickname.as_slice()));
    (Profile { nickname }, payload)
}

/// Interpret the response of a fetch-profile call: no record means no
/// profile exists yet, one text is the stored nickname, and anything else
/// does not have the expected shape.
pub fn fetch_profile(response: PayloadValue) -> (r: Result<Option<Profile>, Error>)
    ensures
        match response {
            PayloadValue::Unit => r matches Ok(o) && o is None,
            PayloadValue::Text(n) => r matches Ok(o) && o matches Some(p) && p@ == n@,
            PayloadValue::TextList(_) => r matches Err(e) && e.kind == ErrorKind::DecodeError,
        },
{
    match response {
        PayloadValue::Unit => Ok(None),
        PayloadValue::Text(n) => Ok(Some(Profile { nickname: n })),
        PayloadValue::TextList(_) => Err(Error::new(ErrorKind::DecodeError)),
    }
}

} // verus!
