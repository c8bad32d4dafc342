use vstd::prelude::*;
use vstd::string::StringExecFns;

verus! {

/// The cookie line for a session value (empty when there is none), with
/// an expiry in the past when the cookie is to be removed.
pub open spec fn cookie_line(value: Option<Seq<char>>, expired: bool) -> Seq<char> {
    let v = match value {
        Some(v) => v,
        None => Seq::<char>::empty(),
    };
    let expires = if expired {
        ";expires=Thu, 01 Jan 1970 00:00:00 GMT"@
    } else {
        Seq::<char>::empty()
    };
    "session="@ + v + ";path=/;samesite=lax"@ + expires
}

/// The session cookie as the browser stores it.
pub struct SessionCookie {
    pub value: Option<String>,
    pub expired: bool,
}

impl SessionCookie {
    /// The text that sets this cookie.
    pub fn to_string(&self) -> (r: String)
        ensures
            r@ == cookie_line(
                match self.value {
                    Some(v) => Some(v@),
                    None => None,
                },
                self.expired,
            ),
    {
        let mut r = String::from_str("session=");
        match &self.value {
            Some(v) => r.append(v.as_str()),
            None => {},
        }
        r.append(";path=/;samesite=lax");
        if self.expired {
            r.append(";expires=Thu, 01 Jan 1970 00:00:00 GMT");
        }
        proof {
            if self.value is None {
                assert(r@ =~= cookie_line(None, self.expired));
            }
        }
        r
    }

    /// A cookie that removes the session.
    pub fn expire() -> (r: Self)
        ensures
            r.value is None,
            r.expired,
    {
        SessionCookie { value: None, expired: true }
    }

    /// A live cookie holding `value`.
    pub fn with_value(value: &str) -> (r: Self)
        ensures
            r.value is Some,
            r.value->0@ == value@,
            !r.expired,
    {
        SessionCookie { value: Some(value.to_owned()), expired: false }
    }
}

} // verus!
