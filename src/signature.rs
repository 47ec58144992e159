use vstd::prelude::*;
use vstd::utf8::{decode_utf8, valid_utf8};
use crate::extern_git::{
    signature_email_bytes, signature_email_of, signature_name_bytes, signature_name_of,
    signature_when_of, time_offset_of, time_seconds_of, utf8_text,
};

verus! {

/// A point in time as git records it: seconds since the epoch and the
/// offset of the local time zone, in minutes.
#[derive(Clone, Copy, Debug, PartialEq, Eq, Structural)]
pub struct Timestamp {
    pub seconds: i64,
    pub offset_minutes: i32,
}

/// The timestamp that git reports in `t`.
pub open spec fn timestamp_of(t: git2::Time) -> Timestamp {
    Timestamp { seconds: time_seconds_of(t), offset_minutes: time_offset_of(t) }
}

impl Timestamp {
    /// A time from its two parts.
    pub fn new(seconds: i64, offset_minutes: i32) -> (r: Timestamp)
        ensures
            r.seconds == seconds,
            r.offset_minutes == offset_minutes,
    {
        Timestamp { seconds, offset_minutes }
    }

    /// The time that git reports in `t`.
    pub(crate) fn from_git(t: &git2::Time) -> (r: Timestamp)
        ensures
            r == timestamp_of(*t),
    {
        Timestamp { seconds: t.seconds(), offset_minutes: t.offset_minutes() }
    }
}

/// What a signature holds: raw name and email, and a time.
pub struct SignatureModel {
    pub name: Seq<u8>,
    pub email: Seq<u8>,
    pub when: Timestamp,
}

/// The signature that git reports in `s`, as plain values.
pub open spec fn signature_model_of(s: git2::Signature) -> SignatureModel {
    SignatureModel {
        name: signature_name_of(s),
        email: signature_email_of(s),
        when: timestamp_of(signature_when_of(s)),
    }
}

/// Who made a commit, and when: a name and an email as raw bytes, and a time.
#[derive(Clone, Debug)]
pub struct Signature {
    pub name: Vec<u8>,
    pub email: Vec<u8>,
    pub when: Timestamp,
}

impl View for Signature {
    type V = SignatureModel;

    open spec fn view(&self) -> SignatureModel {
        SignatureModel { name: self.name@, email: self.email@, when: self.when }
    }
}

impl Signature {
    /// The signature that git reports in `s`.
    pub(crate) fn from_git(s: &git2::Signature) -> (r: Signature)
        ensures
            r@ == signature_model_of(*s),
    {
        Signature {
            name: signature_name_bytes(s),
            email: signature_email_bytes(s),
            when: Timestamp::from_git(&s.when()),
        }
    }

    /// The name as text, or `None` where its bytes are not valid UTF-8.
    pub fn name(&self) -> (r: Option<&str>)
        ensures
            r is Some <==> valid_utf8(self.name@),
            r matches Some(s) ==> s@ == decode_utf8(self.name@),
    {
        utf8_text(self.name.as_slice())
    }

    /// The email as text, or `None` where its bytes are not valid UTF-8.
    pub fn email(&self) -> (r: Option<&str>)
        ensures
            r is Some <==> valid_utf8(self.email@),
            r matches Some(s) ==> s@ == decode_utf8(self.email@),
    {
        utf8_text(self.email.as_slice())
    }

    /// The time of the signature.
    pub fn when(&self) -> (r: Timestamp)
        ensures
            r == self.when,
    {
        self.when
    }
}

} // verus!
