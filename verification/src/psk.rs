//! Identities of devices authenticated by a TLS pre-shared key.
use crate::text::{chars_of, split_once, split_once_chars, string_of};
use vstd::prelude::*;

verus! {

/// A PSK identity: a device of an application, written `<device>@<application>`.
#[derive(Clone, Debug, PartialEq, Eq)]
pub struct Identity {
    application: String,
    device: String,
}

impl Identity {
    /// The application of the identity.
    pub closed spec fn application_model(&self) -> Seq<char> {
        self.application@
    }

    /// The device of the identity.
    pub closed spec fn device_model(&self) -> Seq<char> {
        self.device@
    }

    /// Reads an identity: the part before the first `@` is the device, the rest the
    /// application; an error where there is no `@`.
    pub fn parse(s: &str) -> (r: Result<Identity, ()>)
        ensures
            match r {
                Ok(id) => split_once(s@, '@') == Some((id.device_model(), id.application_model())),
                Err(()) => split_once(s@, '@') is None,
            },
    {
        let cs = chars_of(s);
        match split_once_chars(&cs, '@') {
            Some((d, a)) => Ok(Identity { application: string_of(&a), device: string_of(&d) }),
            None => Err(()),
        }
    }

    /// The application of the identity.
    pub fn application(&self) -> (r: &str)
        ensures
            r@ == self.application_model(),
    {
        self.application.as_str()
    }

    /// The device of the identity.
    pub fn device(&self) -> (r: &str)
        ensures
            r@ == self.device_model(),
    {
        self.device.as_str()
    }
}


/// The application and device that a TLS pre-shared key was verified for.
#[derive(Debug, PartialEq, Eq)]
pub struct VerifiedIdentity {
    pub application: crate::registry::Application,
    pub device: crate::registry::Device,
}

/// Hands out the PSK identity that a connection's TLS session verified, if any.
pub trait PskIdentityRetriever {
    fn verified_identity(&self) -> Option<VerifiedIdentity>;
}

/// An identity written as `<device>@<application>`, with a device name free of `@`, reads
/// back as that device and application.
pub proof fn lemma_identity_text_reads_back(device: Seq<char>, application: Seq<char>)
    requires
        !device.contains('@'),
    ensures
        split_once(device + seq!['@'] + application, '@') == Some((device, application)),
{
    let s = device + seq!['@'] + application;
    let n = device.len() as int;
    assert(crate::text::is_first_index(s, '@', n)) by {
        assert forall|j: int| 0 <= j < n implies s[j] != '@' by {
            assert(s[j] == device[j]);
        }
    }
    crate::text::lemma_first_index_exists(s, '@');
    let i = choose|i: int| crate::text::is_first_index(s, '@', i);
    crate::text::lemma_first_index_unique(s, '@', i, n);
    assert(s.take(n) =~= device);
    assert(s.skip(n + 1) =~= application);
}

} // verus!
