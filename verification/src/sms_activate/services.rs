//! The verification targets the SMS Activate API knows, each with its
//! service code.

use vstd::prelude::*;

use crate::text::str_eq;

verus! {

/// An SMS Activate verification target (the app or site a number is rented
/// for).
#[derive(Debug, Hash)]
pub enum Service {
    /// Full rent (code `full`).
    FullRent,
    /// Instagram/Threads (code `ig`).
    InstagramThreads,
    /// WhatsApp (code `wa`).
    Whatsapp,
    /// Facebook (code `fb`).
    Facebook,
    /// VFS Global (code `afp`).
    Vfs,
    /// Any other service, by its code.
    Other { code: String },
}

impl Service {
    /// The service code sent to the API.
    pub open spec fn code_spec(&self) -> Seq<char> {
        match self {
            Service::FullRent => "full"@,
            Service::InstagramThreads => "ig"@,
            Service::Whatsapp => "wa"@,
            Service::Facebook => "fb"@,
            Service::Vfs => "afp"@,
            Service::Other { code } => code@,
        }
    }

    /// The service code sent to the API.
    pub fn code(&self) -> (r: &str)
        ensures
            r@ == self.code_spec(),
    {
        match self {
            Service::FullRent => "full",
            Service::InstagramThreads => "ig",
            Service::Whatsapp => "wa",
            Service::Facebook => "fb",
            Service::Vfs => "afp",
            Service::Other { code } => code.as_str(),
        }
    }

    /// The service for a code: a known code gives its named target, any
    /// other code is kept as `Other`.
    pub fn from_code(code: &str) -> (r: Self)
        ensures
            r.code_spec() == code@,
            (code@ == "full"@ ==> r == Service::FullRent),
            (code@ == "ig"@ ==> r == Service::InstagramThreads),
            (code@ == "wa"@ ==> r == Service::Whatsapp),
            (code@ == "fb"@ ==> r == Service::Facebook),
            (code@ == "afp"@ ==> r == Service::Vfs),
            (r matches Service::Other { code: c } ==> c@ == code@ && code@ != "full"@ && code@
                != "ig"@ && code@ != "wa"@ && code@ != "fb"@ && code@ != "afp"@),
    {
        proof {
            reveal_strlit("full");
            reveal_strlit("ig");
            reveal_strlit("wa");
            reveal_strlit("fb");
            reveal_strlit("afp");
            assert("full"@.len() == 4);
            assert("afp"@.len() == 3);
            assert("ig"@[0] == 'i' && "wa"@[0] == 'w' && "fb"@[0] == 'f');
            assert("ig"@.len() == 2 && "wa"@.len() == 2 && "fb"@.len() == 2);
        }
        if str_eq(code, "full") {
            Service::FullRent
        } else if str_eq(code, "ig") {
            Service::InstagramThreads
        } else if str_eq(code, "wa") {
            Service::Whatsapp
        } else if str_eq(code, "fb") {
            Service::Facebook
        } else if str_eq(code, "afp") {
            Service::Vfs
        } else {
            Service::Other { code: code.to_owned() }
        }
    }

    /// Every predefined target, in a fixed order (`Other` excluded).
    pub fn all() -> (r: Vec<Service>)
        ensures
            r@.len() == 5,
            r@[0] == Service::FullRent,
            r@[1] == Service::InstagramThreads,
            r@[2] == Service::Whatsapp,
            r@[3] == Service::Facebook,
            r@[4] == Service::Vfs,
    {
        let mut v: Vec<Service> = Vec::new();
        v.push(Service::FullRent);
        v.push(Service::InstagramThreads);
        v.push(Service::Whatsapp);
        v.push(Service::Facebook);
        v.push(Service::Vfs);
        v
    }

    /// Whether this is one of the predefined targets (not `Other`).
    pub fn is_predefined(&self) -> (r: bool)
        ensures
            r == !(self matches Service::Other { .. }),
    {
        match self {
            Service::Other { .. } => false,
            _ => true,
        }
    }
}

impl Clone for Service {
    fn clone(&self) -> (r: Self)
        ensures
            r == *self,
    {
        match self {
            Service::FullRent => Service::FullRent,
            Service::InstagramThreads => Service::InstagramThreads,
            Service::Whatsapp => Service::Whatsapp,
            Service::Facebook => Service::Facebook,
            Service::Vfs => Service::Vfs,
            Service::Other { code } => Service::Other { code: code.clone() },
        }
    }
}

impl PartialEq for Service {
    fn eq(&self, other: &Self) -> (r: bool) {
        match (self, other) {
            (Service::FullRent, Service::FullRent) => true,
            (Service::InstagramThreads, Service::InstagramThreads) => true,
            (Service::Whatsapp, Service::Whatsapp) => true,
            (Service::Facebook, Service::Facebook) => true,
            (Service::Vfs, Service::Vfs) => true,
            (Service::Other { code: a }, Service::Other { code: b }) => *a == *b,
            _ => false,
        }
    }
}

impl vstd::std_specs::cmp::PartialEqSpecImpl for Service {
    open spec fn obeys_eq_spec() -> bool {
        true
    }

    open spec fn eq_spec(&self, other: &Self) -> bool {
        match (self, other) {
            (Service::FullRent, Service::FullRent) => true,
            (Service::InstagramThreads, Service::InstagramThreads) => true,
            (Service::Whatsapp, Service::Whatsapp) => true,
            (Service::Facebook, Service::Facebook) => true,
            (Service::Vfs, Service::Vfs) => true,
            (Service::Other { code: a }, Service::Other { code: b }) => a@ == b@,
            _ => false,
        }
    }
}

} // verus!
