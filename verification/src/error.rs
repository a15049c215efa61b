//! Foreign error values and their classification.
//!
//! A foreign error is a (domain, code, message) triple.  The domain is a
//! stable symbolic token; matching an error against a statically known
//! domain either converts the code through the domain's enum or reports one
//! of two distinguishable failures: wrong domain entirely, or a recognized
//! domain with an unrecognized code.

use vstd::prelude::*;

verus! {

/// A stable symbolic token naming an error domain.
#[derive(Debug)]
pub struct Quark {
    pub name: String,
}

impl Quark {
    /// Builds the token for a domain name.
    pub fn from_name(name: &str) -> (q: Quark)
        ensures
            q.name@ == name@,
    {
        Quark { name: name.to_owned() }
    }

    /// Two tokens name the same domain exactly when their names agree.
    pub fn matches(&self, other: &Quark) -> (r: bool)
        ensures
            r == (self.name@ == other.name@),
    {
        self.name.eq(&other.name)
    }

    /// An independent copy of the token.
    pub fn dup(&self) -> (q: Quark)
        ensures
            q.name@ == self.name@,
    {
        Quark { name: self.name.clone() }
    }
}

/// A foreign-reported error: domain token, integer code, and a message.
#[derive(Debug)]
pub struct Error {
    pub domain: Quark,
    pub code: i32,
    pub message: String,
}

impl Error {
    /// Assembles an error value.
    pub fn new(domain: Quark, code: i32, message: String) -> (e: Error)
        ensures
            e.domain.name@ == domain.name@,
            e.code == code,
            e.message@ == message@,
    {
        Error { domain, code, message }
    }

    /// An independent copy of the error.
    pub fn dup(&self) -> (e: Error)
        ensures
            e.domain.name@ == self.domain.name@,
            e.code == self.code,
            e.message@ == self.message@,
    {
        Error { domain: self.domain.dup(), code: self.code, message: self.message.clone() }
    }

    /// The (domain, code) pair that identifies the error's family.
    pub fn key(&self) -> (r: (Quark, i32))
        ensures
            r.0.name@ == self.domain.name@,
            r.1 == self.code,
    {
        (self.domain.dup(), self.code)
    }

    /// The human-readable message carried by the error.
    pub fn message(&self) -> (m: String)
        ensures
            m@ == self.message@,
    {
        self.message.clone()
    }
}

/// The outcome of matching an error against a statically known domain.
///
/// `NotInDomain` means the error belongs to a different family entirely;
/// `Unknown` means the domain was recognized but the code was not, and it
/// carries the raw code so nothing is lost.
#[derive(Debug)]
pub enum Match<E> {
    NotInDomain,
    Known(E),
    Unknown(i32),
}

} // verus!
