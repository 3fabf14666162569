//! The catalogues that titles come from, and the requests made of them.
use vstd::prelude::*;
use crate::strings::copy_text;

verus! {

/// A catalogue of titles and streams.
#[derive(Clone, Copy, PartialEq, Eq, Structural, Debug)]
pub enum ProviderKind {
    /// MovieBox, which also has suggestions and a home page.
    MovieBox,
    /// 4KHDHub, which offers search only.
    FourKHdHub,
}

impl ProviderKind {
    /// The key under which the provider's answers are cached.
    pub open spec fn key(self) -> Seq<char> {
        match self {
            ProviderKind::MovieBox => "moviebox"@,
            ProviderKind::FourKHdHub => "4khdhub"@,
        }
    }

    /// The provider's name on screen.
    pub open spec fn name(self) -> Seq<char> {
        match self {
            ProviderKind::MovieBox => "MovieBox"@,
            ProviderKind::FourKHdHub => "4KHDHub"@,
        }
    }

    /// The provider that a cycle reaches next.
    pub open spec fn next(self) -> ProviderKind {
        match self {
            ProviderKind::MovieBox => ProviderKind::FourKHdHub,
            ProviderKind::FourKHdHub => ProviderKind::MovieBox,
        }
    }

    /// The key under which the provider's answers are cached.
    pub fn cache_key(self) -> (r: String)
        ensures
            r@ == self.key(),
    {
        match self {
            ProviderKind::MovieBox => copy_text("moviebox"),
            ProviderKind::FourKHdHub => copy_text("4khdhub"),
        }
    }

    /// The provider's name on screen.
    pub fn label(self) -> (r: String)
        ensures
            r@ == self.name(),
    {
        match self {
            ProviderKind::MovieBox => copy_text("MovieBox"),
            ProviderKind::FourKHdHub => copy_text("4KHDHub"),
        }
    }
}

impl Default for ProviderKind {
    fn default() -> (r: ProviderKind)
        ensures
            r == ProviderKind::MovieBox,
    {
        ProviderKind::MovieBox
    }
}

/// The provider of a request, and how often the provider had been switched when it was made.
#[derive(Clone, Copy, PartialEq, Eq, Structural, Debug)]
pub struct RequestContext {
    /// The provider.
    pub provider: ProviderKind,
    /// The number of switches, modulo 2^64.
    pub generation: u64,
}

} // verus!
