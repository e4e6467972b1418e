//! The browser whose cookies the recorder may borrow, as named on the
//! command line.
use vstd::prelude::*;
use vstd::string::*;

verus! {

/// A supported browser.
#[derive(Clone, Copy, Debug, PartialEq, Eq, Structural)]
pub enum Browser {
    Firefox,
    Chrome,
    Edge,
}

/// A browser name that is not supported.
#[derive(Clone, Copy, Debug, PartialEq, Eq, Structural)]
pub struct UnknownBrowser {}

impl UnknownBrowser {
    /// The message shown for the error.
    pub fn message(&self) -> (r: &'static str)
        ensures
            r@ == "unknown option"@,
    {
        "unknown option"
    }
}

/// What `str::to_lowercase` makes of a string.
pub uninterp spec fn lower_of(s: Seq<char>) -> Seq<char>;

/// Relies on `str::to_lowercase`: the lower-case form of the characters,
/// which depends on them alone.
#[verifier::external_body]
fn lowercase(s: &str) -> (r: String)
    ensures
        r@ == lower_of(s@),
{
    s.to_lowercase()
}

/// The browser an already lower-cased name denotes.
pub open spec fn browser_named(s: Seq<char>) -> Option<Browser> {
    if s == "firefox"@ {
        Some(Browser::Firefox)
    } else if s == "chrome"@ {
        Some(Browser::Chrome)
    } else if s == "edge"@ {
        Some(Browser::Edge)
    } else {
        None
    }
}

/// Reads an already lower-cased browser name.
pub fn browser_from_lower(s: &String) -> (r: Result<Browser, UnknownBrowser>)
    ensures
        r == (match browser_named(s@) {
            Some(b) => Ok::<Browser, UnknownBrowser>(b),
            None => Err(UnknownBrowser {  }),
        }),
{
    if *s == String::from_str("firefox") {
        Ok(Browser::Firefox)
    } else if *s == String::from_str("chrome") {
        Ok(Browser::Chrome)
    } else if *s == String::from_str("edge") {
        Ok(Browser::Edge)
    } else {
        Err(UnknownBrowser {  })
    }
}

impl Browser {
    /// Reads a browser name, in any case.
    pub fn from_str(s: &str) -> (r: Result<Browser, UnknownBrowser>)
        ensures
            r == (match browser_named(lower_of(s@)) {
                Some(b) => Ok::<Browser, UnknownBrowser>(b),
                None => Err(UnknownBrowser {  }),
            }),
    {
        let lower = lowercase(s);
        browser_from_lower(&lower)
    }
}

} // verus!
