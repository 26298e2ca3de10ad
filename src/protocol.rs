use vstd::prelude::*;

verus! {

/// How a connection to the database is made.
#[derive(Debug, PartialEq, Eq, Structural, Clone, Copy)]
pub enum ConnectProtocol {
    WS,
    HTTP,
}

/// What `str::to_uppercase` gives for a string.
pub uninterp spec fn upper_of(s: Seq<char>) -> Seq<char>;

/// Relies on str::to_uppercase: the result depends on the characters alone.
#[verifier::external_body]
fn uppercase(s: &str) -> (r: String)
    ensures
        r@ == upper_of(s@),
{
    s.to_uppercase()
}

/// The protocol that an upper-case name stands for.
pub open spec fn protocol_named(upper: Seq<char>) -> Option<ConnectProtocol> {
    if upper == "WS"@ {
        Some(ConnectProtocol::WS)
    } else if upper == "HTTP"@ {
        Some(ConnectProtocol::HTTP)
    } else {
        None
    }
}

pub open spec fn invalid_protocol_text(name: Seq<char>) -> Seq<char> {
    "Invalid protocol: "@ + name
}

/// Where the first ':' of `s` stands, if it has one.
pub open spec fn first_colon(s: Seq<char>) -> Option<int> {
    if exists|i: int| 0 <= i < s.len() && s[i] == ':' {
        Some(choose|i: int| 0 <= i < s.len() && s[i] == ':' && forall|j: int| 0 <= j < i ==> s[j] != ':')
    } else {
        None
    }
}

/// A url `scheme://address` split into its scheme and its address: the
/// scheme ends at the first ':', which must be followed by "//".
pub open spec fn url_parts(s: Seq<char>) -> Option<(Seq<char>, Seq<char>)> {
    match first_colon(s) {
        Some(i) => if i + 3 <= s.len() && s[i + 1] == '/' && s[i + 2] == '/' {
            Some((s.subrange(0, i), s.subrange(i + 3, s.len() as int)))
        } else {
            None
        },
        None => None,
    }
}

/// Splits a url into its scheme and its address.
pub fn split_url(url: &String) -> (r: Option<(String, String)>)
    ensures
        match url_parts(url@) {
            Some((scheme, address)) => r is Some && r->Some_0.0@ == scheme && r->Some_0.1@ == address,
            None => r is None,
        },
{
    let s = url.as_str();
    let n = s.unicode_len();
    let mut i: usize = 0;
    while i < n
        invariant
            n == s@.len(),
            s@ == url@,
            i <= n,
            forall|j: int| 0 <= j < i ==> s@[j] != ':',
        decreases n - i,
    {
        if s.get_char(i) == ':' {
            proof {
                assert(0 <= i < s@.len() && s@[i as int] == ':' && forall|j: int| 0 <= j < i ==> s@[j] != ':');
                assert(exists|k: int| 0 <= k < s@.len() && s@[k] == ':');
                assert(exists|k: int|
                    0 <= k < s@.len() && s@[k] == ':' && forall|j: int| 0 <= j < k ==> s@[j] != ':');
                let k = first_colon(s@)->Some_0;
                assert(k == i as int) by {
                    if k > i {
                        assert(s@[i as int] == ':');
                    }
                }
            }
            if n - i >= 3 && s.get_char(i + 1) == '/' && s.get_char(i + 2) == '/' {
                return Some((s.substring_char(0, i).to_owned(), s.substring_char(i + 3, n).to_owned()));
            }
            return None;
        }
        i = i + 1;
    }
    None
}

impl ConnectProtocol {
    /// Reads a protocol from its name, whatever its case: "ws" or "http".
    pub fn from_string(protocol_type: String) -> (r: Result<Self, String>)
        ensures
            match protocol_named(upper_of(protocol_type@)) {
                Some(p) => r == Ok::<ConnectProtocol, String>(p),
                None => r is Err && r->Err_0@ == invalid_protocol_text(protocol_type@),
            },
    {
        let upper = uppercase(protocol_type.as_str());
        Self::from_uppercased(&upper, &protocol_type)
    }

    /// Reads a protocol from the upper-cased form `upper` of the name `name`.
    pub fn from_uppercased(upper: &String, name: &String) -> (r: Result<Self, String>)
        ensures
            match protocol_named(upper@) {
                Some(p) => r == Ok::<ConnectProtocol, String>(p),
                None => r is Err && r->Err_0@ == invalid_protocol_text(name@),
            },
    {
        let ws = "WS".to_owned();
        let http = "HTTP".to_owned();
        if *upper == ws {
            Ok(ConnectProtocol::WS)
        } else if *upper == http {
            Ok(ConnectProtocol::HTTP)
        } else {
            Err("Invalid protocol: ".to_owned().concat(name.as_str()))
        }
    }
}

} // verus!
