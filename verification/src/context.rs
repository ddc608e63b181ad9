use vstd::prelude::*;

verus! {

/// The address of the peer of a connection.
#[derive(Clone, Copy, Debug, PartialEq, Eq)]
pub enum PeerAddr {
    /// An IPv4 address and a port.
    V4 { octets: [u8; 4], port: u16 },
    /// An IPv6 address, a port, the flow information and the scope.
    V6 { segments: [u16; 8], port: u16, flowinfo: u32, scope_id: u32 },
}

/// A request's metadata before routing: the peer and the request head.
pub struct HttpContextInner {
    pub peer: PeerAddr,
    pub method: http::Method,
    pub uri: http::Uri,
    pub version: http::Version,
    pub headers: http::HeaderMap<http::HeaderValue>,
    pub extensions: http::Extensions,
}

/// A request's metadata after routing: what the pre-routing context held, and
/// the path parameters that the matched route captured.
pub struct HttpContext {
    pub peer: PeerAddr,
    pub method: http::Method,
    pub uri: http::Uri,
    pub version: http::Version,
    pub headers: http::HeaderMap<http::HeaderValue>,
    pub extensions: http::Extensions,
    pub params: Params,
}

/// The path parameters captured by a route, each a name and a value, in the
/// order of the pattern's placeholders. The strings are owned: they outlive
/// the lookup that produced them.
pub struct Params {
    entries: Vec<(String, String)>,
}

/// A list of names and values as pairs of character sequences.
pub open spec fn params_view(entries: Seq<(String, String)>) -> Seq<(Seq<char>, Seq<char>)> {
    Seq::new(entries.len(), |i: int| (entries[i].0@, entries[i].1@))
}

impl View for Params {
    type V = Seq<(Seq<char>, Seq<char>)>;

    closed spec fn view(&self) -> Seq<(Seq<char>, Seq<char>)> {
        params_view(self.entries@)
    }
}

impl Params {
    /// The parameters that `entries` lists.
    pub fn new(entries: Vec<(String, String)>) -> (params: Params)
        ensures
            params@ == params_view(entries@),
    {
        Params { entries }
    }

    /// The number of parameters.
    pub fn len(&self) -> (n: usize)
        ensures
            n == self@.len(),
    {
        self.entries.len()
    }

    /// Whether there is no parameter.
    pub fn is_empty(&self) -> (b: bool)
        ensures
            b == (self@.len() == 0),
    {
        self.entries.len() == 0
    }

    /// The name and the value of the parameter at `index`, if there are
    /// that many.
    pub fn entry(&self, index: usize) -> (pair: Option<(&str, &str)>)
        ensures
            match pair {
                Some((name, value)) => index < self@.len() && name@ == self@[index as int].0
                    && value@ == self@[index as int].1,
                None => index >= self@.len(),
            },
    {
        if index < self.entries.len() {
            let entry = &self.entries[index];
            Some((entry.0.as_str(), entry.1.as_str()))
        } else {
            None
        }
    }

    /// The value of the first parameter named `name`, if there is one.
    pub fn get(&self, name: &str) -> (value: Option<&str>)
        ensures
            match value {
                Some(v) => exists|i: int|
                    0 <= i < self@.len() && (#[trigger] self@[i]).0 == name@ && self@[i].1 == v@
                        && forall|j: int| 0 <= j < i ==> (#[trigger] self@[j]).0 != name@,
                None => forall|j: int| 0 <= j < self@.len() ==> (#[trigger] self@[j]).0 != name@,
            },
    {
        let wanted = name.to_owned();
        let mut i: usize = 0;
        while i < self.entries.len()
            invariant
                i <= self.entries@.len(),
                wanted@ == name@,
                forall|j: int| 0 <= j < i ==> (#[trigger] self@[j]).0 != name@,
            decreases self.entries@.len() - i,
        {
            if self.entries[i].0 == wanted {
                assert(self@[i as int].0 == name@);
                return Some(self.entries[i].1.as_str());
            }
            i += 1;
        }
        None
    }
}

} // verus!
