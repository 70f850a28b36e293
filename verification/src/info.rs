//! Plain descriptions of connections, URLs, HTTP requests and finished
//! recordings, as events carry them to handlers.

use vstd::prelude::*;

verus! {

/// First value bound to `k` in an association list, front to back.
pub open spec fn first_match(s: Seq<(Seq<char>, Seq<char>)>, k: Seq<char>) -> Option<Seq<char>>
    decreases s.len(),
{
    if s.len() == 0 {
        None
    } else if s[0].0 == k {
        Some(s[0].1)
    } else {
        first_match(s.skip(1), k)
    }
}

/// Text pairs of a list of owned string pairs.
pub open spec fn pair_views(s: Seq<(String, String)>) -> Seq<(Seq<char>, Seq<char>)> {
    s.map_values(|p: (String, String)| (p.0@, p.1@))
}

/// Look `key` up in `pairs`; the empty string stands for a missing key.
fn assoc_lookup(pairs: &Vec<(String, String)>, key: &str) -> (r: String)
    ensures
        match first_match(pair_views(pairs@), key@) {
            Some(v) => r@ == v,
            None => r@ == Seq::<char>::empty(),
        },
{
    let k = key.to_owned();
    let ghost full = pair_views(pairs@);
    proof {
        assert(full.skip(0) =~= full);
    }
    let mut i: usize = 0;
    while i < pairs.len()
        invariant
            i <= pairs@.len(),
            k@ == key@,
            full == pair_views(pairs@),
            first_match(full, key@) == first_match(full.skip(i as int), key@),
        decreases pairs@.len() - i,
    {
        let ghost rest = full.skip(i as int);
        proof {
            assert(rest.len() > 0);
            assert(rest[0] == full[i as int]);
        }
        if pairs[i].0 == k {
            return pairs[i].1.clone();
        }
        proof {
            assert(rest.skip(1) =~= full.skip(i as int + 1));
        }
        i = i + 1;
    }
    proof {
        assert(full.skip(pairs@.len() as int).len() == 0);
    }
    String::new()
}

/// Addresses and ports of one network connection.
pub struct SockInfo {
    pub peer_ip: String,
    pub peer_port: u16,
    pub local_ip: String,
    pub local_port: u16,
}

impl SockInfo {
    /// A description holding exactly the given endpoints.
    pub fn new(peer_ip: &str, peer_port: u16, local_ip: &str, local_port: u16) -> (r: Self)
        ensures
            r.peer_ip@ == peer_ip@,
            r.peer_port == peer_port,
            r.local_ip@ == local_ip@,
            r.local_port == local_port,
    {
        SockInfo {
            peer_ip: peer_ip.to_owned(),
            peer_port,
            local_ip: local_ip.to_owned(),
            local_port,
        }
    }

    pub fn peer_ip(&self) -> (r: String)
        ensures
            r@ == self.peer_ip@,
    {
        self.peer_ip.clone()
    }

    pub fn peer_port(&self) -> (r: u16)
        ensures
            r == self.peer_port,
    {
        self.peer_port
    }

    pub fn local_ip(&self) -> (r: String)
        ensures
            r@ == self.local_ip@,
    {
        self.local_ip.clone()
    }

    pub fn local_port(&self) -> (r: u16)
        ensures
            r == self.local_port,
    {
        self.local_port
    }
}

/// The URL a connection resolved to, with its transport endpoint.
pub struct MediaInfo {
    pub schema: String,
    pub vhost: String,
    pub app: String,
    pub stream: String,
    pub host: String,
    pub port: u16,
    pub params: String,
}

impl MediaInfo {
    pub fn schema(&self) -> (r: String)
        ensures
            r@ == self.schema@,
    {
        self.schema.clone()
    }

    pub fn vhost(&self) -> (r: String)
        ensures
            r@ == self.vhost@,
    {
        self.vhost.clone()
    }

    pub fn app(&self) -> (r: String)
        ensures
            r@ == self.app@,
    {
        self.app.clone()
    }

    pub fn stream(&self) -> (r: String)
        ensures
            r@ == self.stream@,
    {
        self.stream.clone()
    }

    pub fn host(&self) -> (r: String)
        ensures
            r@ == self.host@,
    {
        self.host.clone()
    }

    pub fn port(&self) -> (r: u16)
        ensures
            r == self.port,
    {
        self.port
    }

    pub fn params(&self) -> (r: String)
        ensures
            r@ == self.params@,
    {
        self.params.clone()
    }
}

/// A parsed HTTP request: request line, split query parameters, headers
/// and body.
pub struct Parser {
    pub method: String,
    pub url: String,
    pub query_str: String,
    pub queries: Vec<(String, String)>,
    pub headers: Vec<(String, String)>,
    pub body: String,
}

impl Parser {
    pub fn method(&self) -> (r: String)
        ensures
            r@ == self.method@,
    {
        self.method.clone()
    }

    pub fn url(&self) -> (r: String)
        ensures
            r@ == self.url@,
    {
        self.url.clone()
    }

    pub fn query_str(&self) -> (r: String)
        ensures
            r@ == self.query_str@,
    {
        self.query_str.clone()
    }

    /// First query parameter named `key`; empty when there is none.
    pub fn query(&self, key: &str) -> (r: String)
        ensures
            match first_match(pair_views(self.queries@), key@) {
                Some(v) => r@ == v,
                None => r@ == Seq::<char>::empty(),
            },
    {
        assoc_lookup(&self.queries, key)
    }

    /// First header named `key`; empty when there is none.
    pub fn header(&self, key: &str) -> (r: String)
        ensures
            match first_match(pair_views(self.headers@), key@) {
                Some(v) => r@ == v,
                None => r@ == Seq::<char>::empty(),
            },
    {
        assoc_lookup(&self.headers, key)
    }

    pub fn body(&self) -> (r: String)
        ensures
            r@ == self.body@,
    {
        self.body.clone()
    }
}

/// Metadata of one finished recording segment.
pub struct RecordInfo {
    pub start_time: u64,
    pub duration_ms: u64,
    pub file_size: u64,
    pub file_name: String,
    pub file_path: String,
    pub folder: String,
    pub vhost: String,
    pub app: String,
    pub stream: String,
}

impl RecordInfo {
    pub fn start_time(&self) -> (r: u64)
        ensures
            r == self.start_time,
    {
        self.start_time
    }

    pub fn duration_ms(&self) -> (r: u64)
        ensures
            r == self.duration_ms,
    {
        self.duration_ms
    }

    pub fn file_size(&self) -> (r: u64)
        ensures
            r == self.file_size,
    {
        self.file_size
    }

    pub fn file_name(&self) -> (r: String)
        ensures
            r@ == self.file_name@,
    {
        self.file_name.clone()
    }

    pub fn file_path(&self) -> (r: String)
        ensures
            r@ == self.file_path@,
    {
        self.file_path.clone()
    }

    pub fn folder(&self) -> (r: String)
        ensures
            r@ == self.folder@,
    {
        self.folder.clone()
    }

    pub fn vhost(&self) -> (r: String)
        ensures
            r@ == self.vhost@,
    {
        self.vhost.clone()
    }

    pub fn app(&self) -> (r: String)
        ensures
            r@ == self.app@,
    {
        self.app.clone()
    }

    pub fn stream(&self) -> (r: String)
        ensures
            r@ == self.stream@,
    {
        self.stream.clone()
    }
}

} // verus!
