use vstd::prelude::*;

use crate::cli::HttpAction;
use crate::text::{split_first, split_once, trim, trimmed};

verus! {

/// The header that a raw `Name: value` line gives: the text before the
/// first colon and the text after it, each trimmed; none without a colon.
pub open spec fn header_of(line: Seq<char>) -> Option<(Seq<char>, Seq<char>)> {
    match split_first(line, seq![':']) {
        Some((name, value)) => Some((trimmed(name), trimmed(value))),
        None => None,
    }
}

/// The headers that the lines give, by name; of two lines with one name
/// the later one counts.
pub open spec fn header_map(lines: Seq<Seq<char>>) -> Map<Seq<char>, Seq<char>>
    decreases lines.len(),
{
    if lines.len() == 0 {
        Map::empty()
    } else {
        let earlier = header_map(lines.drop_last());
        match header_of(lines.last()) {
            Some((name, value)) => earlier.insert(name, value),
            None => earlier,
        }
    }
}

/// The names of a list of headers, in order.
pub open spec fn header_names(headers: Seq<(String, String)>) -> Seq<Seq<char>> {
    headers.map_values(|h: (String, String)| h.0@)
}

/// Whether `headers` lists exactly the entries of `map`, each name once.
pub open spec fn lists_map(headers: Seq<(String, String)>, map: Map<Seq<char>, Seq<char>>) -> bool {
    &&& header_names(headers).no_duplicates()
    &&& forall|i: int|
        0 <= i < headers.len() ==> map.contains_key((#[trigger] headers[i]).0@) && map[headers[i].0@]
            == headers[i].1@
    &&& forall|name: Seq<char>| #[trigger] map.contains_key(name) ==> header_names(headers).contains(name)
}

/// Turns raw `Name: value` lines into headers: name and value are the text
/// around the first colon, trimmed; a line without a colon is skipped; of
/// two lines with one name the later value is kept, at the place of the
/// first.
pub fn parse_headers(raw: Vec<String>) -> (r: Vec<(String, String)>)
    ensures
        lists_map(r@, header_map(raw@.map_values(|s: String| s@))),
{
    let ghost lines = raw@.map_values(|s: String| s@);
    let mut out: Vec<(String, String)> = Vec::new();
    let mut i: usize = 0;
    assert(lines.take(0) =~= Seq::<Seq<char>>::empty());
    while i < raw.len()
        invariant
            i <= raw@.len(),
            lines == raw@.map_values(|s: String| s@),
            lists_map(out@, header_map(lines.take(i as int))),
        decreases raw@.len() - i,
    {
        let line = raw[i].as_str();
        proof {
            reveal_strlit(":");
            assert(":"@ =~= seq![':']);
        }
        assert(lines.take(i + 1).drop_last() =~= lines.take(i as int));
        assert(lines.take(i + 1).last() == line@);
        match split_once(line, ":") {
            Some((name, value)) => {
                let name = trim(name).to_owned();
                let value = trim(value).to_owned();
                put_header(&mut out, name, value, Ghost(header_map(lines.take(i as int))));
            },
            None => {},
        }
        i += 1;
    }
    assert(lines.take(raw@.len() as int) =~= lines);
    out
}

/// Sets `name` to `value` in a list of headers that lists `map`.
fn put_header(
    headers: &mut Vec<(String, String)>,
    name: String,
    value: String,
    Ghost(map): Ghost<Map<Seq<char>, Seq<char>>>,
)
    requires
        lists_map(old(headers)@, map),
    ensures
        lists_map(final(headers)@, map.insert(name@, value@)),
{
    let mut i: usize = 0;
    while i < headers.len()
        invariant
            i <= headers@.len(),
            headers@ == old(headers)@,
            lists_map(headers@, map),
            forall|j: int| 0 <= j < i ==> headers@[j].0@ != name@,
        decreases headers@.len() - i,
    {
        if headers[i].0 == name {
            let ghost before = headers@;
            headers.set(i, (name, value));
            proof {
                assert(header_names(headers@) =~= header_names(before));
                assert forall|j: int| 0 <= j < headers@.len() implies map.insert(name@, value@).contains_key(
                    (#[trigger] headers@[j]).0@,
                ) && map.insert(name@, value@)[headers@[j].0@] == headers@[j].1@ by {
                    if j != i {
                        assert(header_names(before)[j] != header_names(before)[i as int]);
                    }
                }
                assert forall|n: Seq<char>| #[trigger]
                    map.insert(name@, value@).contains_key(n) implies header_names(headers@).contains(n) by {
                    if n != name@ {
                        assert(map.contains_key(n));
                        assert(header_names(before).contains(n));
                    } else {
                        assert(header_names(headers@)[i as int] == n);
                    }
                }
            }
            return;
        }
        i += 1;
    }
    let ghost before = headers@;
    headers.push((name, value));
    proof {
        assert(header_names(headers@) =~= header_names(before).push(name@));
        assert forall|n: Seq<char>| #[trigger]
            map.insert(name@, value@).contains_key(n) implies header_names(headers@).contains(n) by {
            if n != name@ {
                let k = header_names(before).index_of(n);
                assert(header_names(headers@)[k] == n);
            } else {
                assert(header_names(headers@)[before.len() as int] == n);
            }
        }
    }
}

/// The request methods the `http` command can send.
#[derive(Debug, Clone, Copy, PartialEq, Eq, Structural)]
pub enum HttpMethod {
    Get,
    Post,
    Put,
    Patch,
    Delete,
    Head,
    Options,
}

/// One request, ready to send: the body, where there is one, goes out as a
/// JSON string.
#[derive(Debug, PartialEq, Eq)]
pub struct HttpRequest {
    pub method: HttpMethod,
    pub url: String,
    pub body: Option<String>,
    pub headers: Vec<(String, String)>,
}

/// The method that an action sends.
pub open spec fn method_of(action: HttpAction) -> HttpMethod {
    match action {
        HttpAction::Get { .. } => HttpMethod::Get,
        HttpAction::Post { .. } => HttpMethod::Post,
        HttpAction::Put { .. } => HttpMethod::Put,
        HttpAction::Patch { .. } => HttpMethod::Patch,
        HttpAction::Delete { .. } => HttpMethod::Delete,
        HttpAction::Head { .. } => HttpMethod::Head,
        HttpAction::Options { .. } => HttpMethod::Options,
    }
}

/// The URL that an action addresses.
pub open spec fn url_of(action: HttpAction) -> String {
    match action {
        HttpAction::Get { url, .. } => url,
        HttpAction::Post { url, .. } => url,
        HttpAction::Put { url, .. } => url,
        HttpAction::Patch { url, .. } => url,
        HttpAction::Delete { url, .. } => url,
        HttpAction::Head { url, .. } => url,
        HttpAction::Options { url, .. } => url,
    }
}

/// The body that an action sends: only `POST`, `PUT` and `PATCH` have one.
pub open spec fn body_of(action: HttpAction) -> Option<String> {
    match action {
        HttpAction::Post { body, .. } => body,
        HttpAction::Put { body, .. } => body,
        HttpAction::Patch { body, .. } => body,
        _ => None,
    }
}

/// The raw header lines of an action.
pub open spec fn header_lines_of(action: HttpAction) -> Seq<String> {
    match action {
        HttpAction::Get { headers, .. } => headers@,
        HttpAction::Post { headers, .. } => headers@,
        HttpAction::Put { headers, .. } => headers@,
        HttpAction::Patch { headers, .. } => headers@,
        HttpAction::Delete { headers, .. } => headers@,
        HttpAction::Head { headers, .. } => headers@,
        HttpAction::Options { headers, .. } => headers@,
    }
}

/// The request that an `http` action sends: its method and URL, its body,
/// and the headers that its raw lines give.
pub fn http_request(action: HttpAction) -> (r: HttpRequest)
    ensures
        r.method == method_of(action),
        r.url == url_of(action),
        r.body == body_of(action),
        lists_map(r.headers@, header_map(header_lines_of(action).map_values(|s: String| s@))),
{
    match action {
        HttpAction::Get { url, headers } => {
            HttpRequest { method: HttpMethod::Get, url, body: None, headers: parse_headers(headers) }
        },
        HttpAction::Post { url, body, headers } => {
            HttpRequest { method: HttpMethod::Post, url, body, headers: parse_headers(headers) }
        },
        HttpAction::Put { url, body, headers } => {
            HttpRequest { method: HttpMethod::Put, url, body, headers: parse_headers(headers) }
        },
        HttpAction::Patch { url, body, headers } => {
            HttpRequest { method: HttpMethod::Patch, url, body, headers: parse_headers(headers) }
        },
        HttpAction::Delete { url, headers } => {
            HttpRequest { method: HttpMethod::Delete, url, body: None, headers: parse_headers(headers) }
        },
        HttpAction::Head { url, headers } => {
            HttpRequest { method: HttpMethod::Head, url, body: None, headers: parse_headers(headers) }
        },
        HttpAction::Options { url, headers } => {
            HttpRequest { method: HttpMethod::Options, url, body: None, headers: parse_headers(headers) }
        },
    }
}

} // verus!
