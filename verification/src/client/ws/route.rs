//! Topics: `protocol|path` or `protocol|path:parameter`.
//!
//! A topic names the subject of a message. The text before the first `|` is the
//! protocol, the text after it is the path, and a `:` inside that remainder
//! separates the path from a trailing parameter such as `ok` or `error`.

use crate::error::WsError;
use crate::text::{find_char, first_index, lemma_first_index, lemma_first_index_unique};
use vstd::prelude::*;

verus! {

/// The character that ends the protocol.
pub const PROTOCOL_DELIMITER: char = '|';

/// The character that starts the parameter.
pub const PARAMETER_DELIMITER: char = ':';

/// A parsed topic.
#[derive(Debug, Clone, PartialEq, Eq, Hash)]
pub struct Route {
    pub protocol: String,
    pub path: String,
    pub parameter: Option<String>,
}

/// The mathematical content of a `Route`.
pub struct RouteView {
    pub protocol: Seq<char>,
    pub path: Seq<char>,
    pub parameter: Option<Seq<char>>,
}

impl View for Route {
    type V = RouteView;

    open spec fn view(&self) -> RouteView {
        RouteView {
            protocol: self.protocol@,
            path: self.path@,
            parameter: match self.parameter {
                Some(p) => Some(p@),
                None => None,
            },
        }
    }
}

impl RouteView {
    /// The path followed, where there is a parameter, by `:` and the parameter.
    pub open spec fn full_path(self) -> Seq<char> {
        match self.parameter {
            Some(p) => self.path + seq![PARAMETER_DELIMITER] + p,
            None => self.path,
        }
    }

    /// The topic text of the route: protocol, `|`, full path.
    pub open spec fn render(self) -> Seq<char> {
        self.protocol + seq![PROTOCOL_DELIMITER] + self.full_path()
    }

    /// A route as parsing produces it: the protocol holds no `|`, the path no `:`.
    pub open spec fn canonical(self) -> bool {
        &&& !self.protocol.contains(PROTOCOL_DELIMITER)
        &&& !self.path.contains(PARAMETER_DELIMITER)
    }
}

/// What parsing makes of a topic: nothing without a `|`; otherwise the text
/// before the first `|`, and the rest split at its first `:` if it has one.
pub open spec fn parse_topic(topic: Seq<char>) -> Option<RouteView> {
    if !topic.contains(PROTOCOL_DELIMITER) {
        None
    } else {
        let bar = first_index(topic, PROTOCOL_DELIMITER);
        let rest = topic.skip(bar + 1);
        let colon = first_index(rest, PARAMETER_DELIMITER);
        Some(
            RouteView {
                protocol: topic.take(bar),
                path: rest.take(colon),
                parameter: if rest.contains(PARAMETER_DELIMITER) {
                    Some(rest.skip(colon + 1))
                } else {
                    None
                },
            },
        )
    }
}

/// Parsing a topic yields a canonical route whose text is the topic again.
pub proof fn lemma_parse_topic_renders_back(topic: Seq<char>)
    requires
        topic.contains(PROTOCOL_DELIMITER),
    ensures
        parse_topic(topic) matches Some(r) && r.canonical() && r.render() == topic,
{
    lemma_first_index(topic, PROTOCOL_DELIMITER);
    let bar = first_index(topic, PROTOCOL_DELIMITER);
    let rest = topic.skip(bar + 1);
    lemma_first_index(rest, PARAMETER_DELIMITER);
    let colon = first_index(rest, PARAMETER_DELIMITER);
    let r = parse_topic(topic)->0;
    assert(!r.protocol.contains(PROTOCOL_DELIMITER)) by {
        if r.protocol.contains(PROTOCOL_DELIMITER) {
            let k = choose|k: int| 0 <= k < r.protocol.len() && r.protocol[k] == PROTOCOL_DELIMITER;
            assert(topic[k] == PROTOCOL_DELIMITER);
        }
    }
    assert(!r.path.contains(PARAMETER_DELIMITER)) by {
        if r.path.contains(PARAMETER_DELIMITER) {
            let k = choose|k: int| 0 <= k < r.path.len() && r.path[k] == PARAMETER_DELIMITER;
            assert(rest[k] == PARAMETER_DELIMITER);
        }
    }
    assert(r.full_path() =~= rest);
    assert(r.render() =~= topic);
}

/// The text of a canonical route parses to that route.
pub proof fn lemma_render_parses_back(r: RouteView)
    requires
        r.canonical(),
    ensures
        parse_topic(r.render()) == Some(r),
{
    let topic = r.render();
    let bar = r.protocol.len() as int;
    assert(topic[bar] == PROTOCOL_DELIMITER);
    assert forall|j: int| 0 <= j < bar implies topic[j] != PROTOCOL_DELIMITER by {
        assert(topic[j] == r.protocol[j]);
    }
    lemma_first_index_unique(topic, PROTOCOL_DELIMITER, bar);
    lemma_first_index(topic, PROTOCOL_DELIMITER);
    let rest = topic.skip(bar + 1);
    assert(rest =~= r.full_path());
    assert(topic.take(bar) =~= r.protocol);
    let colon = r.path.len() as int;
    assert forall|j: int| 0 <= j < colon implies rest[j] != PARAMETER_DELIMITER by {
        assert(rest[j] == r.path[j]);
    }
    match r.parameter {
        Some(p) => {
            assert(rest[colon] == PARAMETER_DELIMITER);
            lemma_first_index_unique(rest, PARAMETER_DELIMITER, colon);
            lemma_first_index(rest, PARAMETER_DELIMITER);
            assert(rest.take(colon) =~= r.path);
            assert(rest.skip(colon + 1) =~= p);
        },
        None => {
            lemma_first_index_unique(rest, PARAMETER_DELIMITER, colon);
            lemma_first_index(rest, PARAMETER_DELIMITER);
            assert(rest.take(colon) =~= r.path);
        },
    }
}

/// Round-trip stability: rendering what a topic parses to, and parsing that
/// text, gives the same route as parsing the topic.
pub proof fn lemma_parse_round_trip(topic: Seq<char>)
    requires
        topic.contains(PROTOCOL_DELIMITER),
    ensures
        parse_topic(topic) is Some,
        parse_topic(parse_topic(topic)->0.render()) == parse_topic(topic),
{
    lemma_parse_topic_renders_back(topic);
}

/// A topic without a `|` never parses, whatever else it holds.
pub proof fn lemma_parse_needs_delimiter(topic: Seq<char>)
    ensures
        parse_topic(topic) is None <==> !topic.contains(PROTOCOL_DELIMITER),
{
}

impl Route {
    /// Parses a topic. Fails with `InvalidPath`, carrying the topic, exactly
    /// when the topic holds no `|`.
    pub fn parse(route_str: &str) -> (result: Result<Route, WsError>)
        ensures
            match result {
                Ok(route) => parse_topic(route_str@) == Some(route@),
                Err(WsError::InvalidPath(topic)) => parse_topic(route_str@) is None && topic@
                    == route_str@,
                Err(_) => false,
            },
    {
        let n = route_str.unicode_len();
        match find_char(route_str, PROTOCOL_DELIMITER) {
            Some(bar) => {
                let protocol = route_str.substring_char(0, bar);
                let rest = route_str.substring_char(bar + 1, n);
                assert(rest@ == route_str@.skip(bar + 1));
                assert(protocol@ == route_str@.take(bar as int));
                let m = rest.unicode_len();
                match find_char(rest, PARAMETER_DELIMITER) {
                    Some(colon) => {
                        let path = rest.substring_char(0, colon);
                        let parameter = rest.substring_char(colon + 1, m);
                        assert(path@ == rest@.take(colon as int));
                        assert(parameter@ == rest@.skip(colon + 1));
                        Ok(
                            Route {
                                protocol: protocol.to_owned(),
                                path: path.to_owned(),
                                parameter: Some(parameter.to_owned()),
                            },
                        )
                    },
                    None => {
                        proof {
                            lemma_first_index(rest@, PARAMETER_DELIMITER);
                            assert(rest@.take(rest@.len() as int) == rest@);
                        }
                        Ok(
                            Route {
                                protocol: protocol.to_owned(),
                                path: rest.to_owned(),
                                parameter: None,
                            },
                        )
                    },
                }
            },
            None => Err(WsError::InvalidPath(route_str.to_owned())),
        }
    }

    /// The topic text: `protocol|path`, or `protocol|path:parameter`.
    pub fn to_string(&self) -> (text: String)
        ensures
            text@ == self@.render(),
    {
        proof {
            reveal_strlit("|");
        }
        let mut text = self.protocol.clone();
        text.append("|");
        assert("|"@ == seq![PROTOCOL_DELIMITER]);
        let full = self.full_path();
        text.append(full.as_str());
        text
    }

    /// The path, without protocol and parameter.
    pub fn path(&self) -> (path: &str)
        ensures
            path@ == self@.path,
    {
        self.path.as_str()
    }

    /// The path without the parameter: the key under which a handler for every
    /// parameter is registered.
    pub fn base_path(&self) -> (path: &str)
        ensures
            path@ == self@.path,
    {
        self.path.as_str()
    }

    /// The path with the parameter: the key under which a handler for exactly
    /// this parameter is registered.
    pub fn full_path(&self) -> (path: String)
        ensures
            path@ == self@.full_path(),
    {
        match &self.parameter {
            Some(parameter) => {
                proof {
                    reveal_strlit(":");
                }
                let mut path = self.path.clone();
                path.append(":");
                assert(":"@ == seq![PARAMETER_DELIMITER]);
                path.append(parameter.as_str());
                path
            },
            None => self.path.clone(),
        }
    }
}

} // verus!
