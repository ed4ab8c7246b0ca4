//! Routing rules and canned responses, and the resolution of a request to the
//! response it receives.
use vstd::prelude::*;
use vstd::string::*;
use crate::headers::Headers;
use crate::text::{decimal_string, decimal_text, eq_ignore_ascii_case, eq_ignoring_ascii_case, same_text};

verus! {

/// What a canned response consists of.
pub ghost struct ResponseSpec {
    pub status: int,
    pub headers: Map<Seq<char>, Seq<char>>,
    pub body: Seq<char>,
}

/// A rule: a path, an optional method, and the response for requests that match.
pub ghost struct RouteRule {
    pub path: Seq<char>,
    pub method: Option<Seq<char>>,
    pub response: ResponseSpec,
}

/// A whole configuration: where to listen, the fallback response, the rules in order.
pub ghost struct ConfigSpec {
    pub port: int,
    pub host: Seq<char>,
    pub response: ResponseSpec,
    pub routes: Seq<RouteRule>,
}

/// A canned response.
#[derive(Debug)]
pub struct ResponseConfig {
    pub status: u16,
    pub headers: Headers,
    pub body: String,
}

/// A routing rule.
#[derive(Debug)]
pub struct RouteConfig {
    pub path: String,
    pub method: Option<String>,
    pub response: ResponseConfig,
}

/// The configuration of the inspector.
#[derive(Debug)]
pub struct Config {
    pub port: u16,
    pub host: String,
    pub response: ResponseConfig,
    pub routes: Vec<RouteConfig>,
}

/// The response given where nothing else is configured: status 200, a JSON
/// content type, and a short JSON acknowledgement.
pub open spec fn default_response() -> ResponseSpec {
    ResponseSpec {
        status: 200,
        headers: map!["Content-Type"@ => "application/json"@],
        body: "{\"status\": \"ok\"}"@,
    }
}

/// The rule of the built-in configuration: `GET /health` reports good health.
pub open spec fn health_rule() -> RouteRule {
    RouteRule {
        path: "/health"@,
        method: Some("GET"@),
        response: ResponseSpec {
            status: 200,
            headers: Map::empty(),
            body: "{\"healthy\": true}"@,
        },
    }
}

/// The built-in configuration, used where no configuration document is found.
pub open spec fn default_config() -> ConfigSpec {
    ConfigSpec {
        port: 9080,
        host: "127.0.0.1"@,
        response: default_response(),
        routes: seq![health_rule()],
    }
}

/// A rule matches a request when the paths are the same text and the rule
/// either names no method or names the request's method, letter case aside.
pub open spec fn rule_matches(rule: RouteRule, method: Seq<char>, path: Seq<char>) -> bool {
    &&& rule.path == path
    &&& match rule.method {
        Some(m) => eq_ignoring_ascii_case(m, method),
        None => true,
    }
}

/// Position of the first rule at or after `start` that matches the request.
pub open spec fn first_match_from(
    rules: Seq<RouteRule>,
    method: Seq<char>,
    path: Seq<char>,
    start: int,
) -> Option<int>
    decreases rules.len() - start,
{
    if start < 0 || start >= rules.len() {
        None
    } else if rule_matches(rules[start], method, path) {
        Some(start)
    } else {
        first_match_from(rules, method, path, start + 1)
    }
}

/// Position of the first rule, in declaration order, that matches the request.
pub open spec fn first_match(rules: Seq<RouteRule>, method: Seq<char>, path: Seq<char>) -> Option<
    int,
> {
    first_match_from(rules, method, path, 0)
}

/// The response a request receives: that of the first matching rule, and the
/// fallback response where no rule matches.
pub open spec fn resolve(config: ConfigSpec, method: Seq<char>, path: Seq<char>) -> ResponseSpec {
    match first_match(config.routes, method, path) {
        Some(i) => config.routes[i].response,
        None => config.response,
    }
}

/// The first position among candidates that holds a configuration.
pub open spec fn first_loaded_from(candidates: Seq<Option<Config>>, start: int) -> Option<int>
    decreases candidates.len() - start,
{
    if start < 0 || start >= candidates.len() {
        None
    } else if candidates[start] is Some {
        Some(start)
    } else {
        first_loaded_from(candidates, start + 1)
    }
}

/// What `first_match_from` finds is a matching rule at or after `start` with
/// no matching rule between `start` and it; it finds nothing only where no rule
/// at or after `start` matches.
pub proof fn lemma_first_match_from(
    rules: Seq<RouteRule>,
    method: Seq<char>,
    path: Seq<char>,
    start: int,
)
    requires
        0 <= start,
    ensures
        match first_match_from(rules, method, path, start) {
            Some(i) => {
                &&& start <= i < rules.len()
                &&& rule_matches(rules[i], method, path)
                &&& forall|j: int| start <= j < i ==> !rule_matches(#[trigger] rules[j], method, path)
            },
            None => forall|j: int|
                start <= j < rules.len() ==> !rule_matches(#[trigger] rules[j], method, path),
        },
    decreases rules.len() - start,
{
    if start < rules.len() && !rule_matches(rules[start], method, path) {
        lemma_first_match_from(rules, method, path, start + 1);
    }
}

/// First match wins: the rule chosen for a request matches it and no earlier
/// rule does; no rule is chosen only where none matches.
pub proof fn lemma_first_match(rules: Seq<RouteRule>, method: Seq<char>, path: Seq<char>)
    ensures
        match first_match(rules, method, path) {
            Some(i) => {
                &&& 0 <= i < rules.len()
                &&& rule_matches(rules[i], method, path)
                &&& forall|j: int| 0 <= j < i ==> !rule_matches(#[trigger] rules[j], method, path)
            },
            None => forall|j: int|
                0 <= j < rules.len() ==> !rule_matches(#[trigger] rules[j], method, path),
        },
{
    lemma_first_match_from(rules, method, path, 0);
}

/// Resolution never fails and never invents a response: the result is the
/// response of one of the rules or the fallback response, and with no rules at
/// all it is the fallback response.
pub proof fn lemma_resolve_total(config: ConfigSpec, method: Seq<char>, path: Seq<char>)
    ensures
        resolve(config, method, path) == config.response || exists|i: int|
            0 <= i < config.routes.len() && rule_matches(#[trigger] config.routes[i], method, path)
                && resolve(config, method, path) == config.routes[i].response,
        config.routes.len() == 0 ==> resolve(config, method, path) == config.response,
{
    lemma_first_match(config.routes, method, path);
}

/// Status code used where a response configures none.
pub fn default_status() -> (status: u16)
    ensures
        status == 200,
{
    200
}

/// Body used where a response configures none.
pub fn default_body() -> (body: String)
    ensures
        body@ == default_response().body,
{
    String::from_str("{\"status\": \"ok\"}")
}

/// Port used where the configuration names none.
pub fn default_port() -> (port: u16)
    ensures
        port == 9080,
{
    9080
}

/// Host used where the configuration names none.
pub fn default_host() -> (host: String)
    ensures
        host@ == default_config().host,
{
    String::from_str("127.0.0.1")
}

impl View for ResponseConfig {
    type V = ResponseSpec;

    open spec fn view(&self) -> ResponseSpec {
        ResponseSpec { status: self.status as int, headers: self.headers@, body: self.body@ }
    }
}

impl Clone for ResponseConfig {
    fn clone(&self) -> (copy: ResponseConfig)
        ensures
            copy@ == self@,
            copy.headers.pairs() == self.headers.pairs(),
    {
        ResponseConfig {
            status: self.status,
            headers: self.headers.clone(),
            body: self.body.clone(),
        }
    }
}

impl Default for ResponseConfig {
    fn default() -> (response: ResponseConfig)
        ensures
            response@ == default_response(),
    {
        let mut headers = Headers::new();
        headers.insert(String::from_str("Content-Type"), String::from_str("application/json"));
        let response = ResponseConfig { status: 200, headers, body: default_body() };
        assert(response@.headers =~= default_response().headers);
        response
    }
}

impl View for RouteConfig {
    type V = RouteRule;

    open spec fn view(&self) -> RouteRule {
        RouteRule {
            path: self.path@,
            method: match self.method {
                Some(m) => Some(m@),
                None => None,
            },
            response: self.response@,
        }
    }
}

impl RouteConfig {
    /// Whether this rule applies to a request with the given method and path.
    pub fn matches(&self, method: &str, path: &str) -> (applies: bool)
        ensures
            applies == rule_matches(self@, method@, path@),
    {
        if !same_text(self.path.as_str(), path) {
            return false;
        }
        match &self.method {
            Some(m) => eq_ignore_ascii_case(m.as_str(), method),
            None => true,
        }
    }
}

impl Clone for RouteConfig {
    fn clone(&self) -> (copy: RouteConfig)
        ensures
            copy@ == self@,
    {
        RouteConfig {
            path: self.path.clone(),
            method: match &self.method {
                Some(m) => Some(m.clone()),
                None => None,
            },
            response: self.response.clone(),
        }
    }
}

impl View for Config {
    type V = ConfigSpec;

    open spec fn view(&self) -> ConfigSpec {
        ConfigSpec {
            port: self.port as int,
            host: self.host@,
            response: self.response@,
            routes: Seq::new(self.routes@.len(), |i: int| self.routes@[i]@),
        }
    }
}

impl Default for Config {
    fn default() -> (config: Config)
        ensures
            config@ == default_config(),
    {
        let health = RouteConfig {
            path: String::from_str("/health"),
            method: Some(String::from_str("GET")),
            response: ResponseConfig {
                status: 200,
                headers: Headers::new(),
                body: String::from_str("{\"healthy\": true}"),
            },
        };
        let mut routes: Vec<RouteConfig> = Vec::new();
        routes.push(health);
        let config = Config {
            port: default_port(),
            host: default_host(),
            response: ResponseConfig::default(),
            routes,
        };
        assert(config@.routes =~= default_config().routes);
        config
    }
}

impl Clone for Config {
    fn clone(&self) -> (copy: Config)
        ensures
            copy@ == self@,
    {
        let mut routes: Vec<RouteConfig> = Vec::new();
        let mut i: usize = 0;
        while i < self.routes.len()
            invariant
                i <= self.routes.len(),
                routes@.len() == i,
                forall|k: int| 0 <= k < i ==> (#[trigger] routes@[k])@ == self.routes@[k]@,
            decreases self.routes.len() - i,
        {
            routes.push(self.routes[i].clone());
            i += 1;
        }
        let copy = Config {
            port: self.port,
            host: self.host.clone(),
            response: self.response.clone(),
            routes,
        };
        assert(copy@.routes =~= self@.routes);
        copy
    }
}

impl Config {
    /// Chooses the configuration to run with: the first candidate that was
    /// found and understood, and the built-in configuration where there is none.
    pub fn load(candidates: Vec<Option<Config>>) -> (config: Config)
        ensures
            match first_loaded_from(candidates@, 0) {
                Some(i) => 0 <= i < candidates@.len() && Some(config) == candidates@[i],
                None => config@ == default_config(),
            },
    {
        let mut pending = candidates;
        let mut i: usize = 0;
        while i < pending.len()
            invariant
                i <= pending.len(),
                pending@ == candidates@,
                first_loaded_from(candidates@, 0) == first_loaded_from(candidates@, i as int),
            decreases pending.len() - i,
        {
            if pending[i].is_some() {
                assert(first_loaded_from(candidates@, i as int) == Some(i as int));
                let chosen = pending.remove(i);
                return chosen.unwrap();
            }
            i += 1;
        }
        Config::default()
    }

    /// Position of the first rule that matches the request.
    pub fn find_route_index(&self, method: &str, path: &str) -> (found: Option<usize>)
        ensures
            match found {
                Some(i) => first_match(self@.routes, method@, path@) == Some(i as int),
                None => first_match(self@.routes, method@, path@) is None,
            },
    {
        let mut i: usize = 0;
        while i < self.routes.len()
            invariant
                i <= self.routes.len(),
                self@.routes.len() == self.routes.len(),
                first_match(self@.routes, method@, path@) == first_match_from(
                    self@.routes,
                    method@,
                    path@,
                    i as int,
                ),
            decreases self.routes.len() - i,
        {
            if self.routes[i].matches(method, path) {
                return Some(i);
            }
            i += 1;
        }
        None
    }

    /// The first rule, in declaration order, whose path is exactly the
    /// request's and whose method, if it names one, is the request's up to
    /// letter case.
    pub fn find_route(&self, method: &str, path: &str) -> (found: Option<&RouteConfig>)
        ensures
            match first_match(self@.routes, method@, path@) {
                Some(i) => 0 <= i < self.routes@.len() && found == Some(&self.routes@[i]),
                None => found is None,
            },
    {
        proof {
            lemma_first_match(self@.routes, method@, path@);
        }
        match self.find_route_index(method, path) {
            Some(i) => Some(&self.routes[i]),
            None => None,
        }
    }

    /// The response for a request: that of the first matching rule, and the
    /// fallback response where no rule matches. Always answers.
    pub fn get_response(&self, method: &str, path: &str) -> (response: &ResponseConfig)
        ensures
            response@ == resolve(self@, method@, path@),
            match first_match(self@.routes, method@, path@) {
                Some(i) => 0 <= i < self.routes@.len() && *response == self.routes@[i].response,
                None => *response == self.response,
            },
    {
        match self.find_route(method, path) {
            Some(route) => &route.response,
            None => &self.response,
        }
    }

    /// The address to listen on: host, a colon, and the port in decimal.
    pub fn address(&self) -> (address: String)
        ensures
            address@ == self.host@ + seq![':'] + decimal_text(self.port as nat),
    {
        proof {
            reveal_strlit(":");
        }
        let mut address = self.host.clone();
        address.append(":");
        assert(":"@ =~= seq![':']);
        let port = decimal_string(self.port as u64);
        address.append(port.as_str());
        address
    }
}

} // verus!
