//! The service table and the resolver.
//!
//! The table is an ordered list of (service name, compiled pattern) entries,
//! built once at startup in configuration declaration order. A request's
//! host+path string is resolved to the first entry whose pattern matches;
//! the matched name is then looked up among the configured services. A name
//! that cannot be found is a table inconsistency — structurally impossible
//! for a table built by `Gateway::new`, but kept as a defensive outcome.
use vstd::prelude::*;

use crate::config::Config;
use crate::config::Service;
use crate::pattern::Pattern;
use crate::pattern::regex_accepts;
use crate::pattern::regex_match;

verus! {

/// One table entry: a service name and its compiled match pattern.
pub struct RouteEntry {
    pub name: String,
    pub pattern: Pattern,
}

impl View for RouteEntry {
    type V = (Seq<char>, Seq<char>);

    open spec fn view(&self) -> (Seq<char>, Seq<char>) {
        (self.name@, self.pattern@)
    }
}

/// The views of a route list: (name, pattern source) pairs in table order.
pub open spec fn spec_routes(routes: Seq<RouteEntry>) -> Seq<(Seq<char>, Seq<char>)> {
    routes.map_values(|e: RouteEntry| e@)
}

/// The names of a service list, in declaration order.
pub open spec fn spec_service_names(services: Seq<(String, Service)>) -> Seq<Seq<char>> {
    services.map_values(|p: (String, Service)| p.0@)
}

/// Index of the first route at or after `i` whose pattern matches `uri`.
pub open spec fn spec_first_match_from(
    routes: Seq<(Seq<char>, Seq<char>)>,
    uri: Seq<char>,
    i: int,
) -> Option<int>
    decreases routes.len() - i,
{
    if i < 0 || i >= routes.len() {
        None
    } else if regex_match(routes[i].1, uri) {
        Some(i)
    } else {
        spec_first_match_from(routes, uri, i + 1)
    }
}

/// Index of the first route whose pattern matches `uri`, in table order.
pub open spec fn spec_first_match(routes: Seq<(Seq<char>, Seq<char>)>, uri: Seq<char>) -> Option<
    int,
> {
    spec_first_match_from(routes, uri, 0)
}

/// Index of the first name at or after `i` equal to `name`.
pub open spec fn spec_find_name_from(names: Seq<Seq<char>>, name: Seq<char>, i: int) -> Option<int>
    decreases names.len() - i,
{
    if i < 0 || i >= names.len() {
        None
    } else if names[i] == name {
        Some(i)
    } else {
        spec_find_name_from(names, name, i + 1)
    }
}

/// Index of the first service with the given name.
pub open spec fn spec_find_name(names: Seq<Seq<char>>, name: Seq<char>) -> Option<int> {
    spec_find_name_from(names, name, 0)
}

proof fn lemma_first_match_skip(
    routes: Seq<(Seq<char>, Seq<char>)>,
    uri: Seq<char>,
    j: int,
    i: int,
)
    requires
        0 <= j <= i <= routes.len(),
        forall|k: int| j <= k < i ==> !regex_match(routes[k].1, uri),
    ensures
        spec_first_match_from(routes, uri, j) == spec_first_match_from(routes, uri, i),
    decreases i - j,
{
    if j < i {
        lemma_first_match_skip(routes, uri, j + 1, i);
    }
}

proof fn lemma_find_name_skip(names: Seq<Seq<char>>, name: Seq<char>, j: int, i: int)
    requires
        0 <= j <= i <= names.len(),
        forall|k: int| j <= k < i ==> names[k] != name,
    ensures
        spec_find_name_from(names, name, j) == spec_find_name_from(names, name, i),
    decreases i - j,
{
    if j < i {
        lemma_find_name_skip(names, name, j + 1, i);
    }
}

proof fn lemma_first_match_bounds(routes: Seq<(Seq<char>, Seq<char>)>, uri: Seq<char>, i: int)
    requires
        spec_first_match_from(routes, uri, i) is Some,
    ensures
        (match spec_first_match_from(routes, uri, i) {
            Some(m) => i <= m < routes.len() && regex_match(routes[m].1, uri),
            None => false,
        }),
    decreases routes.len() - i,
{
    if 0 <= i < routes.len() && !regex_match(routes[i].1, uri) {
        lemma_first_match_bounds(routes, uri, i + 1);
    }
}

proof fn lemma_find_name_finds(names: Seq<Seq<char>>, name: Seq<char>, i: int, target: int)
    requires
        0 <= i <= target < names.len(),
        names[target] == name,
    ensures
        spec_find_name_from(names, name, i) is Some,
    decreases target - i,
{
    if names[i] != name {
        lemma_find_name_finds(names, name, i + 1, target);
    }
}

/// What resolving a request's host+path string can yield: the index of the
/// matched service, no match at all, or a matched name missing from the
/// service list.
pub enum Resolution {
    Found(usize),
    NotFound,
    Inconsistent,
}

/// Scans the table in order and returns the first service whose pattern
/// matches `uri`; `NotFound` when no pattern matches, `Inconsistent` when a
/// pattern matched but its name is not among the configured services.
pub fn resolve(routes: &Vec<RouteEntry>, services: &Vec<(String, Service)>, uri: &str) -> (r:
    Resolution)
    ensures
        (match spec_first_match(spec_routes(routes@), uri@) {
            None => r is NotFound,
            Some(i) => match spec_find_name(
                spec_service_names(services@),
                spec_routes(routes@)[i].0,
            ) {
                Some(j) => r matches Resolution::Found(s) && s as int == j,
                None => r is Inconsistent,
            },
        }),
        r matches Resolution::Found(s) ==> (s as int) < services@.len(),
{
    let ghost rv = spec_routes(routes@);
    let mut i: usize = 0;
    while i < routes.len()
        invariant
            i <= routes.len(),
            rv == spec_routes(routes@),
            forall|k: int| 0 <= k < i ==> !regex_match(rv[k].1, uri@),
        decreases routes.len() - i,
    {
        if routes[i].pattern.is_match(uri) {
            proof {
                lemma_first_match_skip(rv, uri@, 0, i as int);
                assert(spec_first_match(rv, uri@) == Some(i as int));
            }
            let name = &routes[i].name;
            let ghost names = spec_service_names(services@);
            let mut j: usize = 0;
            while j < services.len()
                invariant
                    j <= services.len(),
                    i < routes@.len(),
                    rv == spec_routes(routes@),
                    names == spec_service_names(services@),
                    name@ == rv[i as int].0,
                    spec_first_match(rv, uri@) == Some(i as int),
                    forall|k: int| 0 <= k < j ==> names[k] != name@,
                decreases services.len() - j,
            {
                if services[j].0.eq(name) {
                    proof {
                        lemma_find_name_skip(names, name@, 0, j as int);
                        assert(names[j as int] == services@[j as int].0@);
                        assert(names[j as int] == name@);
                        assert(spec_find_name(names, name@) == Some(j as int));
                        assert(rv[i as int] == routes@[i as int]@);
                        assert(rv[i as int].0 == name@);
                    }
                    return Resolution::Found(j);
                }
                j = j + 1;
            }
            proof {
                lemma_find_name_skip(names, name@, 0, services.len() as int);
            }
            return Resolution::Inconsistent;
        }
        i = i + 1;
    }
    proof {
        lemma_first_match_skip(rv, uri@, 0, routes.len() as int);
    }
    Resolution::NotFound
}

/// A startup failure while building the table from the configuration; the
/// index names the offending service in declaration order.
pub enum ConfigError {
    /// The service bears the same name as an earlier one.
    DuplicateName(usize),
    /// The service declares no upstream at all.
    EmptyUpstreams(usize),
    /// The service's match pattern is not a valid expression.
    InvalidPattern(usize),
}

/// All per-request state machinery reads the configuration and the table
/// through this pair, constructed once at startup and shared read-only.
pub struct Gateway {
    pub config: Config,
    pub routes: Vec<RouteEntry>,
}

impl Gateway {
    /// The table mirrors the configured services one-to-one, in declaration
    /// order, every service has at least one upstream, and service names
    /// are unique.
    pub open spec fn wf(&self) -> bool {
        &&& self.routes@.len() == self.config.services@.len()
        &&& forall|i: int|
            0 <= i < self.routes@.len() ==> (#[trigger] self.routes@[i]).name@
                == self.config.services@[i].0@
        &&& forall|i: int|
            0 <= i < self.routes@.len() ==> (#[trigger] self.routes@[i]).pattern@
                == self.config.services@[i].1.url_match@
        &&& forall|i: int|
            0 <= i < self.config.services@.len() ==> (#[trigger] self.config.services@[i]).1.upstreams@.len()
                > 0
        &&& forall|i: int, j: int|
            0 <= i < j < self.config.services@.len() ==> (#[trigger] self.config.services@[i]).0@
                != (#[trigger] self.config.services@[j]).0@
    }

    /// Builds the gateway from a configuration: compiles every service's
    /// pattern in declaration order and checks that every service bears a
    /// fresh name and names an upstream. Any failure here is startup-fatal
    /// for the caller; nothing is rebuilt per request.
    pub fn new(config: Config) -> (r: Result<Gateway, ConfigError>)
        ensures
            r matches Ok(g) ==> g.wf() && g.config == config,
            r is Ok <==> ((forall|i: int|
                0 <= i < config.services@.len() ==> regex_accepts(
                    (#[trigger] config.services@[i]).1.url_match@,
                ) && config.services@[i].1.upstreams@.len() > 0) && (forall|i: int, j: int|
                0 <= i < j < config.services@.len() ==> (#[trigger] config.services@[i]).0@ != (
                #[trigger] config.services@[j]).0@)),
            r matches Err(ConfigError::DuplicateName(i)) ==> i < config.services@.len() && (
            exists|k: int|
                0 <= k < i && (#[trigger] config.services@[k]).0@
                    == config.services@[i as int].0@),
            r matches Err(ConfigError::EmptyUpstreams(i)) ==> i < config.services@.len()
                && config.services@[i as int].1.upstreams@.len() == 0,
            r matches Err(ConfigError::InvalidPattern(i)) ==> i < config.services@.len()
                && !regex_accepts(config.services@[i as int].1.url_match@),
    {
        let mut routes: Vec<RouteEntry> = Vec::new();
        let mut i: usize = 0;
        while i < config.services.len()
            invariant
                i <= config.services@.len(),
                routes@.len() == i,
                forall|k: int|
                    0 <= k < i ==> (#[trigger] routes@[k]).name@ == config.services@[k].0@,
                forall|k: int|
                    0 <= k < i ==> (#[trigger] routes@[k]).pattern@
                        == config.services@[k].1.url_match@,
                forall|k: int|
                    0 <= k < i ==> regex_accepts((#[trigger] config.services@[k]).1.url_match@)
                        && config.services@[k].1.upstreams@.len() > 0,
                forall|k1: int, k2: int|
                    0 <= k1 < k2 < i ==> (#[trigger] config.services@[k1]).0@ != (
                    #[trigger] config.services@[k2]).0@,
            decreases config.services@.len() - i,
        {
            let mut j: usize = 0;
            while j < i
                invariant
                    j <= i,
                    i < config.services@.len(),
                    forall|k: int|
                        0 <= k < j ==> (#[trigger] config.services@[k]).0@
                            != config.services@[i as int].0@,
                decreases i - j,
            {
                if config.services[j].0.eq(&config.services[i].0) {
                    return Err(ConfigError::DuplicateName(i));
                }
                j = j + 1;
            }
            let entry = &config.services[i];
            if entry.1.upstreams.len() == 0 {
                return Err(ConfigError::EmptyUpstreams(i));
            }
            match Pattern::compile(entry.1.url_match.as_str()) {
                Ok(pattern) => {
                    routes.push(RouteEntry { name: entry.0.clone(), pattern });
                },
                Err(_) => {
                    return Err(ConfigError::InvalidPattern(i));
                },
            }
            i = i + 1;
        }
        Ok(Gateway { config, routes })
    }
}

/// On a well-formed gateway the defensive `Inconsistent` outcome cannot
/// occur: whenever some pattern matches, the matched entry's service name is
/// found among the configured services, for every request string.
pub proof fn lemma_wf_gateway_resolves_consistently(gw: &Gateway, uri: Seq<char>)
    requires
        gw.wf(),
    ensures
        (match spec_first_match(spec_routes(gw.routes@), uri) {
            Some(i) => spec_find_name(
                spec_service_names(gw.config.services@),
                spec_routes(gw.routes@)[i].0,
            ) is Some,
            None => true,
        }),
{
    let rv = spec_routes(gw.routes@);
    let names = spec_service_names(gw.config.services@);
    match spec_first_match(rv, uri) {
        Some(i) => {
            lemma_first_match_bounds(rv, uri, 0);
            assert(rv[i] == gw.routes@[i]@);
            assert(names[i] == gw.config.services@[i].0@);
            assert(names[i] == rv[i].0);
            lemma_find_name_finds(names, rv[i].0, 0, i);
        },
        None => {},
    }
}

} // verus!
