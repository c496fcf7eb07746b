//! The router's name-to-endpoint table and the discovery registry.

use messaggero::protocol::error::TransportError;
use messaggero::protocol::types::AgentCard;
use messaggero::server::{endpoint_transport, TransportContext};
use messaggero::transport::discovery::Discovery;
use messaggero::transport::router::{AgentEndpoint, Router};
use std::path::PathBuf;

fn fast(p: &str) -> AgentEndpoint {
    AgentEndpoint::Fast(PathBuf::from(p))
}

fn http(u: &str) -> AgentEndpoint {
    AgentEndpoint::Http(u.to_string())
}

fn path_of(e: &AgentEndpoint) -> Option<PathBuf> {
    match e {
        AgentEndpoint::Fast(p) => Some(p.clone()),
        AgentEndpoint::Http(_) => None,
    }
}

fn url_of(e: &AgentEndpoint) -> Option<String> {
    match e {
        AgentEndpoint::Fast(_) => None,
        AgentEndpoint::Http(u) => Some(u.clone()),
    }
}

#[test]
fn register_then_resolve() {
    let mut r = Router::new();
    r.register("a", fast("/tmp/a.sock"));
    r.register("b", http("http://b"));
    assert_eq!(path_of(&r.resolve("a").unwrap()), Some(PathBuf::from("/tmp/a.sock")));
    assert_eq!(url_of(&r.resolve("b").unwrap()), Some("http://b".to_string()));

    // Registering again replaces the endpoint.
    r.register("a", http("http://a2"));
    assert_eq!(url_of(&r.resolve("a").unwrap()), Some("http://a2".to_string()));
    let mut names = r.agents();
    names.sort();
    assert_eq!(names, vec!["a".to_string(), "b".to_string()]);
}

#[test]
fn unregister_then_resolve_fails() {
    let mut r = Router::default();
    r.register("a", fast("/tmp/a.sock"));
    r.register("b", fast("/tmp/b.sock"));
    r.unregister("a");
    r.unregister("zzz");
    match r.resolve("a") {
        Err(TransportError::AgentNotFound(n)) => assert_eq!(n, "a"),
        other => panic!("unexpected {other:?}"),
    }
    assert!(r.resolve("b").is_ok());
    assert_eq!(r.agents(), vec!["b".to_string()]);
}

#[test]
fn endpoint_kind_picks_transport() {
    assert_eq!(endpoint_transport(&fast("/x")), TransportContext::Fast);
    assert_eq!(endpoint_transport(&http("http://x")), TransportContext::A2a);
    let e = fast("/y");
    assert_eq!(path_of(&e.duplicate()), Some(PathBuf::from("/y")));
}

fn card(name: &str, tags: &[&str]) -> AgentCard {
    let mut c = AgentCard::builder(name).skill("s", "S", "skill").build();
    c.skills[0].tags = tags.iter().map(|t| t.to_string()).collect();
    c
}

fn names(cards: &[AgentCard]) -> Vec<String> {
    let mut v: Vec<String> = cards.iter().map(|c| c.name.clone()).collect();
    v.sort();
    v
}

#[test]
fn discovery_register_find_list() {
    let mut d = Discovery::new();
    d.register(card("alpha", &["search"]), fast("/tmp/alpha.sock"));
    d.register(card("beta", &["chat", "search"]), http("http://beta"));
    d.register(card("gamma", &[]), http("http://gamma"));

    assert_eq!(d.find("beta").unwrap().name, "beta");
    assert!(d.find("delta").is_none());
    assert_eq!(names(&d.list()), vec!["alpha", "beta", "gamma"]);
    assert_eq!(names(&d.find_by_tag("search")), vec!["alpha", "beta"]);
    assert_eq!(names(&d.find_by_tag("chat")), vec!["beta"]);
    assert!(d.find_by_tag("none").is_empty());
    assert!(d.find("alpha").unwrap().has_tag("search"));
    assert!(!d.find("gamma").unwrap().has_tag("search"));

    d.unregister("alpha");
    assert!(d.find("alpha").is_none());
    assert_eq!(names(&d.list()), vec!["beta", "gamma"]);
}

#[test]
fn discovery_reregister_replaces_card() {
    let mut d = Discovery::default();
    d.register(card("alpha", &["old"]), fast("/a"));
    d.register(card("alpha", &["new"]), fast("/b"));
    assert_eq!(d.list().len(), 1);
    assert!(d.find("alpha").unwrap().has_tag("new"));
    assert!(d.find_by_tag("old").is_empty());
}

#[test]
fn discovery_populates_router() {
    let mut d = Discovery::new();
    d.register(card("alpha", &[]), fast("/tmp/alpha.sock"));
    d.register(card("beta", &[]), http("http://beta"));
    let mut r = Router::new();
    r.register("beta", fast("/old"));
    r.register("other", fast("/other"));
    d.populate_router(&mut r);
    assert_eq!(path_of(&r.resolve("alpha").unwrap()), Some(PathBuf::from("/tmp/alpha.sock")));
    assert_eq!(url_of(&r.resolve("beta").unwrap()), Some("http://beta".to_string()));
    assert_eq!(path_of(&r.resolve("other").unwrap()), Some(PathBuf::from("/other")));
}
