use jellytui::config::Config;
use jellytui::registry::ProcessRegistry;
use jellytui::session::{check_auth_status, AuthError, RequestAttempt, RequestStep};

#[test]
fn token_refused_once_then_accepted() {
    let mut a = RequestAttempt::new();
    assert_eq!(a.on_status(401), RequestStep::Reauthenticate);
    assert_eq!(a.on_status(200), RequestStep::Deliver);
}

#[test]
fn token_refused_twice_is_an_error() {
    let mut a = RequestAttempt::new();
    assert_eq!(a.on_status(401), RequestStep::Reauthenticate);
    assert_eq!(a.on_status(401), RequestStep::Reject);
    assert_eq!(a.on_status(401), RequestStep::Reject);
}

#[test]
fn accepted_request_is_delivered() {
    let mut a = RequestAttempt::new();
    assert_eq!(a.on_status(200), RequestStep::Deliver);
    assert_eq!(a.on_status(404), RequestStep::Deliver);
    assert!(!a.retried);
}

#[test]
fn sign_in_statuses() {
    assert_eq!(check_auth_status(401), Err(AuthError::Unauthorized));
    assert_eq!(check_auth_status(403), Err(AuthError::Forbidden));
    assert_eq!(check_auth_status(200), Ok(()));
    assert_eq!(AuthError::Unauthorized.message(), "401: Invalid username or password");
    assert_eq!(AuthError::Forbidden.message(), "403: Access to server denied");
}

#[test]
fn registry_drain_on_empty_and_twice() {
    let mut r: ProcessRegistry<u32> = ProcessRegistry::new();
    assert!(r.drain().is_empty());
    assert_eq!(r.len(), 0);
    r.register(7);
    r.register(9);
    assert_eq!(r.len(), 2);
    assert_eq!(r.drain(), vec![7, 9]);
    assert_eq!(r.len(), 0);
    assert!(r.drain().is_empty());
    assert_eq!(r.len(), 0);
}

#[test]
fn default_config_is_blank() {
    let c = Config::default();
    assert!(!c.accept_self_signed);
    assert!(c.server_url.is_empty());
    assert!(c.username.is_empty());
    assert!(c.password.is_empty());
    assert!(!c.is_new);
}

use jellytui::queries::Query;

fn pairs(q: &Query) -> Vec<(&str, &str)> {
    q.params.iter().map(|(k, v)| (k.as_str(), v.as_str())).collect()
}

const FIELDS: &str = "Path,Overview,CommunityRating,CriticRating,RunTimeTicks";

#[test]
fn catalog_listing_query() {
    let q = Query::catalog("http://srv", "u1");
    assert_eq!(q.url, "http://srv/Users/u1/Items");
    assert_eq!(
        pairs(&q),
        vec![
            ("Recursive", "true"),
            ("Fields", FIELDS),
            ("IncludeItemTypes", "Movie,Series,Episode"),
            ("SortBy", "SortName"),
            ("SortOrder", "Ascending"),
        ]
    );
}

#[test]
fn home_section_queries_are_capped_at_twelve() {
    let resume = Query::resume("http://srv", "u1");
    assert_eq!(resume.url, "http://srv/Users/u1/Items/Resume");
    assert_eq!(pairs(&resume), vec![("Limit", "12"), ("Fields", FIELDS)]);

    let next = Query::next_up("http://srv", "u1");
    assert_eq!(next.url, "http://srv/Shows/NextUp");
    assert_eq!(pairs(&next), vec![("UserId", "u1"), ("Limit", "12"), ("Fields", FIELDS)]);

    let latest = Query::latest_added("http://srv", "u1");
    assert_eq!(latest.url, "http://srv/Users/u1/Items");
    assert_eq!(
        pairs(&latest),
        vec![
            ("Limit", "12"),
            ("Fields", FIELDS),
            ("IncludeItemTypes", "Movie,Series"),
            ("SortBy", "DateCreated,SortName"),
            ("SortOrder", "Descending"),
            ("Recursive", "true"),
        ]
    );
}
