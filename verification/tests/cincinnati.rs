use zincati::cincinnati::graph::{Graph, Release};
use zincati::cincinnati::scanner::{self, CincinnatiScanner};
use zincati::cincinnati::{
    configure, fetch_cincinnati_next, pick_next, EndpointError, FetchError, FetchGraph,
    GraphReply, HttpParams,
};
use zincati::rpm_ostree::StageUpdate;
use zincati::update_agent::identity::Identity;

fn release(version: &str) -> Release {
    Release::new(version.to_string(), format!("payload-{}", version))
}

fn identity(current_version: &str, throttle_permille: Option<u16>) -> Identity {
    Identity {
        arch: "amd64".to_string(),
        current_version: current_version.to_string(),
        group: "default".to_string(),
        node_uuid: [0u8; 16],
        platform: "metal-bios".to_string(),
        stream: "stable".to_string(),
        throttle_permille,
    }
}

fn params(current_version: &str) -> HttpParams {
    HttpParams::from(identity(current_version, None))
}

fn answer(status: u16, graph: Option<Graph>) -> GraphReply {
    GraphReply::Response { status, graph }
}

#[test]
fn edge_from_current_version_is_followed() {
    let graph = Graph::new(vec![release("1.0.0"), release("1.1.0")], vec![(0, 1)]).unwrap();
    let next = fetch_cincinnati_next(answer(200, Some(graph)), &params("1.0.0"));
    assert_eq!(next, Ok(Some(release("1.1.0"))));
}

#[test]
fn missing_current_version_is_a_data_error() {
    let graph = Graph::new(vec![release("1.0.0"), release("1.1.0")], vec![(0, 1)]).unwrap();
    let next = fetch_cincinnati_next(answer(200, Some(graph)), &params("2.0.0"));
    assert_eq!(next, Err(FetchError::VersionNotFound));
}

#[test]
fn no_edge_from_current_version_gives_no_update() {
    let graph = Graph::new(vec![release("1.0.0"), release("1.1.0")], vec![(0, 1)]).unwrap();
    assert_eq!(fetch_cincinnati_next(answer(200, Some(graph)), &params("1.1.0")), Ok(None));
    let lonely = Graph::new(vec![release("1.0.0")], vec![]).unwrap();
    assert_eq!(fetch_cincinnati_next(answer(200, Some(lonely)), &params("1.0.0")), Ok(None));
}

#[test]
fn first_reachable_release_is_picked() {
    let graph = Graph::new(
        vec![release("1.0.0"), release("1.1.0"), release("1.2.0"), release("1.3.0")],
        vec![(1, 3), (0, 2), (0, 1), (0, 3)],
    )
    .unwrap();
    assert_eq!(pick_next(&graph, "1.0.0"), Ok(Some(release("1.2.0"))));
    assert_eq!(pick_next(&graph, "1.1.0"), Ok(Some(release("1.3.0"))));
    assert_eq!(pick_next(&graph, "1.3.0"), Ok(None));
    assert_eq!(pick_next(&graph, "0.9.0"), Err(FetchError::VersionNotFound));
}

#[test]
fn edges_are_followed_from_the_first_release_of_a_version() {
    let graph = Graph::new(
        vec![release("1.0.0"), release("1.0.0"), release("1.1.0"), release("1.2.0")],
        vec![(1, 3), (0, 2)],
    )
    .unwrap();
    assert_eq!(pick_next(&graph, "1.0.0"), Ok(Some(release("1.1.0"))));
}

#[test]
fn unreachable_service_is_a_failure() {
    assert_eq!(
        fetch_cincinnati_next(GraphReply::Unreachable, &params("1.0.0")),
        Err(FetchError::Unreachable)
    );
}

#[test]
fn status_other_than_success_is_a_failure() {
    for status in [0u16, 100, 199, 300, 301, 404, 500, 503, 65535].iter() {
        let graph = Graph::new(vec![release("1.0.0"), release("1.1.0")], vec![(0, 1)]).unwrap();
        assert_eq!(
            fetch_cincinnati_next(answer(*status, Some(graph)), &params("1.0.0")),
            Err(FetchError::Status(*status))
        );
        assert_eq!(
            fetch_cincinnati_next(answer(*status, None), &params("1.0.0")),
            Err(FetchError::Status(*status))
        );
    }
}

#[test]
fn every_status_of_success_is_looked_into() {
    for status in [200u16, 201, 204, 299].iter() {
        let graph = Graph::new(vec![release("1.0.0"), release("1.1.0")], vec![(0, 1)]).unwrap();
        assert_eq!(
            fetch_cincinnati_next(answer(*status, Some(graph)), &params("1.0.0")),
            Ok(Some(release("1.1.0")))
        );
    }
}

#[test]
fn body_without_graph_is_a_failure() {
    assert_eq!(
        fetch_cincinnati_next(answer(200, None), &params("1.0.0")),
        Err(FetchError::Malformed)
    );
}

#[test]
fn params_carry_the_identity() {
    let p = HttpParams::from(identity("1.0.0", Some(250)));
    assert_eq!(p.current_version, "1.0.0");
    assert_eq!(p.stream, "stable");
    assert_eq!(p.arch, "amd64");
    assert_eq!(p.platform, "metal-bios");
    assert_eq!(p.throttle_permille, "250");
}

#[test]
fn params_write_the_throttle_in_decimal() {
    assert_eq!(HttpParams::from(identity("v", Some(0))).throttle_permille, "0");
    assert_eq!(HttpParams::from(identity("v", Some(1000))).throttle_permille, "1000");
    assert_eq!(HttpParams::from(identity("v", Some(65535))).throttle_permille, "65535");
}

#[test]
fn params_without_throttle_report_the_default_bucket() {
    assert_eq!(HttpParams::from(identity("v", None)).throttle_permille, "666");
    let p: HttpParams = identity("v", None).into();
    assert_eq!(p.throttle_permille, "666");
}

#[test]
fn client_asks_the_graph_endpoint() {
    let client = configure("http://localhost:9876/", identity("1.0.0", Some(3))).unwrap();
    assert_eq!(client.endpoint, "http://localhost:9876/v1/graph");
    assert_eq!(client.identity, identity("1.0.0", Some(3)));
    let request = client.handle(FetchGraph {});
    assert_eq!(request.endpoint, "http://localhost:9876/v1/graph");
    assert_eq!(request.params, HttpParams::from(identity("1.0.0", Some(3))));
    assert_eq!(client.clone(), client);
}

#[test]
fn graph_endpoint_is_joined_as_urls_are() {
    let client = configure("http://example.com/updates/", identity("v", None)).unwrap();
    assert_eq!(client.endpoint, "http://example.com/updates/v1/graph");
    let client = configure("http://example.com/updates", identity("v", None)).unwrap();
    assert_eq!(client.endpoint, "http://example.com/v1/graph");
    let client = configure("HTTP://EXAMPLE.com", identity("v", None)).unwrap();
    assert_eq!(client.endpoint, "http://example.com/v1/graph");
}

#[test]
fn client_needs_a_base_url_that_can_be_joined() {
    assert_eq!(
        configure("mailto:ops@example.com", identity("v", None)),
        Err(EndpointError::InvalidBaseUrl)
    );
    assert_eq!(configure("not a url", identity("v", None)), Err(EndpointError::InvalidBaseUrl));
    assert_eq!(configure("", identity("v", None)), Err(EndpointError::InvalidBaseUrl));
}

#[test]
fn client_needs_a_base_url_that_is_not_heavy() {
    let texts = [
        format!("http://{}{}", "a".repeat(4096), '\u{FFF80}'),
        format!("http://{}{}", "\u{2487}".repeat(1000), '\u{1061C1}'),
        format!("http://h/{}", "a".repeat(3847)),
        format!("http://h/{}", "%20".repeat(53)),
    ];
    for text in texts.iter() {
        assert_eq!(configure(text, identity("v", None)), Err(EndpointError::InvalidBaseUrl));
        assert_eq!(
            scanner::configure(text, identity("v", None)),
            Err(EndpointError::InvalidBaseUrl)
        );
    }
    let heaviest = format!("http://h/{}/", "a".repeat(3845));
    assert_eq!(heaviest.len(), 3855);
    let client = configure(&heaviest, identity("v", None)).unwrap();
    assert_eq!(client.endpoint, format!("{}v1/graph", heaviest));
}

#[test]
fn client_takes_a_base_url_with_escapes_or_in_another_script() {
    let client = configure("http://h/a%20b/", identity("v", None)).unwrap();
    assert_eq!(client.endpoint, "http://h/a%20b/v1/graph");
    let client = configure("http://b\u{fc}cher.example/\u{e9}/", identity("v", None)).unwrap();
    assert_eq!(client.endpoint, "http://xn--bcher-kva.example/%C3%A9/v1/graph");
    let s = scanner::configure("http://h/a b/", identity("v", None)).unwrap();
    assert_eq!(s.endpoint, "http://h/a%20b/v1/graph");
}

#[test]
fn no_client_for_a_file_url_that_ends_in_a_drive_letter() {
    for base in ["file:///C:", "file:///a/C:", "file:///C|", "file:///a/b/../C:", "file://h/x/D:?q"].iter() {
        assert_eq!(configure(base, identity("v", None)), Err(EndpointError::InvalidBaseUrl));
        assert_eq!(
            scanner::configure(base, identity("v", None)),
            Err(EndpointError::InvalidBaseUrl)
        );
    }
    let client = configure("file:///C:/", identity("v", None)).unwrap();
    assert_eq!(client.endpoint, "file:///C:/v1/graph");
    let client = configure("file:///C:/x/y", identity("v", None)).unwrap();
    assert_eq!(client.endpoint, "file:///C:/x/v1/graph");
}

#[test]
fn scanner_fetches_on_start_and_every_fifteen_seconds() {
    let s = scanner::configure("http://localhost:9876/", identity("1.0.0", None)).unwrap();
    assert_eq!(s.endpoint, "http://localhost:9876/v1/graph");
    assert!(s.fetch_on_start);
    assert!(s.started());
    assert_eq!(s.fetch_interval, 15);
    let request = s.handle(FetchGraph {});
    assert_eq!(request.endpoint, "http://localhost:9876/v1/graph");
    assert_eq!(request.params.current_version, "1.0.0");
    assert_eq!(request.params.throttle_permille, "666");
    assert_eq!(s.clone(), s);
}

#[test]
fn scanner_that_is_told_not_to_does_not_fetch_on_start() {
    let mut s = scanner::configure("http://localhost:9876/", identity("1.0.0", None)).unwrap();
    s.fetch_on_start = false;
    assert!(!s.started());
}

#[test]
fn scanner_needs_a_base_url_that_can_be_joined() {
    assert_eq!(
        scanner::configure("data:text/plain,x", identity("v", None)),
        Err(EndpointError::InvalidBaseUrl)
    );
}

#[test]
fn scanner_pokes_the_backend_for_a_picked_release() {
    assert_eq!(
        CincinnatiScanner::notify_update(Some(release("1.1.0"))),
        Some(StageUpdate { release: release("1.1.0") })
    );
    assert_eq!(CincinnatiScanner::notify_update(None), None);
}
