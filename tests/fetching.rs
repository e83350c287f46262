use media_cache::extension::resolve_extension;
use media_cache::fetch::{
    body_failed, fetch_failed, start, status_failed, step, CacheAction, CacheEvent, CacheResponse,
    CacheState, FetchError,
};
use media_cache::key::url_to_filename;

/// What the mocked remote side answers.
#[derive(Clone)]
enum Reply {
    Unreachable(&'static str),
    Status {
        success: bool,
        status: &'static str,
        content_type: Option<&'static str>,
        body: Result<&'static [u8], &'static str>,
    },
}

/// An in-memory cache directory and a mocked fetcher that counts its calls.
struct World {
    files: Vec<(String, Vec<u8>)>,
    listing_fails: bool,
    create_fails: bool,
    write_fails: bool,
    reply: Reply,
    fetches: usize,
}

impl World {
    fn new(reply: Reply) -> World {
        World {
            files: Vec::new(),
            listing_fails: false,
            create_fails: false,
            write_fails: false,
            reply,
            fetches: 0,
        }
    }

    fn has(&self, name: &str) -> bool {
        self.files.iter().any(|(n, _)| n == name)
    }

    fn run(&mut self, locator: &str) -> Result<CacheResponse, FetchError> {
        let (mut state, mut action) = start(locator);
        let mut body: Result<&'static [u8], &'static str> = Ok(b"");
        loop {
            let event = match action {
                CacheAction::ListDirectory => {
                    if self.listing_fails {
                        CacheEvent::Listed(None)
                    } else {
                        CacheEvent::Listed(Some(self.files.iter().map(|(n, _)| n.clone()).collect()))
                    }
                }
                CacheAction::Fetch { url } => {
                    assert_eq!(url, locator);
                    self.fetches += 1;
                    match self.reply.clone() {
                        Reply::Unreachable(e) => CacheEvent::FetchFailed(e.to_string()),
                        Reply::Status { success, status, content_type, body: b } => {
                            body = b;
                            CacheEvent::Responded {
                                success,
                                status: status.to_string(),
                                content_type: content_type.map(|c| c.to_string()),
                            }
                        }
                    }
                }
                CacheAction::ReadBody => match body {
                    Ok(bytes) => CacheEvent::BodyRead(bytes.to_vec()),
                    Err(e) => CacheEvent::BodyFailed(e.to_string()),
                },
                CacheAction::Write { file_name, bytes } => {
                    if self.create_fails {
                        CacheEvent::CreateFailed("permission denied".to_string())
                    } else if self.write_fails {
                        let half = bytes[..bytes.len() / 2].to_vec();
                        self.files.push((file_name, half));
                        CacheEvent::WriteFailed("disk full".to_string())
                    } else {
                        self.files.push((file_name, bytes));
                        CacheEvent::Written
                    }
                }
                CacheAction::Remove { file_name } => {
                    self.files.retain(|(n, _)| *n != file_name);
                    CacheEvent::Removed
                }
                CacheAction::Finish(result) => {
                    assert!(state.is_done());
                    return result;
                }
            };
            assert!(state.expects(&event));
            let next = step(state, event);
            state = next.0;
            action = next.1;
        }
    }
}

fn ok_text(body: &'static [u8]) -> Reply {
    Reply::Status {
        success: true,
        status: "200 OK",
        content_type: Some("text/plain"),
        body: Ok(body),
    }
}

#[test]
fn miss_then_hit() {
    let locator = "http://example/a.txt";
    let mut world = World::new(ok_text(b"hello"));
    let first = world.run(locator).unwrap();
    let ext = resolve_extension(&Some("text/plain".to_string()), locator).unwrap();
    let expected = format!("{}.{}", url_to_filename(locator), ext);
    assert_eq!(first.file_name, expected);
    assert_eq!(first.content_type, Some("text/plain".to_string()));
    assert_eq!(world.files, vec![(expected.clone(), b"hello".to_vec())]);
    assert_eq!(world.fetches, 1);

    let second = world.run(locator).unwrap();
    assert_eq!(second.file_name, expected);
    assert_eq!(second.content_type, None);
    assert_eq!(world.fetches, 1);
}

#[test]
fn idempotent_fetch_among_other_entries() {
    let mut world = World::new(ok_text(b"data"));
    world.run("http://example/one").unwrap();
    world.run("http://example/two").unwrap();
    let again = world.run("http://example/one").unwrap();
    assert_eq!(world.fetches, 2);
    assert!(again.file_name.starts_with(&url_to_filename("http://example/one")));
}

#[test]
fn no_extension_stores_bare_key() {
    let locator = "http://x/y";
    let mut world = World::new(Reply::Status {
        success: true,
        status: "200 OK",
        content_type: None,
        body: Ok(b"raw"),
    });
    let r = world.run(locator).unwrap();
    assert_eq!(r.file_name, url_to_filename(locator));
    assert_eq!(r.content_type, None);
}

#[test]
fn listing_failure_counts_as_miss() {
    let mut world = World::new(ok_text(b"x"));
    world.run("http://example/a.txt").unwrap();
    world.listing_fails = true;
    world.run("http://example/a.txt").unwrap();
    assert_eq!(world.fetches, 2);
}

#[test]
fn non_success_status_is_network_error() {
    let mut world = World::new(Reply::Status {
        success: false,
        status: "404 Not Found",
        content_type: Some("text/html"),
        body: Ok(b"missing"),
    });
    let r = world.run("http://example/missing.png");
    assert_eq!(
        r,
        Err(FetchError::Network("Request failed with status: 404 Not Found".to_string()))
    );
    assert!(world.files.is_empty());
}

#[test]
fn unreachable_host_is_network_error() {
    let mut world = World::new(Reply::Unreachable("dns error"));
    let r = world.run("http://nowhere/a.png");
    assert_eq!(r, Err(FetchError::Network("Failed to fetch URL: dns error".to_string())));
    assert!(world.files.is_empty());
}

#[test]
fn unreadable_body_is_other_error() {
    let mut world = World::new(Reply::Status {
        success: true,
        status: "200 OK",
        content_type: None,
        body: Err("connection reset"),
    });
    let r = world.run("http://example/a.png");
    assert_eq!(
        r,
        Err(FetchError::Other("Failed to read response bytes: connection reset".to_string()))
    );
    assert!(world.files.is_empty());
}

#[test]
fn create_failure_is_other_error() {
    let mut world = World::new(ok_text(b"hello"));
    world.create_fails = true;
    let r = world.run("http://example/a.txt");
    assert_eq!(
        r,
        Err(FetchError::Other("Failed to create cache file: permission denied".to_string()))
    );
    assert!(world.files.is_empty());
}

#[test]
fn failed_write_leaves_no_partial_file() {
    let locator = "http://example/a.png";
    let mut world = World::new(Reply::Status {
        success: true,
        status: "200 OK",
        content_type: Some("image/png"),
        body: Ok(b"0123456789"),
    });
    world.write_fails = true;
    let r = world.run(locator);
    assert_eq!(r, Err(FetchError::Other("Failed to write cache file: disk full".to_string())));
    let target = format!("{}.png", url_to_filename(locator));
    assert!(!world.has(&target));
    assert!(world.files.is_empty());
}

#[test]
fn machine_rejects_unexpected_events() {
    let (state, _) = start("http://x/y");
    assert!(state.expects(&CacheEvent::Listed(None)));
    assert!(!state.expects(&CacheEvent::Written));
    assert!(!CacheState::Done.expects(&CacheEvent::Removed));
}

#[test]
fn error_helpers_carry_detail() {
    assert_eq!(fetch_failed("x"), FetchError::Network("Failed to fetch URL: x".to_string()));
    assert_eq!(
        status_failed("500 Internal Server Error"),
        FetchError::Network("Request failed with status: 500 Internal Server Error".to_string())
    );
    assert_eq!(
        body_failed("eof"),
        FetchError::Other("Failed to read response body: eof".to_string())
    );
}
