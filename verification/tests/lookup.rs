use urbandictionary::{
    define, definitions, request_target, Error, FetchError, Response, Transport,
    UrbanDictionaryRequester,
};

const CAT_BODY: &[u8] = b"{\"list\": [{\"author\": \"kats\", \
    \"definition\": \"a small feline\", \"example\": \"the cat sat on the mat\", \
    \"defid\": 123, \"permalink\": \"http://cat.urbanup.com/123\", \
    \"thumbs_down\": 2, \"thumbs_up\": 50, \"word\": \"cat\"}], \
    \"tags\": [\"feline\"]}";

const EMPTY_BODY: &[u8] = b"{\"list\": [], \"tags\": []}";

struct CannedTransport {
    body: Vec<u8>,
    last_target: Option<String>,
}

impl CannedTransport {
    fn new(body: &[u8]) -> CannedTransport {
        CannedTransport { body: body.to_vec(), last_target: None }
    }
}

impl Transport for CannedTransport {
    fn fetch(&mut self, target: &str) -> Result<Vec<u8>, FetchError> {
        self.last_target = Some(String::from(target));
        Ok(self.body.clone())
    }
}

struct FailingTransport {
    message: &'static str,
}

impl Transport for FailingTransport {
    fn fetch(&mut self, _target: &str) -> Result<Vec<u8>, FetchError> {
        Err(FetchError::Transport(String::from(self.message)))
    }
}

struct UrlFailure;

impl Transport for UrlFailure {
    fn fetch(&mut self, _target: &str) -> Result<Vec<u8>, FetchError> {
        Err(FetchError::Url(String::from("invalid uri character")))
    }
}

struct IoFailure;

impl Transport for IoFailure {
    fn fetch(&mut self, _target: &str) -> Result<Vec<u8>, FetchError> {
        Err(FetchError::Io(String::from("connection reset by peer")))
    }
}

struct CountingTransport {
    calls: usize,
}

impl Transport for CountingTransport {
    fn fetch(&mut self, _target: &str) -> Result<Vec<u8>, FetchError> {
        self.calls += 1;
        Ok(EMPTY_BODY.to_vec())
    }
}

#[test]
fn test_define() {
    let mut client = CannedTransport::new(CAT_BODY);
    let resp = client.define("cat").unwrap();
    assert!(resp.is_some());
}

#[test]
fn test_definitions() {
    let mut client = CannedTransport::new(CAT_BODY);
    let resp = client.definitions("cat").unwrap();
    assert!(!resp.definitions.is_empty());
}

#[test]
fn test_reqwest_test_define() {
    let mut client = CannedTransport::new(CAT_BODY);
    let resp = client.define("england").unwrap();
    assert!(resp.is_some());
}

#[test]
fn test_reqwest_test_definitions() {
    let mut client = CannedTransport::new(CAT_BODY);
    let resp = client.definitions("england").unwrap();
    assert!(!resp.definitions.is_empty());
}

#[test]
fn define_yields_the_first_definition() {
    let mut client = CannedTransport::new(CAT_BODY);
    let definition = define(&mut client, "cat").unwrap().unwrap();
    assert_eq!(definition.id, 123);
    assert_eq!(definition.thumbs_up, 50);
    assert_eq!(definition.thumbs_down, 2);
    assert_eq!(definition.word, "cat");
}

#[test]
fn define_is_absent_exactly_when_no_definition_exists() {
    let mut client = CannedTransport::new(EMPTY_BODY);
    assert!(define(&mut client, "cat").unwrap().is_none());
}

#[test]
fn define_matches_the_head_of_definitions() {
    let mut one = CannedTransport::new(CAT_BODY);
    let mut other = CannedTransport::new(CAT_BODY);
    let first = define(&mut one, "cat").unwrap().unwrap();
    let all = definitions(&mut other, "cat").unwrap();
    assert_eq!(Some(&first), all.definitions.first());
}

#[test]
fn into_first_definition_consumes_the_response() {
    let mut client = CannedTransport::new(CAT_BODY);
    let resp: Response = definitions(&mut client, "cat").unwrap();
    let head = resp.definitions[0].clone();
    assert_eq!(resp.into_first_definition(), Some(head));
}

#[test]
fn transport_failure_surfaces_unchanged() {
    let mut client = FailingTransport { message: "connection refused" };
    let err = definitions(&mut client, "cat").unwrap_err();
    assert_eq!(err, Error::Transport(String::from("connection refused")));
}

#[test]
fn transport_failure_surfaces_through_define_too() {
    let mut client = FailingTransport { message: "connection refused" };
    let err = define(&mut client, "cat").unwrap_err();
    assert_eq!(err, Error::Transport(String::from("connection refused")));
}

#[test]
fn url_and_io_failures_keep_their_variants() {
    let err = definitions(&mut UrlFailure, "cat").unwrap_err();
    assert_eq!(err, Error::Url(String::from("invalid uri character")));
    let err = definitions(&mut IoFailure, "cat").unwrap_err();
    assert_eq!(err, Error::Io(String::from("connection reset by peer")));
}

#[test]
fn malformed_body_surfaces_as_a_parse_error() {
    let mut client = CannedTransport::new(b"not json");
    let err = definitions(&mut client, "cat").unwrap_err();
    assert!(matches!(err, Error::Json(_)));
}

#[test]
fn request_target_substitutes_the_word() {
    assert_eq!(
        request_target("cat"),
        "http://api.urbandictionary.com/v0/define?term=cat"
    );
}

#[test]
fn request_target_substitutes_verbatim() {
    // The word is not percent-encoded: reserved characters pass through.
    assert_eq!(
        request_target("a b&c"),
        "http://api.urbandictionary.com/v0/define?term=a b&c"
    );
}

#[test]
fn definitions_requests_the_built_target() {
    let mut client = CannedTransport::new(EMPTY_BODY);
    definitions(&mut client, "cat").unwrap();
    assert_eq!(
        client.last_target,
        Some(String::from("http://api.urbandictionary.com/v0/define?term=cat"))
    );
}

#[test]
fn each_call_performs_its_own_request() {
    let mut client = CountingTransport { calls: 0 };
    definitions(&mut client, "cat").unwrap();
    definitions(&mut client, "cat").unwrap();
    assert_eq!(client.calls, 2);
}
