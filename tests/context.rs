use authproxy::cache::CredentialSource;
use authproxy::config::ProxyParams;
use authproxy::context::{ProxyContext, RequestStep};
use authproxy::credential::credential_from_output;
use authproxy::error::ProxyError;
use authproxy::rewrite::{Header, RequestHead};

struct Command {
    status: Option<i32>,
    stdout: &'static [u8],
    calls: u32,
}

impl CredentialSource for Command {
    fn fetch(&mut self) -> Result<String, ProxyError> {
        self.calls += 1;
        credential_from_output(self.status, self.stdout.to_vec())
    }
}

fn params(target: &str, ttl: u64) -> ProxyParams {
    ProxyParams {
        target_url: target.to_string(),
        insecure_https: false,
        local_host: "127.0.0.1".to_string(),
        local_port: 4545,
        cache_ttl_secs: ttl,
        command: vec!["print-token".to_string()],
    }
}

fn request() -> RequestHead {
    RequestHead {
        method: "GET".to_string(),
        path_and_query: "/foo/bar?x=1".to_string(),
        headers: vec![Header { name: "host".to_string(), value: b"proxy".to_vec() }],
    }
}

#[test]
fn new_context_starts_with_empty_cache() {
    let ctx = ProxyContext::new(params("https://up:1", 300));
    assert_eq!(ctx.cache.ttl_secs, 300);
    assert!(ctx.cache.entry.is_none());
}

#[test]
fn request_flows_through_command_and_cache() {
    let mut ctx = ProxyContext::new(params("https://upstream.example:8443", 300));
    let mut cmd = Command { status: Some(0), stdout: b"tok\n", calls: 0 };
    let first = ctx.handle_request(request(), 1_000, &mut cmd).unwrap();
    let second = ctx.handle_request(request(), 2_000, &mut cmd).unwrap();
    assert_eq!(cmd.calls, 1);
    assert_eq!(first, second);
    assert_eq!(first.scheme, "https");
    assert_eq!(first.authority, "upstream.example:8443");
    assert_eq!(first.path_and_query, "/foo/bar?x=1");
    assert_eq!(first.headers, vec![Header { name: "authorization".to_string(), value: b"Bearer tok".to_vec() }]);
}

#[test]
fn command_failure_fails_the_request() {
    let mut ctx = ProxyContext::new(params("https://up:1", 300));
    let mut cmd = Command { status: Some(2), stdout: b"", calls: 0 };
    let r = ctx.handle_request(request(), 0, &mut cmd);
    assert!(matches!(r, Err(ProxyError::SubprocessFailed { status: Some(2), .. })));
    assert!(ctx.cache.entry.is_none());
}

#[test]
fn bad_target_fails_before_the_command_runs() {
    let mut ctx = ProxyContext::new(params("no-scheme-here", 300));
    let mut cmd = Command { status: Some(0), stdout: b"tok", calls: 0 };
    let r = ctx.handle_request(request(), 0, &mut cmd);
    assert!(matches!(r, Err(ProxyError::InvalidTargetUrl)));
    assert_eq!(cmd.calls, 0);
}

#[test]
fn two_step_request_refreshes_then_forwards() {
    let mut ctx = ProxyContext::new(params("http://up:8080", 10));
    let step = ctx.begin_request(request(), 0).unwrap();
    let out = match step {
        RequestStep::Refresh(head, target) => ctx.finish_request(head, &target, Ok("t1".to_string()), 5).unwrap(),
        RequestStep::Forward(_) => panic!("cache should be empty"),
    };
    assert_eq!(out.headers[0].value, b"Bearer t1".to_vec());
    match ctx.begin_request(request(), 9_000).unwrap() {
        RequestStep::Forward(o) => assert_eq!(o, out),
        RequestStep::Refresh(..) => panic!("token should be fresh"),
    }
    assert!(matches!(ctx.begin_request(request(), 10_005).unwrap(), RequestStep::Refresh(..)));
}

#[test]
fn unencodable_token_is_cached_but_request_fails() {
    let mut ctx = ProxyContext::new(params("http://up:8080", 10));
    let mut cmd = Command { status: Some(0), stdout: b"a\x01b", calls: 0 };
    let r = ctx.handle_request(request(), 0, &mut cmd);
    assert!(matches!(r, Err(ProxyError::HeaderEncodingError)));
    assert!(ctx.cache.entry.is_some());
}
