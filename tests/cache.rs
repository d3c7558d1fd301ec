use authproxy::cache::{CredentialSource, TokenCache, TokenCacheEntry};
use authproxy::credential::credential_from_output;
use authproxy::error::ProxyError;

struct Counting {
    calls: u32,
}

impl CredentialSource for Counting {
    fn fetch(&mut self) -> Result<String, ProxyError> {
        self.calls += 1;
        Ok(format!("token-{}", self.calls))
    }
}

struct ExitsWithTwo {
    calls: u32,
}

impl CredentialSource for ExitsWithTwo {
    fn fetch(&mut self) -> Result<String, ProxyError> {
        self.calls += 1;
        credential_from_output(Some(2), b"denied\n".to_vec())
    }
}

#[test]
fn token_is_served_within_ttl_and_refreshed_after() {
    let mut cache = TokenCache::new(5);
    let mut source = Counting { calls: 0 };
    let t0: u64 = 10_000;
    assert_eq!(cache.get_or_refresh(&mut source, t0).unwrap(), "token-1");
    assert_eq!(cache.get_or_refresh(&mut source, t0 + 1).unwrap(), "token-1");
    assert_eq!(cache.get_or_refresh(&mut source, t0 + 4_999).unwrap(), "token-1");
    assert_eq!(source.calls, 1);
    assert_eq!(cache.get_or_refresh(&mut source, t0 + 5_000).unwrap(), "token-2");
    assert_eq!(source.calls, 2);
}

#[test]
fn lookup_respects_the_window_bounds() {
    let mut cache = TokenCache::new(2);
    let stored = cache.complete_refresh(Ok("abc".to_string()), 1_000).unwrap();
    assert_eq!(stored, "abc");
    assert_eq!(cache.lookup(999), None);
    assert_eq!(cache.lookup(1_000), Some("abc".to_string()));
    assert_eq!(cache.lookup(2_999), Some("abc".to_string()));
    assert_eq!(cache.lookup(3_000), None);
}

#[test]
fn zero_ttl_refreshes_on_every_read() {
    let mut cache = TokenCache::new(0);
    let mut source = Counting { calls: 0 };
    for i in 0..4u64 {
        let token = cache.get_or_refresh(&mut source, 500).unwrap();
        assert_eq!(token, format!("token-{}", i + 1));
    }
    assert_eq!(source.calls, 4);
}

#[test]
fn queued_readers_share_one_refresh() {
    let mut cache = TokenCache::new(60);
    let mut source = Counting { calls: 0 };
    let mut seen = Vec::new();
    for i in 0..8u64 {
        seen.push(cache.get_or_refresh(&mut source, 1_000 + i).unwrap());
    }
    assert_eq!(source.calls, 1);
    assert!(seen.iter().all(|t| t == "token-1"));
}

#[test]
fn failed_command_is_reported_and_not_cached() {
    let mut cache = TokenCache::new(60);
    let mut source = ExitsWithTwo { calls: 0 };
    let r = cache.get_or_refresh(&mut source, 0);
    match r {
        Err(ProxyError::SubprocessFailed { status, output }) => {
            assert_eq!(status, Some(2));
            assert_eq!(output, b"denied\n".to_vec());
        }
        other => panic!("unexpected {:?}", other),
    }
    assert!(cache.entry.is_none());
    assert!(cache.get_or_refresh(&mut source, 1).is_err());
    assert_eq!(source.calls, 2);
}

#[test]
fn failed_refresh_empties_an_expired_entry() {
    let mut cache = TokenCache::new(1);
    cache.complete_refresh(Ok("old".to_string()), 0).unwrap();
    let r = cache.complete_refresh(Err(ProxyError::InvalidCredentialOutput), 5_000);
    assert!(matches!(r, Err(ProxyError::InvalidCredentialOutput)));
    assert!(cache.entry.is_none());
}

#[test]
fn entry_records_token_and_instant() {
    let e = TokenCacheEntry::new("t".to_string(), 42);
    assert_eq!(e.token, "t");
    assert_eq!(e.inserted_at, 42);
    assert!(e.is_fresh(1, 42));
    assert!(e.is_fresh(1, 1_041));
    assert!(!e.is_fresh(1, 1_042));
    assert!(!e.is_fresh(1, 41));
    assert!(!e.is_fresh(0, 42));
}

#[test]
fn largest_ttl_does_not_overflow() {
    let e = TokenCacheEntry::new("t".to_string(), u64::MAX - 1);
    assert!(e.is_fresh(u64::MAX, u64::MAX));
}
