use lazy_dns::system_conf::reinitialize_system_conf;
use lazy_dns::system_conf::SystemConfigCache;
use std::sync::Arc;

#[derive(Debug, PartialEq)]
struct Config {
    nameserver: &'static str,
    attempts: u32,
}

#[derive(Debug, PartialEq)]
struct Unreadable {
    reason: &'static str,
}

const FIRST: Config = Config { nameserver: "192.0.2.53", attempts: 2 };

const SECOND: Config = Config { nameserver: "198.51.100.53", attempts: 5 };

#[test]
fn empty_cache_reads_once_and_keeps_the_configuration() {
    let mut cache: SystemConfigCache<Config, Unreadable> = SystemConfigCache::new();
    let mut reads: u32 = 0;
    let first = cache.get_or_compute(|| {
        reads += 1;
        Ok(FIRST)
    });
    assert_eq!(reads, 1);
    assert_eq!(first.as_deref(), Ok(&FIRST));
    let second = cache.get_or_compute(|| {
        reads += 1;
        Ok(SECOND)
    });
    assert_eq!(reads, 1);
    assert_eq!(second.as_deref(), Ok(&FIRST));
}

#[test]
fn every_reader_gets_the_very_value_that_was_read() {
    let mut cache: SystemConfigCache<Config, Unreadable> = SystemConfigCache::new();
    let first = cache.get_or_compute(|| Ok(FIRST)).unwrap();
    let second = cache.get_or_compute(|| Ok(FIRST)).unwrap();
    assert!(Arc::ptr_eq(&first, &second));
}

#[test]
fn failed_read_is_kept_and_not_tried_again() {
    let mut cache: SystemConfigCache<Config, Unreadable> = SystemConfigCache::new();
    let mut reads: u32 = 0;
    let first = cache.get_or_compute(|| {
        reads += 1;
        Err(Unreadable { reason: "no resolv.conf" })
    });
    assert_eq!(first.unwrap_err().reason, "no resolv.conf");
    let second = cache.get_or_compute(|| {
        reads += 1;
        Ok(FIRST)
    });
    assert_eq!(second.unwrap_err().reason, "no resolv.conf");
    let third = cache.get_or_compute(|| {
        reads += 1;
        Err(Unreadable { reason: "another failure" })
    });
    assert_eq!(third.unwrap_err().reason, "no resolv.conf");
    assert_eq!(reads, 1);
}

#[test]
fn invalidate_makes_the_next_call_read_again() {
    let mut cache: SystemConfigCache<Config, Unreadable> = SystemConfigCache::new();
    let mut reads: u32 = 0;
    let first = cache.get_or_compute(|| {
        reads += 1;
        Ok(FIRST)
    });
    assert_eq!(first.as_deref(), Ok(&FIRST));
    cache.invalidate();
    assert_eq!(reads, 1);
    let second = cache.get_or_compute(|| {
        reads += 1;
        Ok(SECOND)
    });
    assert_eq!(reads, 2);
    assert_eq!(second.as_deref(), Ok(&SECOND));
    let third = cache.get_or_compute(|| {
        reads += 1;
        Ok(FIRST)
    });
    assert_eq!(reads, 2);
    assert_eq!(third.as_deref(), Ok(&SECOND));
}

#[test]
fn invalidate_forgets_a_failure_too() {
    let mut cache: SystemConfigCache<Config, Unreadable> = SystemConfigCache::new();
    let first = cache.get_or_compute(|| Err(Unreadable { reason: "no resolv.conf" }));
    assert!(first.is_err());
    cache.invalidate();
    let second = cache.get_or_compute(|| Ok(FIRST));
    assert_eq!(second.as_deref(), Ok(&FIRST));
}

#[test]
fn invalidate_leaves_earlier_copies_as_they_were() {
    let mut cache: SystemConfigCache<Config, Unreadable> = SystemConfigCache::new();
    let before = cache.get_or_compute(|| Ok(FIRST)).unwrap();
    cache.invalidate();
    let after = cache.get_or_compute(|| Ok(SECOND)).unwrap();
    assert_eq!(*before, FIRST);
    assert_eq!(*after, SECOND);
}

#[test]
fn invalidate_on_an_empty_cache_keeps_it_empty() {
    let mut cache: SystemConfigCache<Config, Unreadable> = SystemConfigCache::new();
    let mut reads: u32 = 0;
    cache.invalidate();
    cache.invalidate();
    let outcome = cache.get_or_compute(|| {
        reads += 1;
        Ok(FIRST)
    });
    assert_eq!(reads, 1);
    assert_eq!(outcome.as_deref(), Ok(&FIRST));
}

#[test]
fn reinitialize_system_conf_makes_the_next_call_read_again() {
    let mut cache: SystemConfigCache<Config, Unreadable> = SystemConfigCache::new();
    let mut reads: u32 = 0;
    let first = cache.get_or_compute(|| {
        reads += 1;
        Ok(FIRST)
    });
    assert_eq!(first.as_deref(), Ok(&FIRST));
    reinitialize_system_conf(&mut cache);
    let second = cache.get_or_compute(|| {
        reads += 1;
        Err(Unreadable { reason: "gone" })
    });
    assert_eq!(reads, 2);
    assert_eq!(second.unwrap_err().reason, "gone");
}
