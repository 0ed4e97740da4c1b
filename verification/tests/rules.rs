//! The rules that need no store: names, limits, native names and codes, the
//! text of errors.
use keyring::broker::{Broker, Platform};
use keyring::error::{decimal_text, Error};
use keyring::key::{
    check, chars_of, is_well_formed, measure, Portability, PORTABLE_LIMIT, SEPARATOR,
};
use keyring::native::{
    AddressOf, Exchange, ExchangeOf, Fault, FaultOf, ProgressOf, Reply, ReplyOf, RequestOf,
    ScopeOf, Stage,
};
use keyring::secrecy::{contains, scrub};
use keyring::{linux, macos, windows};

fn name_of(length: usize) -> String {
    "n".repeat(length)
}

fn first(request: keyring::native::Request) -> Exchange {
    ExchangeOf { request, held: None, stage: Stage::First }
}

#[test]
fn well_formed_names() {
    assert!(is_well_formed("a"));
    assert!(is_well_formed("Zowe-Plugin"));
    assert!(is_well_formed("secure_config_props"));
    assert!(is_well_formed("na\u{ef}ve \u{1f511}"));
    assert!(is_well_formed("a*b\\c"));
    assert!(!is_well_formed(""));
    assert!(!is_well_formed("/"));
    assert!(!is_well_formed("a/b"));
    assert!(!is_well_formed("ab/"));
    assert!(!is_well_formed("/ab"));
    assert_eq!(SEPARATOR, '/');
}

#[test]
fn chars_of_a_string() {
    assert_eq!(chars_of(""), Vec::<char>::new());
    assert_eq!(chars_of("a\u{e9}/"), vec!['a', '\u{e9}', '/']);
}

#[test]
fn strict_portability_limits_the_length() {
    assert_eq!(PORTABLE_LIMIT, 16383);
    let longest = name_of(16383);
    let too_long = name_of(16384);
    assert!(check(Portability::Strict, &longest));
    assert!(!check(Portability::Strict, &too_long));
    assert!(check(Portability::Deferred, &too_long));
    assert!(!check(Portability::Deferred, ""));
    assert!(!check(Portability::Strict, "a/b"));
    for platform in [Platform::Windows, Platform::MacOs, Platform::Linux] {
        let strict = Broker::new(platform, Portability::Strict);
        assert!(strict.accepts_key(&longest, &longest));
        assert!(!strict.accepts_key(&too_long, "a"));
        assert!(!strict.accepts_key("a", &too_long));
        assert!(strict.accepts_service(&longest));
        assert!(!strict.accepts_service(&too_long));
        assert!(strict.plan_get_password(&too_long, "a") == Err(Error::Invalid));
        assert!(strict.plan_find(&too_long) == Err(Error::Invalid));
    }
}

#[test]
fn length_is_counted_in_utf16_units() {
    assert_eq!(measure("", 0), Some(0));
    assert_eq!(measure("abc", 3), Some(3));
    assert_eq!(measure("abc", 2), None);
    assert_eq!(measure("a\u{e9}\u{20ac}", 3), Some(3));
    assert_eq!(measure("\u{ffff}", 1), Some(1));
    assert_eq!(measure("\u{10000}", 2), Some(2));
    assert_eq!(measure("\u{10000}", 1), None);
    assert_eq!(measure("a\u{1f511}b", 4), Some(4));
    assert_eq!(measure("a\u{1f511}b", 3), None);
    assert_eq!(measure("abc", usize::MAX), Some(3));
    let narrow = "\u{e9}".repeat(16383);
    assert!(check(Portability::Strict, &narrow));
    let wide = "\u{1f511}".repeat(8191);
    assert!(check(Portability::Strict, &wide));
    let wider = "\u{1f511}".repeat(8192);
    assert!(!check(Portability::Strict, &wider));
    let windows = Broker::new(Platform::Windows, Portability::Deferred);
    assert!(windows.accepts_key(&"\u{1f511}".repeat(16382), "ab"));
    assert!(!windows.accepts_key(&"\u{1f511}".repeat(16382), "abc"));
    assert!(windows.accepts_service(&"\u{1f511}".repeat(16383)));
    assert!(!windows.accepts_service(&format!("a{}", "\u{1f511}".repeat(16383))));
}

#[test]
fn deferred_limits_are_those_of_the_platform() {
    let windows = Broker::new(Platform::Windows, Portability::Deferred);
    let macos = Broker::new(Platform::MacOs, Portability::Deferred);
    let linux = Broker::new(Platform::Linux, Portability::Deferred);
    assert_eq!(windows::TARGET_LIMIT, 32767);
    assert!(windows.accepts_key(&name_of(16383), &name_of(16383)));
    assert!(windows.accepts_key(&name_of(32765), "a"));
    assert!(!windows.accepts_key(&name_of(32766), "a"));
    assert!(!windows.accepts_key("a", &name_of(32766)));
    assert!(!windows.accepts_key(&name_of(16384), &name_of(16383)));
    assert!(windows.accepts_service(&name_of(32766)));
    assert!(!windows.accepts_service(&name_of(32767)));
    assert!(macos.accepts_key(&name_of(40000), &name_of(40000)));
    assert!(linux.accepts_key(&name_of(40000), &name_of(40000)));
    assert!(macos.accepts_service(&name_of(40000)));
    assert!(windows.plan_delete_password(&name_of(32766), "a") == Err(Error::Invalid));
    assert!(windows.plan_find(&name_of(32767)) == Err(Error::Invalid));
}

#[test]
fn a_secret_too_large_for_credential_manager_is_invalid() {
    assert_eq!(windows::BLOB_LIMIT, 2560);
    let windows = Broker::new(Platform::Windows, Portability::Strict);
    let fits = vec![7u8; 2560];
    let too_large = vec![7u8; 2561];
    assert!(windows.accepts_secret(&fits));
    assert!(!windows.accepts_secret(&too_large));
    assert!(windows.plan_set_password("svc", "user", &fits).is_ok());
    assert!(windows.plan_set_password("svc", "user", &too_large) == Err(Error::Invalid));
    for platform in [Platform::MacOs, Platform::Linux] {
        let other = Broker::new(platform, Portability::Strict);
        assert!(other.accepts_secret(&too_large));
        assert!(other.plan_set_password("svc", "user", &too_large).is_ok());
    }
}

#[test]
fn target_names() {
    assert_eq!(windows::compose_target("app", "alice"), "app/alice");
    assert_eq!(windows::compose_target("a", "b"), "a/b");
    assert_eq!(windows::compose_filter("app"), "app*");
    assert_eq!(windows::WILDCARD, '*');
}

#[test]
fn target_names_split_back() {
    assert_eq!(windows::split_target("app", "app/alice"), Some(String::from("alice")));
    assert_eq!(windows::split_target("app", "app/\u{e9}l"), Some(String::from("\u{e9}l")));
    assert_eq!(windows::split_target("app", "app/alice/x"), None);
    assert_eq!(windows::split_target("app", "app/"), None);
    assert_eq!(windows::split_target("app", "app"), None);
    assert_eq!(windows::split_target("app", "application"), None);
    assert_eq!(windows::split_target("app", "app2/bob"), None);
    assert_eq!(windows::split_target("app", "ap/alice"), None);
    assert_eq!(windows::split_target("app", "apq/alice"), None);
    assert_eq!(windows::split_target("app", ""), None);
    assert_eq!(windows::split_target("", "/alice"), Some(String::from("alice")));
    let composed = windows::compose_target("svc", "user");
    assert_eq!(windows::split_target("svc", &composed), Some(String::from("user")));
}

#[test]
fn plans_on_windows() {
    let b = Broker::new(Platform::Windows, Portability::Deferred);
    let entry = || AddressOf::Target(String::from("app/alice"));
    assert!(
        b.plan_set_password("app", "alice", b"pw")
            == Ok(first(RequestOf::Write { entry: entry(), secret: b"pw".to_vec() }))
    );
    assert!(b.plan_get_password("app", "alice") == Ok(first(RequestOf::Read { entry: entry() })));
    assert!(
        b.plan_delete_password("app", "alice")
            == Ok(first(RequestOf::Delete { entry: entry() }))
    );
    assert!(
        b.plan_find("app")
            == Ok(first(RequestOf::Search { scope: ScopeOf::Filter(String::from("app*")) }))
    );
}

#[test]
fn plans_on_macos_and_linux() {
    let entry = || AddressOf::Attributes {
        service: String::from("app"),
        account: String::from("alice"),
    };
    let m = Broker::new(Platform::MacOs, Portability::Deferred);
    assert!(
        m.plan_set_password("app", "alice", b"pw")
            == Ok(first(RequestOf::Add { entry: entry(), secret: b"pw".to_vec() }))
    );
    let l = Broker::new(Platform::Linux, Portability::Deferred);
    assert!(
        l.plan_set_password("app", "alice", b"pw")
            == Ok(first(RequestOf::Write { entry: entry(), secret: b"pw".to_vec() }))
    );
    for b in [m, l] {
        assert!(
            b.plan_get_password("app", "alice")
                == Ok(first(RequestOf::Read { entry: entry() }))
        );
        assert!(
            b.plan_delete_password("app", "alice")
                == Ok(first(RequestOf::Delete { entry: entry() }))
        );
        assert!(
            b.plan_find("app")
                == Ok(first(RequestOf::Search { scope: ScopeOf::Service(String::from("app")) }))
        );
    }
}

#[test]
fn a_broker_for_the_host() {
    let b = Broker::for_os("windows", Portability::Strict).unwrap();
    assert_eq!(b.platform(), Platform::Windows);
    assert_eq!(b.portability(), Portability::Strict);
    let b = Broker::for_os("macos", Portability::Deferred).unwrap();
    assert_eq!(b.platform(), Platform::MacOs);
    assert_eq!(b.portability(), Portability::Deferred);
    let b = Broker::for_os("linux", Portability::Deferred).unwrap();
    assert_eq!(b.platform(), Platform::Linux);
    assert_eq!(Broker::for_os("freebsd", Portability::Deferred), Err(Error::Unsupported));
    assert_eq!(Broker::for_os("", Portability::Deferred), Err(Error::Unsupported));
    assert_eq!(Broker::for_os("Linux", Portability::Deferred), Err(Error::Unsupported));
}

#[test]
fn credential_manager_codes() {
    let m = || String::from("m");
    assert_eq!(windows::classify(1168, m()), Error::NotFound);
    assert_eq!(windows::classify(5, m()), Error::AccessDenied);
    assert_eq!(windows::classify(1312, m()), Error::Unsupported);
    assert_eq!(windows::classify(50, m()), Error::Unsupported);
    assert_eq!(windows::classify(87, m()), Error::Invalid);
    assert_eq!(windows::classify(1004, m()), Error::Invalid);
    assert_eq!(windows::classify(2202, m()), Error::Invalid);
    assert_eq!(windows::classify(8, m()), Error::Platform { code: 8, message: m() });
    assert_eq!(windows::classify(-25300, m()), Error::Platform { code: -25300, message: m() });
}

#[test]
fn keychain_codes() {
    let m = || String::from("m");
    assert_eq!(macos::classify(-25300, m()), Error::NotFound);
    assert_eq!(macos::classify(-128, m()), Error::AccessDenied);
    assert_eq!(macos::classify(-25293, m()), Error::AccessDenied);
    assert_eq!(macos::classify(-25308, m()), Error::AccessDenied);
    assert_eq!(macos::classify(-4, m()), Error::Unsupported);
    assert_eq!(macos::classify(-25291, m()), Error::Unsupported);
    assert_eq!(macos::classify(-50, m()), Error::Invalid);
    assert_eq!(macos::classify(-25299, m()), Error::Platform { code: -25299, message: m() });
    assert_eq!(macos::classify(1168, m()), Error::Platform { code: 1168, message: m() });
    assert_eq!(macos::DUPLICATE_ITEM, -25299);
}

#[test]
fn secret_service_conditions() {
    let m = || String::from("m");
    assert_eq!(linux::classify(3, m()), Error::Platform { code: 3, message: m() });
    for platform in [Platform::Windows, Platform::MacOs, Platform::Linux] {
        let b = Broker::new(platform, Portability::Deferred);
        assert_eq!(b.classify(FaultOf::Locked), Error::AccessDenied);
        assert_eq!(b.classify(FaultOf::Dismissed), Error::AccessDenied);
        assert_eq!(b.classify(FaultOf::Unavailable), Error::Unsupported);
        assert_eq!(b.classify(FaultOf::Missing), Error::NotFound);
    }
}

#[test]
fn a_status_means_what_the_platform_says() {
    let fault = |code: i64| -> Fault { FaultOf::Status { code, message: String::from("m") } };
    let w = Broker::new(Platform::Windows, Portability::Deferred);
    let m = Broker::new(Platform::MacOs, Portability::Deferred);
    let l = Broker::new(Platform::Linux, Portability::Deferred);
    assert_eq!(w.classify(fault(1168)), Error::NotFound);
    assert_eq!(m.classify(fault(-25300)), Error::NotFound);
    assert_eq!(
        w.classify(fault(-25300)),
        Error::Platform { code: -25300, message: String::from("m") }
    );
    assert_eq!(m.classify(fault(1168)), Error::Platform { code: 1168, message: String::from("m") });
    assert_eq!(l.classify(fault(1168)), Error::Platform { code: 1168, message: String::from("m") });
    assert_eq!(
        l.classify(fault(-25300)),
        Error::Platform { code: -25300, message: String::from("m") }
    );
}

#[test]
fn absence_is_a_value_not_an_error() {
    let cases: Vec<(Platform, i64)> = vec![(Platform::Windows, 1168), (Platform::MacOs, -25300)];
    for (platform, code) in cases {
        let b = Broker::new(platform, Portability::Deferred);
        let reply =
            || -> Reply { ReplyOf::Failed(FaultOf::Status { code, message: String::new() }) };
        assert_eq!(b.finish_get_password(reply()), Ok(None));
        assert_eq!(b.finish_delete_password(reply()), Ok(false));
        assert_eq!(b.finish_find_password("svc", reply()), Ok(None));
    }
    let b = Broker::new(Platform::Linux, Portability::Deferred);
    assert_eq!(b.finish_get_password(ReplyOf::Failed(FaultOf::Missing)), Ok(None));
    assert_eq!(b.finish_delete_password(ReplyOf::Failed(FaultOf::Missing)), Ok(false));
    assert_eq!(b.finish_find_password("svc", ReplyOf::Failed(FaultOf::Missing)), Ok(None));
    assert_eq!(b.finish_get_password(ReplyOf::Secret(Vec::new())), Ok(Some(Vec::new())));
    assert_eq!(b.finish_delete_password(ReplyOf::Done), Ok(true));
    assert_eq!(b.finish_set_password(b"v", ReplyOf::Done), Ok(()));
}

#[test]
fn native_failures_are_surfaced() {
    let b = Broker::new(Platform::Windows, Portability::Deferred);
    let denied = || -> Reply {
        ReplyOf::Failed(FaultOf::Status { code: 5, message: String::from("Access is denied.") })
    };
    assert_eq!(b.finish_get_password(denied()), Err(Error::AccessDenied));
    assert_eq!(b.finish_delete_password(denied()), Err(Error::AccessDenied));
    assert_eq!(b.finish_set_password(b"v", denied()), Err(Error::AccessDenied));
    let odd = || -> Reply {
        ReplyOf::Failed(FaultOf::Status { code: 1450, message: String::from("resources") })
    };
    let platform = || Error::Platform { code: 1450, message: String::from("resources") };
    assert_eq!(b.finish_get_password(odd()), Err(platform()));
    assert_eq!(b.finish_delete_password(odd()), Err(platform()));
    assert_eq!(b.finish_find_password("svc", odd()), Err(platform()));
    let too_large = || -> Reply {
        ReplyOf::Failed(FaultOf::Status { code: 87, message: String::from("parameter") })
    };
    assert_eq!(b.finish_set_password(b"v", too_large()), Err(Error::Invalid));
}

#[test]
fn every_reply_settles_the_last_request() {
    for platform in [Platform::Windows, Platform::MacOs, Platform::Linux] {
        let b = Broker::new(platform, Portability::Deferred);
        let last = || -> Exchange {
            ExchangeOf { request: RequestOf::Unlock, held: None, stage: Stage::Last }
        };
        assert!(
            b.advance(last(), ReplyOf::Failed(FaultOf::Locked))
                == ProgressOf::Settled(ReplyOf::Failed(FaultOf::Locked))
        );
        assert!(b.advance(last(), ReplyOf::Done) == ProgressOf::Settled(ReplyOf::Done));
    }
}

#[test]
fn a_duplicate_is_updated_on_keychain_only() {
    let duplicate = || -> Reply {
        ReplyOf::Failed(FaultOf::Status { code: -25299, message: String::from("dup") })
    };
    let entry = || AddressOf::Attributes { service: String::from("s"), account: String::from("a") };
    let add = || first(RequestOf::Add { entry: entry(), secret: vec![1] });
    let m = Broker::new(Platform::MacOs, Portability::Deferred);
    assert!(m.advance(add(), duplicate()) == ProgressOf::Continue(ExchangeOf {
            request: RequestOf::Update { entry: entry(), secret: vec![1] },
            held: None,
            stage: Stage::Last,
        }));
    let l = Broker::new(Platform::Linux, Portability::Deferred);
    assert!(l.advance(add(), duplicate()) == ProgressOf::Settled(duplicate()));
    let read = first(RequestOf::Read { entry: entry() });
    assert!(m.advance(read, duplicate()) == ProgressOf::Settled(duplicate()));
}

#[test]
fn an_unlock_answered_out_of_turn() {
    let l = Broker::new(Platform::Linux, Portability::Deferred);
    let entry = || AddressOf::Attributes { service: String::from("s"), account: String::from("a") };
    let unlocking = || -> Exchange {
        ExchangeOf {
            request: RequestOf::Unlock,
            held: Some(RequestOf::Read { entry: entry() }),
            stage: Stage::Unlocking,
        }
    };
    let odd: Reply = ReplyOf::Secret(vec![1]);
    assert!(l.advance(unlocking(), odd) == ProgressOf::Settled(ReplyOf::Failed(FaultOf::Status {
            code: 0,
            message: String::from("unexpected reply"),
        })));
    assert!(
        l.advance(unlocking(), ReplyOf::Failed(FaultOf::Dismissed))
            == ProgressOf::Settled(ReplyOf::Failed(FaultOf::Dismissed))
    );
    assert!(l.advance(unlocking(), ReplyOf::Done) == ProgressOf::Continue(ExchangeOf {
            request: RequestOf::Read { entry: entry() },
            held: None,
            stage: Stage::Last,
        }));
}

#[test]
fn decimal_numbers() {
    assert_eq!(decimal_text(0), "0");
    assert_eq!(decimal_text(7), "7");
    assert_eq!(decimal_text(10), "10");
    assert_eq!(decimal_text(1168), "1168");
    assert_eq!(decimal_text(-1), "-1");
    assert_eq!(decimal_text(-25300), "-25300");
    assert_eq!(decimal_text(4294967295), "4294967295");
    assert_eq!(decimal_text(i64::MAX), "9223372036854775807");
    assert_eq!(decimal_text(i64::MIN), "-9223372036854775808");
    assert_eq!(decimal_text(1234567890), "1234567890");
}

#[test]
fn the_text_of_each_error() {
    assert_eq!(Error::NotFound.text(), "no such entry");
    assert_eq!(Error::AccessDenied.text(), "access denied");
    assert_eq!(Error::Unsupported.text(), "no secret store available");
    assert_eq!(Error::Ambiguous.text(), "more than one entry matches");
    assert_eq!(Error::Invalid.text(), "invalid service, account or secret");
    let e = Error::Platform { code: 1450, message: String::from("out of resources") };
    assert_eq!(e.text(), "platform error 1450: out of resources");
    assert_eq!(e.code(), Some(1450));
    let e = Error::Platform { code: -67, message: String::new() };
    assert_eq!(e.text(), "platform error -67");
    assert_eq!(Error::Invalid.code(), None);
}

#[test]
fn bytes_within_bytes() {
    assert!(contains(b"hello world", b"hello"));
    assert!(contains(b"hello world", b"world"));
    assert!(contains(b"hello world", b"o w"));
    assert!(contains(b"hello world", b"hello world"));
    assert!(contains(b"hello world", b""));
    assert!(contains(b"", b""));
    assert!(!contains(b"", b"a"));
    assert!(!contains(b"hello world", b"worlds"));
    assert!(!contains(b"hello world", b"hello world!"));
    assert!(!contains(b"aaab", b"aab "));
    assert!(contains(b"aaab", b"aab"));
    assert!(contains(&[0, 255, 0, 1], &[255, 0]));
}

#[test]
fn a_message_that_shows_the_secret_is_dropped() {
    let with = |message: &str| Error::Platform { code: 9, message: String::from(message) };
    assert_eq!(scrub(with("bad value s3cret"), b"s3cret"), with(""));
    assert_eq!(scrub(with("bad value"), b"s3cret"), with("bad value"));
    assert_eq!(scrub(with("cl\u{e9} refus\u{e9}e"), "\u{e9}e".as_bytes()), with(""));
    assert_eq!(scrub(with("cl\u{e9} refus\u{e9}e"), &[0xa9, b'e']), with(""));
    assert_eq!(scrub(with("anything"), b""), with(""));
    assert_eq!(scrub(with("x"), b"platform"), with(""));
    assert_eq!(scrub(Error::AccessDenied, b"access"), Error::AccessDenied);
    assert_eq!(scrub(Error::NotFound, b"zzz"), Error::NotFound);
}
