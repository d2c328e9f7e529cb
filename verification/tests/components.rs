use watchdoc::inject::{
    is_html_content_type, should_inject, theme_payload, transform_chunks, BodyInjector, Theme,
};
use watchdoc::reload::ReloadChannel;
use watchdoc::supervisor::BuildSupervisor;

#[test]
fn html_body_gets_chunks_then_payload() {
    let chunks = vec![b"<html>".to_vec(), b"<body>hi</body>".to_vec(), b"</html>".to_vec()];
    let payload = b"<script>reload()</script>".to_vec();
    let out = transform_chunks(chunks.clone(), payload.clone());
    assert_eq!(out.len(), chunks.len() + 1);
    assert_eq!(&out[..chunks.len()], &chunks[..]);
    assert_eq!(out[chunks.len()], payload);
}

#[test]
fn empty_body_still_gets_the_payload() {
    let out = transform_chunks(Vec::new(), b"tail".to_vec());
    assert_eq!(out, vec![b"tail".to_vec()]);
}

#[test]
fn injector_forwards_then_appends_then_ends() {
    let mut inj = BodyInjector::new(b"tail".to_vec());
    assert_eq!(inj.on_poll(Some(b"one".to_vec())), Some(b"one".to_vec()));
    assert_eq!(inj.on_poll(Some(b"two".to_vec())), Some(b"two".to_vec()));
    assert_eq!(inj.on_poll(None), Some(b"tail".to_vec()));
    assert_eq!(inj.on_poll(None), None);
    assert_eq!(inj.on_poll(None), None);
}

#[test]
fn content_type_decides_injection() {
    assert!(is_html_content_type("text/html"));
    assert!(is_html_content_type("text/html; charset=utf-8"));
    assert!(!is_html_content_type("text/plain"));
    assert!(!is_html_content_type("application/json"));
    assert!(!is_html_content_type("text/htm"));
    assert!(should_inject(Some("text/html")));
    assert!(!should_inject(Some("image/svg+xml")));
    assert!(!should_inject(None));
}

#[test]
fn theme_payloads_are_the_exact_scripts() {
    assert_eq!(
        theme_payload(Theme::Light),
        r#"<script/> updateLocalStorage("preferred-dark-theme", "dark"); updateLocalStorage("theme", "light"); updateLocalStorage("use-system-theme", "false"); updateTheme() </script>"#
    );
    assert_eq!(
        theme_payload(Theme::Dark),
        r#"<script/> updateLocalStorage("preferred-dark-theme", "dark"); updateLocalStorage("theme", "dark"); updateLocalStorage("use-system-theme", "false"); updateTheme() </script>"#
    );
    assert_eq!(
        theme_payload(Theme::Ayu),
        r#"<script/> updateLocalStorage("preferred-dark-theme", "ayu"); updateLocalStorage("theme", "ayu"); updateLocalStorage("use-system-theme", "false"); updateTheme() </script>"#
    );
    assert_eq!(
        theme_payload(Theme::AutoAyu),
        r#"<script/> updateLocalStorage("preferred-dark-theme", "ayu"); updateLocalStorage("theme", "ayu"); updateLocalStorage("use-system-theme", "true"); updateTheme() </script>"#
    );
    assert_eq!(
        theme_payload(Theme::AutoDark),
        r#"<script/> updateLocalStorage("preferred-dark-theme", "dark"); updateLocalStorage("theme", "dark"); updateLocalStorage("use-system-theme", "true"); updateTheme() </script>"#
    );
}

#[test]
fn reload_channel_has_at_most_one_pending() {
    let mut ch = ReloadChannel::new();
    let mut sub = ch.subscribe();
    assert!(!sub.take_pending(&ch));
    ch.notify();
    assert!(sub.take_pending(&ch));
    assert!(!sub.take_pending(&ch));
    // Several notifications between looks collapse into one.
    ch.notify();
    ch.notify();
    ch.notify();
    assert!(sub.take_pending(&ch));
    assert!(!sub.take_pending(&ch));
}

#[test]
fn late_subscriber_misses_earlier_notifications() {
    let mut ch = ReloadChannel::new();
    ch.notify();
    ch.notify();
    let mut sub = ch.subscribe();
    assert!(!sub.take_pending(&ch));
    ch.notify();
    assert!(sub.take_pending(&ch));
}

#[test]
fn supervisor_accepts_each_start_once() {
    let mut sup = BuildSupervisor::new();
    let a = sup.start();
    assert!(!sup.accept_completion(a + 1));
    assert!(sup.accept_completion(a));
    assert!(!sup.accept_completion(a));
    let b = sup.start();
    assert_ne!(a, b);
    sup.cancel();
    // A cancelled run's completion is stale.
    assert!(!sup.accept_completion(b));
}
