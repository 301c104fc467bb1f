use flatpak_installer::descriptor::{artifact_path, descriptor_url, installer_args};
use flatpak_installer::errors::{FetchError, InstallError};
use flatpak_installer::events::{Action, Event, InstallationEvent};
use flatpak_installer::greet;
use flatpak_installer::ident::PackageIdentifier;
use flatpak_installer::machine::Orchestrator;

fn ident(s: &str) -> PackageIdentifier {
    PackageIdentifier::new(s.to_string()).expect("identifier must be non-empty")
}

#[test]
fn greet_formats_the_template_greeting() {
    assert_eq!(greet("World"), "Hello, World! You've been greeted from Rust!");
}

#[test]
fn identifier_rejects_empty_accepts_nonempty() {
    assert!(PackageIdentifier::new(String::new()).is_none());
    let p = PackageIdentifier::new("org.example.App".to_string()).unwrap();
    assert_eq!(p.as_str(), "org.example.App");
}

#[test]
fn url_and_path_are_deterministic() {
    assert_eq!(
        descriptor_url("org.example.App"),
        "https://dl.flathub.org/repo/appstream/org.example.App.flatpakref"
    );
    assert_eq!(
        artifact_path("/tmp", "org.example.App"),
        "/tmp/org.example.App.flatpakref"
    );
}

#[test]
fn installer_args_end_with_the_artifact_path() {
    let args = installer_args("/tmp/org.example.App.flatpakref");
    assert_eq!(args, vec!["install", "-y", "--user", "/tmp/org.example.App.flatpakref"]);
    assert_eq!(args.last().unwrap(), "/tmp/org.example.App.flatpakref");
}

#[test]
fn fetch_success_persists_body_and_notifies_twice() {
    let (mut m, acts) = Orchestrator::start_fetch(ident("org.example.App"), "/tmp".to_string());
    let url = "https://dl.flathub.org/repo/appstream/org.example.App.flatpakref";
    let path = "/tmp/org.example.App.flatpakref";
    assert_eq!(
        acts,
        vec![Action::Emit(InstallationEvent::Output(format!(
            "Descargando referencia desde {}",
            url
        )))]
    );
    let acts = m.step(Event::Notified(true));
    assert_eq!(acts, vec![Action::Get(url.to_string())]);
    let acts = m.step(Event::Response(Some(200)));
    assert_eq!(acts, vec![Action::ReadBody]);
    let body = "[Flatpak Ref]\nName=App";
    let acts = m.step(Event::Body(Some(body.to_string())));
    assert_eq!(acts, vec![Action::Persist(path.to_string(), body.to_string())]);
    let acts = m.step(Event::Persisted(true));
    assert_eq!(
        acts,
        vec![Action::Emit(InstallationEvent::Output(format!(
            "✓ Referencia descargada: \"{}\"",
            path
        )))]
    );
    assert!(m.outcome().is_none());
    let acts = m.step(Event::Notified(true));
    assert!(acts.is_empty());
    let art = m.outcome().unwrap().unwrap();
    assert_eq!(art.identifier, "org.example.App");
    assert_eq!(art.path, path);
    assert_eq!(art.content, body);
}

#[test]
fn fetch_repeated_overwrites_the_same_path() {
    let body = "[Flatpak Ref]\nName=App";
    let mut paths = Vec::new();
    for _ in 0..2 {
        let (mut m, _) = Orchestrator::start_fetch(ident("org.example.App"), "/tmp".to_string());
        m.step(Event::Notified(true));
        m.step(Event::Response(Some(200)));
        let acts = m.step(Event::Body(Some(body.to_string())));
        match &acts[0] {
            Action::Persist(p, c) => {
                assert_eq!(c, body);
                paths.push(p.clone());
            },
            other => panic!("expected a persist action, got {:?}", other),
        }
    }
    assert_eq!(paths[0], paths[1]);
}

#[test]
fn fetch_http_404_fails_without_writing() {
    let (mut m, _) = Orchestrator::start_fetch(ident("org.example.App"), "/tmp".to_string());
    m.step(Event::Notified(true));
    let acts = m.step(Event::Response(Some(404)));
    assert!(acts.is_empty());
    assert_eq!(
        m.outcome(),
        Some(Err(InstallError::Fetch(FetchError::HttpStatus(404))))
    );
}

#[test]
fn fetch_transport_failure_is_reported() {
    let (mut m, _) = Orchestrator::start_fetch(ident("org.example.App"), "/tmp".to_string());
    m.step(Event::Notified(true));
    let acts = m.step(Event::Response(None));
    assert!(acts.is_empty());
    assert_eq!(m.outcome(), Some(Err(InstallError::Fetch(FetchError::Transport))));
}

#[test]
fn fetch_decode_failure_is_reported() {
    let (mut m, _) = Orchestrator::start_fetch(ident("org.example.App"), "/tmp".to_string());
    m.step(Event::Notified(true));
    m.step(Event::Response(Some(204)));
    let acts = m.step(Event::Body(None));
    assert!(acts.is_empty());
    assert_eq!(m.outcome(), Some(Err(InstallError::Fetch(FetchError::Decode))));
}

#[test]
fn fetch_persist_failure_is_reported() {
    let (mut m, _) = Orchestrator::start_fetch(ident("org.example.App"), "/tmp".to_string());
    m.step(Event::Notified(true));
    m.step(Event::Response(Some(200)));
    m.step(Event::Body(Some("body".to_string())));
    let acts = m.step(Event::Persisted(false));
    assert!(acts.is_empty());
    assert_eq!(m.outcome(), Some(Err(InstallError::Fetch(FetchError::Persist))));
}

#[test]
fn fetch_notify_failure_aborts_before_the_request() {
    let (mut m, _) = Orchestrator::start_fetch(ident("org.example.App"), "/tmp".to_string());
    let acts = m.step(Event::Notified(false));
    assert!(acts.is_empty());
    assert_eq!(
        m.outcome(),
        Some(Err(InstallError::Fetch(FetchError::NotifyFailed)))
    );
}

#[test]
fn notifications_name_their_channels() {
    assert_eq!(InstallationEvent::Output("x".to_string()).channel(), "install-output");
    assert_eq!(InstallationEvent::Error("x".to_string()).channel(), "install-error");
    assert_eq!(InstallationEvent::Completed(0).channel(), "install-completed");
}

#[test]
fn errors_render_their_boundary_text() {
    assert_eq!(
        FetchError::Transport.message("connection reset"),
        "Error descargando flatpakref: connection reset"
    );
    assert_eq!(
        FetchError::HttpStatus(404).message("404 Not Found"),
        "Error HTTP: 404 Not Found"
    );
    assert_eq!(FetchError::Decode.message("bad utf-8"), "Error leyendo contenido: bad utf-8");
    assert_eq!(FetchError::Persist.message("read-only"), "Error guardando archivo: read-only");
    assert_eq!(FetchError::NotifyFailed.message("closed"), "Failed to emit: closed");
    assert_eq!(
        InstallError::Fetch(FetchError::Transport).message("timeout"),
        "Error descargando flatpakref: timeout"
    );
    assert_eq!(
        InstallError::SpawnFailed.message("no such file"),
        "Failed to spawn flatpak: no such file"
    );
    assert_eq!(InstallError::NotifyFailed.message("closed"), "Failed to emit: closed");
}
