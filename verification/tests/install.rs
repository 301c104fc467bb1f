use flatpak_installer::errors::{FetchError, InstallError};
use flatpak_installer::events::{Action, CommandEvent, Event, InstallationEvent};
use flatpak_installer::ident::PackageIdentifier;
use flatpak_installer::machine::Orchestrator;

fn ident(s: &str) -> PackageIdentifier {
    PackageIdentifier::new(s.to_string()).expect("identifier must be non-empty")
}

/// Drives a full installation up to the point where the installer process
/// has been spawned, asserting each handshake on the way, and returns the
/// machine together with the artifact path.
fn spawned(id: &str, body: &str) -> (Orchestrator, String) {
    let (mut m, _) = Orchestrator::start_install(ident(id), "/tmp".to_string());
    let acts = m.step(Event::Notified(true));
    assert!(matches!(acts.as_slice(), [Action::Get(_)]));
    let acts = m.step(Event::Response(Some(200)));
    assert_eq!(acts, vec![Action::ReadBody]);
    let acts = m.step(Event::Body(Some(body.to_string())));
    let path = match &acts[0] {
        Action::Persist(p, c) => {
            assert_eq!(c, body);
            p.clone()
        },
        other => panic!("expected a persist action, got {:?}", other),
    };
    let acts = m.step(Event::Persisted(true));
    assert!(matches!(acts.as_slice(), [Action::Emit(InstallationEvent::Output(_))]));
    let acts = m.step(Event::Notified(true));
    assert_eq!(
        acts,
        vec![Action::Emit(InstallationEvent::Output(
            "Iniciando instalación desde archivo local...".to_string()
        ))]
    );
    let acts = m.step(Event::Notified(true));
    assert_eq!(
        acts,
        vec![Action::Spawn(
            "flatpak".to_string(),
            vec![
                "install".to_string(),
                "-y".to_string(),
                "--user".to_string(),
                path.clone(),
            ],
        )]
    );
    let acts = m.step(Event::Spawned(true));
    assert_eq!(acts, vec![Action::Recv]);
    (m, path)
}

#[test]
fn install_spawns_with_the_artifact_path_last() {
    let (_, path) = spawned("org.example.App", "[Flatpak Ref]\nName=App");
    assert_eq!(path, "/tmp/org.example.App.flatpakref");
}

#[test]
fn install_streams_two_lines_then_completes_with_code_one() {
    let (mut m, path) = spawned("org.example.App", "[Flatpak Ref]\nName=App");
    let mut notes = Vec::new();
    let mut removed = Vec::new();
    let script = vec![
        Event::Command(CommandEvent::Stdout(b"Installing...".to_vec())),
        Event::Notified(true),
        Event::Command(CommandEvent::Stdout(b"Error: not found".to_vec())),
        Event::Notified(true),
        Event::Command(CommandEvent::Terminated(Some(1))),
        Event::Notified(true),
    ];
    for ev in script {
        for act in m.step(ev) {
            match act {
                Action::Emit(n) => notes.push(n),
                Action::Remove(p) => removed.push(p),
                Action::Recv => {},
                other => panic!("unexpected action while streaming: {:?}", other),
            }
        }
    }
    assert_eq!(
        notes,
        vec![
            InstallationEvent::Output("Installing...".to_string()),
            InstallationEvent::Output("Error: not found".to_string()),
            InstallationEvent::Completed(1),
        ]
    );
    assert_eq!(removed, vec![path]);
    assert_eq!(m.outcome().unwrap().map(|_| ()), Ok(()));
}

#[test]
fn completion_is_the_last_notification() {
    let (mut m, _) = spawned("org.example.App", "body");
    let acts = m.step(Event::Command(CommandEvent::Terminated(Some(0))));
    assert!(matches!(
        acts.as_slice(),
        [Action::Remove(_), Action::Emit(InstallationEvent::Completed(0))]
    ));
    let acts = m.step(Event::Notified(true));
    assert!(acts.is_empty());
    assert!(m.outcome().unwrap().is_ok());
    // anything that still arrives is ignored: nothing further is emitted
    let acts = m.step(Event::Command(CommandEvent::Stdout(b"late".to_vec())));
    assert!(acts.is_empty());
}

#[test]
fn spawn_failure_keeps_the_artifact() {
    let (mut m, _) = Orchestrator::start_install(ident("org.example.App"), "/tmp".to_string());
    m.step(Event::Notified(true));
    m.step(Event::Response(Some(200)));
    m.step(Event::Body(Some("body".to_string())));
    m.step(Event::Persisted(true));
    m.step(Event::Notified(true));
    m.step(Event::Notified(true));
    let acts = m.step(Event::Spawned(false));
    // no removal is ordered: the artifact stays in place
    assert!(acts.is_empty());
    assert_eq!(m.outcome(), Some(Err(InstallError::SpawnFailed)));
}

#[test]
fn fetch_error_never_reaches_a_spawn() {
    let (mut m, _) = Orchestrator::start_install(ident("org.example.App"), "/tmp".to_string());
    m.step(Event::Notified(true));
    let acts = m.step(Event::Response(Some(404)));
    assert!(acts.is_empty());
    assert_eq!(
        m.outcome(),
        Some(Err(InstallError::Fetch(FetchError::HttpStatus(404))))
    );
    // once failed, no event can make it spawn
    let acts = m.step(Event::Spawned(true));
    assert!(acts.is_empty());
}

#[test]
fn termination_without_code_reports_minus_one() {
    let (mut m, path) = spawned("org.example.App", "body");
    let acts = m.step(Event::Command(CommandEvent::Terminated(None)));
    assert_eq!(
        acts,
        vec![
            Action::Remove(path),
            Action::Emit(InstallationEvent::Completed(-1)),
        ]
    );
}

#[test]
fn stderr_is_relayed_as_output() {
    let (mut m, _) = spawned("org.example.App", "body");
    let acts = m.step(Event::Command(CommandEvent::Stderr(b"warning".to_vec())));
    assert_eq!(
        acts,
        vec![Action::Emit(InstallationEvent::Output("warning".to_string()))]
    );
}

#[test]
fn stream_error_is_relayed_and_streaming_goes_on() {
    let (mut m, _) = spawned("org.example.App", "body");
    let acts = m.step(Event::Command(CommandEvent::Error("pipe broke".to_string())));
    assert_eq!(
        acts,
        vec![Action::Emit(InstallationEvent::Error("pipe broke".to_string()))]
    );
    // the relay was delivered; the machine keeps consuming the stream
    let acts = m.step(Event::Notified(true));
    assert_eq!(acts, vec![Action::Recv]);
    assert!(m.outcome().is_none());
}

#[test]
fn notify_failure_mid_stream_aborts() {
    let (mut m, _) = spawned("org.example.App", "body");
    m.step(Event::Command(CommandEvent::Stdout(b"line".to_vec())));
    let acts = m.step(Event::Notified(false));
    assert!(acts.is_empty());
    assert_eq!(m.outcome(), Some(Err(InstallError::NotifyFailed)));
}

#[test]
fn invalid_bytes_are_decoded_lossily() {
    let (mut m, _) = spawned("org.example.App", "body");
    let acts = m.step(Event::Command(CommandEvent::Stdout(vec![0xff, b'o', b'k'])));
    assert_eq!(
        acts,
        vec![Action::Emit(InstallationEvent::Output("\u{FFFD}ok".to_string()))]
    );
}

#[test]
fn unknown_stream_events_are_ignored() {
    let (mut m, _) = spawned("org.example.App", "body");
    let acts = m.step(Event::Command(CommandEvent::Other));
    assert_eq!(acts, vec![Action::Recv]);
    assert!(m.outcome().is_none());
}

#[test]
fn stream_closure_without_termination_ends_quietly() {
    let (mut m, _) = spawned("org.example.App", "body");
    let acts = m.step(Event::Closed);
    // no removal and no completion notification: the loop simply ends
    assert!(acts.is_empty());
    assert!(m.outcome().unwrap().is_ok());
}
