use container_launcher::launcher::{exit_code, Action, Event, Launcher, Stage};
use container_launcher::layer::decode_layer;
use container_launcher::failure::Failure;
use container_launcher::manifest::{Layer, ManifestEntry};
use container_launcher::reference::ImageReference;
use flate2::write::GzEncoder;
use flate2::Compression;
use std::io::Write;

fn launcher(arch: &str) -> (Launcher, Action) {
    let image = ImageReference { name: "busybox".to_string(), tag: "1.36".to_string() };
    Launcher::new(image, arch.to_string())
}

fn index() -> Vec<ManifestEntry> {
    vec![
        ManifestEntry { digest: "sha256:amd".to_string(), architecture: "amd64".to_string() },
        ManifestEntry { digest: "sha256:arm".to_string(), architecture: "arm64".to_string() },
    ]
}

fn layers(n: usize) -> Vec<Layer> {
    (0..n).map(|i| Layer { digest: format!("sha256:layer{}", i) }).collect()
}

/// Drives a run up to the point where it has resolved and listed `n` layers.
fn resolved(n: usize) -> (Launcher, Action) {
    let (mut l, a) = launcher("arm64");
    assert_eq!(a, Action::CreateWorkspace);
    assert_eq!(l.step(Event::WorkspaceCreated), Action::FetchToken);
    assert_eq!(l.step(Event::TokenIssued("tok".to_string())), Action::FetchIndex);
    assert_eq!(l.step(Event::IndexFetched(index())), Action::FetchManifest);
    let a = l.step(Event::ManifestFetched(layers(n)));
    (l, a)
}

#[test]
fn requests_follow_the_run() {
    let (mut l, _) = launcher("arm64");
    assert_eq!(
        l.token_url(),
        "https://auth.docker.io/token?service=registry.docker.io&scope=repository:library/busybox:pull"
    );
    l.step(Event::WorkspaceCreated);
    l.step(Event::TokenIssued("tok".to_string()));
    assert_eq!(l.token(), "tok");
    assert_eq!(l.index_url(), "https://registry.hub.docker.com/v2/library/busybox/manifests/1.36");
    l.step(Event::IndexFetched(index()));
    assert_eq!(l.manifest_url(), "https://registry.hub.docker.com/v2/library/busybox/manifests/sha256:arm");
    l.step(Event::ManifestFetched(layers(2)));
    assert_eq!(l.layer_count(), 2);
    assert_eq!(l.layer_url(1), "https://registry.hub.docker.com/v2/library/busybox/blobs/sha256:layer1");
}

#[test]
fn two_layer_run_ends_with_status_zero() {
    let (mut l, a) = resolved(2);
    assert_eq!(a, Action::FetchLayer(0));
    assert_eq!(l.step(Event::LayerExtracted), Action::FetchLayer(1));
    assert_eq!(l.step(Event::LayerExtracted), Action::ChangeRoot);
    assert_eq!(l.step(Event::RootChanged), Action::IsolatePids);
    assert_eq!(l.step(Event::PidsIsolated), Action::RunCommand);
    assert_eq!(l.step(Event::CommandExited { success: true, code: Some(0) }), Action::Exit(0));
    assert_eq!(l.stage(), Stage::Finished);
}

#[test]
fn command_exit_code_is_forwarded() {
    let (mut l, _) = resolved(1);
    assert_eq!(l.step(Event::LayerExtracted), Action::ChangeRoot);
    assert_eq!(l.step(Event::RootChanged), Action::IsolatePids);
    assert_eq!(l.step(Event::PidsIsolated), Action::RunCommand);
    assert_eq!(l.step(Event::CommandExited { success: false, code: Some(7) }), Action::Exit(7));
}

#[test]
fn exit_code_rules() {
    assert_eq!(exit_code(true, Some(0)), 0);
    assert_eq!(exit_code(false, Some(7)), 7);
    assert_eq!(exit_code(false, Some(255)), 255);
    assert_eq!(exit_code(false, None), 1);
}

#[test]
fn absent_architecture_stops_before_any_blob() {
    let (mut l, _) = launcher("riscv64");
    l.step(Event::WorkspaceCreated);
    l.step(Event::TokenIssued("tok".to_string()));
    assert_eq!(l.step(Event::IndexFetched(index())), Action::Abort(Failure::NoManifestForArchitecture));
    assert_eq!(l.stage(), Stage::Failed);
    assert_eq!(l.step(Event::ManifestFetched(layers(1))), Action::Abort(Failure::OutOfOrder));
    assert_eq!(l.step(Event::LayerExtracted), Action::Abort(Failure::OutOfOrder));
    assert_eq!(l.stage(), Stage::Failed);
}

#[test]
fn empty_layer_list_goes_to_root_change() {
    let (l, a) = resolved(0);
    assert_eq!(a, Action::ChangeRoot);
    assert_eq!(l.stage(), Stage::ChangingRoot);
}

#[test]
fn pid_isolation_only_after_root_change() {
    let (mut l, _) = resolved(0);
    assert_eq!(l.step(Event::PidsIsolated), Action::Abort(Failure::OutOfOrder));
    assert_eq!(l.stage(), Stage::Failed);
    assert_eq!(l.step(Event::RootChanged), Action::Abort(Failure::OutOfOrder));
}

#[test]
fn command_never_runs_without_both_isolations() {
    let (mut l, _) = resolved(0);
    assert_eq!(l.step(Event::RootChanged), Action::IsolatePids);
    assert_eq!(
        l.step(Event::CommandExited { success: true, code: Some(0) }),
        Action::Abort(Failure::OutOfOrder)
    );
}

#[test]
fn failed_step_aborts_with_its_failure() {
    let (mut l, _) = resolved(0);
    assert_eq!(l.step(Event::StepFailed(Failure::Isolation)), Action::Abort(Failure::Isolation));
    assert_eq!(l.stage(), Stage::Failed);
    assert_eq!(l.step(Event::StepFailed(Failure::Launch)), Action::Abort(Failure::OutOfOrder));
}

#[test]
fn workspace_comes_before_everything() {
    let (mut l, a) = launcher("arm64");
    assert_eq!(a, Action::CreateWorkspace);
    assert_eq!(l.stage(), Stage::PreparingWorkspace);
    assert_eq!(l.step(Event::LayerExtracted), Action::Abort(Failure::OutOfOrder));
}

#[test]
fn workspace_failure_aborts() {
    let (mut l, _) = launcher("arm64");
    assert_eq!(l.step(Event::StepFailed(Failure::Workspace)), Action::Abort(Failure::Workspace));
}

fn layer_blob(files: &[(&str, &[u8])]) -> Vec<u8> {
    let mut builder = tar::Builder::new(Vec::new());
    for (path, data) in files {
        let mut header = tar::Header::new_gnu();
        header.set_size(data.len() as u64);
        header.set_mode(0o644);
        header.set_cksum();
        builder.append_data(&mut header, path, *data).unwrap();
    }
    let archive = builder.into_inner().unwrap();
    let mut enc = GzEncoder::new(Vec::new(), Compression::default());
    enc.write_all(&archive).unwrap();
    enc.finish().unwrap()
}

#[test]
fn later_layer_overwrites_earlier_one() {
    let blobs = vec![
        layer_blob(&[("etc/motd", b"lower"), ("bin/true", b"#!")]),
        layer_blob(&[("etc/motd", b"upper")]),
    ];
    let root = tempfile::tempdir().unwrap();
    let (mut l, mut a) = resolved(2);
    let mut order = Vec::new();
    while let Action::FetchLayer(i) = a {
        order.push(i);
        let archive = decode_layer(&blobs[i]).unwrap();
        tar::Archive::new(archive.as_slice()).unpack(root.path()).unwrap();
        a = l.step(Event::LayerExtracted);
    }
    assert_eq!(a, Action::ChangeRoot);
    assert_eq!(order, vec![0, 1]);
    let mut merged = Vec::new();
    let mut archive = tar::Builder::new(Vec::new());
    archive.append_dir_all(".", root.path()).unwrap();
    let bytes = archive.into_inner().unwrap();
    for entry in tar::Archive::new(bytes.as_slice()).entries().unwrap() {
        let mut entry = entry.unwrap();
        let path = entry.path().unwrap().to_string_lossy().to_string();
        let mut data = Vec::new();
        std::io::Read::read_to_end(&mut entry, &mut data).unwrap();
        merged.push((path, data));
    }
    assert!(merged.contains(&("etc/motd".to_string(), b"upper".to_vec())));
    assert!(merged.contains(&("bin/true".to_string(), b"#!".to_vec())));
}
