use pkg_export_container::error::{Error, ExitStatus};
use pkg_export_container::image::{
    first_line_of, Credentials, DockerImage, EngineOp, ImageBuilder, DEFAULT_REGISTRY,
};

const OK: ExitStatus = ExitStatus { code: Some(0) };
const FAIL: ExitStatus = ExitStatus { code: Some(1) };

fn strings(v: &[&str]) -> Vec<String> {
    v.iter().map(|s| s.to_string()).collect()
}

fn image(tags: &[&str]) -> DockerImage {
    DockerImage {
        id: "i".to_string(),
        name: "core/redis".to_string(),
        tags: strings(tags),
        workdir: "/tmp/work".to_string(),
    }
}

#[test]
fn builder_accumulates_tags_and_memory() {
    let b = ImageBuilder::new("/w", "core/redis").tag("a".to_string()).tag("b".to_string()).memory("2g");
    assert_eq!(b.tags, strings(&["a", "b"]));
    assert_eq!(b.memory, Some("2g".to_string()));
    assert_eq!(
        b.build_args(),
        strings(&["build", "--force-rm", "--memory", "2g", "--tag", "core/redis:a", "--tag", "core/redis:b", "."])
    );
}

#[test]
fn build_args_without_tags_or_memory() {
    let b = ImageBuilder::new("/w", "core/redis");
    assert_eq!(b.build_args(), strings(&["build", "--force-rm", "--tag", "core/redis", "."]));
    assert_eq!(b.id_query(), "core/redis");
}

#[test]
fn build_resolves_id_of_first_tag() {
    let b = ImageBuilder::new("/w", "core/redis").tag("4.0.14".to_string()).tag("latest".to_string());
    assert_eq!(b.id_query(), "core/redis:4.0.14");
    let img = b.build(OK, "abc123\n").ok().unwrap();
    assert_eq!(img.id, "abc123");
    assert_eq!(img.name, "core/redis");
    assert_eq!(img.tags, strings(&["4.0.14", "latest"]));
    assert_eq!(img.workdir, "/w");
}

#[test]
fn build_without_id_line_fails_with_query() {
    let b = ImageBuilder::new("/w", "core/redis").tag("4.0.14".to_string());
    match b.build(OK, "") {
        Err(Error::DockerImageIdNotFound(t)) => assert_eq!(t, "core/redis:4.0.14"),
        _ => panic!("expected a missing id"),
    }
}

#[test]
fn failed_build_reports_exit_status() {
    let b = ImageBuilder::new("/w", "core/redis");
    let st = ExitStatus { code: Some(2) };
    assert!(matches!(b.build(st, "abc\n"), Err(Error::BuildFailed(s)) if s == st));
    let killed = ExitStatus { code: None };
    let b = ImageBuilder::new("/w", "core/redis");
    assert!(matches!(b.build(killed, "abc\n"), Err(Error::BuildFailed(s)) if s == killed));
}

#[test]
fn first_line_follows_line_rules() {
    assert_eq!(first_line_of(""), None);
    assert_eq!(first_line_of("\n"), Some("".to_string()));
    assert_eq!(first_line_of("abc"), Some("abc".to_string()));
    assert_eq!(first_line_of("abc\r\ndef\n"), Some("abc".to_string()));
    assert_eq!(first_line_of("abc\r"), Some("abc\r".to_string()));
}

#[test]
fn push_stops_at_first_failure() {
    let img = image(&["a", "b", "c"]);
    let mut run = img.push();
    assert_eq!(run.op, EngineOp::Push);
    let mut completed = Vec::new();
    let mut attempted = Vec::new();
    let mut err = None;
    while let Some(id) = run.next() {
        attempted.push(id.clone());
        let st = if id.ends_with(":b") { FAIL } else { OK };
        match run.record(st) {
            Ok(()) => completed.push(id),
            Err(e) => err = Some(e),
        }
    }
    assert_eq!(completed, strings(&["core/redis:a"]));
    assert_eq!(attempted, strings(&["core/redis:a", "core/redis:b"]));
    assert!(matches!(err, Some(Error::PushImageFailed(s)) if s == FAIL));
    assert_eq!(run.next(), None);
}

#[test]
fn push_args_name_config_dir() {
    let img = image(&["a"]);
    assert_eq!(img.push_args("core/redis:a"), strings(&["--config", "/tmp/work", "push", "core/redis:a"]));
}

#[test]
fn rm_runs_every_address_and_fails_fast() {
    let run = image(&[]).rm();
    assert_eq!(run.ids, strings(&["core/redis"]));
    let mut run = image(&["a", "b"]).rm();
    assert_eq!(run.op, EngineOp::Remove);
    assert_eq!(run.next(), Some("core/redis:a".to_string()));
    assert!(run.record(OK).is_ok());
    assert_eq!(run.next(), Some("core/redis:b".to_string()));
    let st = ExitStatus { code: Some(3) };
    assert!(matches!(run.record(st), Err(Error::RemoveImageFailed(s)) if s == st));
    assert_eq!(run.next(), None);
    assert_eq!(DockerImage::remove_args("core/redis:a"), strings(&["rmi", "core/redis:a"]));
}

#[test]
fn docker_config_default_registry() {
    let img = image(&[]);
    let creds = Credentials { token: "T".to_string() };
    assert_eq!(
        img.create_docker_config_file(&creds, None),
        "{\"auths\":{\"https://index.docker.io/v1/\":{\"auth\":\"T\"}}}"
    );
    assert_eq!(DEFAULT_REGISTRY, "https://index.docker.io/v1/");
}

#[test]
fn docker_config_registry_override_and_escaping() {
    let img = image(&[]);
    let creds = Credentials { token: "a\"b".to_string() };
    assert_eq!(
        img.create_docker_config_file(&creds, Some("r.example")),
        "{\"auths\":{\"r.example\":{\"auth\":\"a\\\"b\"}}}"
    );
}

#[test]
fn report_joins_tags_and_addresses() {
    let img = image(&["a", "b"]);
    let report = img.create_report().ok().unwrap();
    assert!(report.contains("id=i\n"));
    assert!(report.contains("name=core/redis\n"));
    assert!(report.contains("tags=a,b\n"));
    assert!(report.contains("name_tags=core/redis:a,core/redis:b\n"));
}

#[test]
fn report_without_tags_has_empty_lists() {
    let img = image(&[]);
    let report = img.create_report().ok().unwrap();
    assert_eq!(report, "id=i\nname=core/redis\ntags=\nname_tags=\n");
}

#[test]
fn docker_config_escapes_control_characters() {
    let img = image(&[]);
    let creds = Credentials { token: "a\u{1}\n\\".to_string() };
    assert_eq!(
        img.create_docker_config_file(&creds, Some("r")),
        "{\"auths\":{\"r\":{\"auth\":\"a\\u0001\\n\\\\\"}}}"
    );
}
