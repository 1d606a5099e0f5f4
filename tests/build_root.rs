use pkg_export_container::build_root::{
    add_users_and_groups, create_dockerfile, create_entrypoint, to_forward_slashes, BuildContext,
    DockerBuildRoot, Platform,
};

fn strings(v: &[&str]) -> Vec<String> {
    v.iter().map(|s| s.to_string()).collect()
}

fn context(packages: &[&str], multi_layer: bool) -> BuildContext {
    BuildContext {
        rootfs_name: "rootfs".to_string(),
        base_image: "scratch".to_string(),
        env_path: "/hab/bin:/bin".to_string(),
        exposes: strings(&["6379", "8080"]),
        multi_layer,
        primary_svc_ident: "core/redis".to_string(),
        installed_primary_svc_ident: "core/redis/4.0.14/20190319155852".to_string(),
        channel: "stable".to_string(),
        users: strings(&["hab:x:42:42:root:/tmp:/bin/sh"]),
        groups: strings(&["hab:x:42:hab", "redis:x:43:"]),
        environment: vec![("B".to_string(), "2".to_string()), ("A".to_string(), "1".to_string())],
        packages: strings(packages),
        hab_pkg_path: "C:\\rootfs\\hab\\pkgs\\core\\hab".to_string(),
        busybox_pkg_path: "/hab/pkgs/core/busybox-static".to_string(),
        bin_path: "/hab/bin".to_string(),
    }
}

#[test]
fn descriptor_keeps_dependency_order() {
    let ctx = context(&["core/base", "core/runtime", "core/app"], true);
    let d = create_dockerfile(&ctx, Platform::ContainerInit).ok().unwrap();
    let base = d.find("hab/pkgs/core/base ").unwrap();
    let runtime = d.find("hab/pkgs/core/runtime ").unwrap();
    let app = d.find("hab/pkgs/core/app ").unwrap();
    assert!(base < runtime && runtime < app);
}

#[test]
fn descriptor_fields() {
    let ctx = context(&["core/app"], false);
    let d = create_dockerfile(&ctx, Platform::ContainerInit).ok().unwrap();
    assert!(d.starts_with("FROM scratch\n"));
    assert!(d.contains("ADD rootfs /\n"));
    assert!(!d.contains("hab/pkgs/core/app"));
    assert!(d.contains("EXPOSE 9631 6379 8080\n"));
    assert!(d.contains("ENV A=1 B=2 PATH=/hab/bin:/bin\n"));
    assert!(d.contains("C:/rootfs/hab/pkgs/core/hab/bin/hab svc status"));
    assert!(d.contains("CMD [\"run\", \"core/redis\"]"));
    let n = create_dockerfile(&ctx, Platform::NativeInit).ok().unwrap();
    assert!(n.contains("ENTRYPOINT [\"C:/rootfs/hab/pkgs/core/hab/bin/hab\", \"sup\"]"));
}

#[test]
fn forward_slashes_replace_backslashes() {
    assert_eq!(to_forward_slashes("a\\b\\c/d"), "a/b/c/d");
    assert_eq!(to_forward_slashes(""), "");
}

#[test]
fn users_and_groups_are_lines_in_order() {
    let ctx = context(&[], false);
    let (u, g) = add_users_and_groups(&ctx);
    assert_eq!(u, "hab:x:42:42:root:/tmp:/bin/sh\n");
    assert_eq!(g, "hab:x:42:hab\nredis:x:43:\n");
}

#[test]
fn entrypoint_names_shell_path_and_service() {
    let ctx = context(&[], false);
    let e = create_entrypoint(&ctx).ok().unwrap();
    assert!(e.starts_with("#!/hab/pkgs/core/busybox-static/bin/sh\n"));
    assert!(e.contains("export PATH=/hab/bin:/bin\n"));
    assert!(e.contains("exec /hab/bin/hab sup \"$@\""));
}

#[test]
fn container_init_root_has_all_artifacts() {
    let ctx = context(&["core/app"], false);
    let root = DockerBuildRoot::from_build_root(ctx, "/w".to_string(), Platform::ContainerInit).ok().unwrap();
    assert!(root.entrypoint.is_some());
    assert_eq!(root.group_entries, "hab:x:42:hab\nredis:x:43:\n");
    assert!(root.dockerfile.contains("ENTRYPOINT [\"/init.sh\"]"));
    assert_eq!(root.destroy(), "/w");
}

#[test]
fn native_init_root_has_descriptor_only() {
    let ctx = context(&["core/app"], false);
    let root = DockerBuildRoot::from_build_root(ctx, "/w".to_string(), Platform::NativeInit).ok().unwrap();
    assert!(root.entrypoint.is_none());
    assert_eq!(root.passwd_entries, "");
    assert_eq!(root.group_entries, "");
    assert!(root.dockerfile.starts_with("FROM scratch\n"));
}

#[test]
fn export_configures_builder() {
    let ctx = context(&["core/app"], false);
    let root = DockerBuildRoot::from_build_root(ctx, "/w".to_string(), Platform::NativeInit).ok().unwrap();
    let b = root.export("core/redis", strings(&["latest", "4.0.14"]), Some("1g"));
    assert_eq!(b.workdir, "/w");
    assert_eq!(b.name, "core/redis");
    assert_eq!(b.tags, strings(&["latest", "4.0.14"]));
    assert_eq!(b.memory, Some("1g".to_string()));
    let b = root.export("core/redis", Vec::new(), None);
    assert!(b.memory.is_none());
    assert_eq!(b.id_query(), "core/redis");
}
