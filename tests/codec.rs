use rs_utils::codec::{ContainerInfo, DockerCommand, Mount, PortBinding};
use rs_utils::images::{image_names, reverse, reverse_script};

fn s(v: &str) -> String {
    v.to_string()
}

fn strings(v: &[&str]) -> Vec<String> {
    v.iter().map(|x| x.to_string()).collect()
}

fn info(name: &str, image: &str) -> ContainerInfo {
    ContainerInfo {
        name: s(name),
        image: s(image),
        user: None,
        env: None,
        port_bindings: Vec::new(),
        restart_policy: String::new(),
        auto_remove: false,
        privileged: false,
        publish_all_ports: false,
        mounts: Vec::new(),
    }
}

#[test]
fn round_trip_single_port_env_restart() {
    let mut i = info("/app", "repo/app:1.0");
    i.env = Some(strings(&["A=1"]));
    i.restart_policy = s("always");
    i.user = Some(String::new());
    i.port_bindings = vec![PortBinding { port: s("80/tcp"), host_ports: strings(&["8080"]) }];
    let cmd = DockerCommand::from(i).to_command();
    assert_eq!(
        cmd,
        strings(&[
            "docker", "run", "-d", "--restart=always", "--name", "app", "-e", "A=1", "-p", "8080:80",
            "repo/app:1.0",
        ])
    );
    assert_eq!(cmd.join(" "), "docker run -d --restart=always --name app -e A=1 -p 8080:80 repo/app:1.0");
}

#[test]
fn encoding_twice_is_identical() {
    let mut i = info("/db", "postgres:16");
    i.env = Some(strings(&["POSTGRES_PASSWORD=x", "PGDATA=/data"]));
    i.mounts = vec![Mount { source: s("/srv/db"), destination: s("/data"), mode: s("rw") }];
    i.port_bindings = vec![PortBinding { port: s("5432/tcp"), host_ports: strings(&["15432", "25432"]) }];
    let d = DockerCommand::from(i);
    let a = d.to_command();
    let b = d.to_command();
    assert_eq!(a, b);
    assert_eq!(
        a,
        strings(&[
            "docker", "run", "-d", "--restart=", "--name", "db", "-e", "POSTGRES_PASSWORD=x", "-e",
            "PGDATA=/data", "-v", "/srv/db:/data:rw", "-p", "15432:5432", "-p", "25432:5432",
            "postgres:16",
        ])
    );
}

#[test]
fn mount_without_mode_has_no_trailing_colon() {
    let mut i = info("c", "img");
    i.mounts = vec![Mount { source: s("/host/logs"), destination: s("/var/log"), mode: String::new() }];
    let cmd = DockerCommand::from(i).to_command();
    assert!(cmd.contains(&s("/host/logs:/var/log")));
    assert!(!cmd.iter().any(|a| a.ends_with(':')));
}

#[test]
fn mount_with_relative_destination_is_anonymous() {
    let mut i = info("c", "img");
    i.mounts = vec![Mount { source: s("/ignored"), destination: s("cache"), mode: s("ro") }];
    let d = DockerCommand::from(i);
    assert_eq!(d.mounts, strings(&["cache"]));
    let cmd = d.to_command();
    assert_eq!(&cmd[cmd.len() - 3..], &strings(&["-v", "cache", "img"])[..]);
}

#[test]
fn inspected_web_container_scenario() {
    let mut i = info("/web", "nginx:latest");
    i.port_bindings = vec![PortBinding { port: s("8080/tcp"), host_ports: strings(&["80"]) }];
    i.privileged = true;
    i.publish_all_ports = false;
    let cmd = DockerCommand::from(i).to_command();
    let line = cmd.join(" ");
    assert!(line.contains("--name web"));
    assert!(cmd.contains(&s("--privileged")));
    assert!(!cmd.contains(&s("-P")));
    assert!(line.contains("-p 80:8080"));
    assert_eq!(cmd.last().unwrap(), "nginx:latest");
    assert_eq!(
        cmd,
        strings(&[
            "docker", "run", "-d", "--privileged", "--restart=", "--name", "web", "-p", "80:8080",
            "nginx:latest",
        ])
    );
}

#[test]
fn all_flags_user_and_udp_port_in_fixed_order() {
    let mut i = info("plain", "busybox");
    i.privileged = true;
    i.publish_all_ports = true;
    i.auto_remove = true;
    i.restart_policy = s("no");
    i.user = Some(s("1000:1000"));
    i.port_bindings = vec![
        PortBinding { port: s("53/udp"), host_ports: strings(&["5353"]) },
        PortBinding { port: s("9000"), host_ports: strings(&["9001"]) },
    ];
    let cmd = DockerCommand::from(i).to_command();
    assert_eq!(
        cmd,
        strings(&[
            "docker", "run", "-d", "--privileged", "-P", "--rm", "--restart=no", "--name", "plain",
            "-u", "1000:1000", "-p", "5353:53/udp", "-p", "9001:9000", "busybox",
        ])
    );
}

#[test]
fn name_loses_only_one_leading_slash() {
    let i = info("//odd", "img");
    assert_eq!(i.parse_container_name(), "/odd");
    let j = info("plain", "img");
    assert_eq!(j.parse_container_name(), "plain");
}

#[test]
fn reverse_builds_script_per_container() {
    let mut a = info("/web", "nginx:latest");
    a.restart_policy = s("always");
    let b = info("/db", "redis:7");
    let entries = reverse(vec![a, b]);
    assert_eq!(entries.len(), 2);
    assert_eq!(entries[0].0, "/web");
    assert_eq!(entries[1].0, "/db");
    let script = reverse_script(&entries);
    assert_eq!(
        script,
        "#!/bin/bash\n# /web\ndocker run -d --restart=always --name web nginx:latest\n# /db\ndocker run -d --restart= --name db redis:7\n"
    );
}

#[test]
fn image_listing_skips_empty_lines() {
    let names = image_names("nginx:latest\n\nredis:7\nbusybox:1");
    assert_eq!(names, strings(&["nginx:latest", "redis:7", "busybox:1"]));
    assert!(image_names("").is_empty());
    assert!(image_names("\n\n").is_empty());
}
