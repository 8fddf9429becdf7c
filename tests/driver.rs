use rs_utils::docker::{
    build, container_inspect, container_kill, container_remove, container_rerun, container_stop,
    default_run, docker_run_command, image_list_formatted, image_prune, image_remove, load, save,
};
use rs_utils::images;

fn strings(v: &[&str]) -> Vec<String> {
    v.iter().map(|x| x.to_string()).collect()
}

#[test]
fn container_commands_take_all_names() {
    let names = strings(&["a", "b"]);
    let stop = container_stop(&names);
    assert_eq!(stop.program, "docker");
    assert_eq!(stop.args, strings(&["stop", "a", "b"]));
    assert_eq!(container_kill(&names).args, strings(&["kill", "a", "b"]));
    assert_eq!(container_remove(&names).args, strings(&["rm", "a", "b"]));
    assert_eq!(image_remove(&names).args, strings(&["rmi", "a", "b"]));
    assert_eq!(container_inspect("a").args, strings(&["inspect", "a"]));
    assert_eq!(docker_run_command(&strings(&["ps", "-a"])).args, strings(&["ps", "-a"]));
    assert!(stop.required && stop.dir.is_empty());
}

#[test]
fn image_commands() {
    assert_eq!(image_list_formatted().args, strings(&["images", "--format", "{{.Repository}}:{{.Tag}}"]));
    assert_eq!(build("app").args, strings(&["build", "-t", "app", "."]));
    assert_eq!(load("/tmp/app.tar").args, strings(&["load", "-i", "/tmp/app.tar"]));
    assert_eq!(image_prune().args, strings(&["image", "prune", "-f"]));
}

#[test]
fn save_sanitizes_the_archive_name() {
    let c = save("registry.io/team/app:1.2", "/backup");
    assert_eq!(c.args, strings(&["save", "-o", "/backup/registry.io_team_app_1.2.tar", "registry.io/team/app:1.2"]));
}

#[test]
fn default_run_publishes_each_port_to_itself() {
    let c = default_run("svc", &strings(&["80", "443"]));
    assert_eq!(
        c.args,
        strings(&[
            "run", "-d", "--name", "svc", "-v", "/etc/localtime:/etc/localtime:ro", "-p", "80:80", "-p",
            "443:443", "svc:latest",
        ])
    );
    let none = default_run("svc", &[]);
    assert_eq!(none.args.last().unwrap(), "svc:latest");
    assert_eq!(none.args.len(), 7);
}

#[test]
fn rerun_is_stop_remove_run() {
    let steps = container_rerun("svc", &strings(&["80"]));
    assert_eq!(steps.len(), 3);
    assert_eq!(steps[0].args, strings(&["stop", "svc"]));
    assert_eq!(steps[1].args, strings(&["rm", "svc"]));
    assert_eq!(steps[2].args, default_run("svc", &strings(&["80"])).args);
    assert!(steps.iter().all(|s| s.required));
}

#[test]
fn image_build_and_export_plans() {
    let plan = images::build("/src/app", "app", true);
    assert_eq!(plan.len(), 2);
    assert_eq!(plan[0].dir, "/src/app");
    assert_eq!(plan[1].args, strings(&["save", "-o", "./app.tar", "app"]));
    assert_eq!(images::build("/src/app", "app", false).len(), 1);
    assert_eq!(images::clean().args, strings(&["image", "prune", "-f"]));
    let imports = images::import(&strings(&["images/a.tar", "images/b.tar"]));
    assert_eq!(imports[1].args, strings(&["load", "-i", "images/b.tar"]));
    let exports = images::export("nginx:latest\n\nredis:7\n", "images");
    assert_eq!(exports.len(), 2);
    assert_eq!(exports[0].args, strings(&["save", "-o", "images/nginx_latest.tar", "nginx:latest"]));
    assert!(!exports[1].required);
}
