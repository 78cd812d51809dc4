use pod_lifecycle::api::Container;
use pod_lifecycle::api::Pod;
use pod_lifecycle::api::Report;
use pod_lifecycle::api::VolumeMount;
use pod_lifecycle::container::handle::Handle;
use pod_lifecycle::container::status::Phase;
use pod_lifecycle::container::status::Status as ReducedStatus;
use pod_lifecycle::container::status::StatusWrapper;
use pod_lifecycle::container::Registered;
use pod_lifecycle::container::Status;

fn report() -> Report {
    Report {
        message: "pulled".to_string(),
        reason: "ok".to_string(),
        started_at: Some(5),
        finished_at: Some(9),
    }
}

fn container() -> Container {
    Container {
        name: "a".to_string(),
        image: "registry.example/a:1".to_string(),
        volume_mounts: vec![
            VolumeMount { name: "data".to_string(), mount_path: "/data".to_string(), read_only: false },
            VolumeMount { name: "conf".to_string(), mount_path: "/etc/a".to_string(), read_only: true },
        ],
    }
}

fn same(report: &Report) {
    assert_eq!(report.message, "pulled");
    assert_eq!(report.reason, "ok");
    assert_eq!(report.started_at, Some(5));
    assert_eq!(report.finished_at, Some(9));
}

#[test]
fn the_straight_way_through_the_container_graph() {
    let registered = Status::<Registered>::new(report());
    same(registered.inner());
    let pulling = registered.to_image_pull();
    same(pulling.inner());
    let mounting = pulling.to_volume();
    same(mounting.inner());
    let starting = mounting.to_starting();
    same(starting.inner());
    let running = starting.to_running();
    same(running.inner());
    let completed = running.to_completed();
    same(&completed.into_inner());
}

#[test]
fn the_image_pull_loop_of_a_container() {
    let pulling = Status::<Registered>::new(report()).to_image_pull();
    let failed = pulling.to_image_pull_error();
    same(failed.inner());
    let retried = failed.to_image_pull();
    same(retried.inner());
    let cooling = retried.to_image_pull_error().to_image_pull_backoff();
    same(cooling.inner());
    let again = cooling.to_image_pull();
    same(&again.into_inner());
}

#[test]
fn the_crash_loop_of_a_container() {
    let running =
        Status::<Registered>::new(report()).to_image_pull().to_volume().to_starting().to_running();
    let failed = running.to_error();
    same(failed.inner());
    let restarted = failed.to_starting();
    same(restarted.inner());
    let cooling = restarted.to_running().to_error().to_crash_loop_backoff();
    same(cooling.inner());
    let again = cooling.to_starting();
    same(&again.into_inner());
}

#[test]
fn a_volume_error_keeps_the_metadata() {
    let failed = Status::<Registered>::new(report()).to_image_pull().to_volume().to_volume_error();
    same(&failed.into_inner());
}

#[test]
fn a_new_container_waits_with_nothing_reported() {
    let status = StatusWrapper::new(&container());
    assert_eq!(status.phase(), Phase::Waiting);
    assert_eq!(status.inner().message, "");
    assert_eq!(status.inner().reason, "");
    assert_eq!(status.inner().started_at, None);
    assert_eq!(status.inner().finished_at, None);
}

#[test]
fn the_reduced_graph_goes_from_waiting_to_running_to_terminated() {
    let waiting = match StatusWrapper::new(&container()) {
        StatusWrapper::Waiting(status) => status,
        other => panic!("not waiting: {:?}", other),
    };
    let running: ReducedStatus<pod_lifecycle::container::status::Running> = waiting.into();
    assert_eq!(running.inner().message, "");
    let wrapped = StatusWrapper::Running(running);
    assert_eq!(wrapped.phase(), Phase::Running);
    let running = match wrapped {
        StatusWrapper::Running(status) => status,
        other => panic!("not running: {:?}", other),
    };
    let terminated: ReducedStatus<pod_lifecycle::container::status::Terminated> = running.into();
    let wrapped = StatusWrapper::Terminated(terminated);
    assert_eq!(wrapped.phase(), Phase::Terminated);
    assert_eq!(wrapped.clone().phase(), Phase::Terminated);
    assert_eq!(wrapped.inner().started_at, None);
}

#[test]
fn a_container_handle_keeps_the_container_as_declared() {
    let handle = Handle::new(container());
    assert_eq!(handle.container().name, "a");
    assert_eq!(handle.container().image, "registry.example/a:1");
    assert_eq!(handle.container().volume_mounts.len(), 2);
    assert_eq!(handle.container().volume_mounts[1].name, "conf");
    assert_eq!(handle.container().volume_mounts[1].mount_path, "/etc/a");
    assert!(handle.container().volume_mounts[1].read_only);
    assert_eq!(handle.status().phase(), Phase::Waiting);
    let copy = handle.clone();
    assert_eq!(copy.container().volume_mounts[0].mount_path, "/data");
    assert_eq!(copy.status().phase(), Phase::Waiting);
}

#[test]
fn copies_of_the_description_are_equal_in_content() {
    let pod = Pod {
        namespace: Some("default".to_string()),
        name: None,
        containers: vec![container(), container()],
        status: report(),
    };
    let copy = pod.clone();
    assert_eq!(copy.namespace.as_deref(), Some("default"));
    assert_eq!(copy.name, None);
    assert_eq!(copy.containers.len(), 2);
    assert_eq!(copy.containers[1].volume_mounts[1].mount_path, "/etc/a");
    same(&copy.status);
    let changed = report().with_message("failed");
    assert_eq!(changed.message, "failed");
    assert_eq!(changed.reason, "ok");
    assert_eq!(changed.started_at, Some(5));
    assert_eq!(changed.finished_at, Some(9));
}
