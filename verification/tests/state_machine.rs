use pod_lifecycle::api::Container;
use pod_lifecycle::api::Pod;
use pod_lifecycle::api::Report;
use pod_lifecycle::api::VolumeMount;
use pod_lifecycle::provider::after_attempt;
use pod_lifecycle::provider::Decision;
use pod_lifecycle::provider::FatalError;
use pod_lifecycle::provider::Outcome;
use pod_lifecycle::provider::BACKOFF_SECONDS;
use pod_lifecycle::provider::RETRY_THRESHOLD;
use pod_lifecycle::state_machine::Action;
use pod_lifecycle::state_machine::Event;
use pod_lifecycle::state_machine::Stage;

fn mount(name: &str) -> VolumeMount {
    VolumeMount { name: name.to_string(), mount_path: format!("/mnt/{}", name), read_only: false }
}

fn container(name: &str, mounts: &[&str]) -> Container {
    Container {
        name: name.to_string(),
        image: format!("registry.example/{}:1", name),
        volume_mounts: mounts.iter().map(|m| mount(m)).collect(),
    }
}

fn pod(containers: Vec<Container>) -> Pod {
    Pod {
        namespace: Some("default".to_string()),
        name: Some("web".to_string()),
        containers,
        status: Report::new(),
    }
}

fn success() -> Event {
    Event::Attempted(Ok(Outcome::Success))
}

fn retryable() -> Event {
    Event::Attempted(Ok(Outcome::Retryable))
}

fn fatal(text: &str) -> Event {
    Event::Attempted(Err(FatalError { message: text.to_string() }))
}

fn cooled() -> Event {
    Event::CooledDown(Ok(()))
}

#[test]
fn policy_constants() {
    assert_eq!(RETRY_THRESHOLD, 3);
    assert_eq!(BACKOFF_SECONDS, 30);
}

#[test]
fn policy_counts_up_to_the_threshold_then_cools_down() {
    assert_eq!(after_attempt(0, Outcome::Retryable), Decision::Retry { failures: 1 });
    assert_eq!(after_attempt(1, Outcome::Retryable), Decision::Retry { failures: 2 });
    assert_eq!(after_attempt(2, Outcome::Retryable), Decision::Retry { failures: 3 });
    assert_eq!(after_attempt(3, Outcome::Retryable), Decision::Backoff);
    assert_eq!(after_attempt(200, Outcome::Retryable), Decision::Backoff);
    assert_eq!(after_attempt(255, Outcome::Retryable), Decision::Backoff);
}

#[test]
fn policy_proceeds_on_success_whatever_the_count() {
    for failures in [0u8, 1, 2, 3, 4, 255] {
        assert_eq!(after_attempt(failures, Outcome::Success), Decision::Proceed);
    }
}

#[test]
fn a_pod_without_containers_has_nothing_to_do() {
    let pod = pod(vec![]);
    assert_eq!(Stage::first(&pod), Stage::Completed);
    assert_eq!(Stage::first(&pod).action(), Action::Complete);
}

#[test]
fn the_run_starts_at_the_first_image() {
    let pod = pod(vec![container("a", &["data"]), container("b", &[])]);
    assert_eq!(Stage::first(&pod), Stage::ImagePull { container: 0, failures: 0 });
    assert_eq!(Stage::first(&pod).action(), Action::ImagePull { container: 0 });
}

#[test]
fn all_images_come_before_all_volumes() {
    let pod = pod(vec![
        container("a", &["data", "logs"]),
        container("b", &[]),
        container("c", &["cache"]),
    ]);
    let mut stage = Stage::first(&pod);
    let mut actions = vec![stage.action()];
    while stage != Stage::Completed {
        stage = stage.next(&pod, &success());
        actions.push(stage.action());
    }
    assert_eq!(
        actions,
        vec![
            Action::ImagePull { container: 0 },
            Action::ImagePull { container: 1 },
            Action::ImagePull { container: 2 },
            Action::VolumeMount { container: 0, mount: 0 },
            Action::VolumeMount { container: 0, mount: 1 },
            Action::VolumeMount { container: 2, mount: 0 },
            Action::Complete,
        ]
    );
}

#[test]
fn containers_without_volumes_complete_after_the_images() {
    let pod = pod(vec![container("a", &[]), container("b", &[])]);
    let stage = Stage::first(&pod).next(&pod, &success());
    assert_eq!(stage, Stage::ImagePull { container: 1, failures: 0 });
    assert_eq!(stage.next(&pod, &success()), Stage::Completed);
}

#[test]
fn seek_mount_skips_containers_without_volumes() {
    let pod = pod(vec![container("a", &[]), container("b", &[]), container("c", &["x", "y"])]);
    assert_eq!(
        Stage::seek_mount(&pod, 0, 0),
        Stage::VolumeMount { container: 2, mount: 0, failures: 0 }
    );
    assert_eq!(
        Stage::seek_mount(&pod, 2, 1),
        Stage::VolumeMount { container: 2, mount: 1, failures: 0 }
    );
    assert_eq!(Stage::seek_mount(&pod, 2, 2), Stage::Completed);
    assert_eq!(Stage::seek_mount(&pod, 3, 0), Stage::Completed);
    assert_eq!(Stage::seek_mount(&pod, 7, 5), Stage::Completed);
}

#[test]
fn seek_pull_goes_on_to_the_volumes_after_the_last_image() {
    let pod = pod(vec![container("a", &["x"]), container("b", &[])]);
    assert_eq!(Stage::seek_pull(&pod, 1), Stage::ImagePull { container: 1, failures: 0 });
    assert_eq!(
        Stage::seek_pull(&pod, 2),
        Stage::VolumeMount { container: 0, mount: 0, failures: 0 }
    );
}

#[test]
fn three_retryable_pulls_are_retried_without_a_cooldown() {
    let pod = pod(vec![container("a", &[])]);
    let mut stage = Stage::first(&pod);
    for failures in 1..=3u8 {
        stage = stage.next(&pod, &retryable());
        assert_eq!(stage, Stage::ImagePull { container: 0, failures });
        assert_eq!(stage.action(), Action::ImagePull { container: 0 });
    }
    assert_eq!(stage.next(&pod, &success()), Stage::Completed);
}

#[test]
fn the_fourth_retryable_pull_brings_a_cooldown() {
    let pod = pod(vec![container("a", &[])]);
    let mut stage = Stage::first(&pod);
    for _ in 0..4 {
        stage = stage.next(&pod, &retryable());
    }
    assert_eq!(stage, Stage::ImagePullBackoff { container: 0 });
    assert_eq!(stage.action(), Action::ImagePullBackoff);
    stage = stage.next(&pod, &cooled());
    assert_eq!(stage, Stage::ImagePull { container: 0, failures: 0 });
}

#[test]
fn the_fourth_retryable_mount_brings_a_cooldown() {
    let pod = pod(vec![container("a", &["x"])]);
    let mut stage = Stage::first(&pod).next(&pod, &success());
    assert_eq!(stage, Stage::VolumeMount { container: 0, mount: 0, failures: 0 });
    for failures in 1..=3u8 {
        stage = stage.next(&pod, &retryable());
        assert_eq!(stage, Stage::VolumeMount { container: 0, mount: 0, failures });
    }
    stage = stage.next(&pod, &retryable());
    assert_eq!(stage, Stage::VolumeMountBackoff { container: 0, mount: 0 });
    assert_eq!(stage.action(), Action::VolumeMountBackoff);
    stage = stage.next(&pod, &cooled());
    assert_eq!(stage, Stage::VolumeMount { container: 0, mount: 0, failures: 0 });
    assert_eq!(stage.next(&pod, &success()), Stage::Completed);
}

#[test]
fn a_success_resets_the_count_for_the_next_operation() {
    let pod = pod(vec![container("a", &[]), container("b", &[])]);
    let mut stage = Stage::first(&pod);
    stage = stage.next(&pod, &retryable());
    stage = stage.next(&pod, &retryable());
    assert_eq!(stage, Stage::ImagePull { container: 0, failures: 2 });
    stage = stage.next(&pod, &success());
    assert_eq!(stage, Stage::ImagePull { container: 1, failures: 0 });
}

#[test]
fn a_fatal_error_ends_the_run_at_any_operation() {
    let pod = pod(vec![container("a", &["x"])]);
    let pulling = Stage::first(&pod);
    assert_eq!(pulling.next(&pod, &fatal("no such image")), Stage::Failed);
    let mounting = pulling.next(&pod, &success());
    assert_eq!(mounting.next(&pod, &fatal("no such volume")), Stage::Failed);
    let cooling = Stage::ImagePullBackoff { container: 0 };
    let broken = Event::CooledDown(Err(FatalError { message: "gone".to_string() }));
    assert_eq!(cooling.next(&pod, &broken), Stage::Failed);
    let cooling = Stage::VolumeMountBackoff { container: 0, mount: 0 };
    assert_eq!(cooling.next(&pod, &broken), Stage::Failed);
    assert_eq!(Stage::Failed.action(), Action::Abort);
}

#[test]
fn events_that_answer_nothing_are_ignored() {
    let pod = pod(vec![container("a", &["x"])]);
    let pulling = Stage::ImagePull { container: 0, failures: 2 };
    assert_eq!(pulling.next(&pod, &cooled()), pulling);
    let broken = Event::CooledDown(Err(FatalError { message: "gone".to_string() }));
    assert_eq!(pulling.next(&pod, &broken), pulling);
    let cooling = Stage::ImagePullBackoff { container: 0 };
    assert_eq!(cooling.next(&pod, &success()), cooling);
    assert_eq!(cooling.next(&pod, &retryable()), cooling);
    assert_eq!(cooling.next(&pod, &fatal("stray")), cooling);
    let mounting = Stage::VolumeMount { container: 0, mount: 0, failures: 1 };
    assert_eq!(mounting.next(&pod, &cooled()), mounting);
}

#[test]
fn nothing_follows_the_end_of_a_run() {
    let pod = pod(vec![container("a", &["x"])]);
    let broken = Event::CooledDown(Err(FatalError { message: "gone".to_string() }));
    for end in [Stage::Completed, Stage::Failed] {
        assert_eq!(end.next(&pod, &success()), end);
        assert_eq!(end.next(&pod, &retryable()), end);
        assert_eq!(end.next(&pod, &fatal("late")), end);
        assert_eq!(end.next(&pod, &cooled()), end);
        assert_eq!(end.next(&pod, &broken), end);
    }
}

#[test]
fn fatal_reports_the_error_of_an_event() {
    assert_eq!(fatal("boom").fatal().unwrap().message, "boom");
    let broken = Event::CooledDown(Err(FatalError { message: "gone".to_string() }));
    assert_eq!(broken.fatal().unwrap().message, "gone");
    assert!(success().fatal().is_none());
    assert!(retryable().fatal().is_none());
    assert!(cooled().fatal().is_none());
}
