use color_picker::window_lifetime::{
    creation_failure_test, position_flags, show_native_windows, with_hidden_windows, Attachment, CreationVerdict,
    Teardown, WindowFixtures, WindowLifetime, WindowRole,
};

const ROOT: isize = 100;
const CONTENT: isize = 200;

#[test]
fn trees_end_with_their_root() {
    let mut lifetime = WindowLifetime::default();
    assert!(!lifetime.is_alive());
    assert_eq!(
        lifetime.attach(ROOT, WindowRole::Root, 0, 0),
        Attachment::Attached
    );
    assert_eq!(
        lifetime.attach(CONTENT, WindowRole::Content, 0, 0),
        Attachment::Attached
    );
    assert!(lifetime.is_alive());
    assert_eq!(lifetime.destroy(), Teardown::Destroy(ROOT));
    lifetime.terminated(CONTENT);
    assert!(!lifetime.destroy_finished());
    lifetime.terminated(ROOT);
    assert!(lifetime.destroy_finished());
    assert_eq!(lifetime.destroy(), Teardown::Done);
}

#[test]
fn owners_that_destroy_a_root_leave_nothing_to_destroy() {
    let mut lifetime = WindowLifetime::default();
    lifetime.attach(ROOT, WindowRole::Root, 0, 0);
    lifetime.terminated(ROOT);
    assert!(!lifetime.is_alive());
    assert_eq!(lifetime.destroy(), Teardown::Done);
}

#[test]
fn destruction_that_does_not_end_is_fatal() {
    let mut lifetime = WindowLifetime::default();
    lifetime.attach(ROOT, WindowRole::Root, 0, 0);
    assert_eq!(lifetime.destroy(), Teardown::Destroy(ROOT));
    assert!(!lifetime.destroy_finished());
    assert_eq!(lifetime.destroy(), Teardown::Fatal);
}

#[test]
fn creation_that_fails_after_attachment_is_resolved() {
    let mut rejected = WindowLifetime::default();
    assert_eq!(
        rejected.attach(ROOT, WindowRole::Root, 0, 5),
        Attachment::Rejected
    );
    assert_eq!(rejected.creation_result(false), Teardown::Done);
    let mut attached = WindowLifetime::default();
    attached.attach(ROOT, WindowRole::Root, 0, 0);
    assert_eq!(attached.creation_result(true), Teardown::Done);
    assert!(attached.is_alive());
    attached.terminated(ROOT);
    assert_eq!(attached.creation_result(false), Teardown::Done);
    let mut lost = WindowLifetime::default();
    lost.attach(ROOT, WindowRole::Root, 0, 0);
    assert_eq!(lost.creation_result(false), Teardown::Destroy(ROOT));
    // A window that held other state before is not refused.
    let mut reused = WindowLifetime::default();
    assert_eq!(
        reused.attach(ROOT, WindowRole::Root, 7, 5),
        Attachment::Attached
    );
    assert_eq!(
        reused.attach(ROOT, WindowRole::Root, 7, 0),
        Attachment::Fatal
    );
}

#[test]
fn fixtures_hide_windows_while_they_run() {
    let usual = WindowFixtures::default();
    assert!(show_native_windows(&usual));
    assert_eq!(position_flags(&usual), 0x50);
    assert_eq!(with_hidden_windows(|fixtures| position_flags(&fixtures)), 0x10);
    assert!(!with_hidden_windows(|fixtures| show_native_windows(
        &fixtures
    )));
    assert!(show_native_windows(&usual));
}

#[test]
fn injected_creation_failures_are_judged() {
    // A root and its content: the second creation fails after the root attached.
    let orderly = creation_failure_test(2, |mut counter| {
        assert!(!counter.create_window_fails());
        counter.root_attached();
        assert!(counter.create_window_fails());
        counter.root_terminated();
        counter
    });
    assert_eq!(orderly, CreationVerdict::Passed);
    let first = creation_failure_test(1, |mut counter| {
        assert!(counter.create_window_fails());
        counter
    });
    assert_eq!(first, CreationVerdict::Passed);
    let leaking = creation_failure_test(2, |mut counter| {
        counter.create_window_fails();
        counter.root_attached();
        counter.create_window_fails();
        counter
    });
    assert_eq!(leaking, CreationVerdict::RootsLeft);
    assert_eq!(
        creation_failure_test(3, |counter| counter),
        CreationVerdict::NotReached
    );
    let unexpected = creation_failure_test(1, |mut counter| {
        counter.create_window_fails();
        counter.root_attached();
        counter.root_terminated();
        counter
    });
    assert_eq!(unexpected, CreationVerdict::UnexpectedRoots);
}
