use samply_launch::process::SuspendedLaunchedProcess;

#[test]
fn pid_visible_before_release() {
    let p = SuspendedLaunchedProcess::new(4242, 5, 6);
    assert_eq!(p.pid(), 4242);
    assert_eq!(p.send_end_of_resume_pipe(), 5);
    assert_eq!(p.recv_end_of_execerr_pipe(), 6);
}

#[test]
fn running_keeps_pid() {
    let p = SuspendedLaunchedProcess::new(77, 3, 4);
    assert_eq!(p.into_running().pid(), 77);
}
