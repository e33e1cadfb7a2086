use addness::codex_job::{format_job_line, CodexJob, CodexJobStatus};

fn sample_job() -> CodexJob {
    CodexJob {
        id: "job-1".to_string(),
        organization_id: "org-1".to_string(),
        requested_by_user_id: "user-1".to_string(),
        requested_by_member_id: "member-1".to_string(),
        status: CodexJobStatus::Running,
        prompt: "first line\nsecond line".to_string(),
        workspace_scope: None,
        runner_id: String::new(),
        error_message: String::new(),
        created_at: "2026-01-01T00:00:00Z".to_string(),
        started_at: None,
        finished_at: None,
        updated_at: "2026-01-01T00:00:00Z".to_string(),
    }
}

#[test]
fn format_job_line_marks_active_jobs() {
    assert_eq!(format_job_line(&sample_job()), "job-1 [running*] first line");
}

#[test]
fn format_job_line_leaves_terminal_jobs_unmarked() {
    let mut job = sample_job();
    job.status = CodexJobStatus::Succeeded;
    assert_eq!(format_job_line(&job), "job-1 [succeeded] first line");
}

#[test]
fn format_job_line_drops_carriage_return_of_first_line() {
    let mut job = sample_job();
    job.status = CodexJobStatus::Queued;
    job.prompt = "windows line\r\nnext".to_string();
    assert_eq!(format_job_line(&job), "job-1 [queued*] windows line");
}
