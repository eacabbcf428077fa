use reverie::docker::{bind_mount, container_name, sandbox_options, timeout_env};
use reverie::ravel::Submission;
use reverie::runner::Languages;
use reverie::text::{i32_to_string, str_eq, u32_to_string};
use reverie::workspace::{job_dir, job_file, job_status_path, problem_dir, problem_file, solution_file};

fn submission(id: i32, timeout: i32) -> Submission {
    Submission {
        id,
        language: Languages::Python,
        time: String::from("2024-01-01 00:00:00"),
        content: String::from("print(input())"),
        problem: 42,
        input_sum: String::from("d41d8cd98f00b204e9800998ecf8427e"),
        output_sum: String::from("d41d8cd98f00b204e9800998ecf8427e"),
        timeout,
    }
}

#[test]
fn decimal_rendering() {
    assert_eq!(u32_to_string(0), "0");
    assert_eq!(u32_to_string(7), "7");
    assert_eq!(u32_to_string(1040), "1040");
    assert_eq!(u32_to_string(u32::MAX), "4294967295");
    assert_eq!(i32_to_string(0), "0");
    assert_eq!(i32_to_string(-1), "-1");
    assert_eq!(i32_to_string(-123), "-123");
    assert_eq!(i32_to_string(i32::MAX), "2147483647");
    assert_eq!(i32_to_string(i32::MIN), "-2147483648");
}

#[test]
fn string_equality() {
    assert!(str_eq("", ""));
    assert!(str_eq("abc", "abc"));
    assert!(!str_eq("abc", "abd"));
    assert!(!str_eq("abc", "abcd"));
    assert!(str_eq("héllo", "héllo"));
    assert!(!str_eq("héllo", "hello"));
}

#[test]
fn container_names_and_env() {
    assert_eq!(container_name(7), "reverie_7");
    assert_eq!(container_name(1040), "reverie_1040");
    assert_eq!(timeout_env(5), "TIMEOUT=5");
    assert_eq!(
        bind_mount("/srv/judge", 7),
        "/srv/judge/jobs/7:/usr/src/debussy"
    );
}

#[test]
fn workspace_paths() {
    assert_eq!(job_dir(7), "./jobs/7");
    assert_eq!(job_file(7, "input.txt"), "./jobs/7/input.txt");
    assert_eq!(job_status_path(7), "./jobs/7/status.txt");
    assert_eq!(problem_dir(42), "problems/42");
    assert_eq!(problem_file(42, "output.txt"), "problems/42/output.txt");
}

#[test]
fn solution_file_names() {
    assert_eq!(solution_file(Languages::Python), "solution.py");
    assert_eq!(solution_file(Languages::Java), "solution.java");
    assert_eq!(solution_file(Languages::Cpp), "solution.cpp");
}

#[test]
fn sandbox_options_for_a_submission() {
    let sub = submission(7, 5);
    let opts = sandbox_options("/srv/judge", &sub);
    assert_eq!(opts.image, "reverie_test:latest");
    assert_eq!(
        opts.host_config.binds,
        Some(vec![String::from("/srv/judge/jobs/7:/usr/src/debussy")])
    );
    assert!(!opts.host_config.auto_remove);
    assert!(opts.tty);
    assert!(opts.attach_stdin);
    assert!(opts.attach_stdout);
    assert!(opts.attach_stderr);
    assert!(opts.open_stdin);
    assert!(!opts.stdin_once);
    assert!(opts.network_disabled);
    assert_eq!(opts.env, Some(vec![String::from("TIMEOUT=5")]));
    assert!(opts.volumes.is_none());
}
