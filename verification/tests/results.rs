use reverie::runner::JobResult;

#[test]
fn from_string_round_trips_every_result() {
    let all = [
        JobResult::Correct,
        JobResult::Wrong,
        JobResult::TimelimitException,
        JobResult::RuntimeError,
        JobResult::CompilerError,
        JobResult::IllegalImport,
    ];
    for r in all {
        assert_eq!(JobResult::from_string(r.name().as_str()), Some(r));
    }
}

#[test]
fn from_string_exact_tokens() {
    assert_eq!(JobResult::from_string("Correct"), Some(JobResult::Correct));
    assert_eq!(JobResult::from_string("Wrong"), Some(JobResult::Wrong));
    assert_eq!(
        JobResult::from_string("Timelimit Exception"),
        Some(JobResult::TimelimitException)
    );
    assert_eq!(
        JobResult::from_string("Runtime Error"),
        Some(JobResult::RuntimeError)
    );
    assert_eq!(
        JobResult::from_string("Compiler Error"),
        Some(JobResult::CompilerError)
    );
    assert_eq!(
        JobResult::from_string("Illegal Import"),
        Some(JobResult::IllegalImport)
    );
}

#[test]
fn from_string_rejects_everything_else() {
    assert_eq!(JobResult::from_string(""), None);
    assert_eq!(JobResult::from_string("correct"), None);
    assert_eq!(JobResult::from_string("Correct "), None);
    assert_eq!(JobResult::from_string("TimelimitException"), None);
    assert_eq!(JobResult::from_string("Accepted"), None);
}

#[test]
fn from_i32_maps_one_through_six() {
    assert_eq!(JobResult::from_i32(1), Some(JobResult::Correct));
    assert_eq!(JobResult::from_i32(2), Some(JobResult::Wrong));
    assert_eq!(JobResult::from_i32(3), Some(JobResult::TimelimitException));
    assert_eq!(JobResult::from_i32(4), Some(JobResult::RuntimeError));
    assert_eq!(JobResult::from_i32(5), Some(JobResult::CompilerError));
    assert_eq!(JobResult::from_i32(6), Some(JobResult::IllegalImport));
    assert_eq!(JobResult::from_i32(0), None);
    assert_eq!(JobResult::from_i32(7), None);
    assert_eq!(JobResult::from_i32(-1), None);
}

#[test]
fn result_names_are_the_sentinel_texts() {
    assert_eq!(JobResult::Correct.name(), "Correct");
    assert_eq!(JobResult::TimelimitException.name(), "Timelimit Exception");
    assert_eq!(JobResult::IllegalImport.name(), "Illegal Import");
}
