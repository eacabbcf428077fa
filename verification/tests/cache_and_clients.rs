use reverie::cache::{check_cache, classify_problem_response, Problem};
use reverie::docker::{
    classify_create, classify_inspect, classify_kill, classify_remove, classify_start,
    DockerErrors,
};
use reverie::error::Errors;
use reverie::ravel::{classify_pending_response, Submissions};

const EMPTY_MD5: &str = "d41d8cd98f00b204e9800998ecf8427e";
const ABC_MD5: &str = "900150983cd24fb0d6963f7d28e17f72";

#[test]
fn check_cache_empty_files_match_the_empty_digest() {
    assert!(check_cache(true, "", "", EMPTY_MD5, EMPTY_MD5));
    assert!(!check_cache(true, "", "", ABC_MD5, EMPTY_MD5));
    assert!(!check_cache(true, "", "", EMPTY_MD5, ABC_MD5));
}

#[test]
fn check_cache_hashes_the_contents() {
    assert!(check_cache(true, "abc", "abc", ABC_MD5, ABC_MD5));
    assert!(!check_cache(true, "abd", "abc", ABC_MD5, ABC_MD5));
    assert!(!check_cache(true, "abc", "abc", EMPTY_MD5, ABC_MD5));
}

#[test]
fn check_cache_missing_directory_is_invalid_not_an_error() {
    assert!(!check_cache(false, "abc", "abc", ABC_MD5, ABC_MD5));
}

#[test]
fn problem_response_classification() {
    let p = Problem {
        problem_input: String::from("1 2"),
        problem_output: String::from("3"),
    };
    match classify_problem_response(200, Some(p)) {
        Ok(got) => {
            assert_eq!(got.problem_input, "1 2");
            assert_eq!(got.problem_output, "3");
        }
        Err(_) => panic!("a 200 with a decoded body must yield the problem"),
    }
    assert!(matches!(
        classify_problem_response(200, None),
        Err(Errors::ProblemFetchError)
    ));
    assert!(matches!(
        classify_problem_response(503, None),
        Err(Errors::RavelError)
    ));
}

#[test]
fn pending_response_classification() {
    let body = Submissions { submissions: Vec::new() };
    assert!(matches!(
        classify_pending_response(200, Some(body)),
        Ok(subs) if subs.is_empty()
    ));
    assert!(matches!(
        classify_pending_response(200, None),
        Err(Errors::SubmissionFetchError)
    ));
    assert!(matches!(
        classify_pending_response(500, None),
        Err(Errors::RavelError)
    ));
}

#[test]
fn error_messages() {
    assert_eq!(Errors::RavelError.message(), "Error communicating to ravel");
    assert_eq!(
        Errors::SubmissionFetchError.message(),
        "Unable to fetch submissions from ravel. Response did not match type of input."
    );
    assert_eq!(
        Errors::ProblemFetchError.message(),
        "Unable to fetch problem in/out from ravel. Response did not match type of input."
    );
}

#[test]
fn create_classification() {
    assert!(classify_create(201).is_ok());
    assert!(matches!(
        classify_create(500),
        Err(DockerErrors::CreateContainerError)
    ));
}

#[test]
fn start_classification() {
    assert!(classify_start(204).is_ok());
    assert!(matches!(
        classify_start(304),
        Err(DockerErrors::ContainerAlreadyStarted)
    ));
    assert!(matches!(
        classify_start(500),
        Err(DockerErrors::StartContainerError)
    ));
}

#[test]
fn kill_classification() {
    assert!(classify_kill(204).is_ok());
    assert!(matches!(classify_kill(404), Err(DockerErrors::NoSuchContainer)));
    assert!(matches!(classify_kill(409), Err(DockerErrors::IsNotRunning)));
    assert!(matches!(
        classify_kill(500),
        Err(DockerErrors::KillContainerError)
    ));
}

#[test]
fn inspect_classification() {
    assert!(classify_inspect(200).is_ok());
    assert!(classify_inspect(404).is_ok());
    assert!(matches!(
        classify_inspect(500),
        Err(DockerErrors::InspectContainerError)
    ));
}

#[test]
fn remove_classification() {
    assert!(classify_remove(204).is_ok());
    assert!(matches!(
        classify_remove(400),
        Err(DockerErrors::RemoveContainerError)
    ));
    assert!(matches!(
        classify_remove(404),
        Err(DockerErrors::NoSuchContainer)
    ));
    assert!(matches!(
        classify_remove(409),
        Err(DockerErrors::CannotRemoveRunningContainer)
    ));
    assert!(matches!(
        classify_remove(500),
        Err(DockerErrors::RemoveContainerError)
    ));
}

#[test]
fn docker_error_messages() {
    assert_eq!(
        DockerErrors::NoSuchContainer.message(),
        "No such container"
    );
    assert_eq!(
        DockerErrors::CreateContainerError.message(),
        "Error creating container"
    );
}
