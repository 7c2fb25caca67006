//! End-to-end scenarios: each one runs real processes and checks the event
//! sequence, the line numbering, and the result assembly.

use process_events_streaming::{
    ProcessData, ProcessEvent, ProcessObserver, ProcessRequest, ProcessResult,
};
use std::sync::{Arc, Mutex};

/// Records every dispatched event; optionally returns a stop signal or calls
/// the kill capability when a given line arrives.
struct Recorder {
    events: Mutex<Vec<(ProcessEvent, i64, String)>>,
    stop_at: Option<i64>,
    kill_at: Option<i64>,
}

impl Recorder {
    fn new() -> Self {
        Recorder { events: Mutex::new(Vec::new()), stop_at: None, kill_at: None }
    }

    fn recorded(&self) -> Vec<(ProcessEvent, i64, String)> {
        self.events.lock().unwrap().clone()
    }

    fn kinds(&self) -> Vec<ProcessEvent> {
        self.recorded().iter().map(|entry| entry.0).collect()
    }

    fn io_data(&self) -> Vec<(i64, String)> {
        self.recorded()
            .iter()
            .filter(|entry| entry.0 == ProcessEvent::IOData)
            .map(|entry| (entry.1, entry.2.clone()))
            .collect()
    }
}

impl ProcessObserver for Recorder {
    fn on_event<'a>(&self, event: &ProcessEvent, data: &ProcessData<'a, Self>) -> ProcessResult {
        self.events.lock().unwrap().push((*event, data.line_number, data.line.clone()));
        let mut result = ProcessResult::new();
        if *event == ProcessEvent::IOData {
            if self.stop_at == Some(data.line_number) {
                result.set_exit_flag_and_success(true, Ok(true));
            }
            if self.kill_at == Some(data.line_number) {
                let _ = data.kill();
            }
        }
        result
    }
}

fn run(
    recorder: &Arc<Recorder>,
    use_shell: bool,
    non_blocking_mode: bool,
    stages: Vec<Vec<&str>>,
) -> ProcessResult {
    let cmd_line: Vec<Vec<String>> = stages
        .iter()
        .map(|stage| stage.iter().map(|token| token.to_string()).collect())
        .collect();
    ProcessRequest::start(ProcessRequest {
        request_id: 7,
        use_shell,
        non_blocking_mode,
        cmd_line,
        callback: Some(Arc::clone(recorder)),
    })
}

#[test]
fn empty_stage_list_gives_lone_start_error() {
    let recorder = Arc::new(Recorder::new());
    run(&recorder, true, false, vec![]);
    assert_eq!(recorder.kinds(), vec![ProcessEvent::StartError]);
}

#[test]
fn empty_first_stage_gives_lone_start_error() {
    let recorder = Arc::new(Recorder::new());
    run(&recorder, true, false, vec![vec![]]);
    assert_eq!(recorder.kinds(), vec![ProcessEvent::StartError]);
}

#[test]
fn missing_program_gives_starting_then_start_error() {
    let recorder = Arc::new(Recorder::new());
    run(&recorder, false, false, vec![vec!["no_such_program_around_here"]]);
    assert_eq!(
        recorder.kinds(),
        vec![ProcessEvent::Starting, ProcessEvent::StartError]
    );
}

#[test]
fn echo_hi_event_order() {
    let recorder = Arc::new(Recorder::new());
    let result = run(&recorder, true, false, vec![vec!["echo", "hi"]]);
    assert_eq!(
        recorder.kinds(),
        vec![
            ProcessEvent::Starting,
            ProcessEvent::Started,
            ProcessEvent::IOData,
            ProcessEvent::IOEof,
            ProcessEvent::Exited,
        ]
    );
    assert_eq!(recorder.io_data(), vec![(1, String::from("hi\n"))]);
    assert!(result.success.is_ok());
}

#[test]
fn direct_exec_passes_tokens_literally() {
    let recorder = Arc::new(Recorder::new());
    run(&recorder, false, false, vec![vec!["echo", "hi"]]);
    assert_eq!(recorder.io_data(), vec![(1, String::from("hi\n"))]);
}

#[test]
fn shell_stage_tokens_join_into_one_command() {
    // Shell wrapping runs `/bin/sh -c "<token0> <token1> ...>"`: the whole
    // stage is one command string, so shell syntax inside the tokens works.
    let recorder = Arc::new(Recorder::new());
    run(&recorder, true, false, vec![vec!["echo", "a", "&&", "echo", "b"]]);
    assert_eq!(
        recorder.io_data(),
        vec![(1, String::from("a\n")), (2, String::from("b\n"))]
    );
}

#[test]
fn line_numbers_count_from_one_without_gaps() {
    let recorder = Arc::new(Recorder::new());
    run(&recorder, false, false, vec![vec!["printf", "l1\nl2\nl3\n"]]);
    assert_eq!(
        recorder.io_data(),
        vec![
            (1, String::from("l1\n")),
            (2, String::from("l2\n")),
            (3, String::from("l3\n")),
        ]
    );
}

#[test]
fn two_stage_pipeline_sorts_first_stage_output() {
    let recorder = Arc::new(Recorder::new());
    run(
        &recorder,
        false,
        false,
        vec![vec!["printf", "c\nb\na\n"], vec!["sort"]],
    );
    assert_eq!(
        recorder.io_data(),
        vec![
            (1, String::from("a\n")),
            (2, String::from("b\n")),
            (3, String::from("c\n")),
        ]
    );
}

#[test]
fn stop_signal_ends_run_after_exit_requested_and_teardown() {
    let mut recorder = Recorder::new();
    recorder.stop_at = Some(2);
    let recorder = Arc::new(recorder);
    let result = run(&recorder, false, false, vec![vec!["printf", "1\n2\n3\n4\n5\n"]]);
    let kinds = recorder.kinds();
    assert_eq!(
        kinds,
        vec![
            ProcessEvent::Starting,
            ProcessEvent::Started,
            ProcessEvent::IOData,
            ProcessEvent::IOData,
            ProcessEvent::ExitRequested,
            ProcessEvent::Exited,
        ]
    );
    assert_eq!(recorder.io_data().len(), 2);
    assert_eq!(result.should_exit, Some(true));
    assert!(matches!(result.success, Ok(true)));
}

#[test]
fn kill_mid_run_raises_kill_requested_and_still_tears_down() {
    let mut recorder = Recorder::new();
    recorder.kill_at = Some(1);
    let recorder = Arc::new(recorder);
    run(
        &recorder,
        false,
        false,
        vec![vec!["sh", "-c", "echo one && sleep 5 && echo two"]],
    );
    let kinds = recorder.kinds();
    assert_eq!(
        kinds[0..4],
        [
            ProcessEvent::Starting,
            ProcessEvent::Started,
            ProcessEvent::IOData,
            ProcessEvent::KillRequested,
        ]
    );
    // The killed chain closes its stream; the run still ends in teardown and
    // no further line is delivered.
    assert_eq!(recorder.io_data().len(), 1);
    let last = *kinds.last().unwrap();
    assert!(last == ProcessEvent::Exited || last == ProcessEvent::KillError);
    assert!(!kinds[4..].contains(&ProcessEvent::IOData));
}

#[test]
fn kill_after_natural_exit_is_a_successful_noop() {
    // A run that ends by itself still tears down through the kill path; the
    // final event being Exited (never KillError) shows that killing the
    // already-exited chain succeeded and re-triggered nothing.
    let recorder = Arc::new(Recorder::new());
    run(&recorder, false, false, vec![vec!["echo", "done"]]);
    let kinds = recorder.kinds();
    assert_eq!(kinds.last(), Some(&ProcessEvent::Exited));
    assert_eq!(
        kinds.iter().filter(|kind| **kind == ProcessEvent::IOEof).count(),
        1
    );
    // After teardown the observation carries no live reader: killing through
    // it succeeds without dispatching anything, and no children remain.
    let idle: ProcessData<Recorder> = ProcessData::new();
    assert!(idle.kill().is_ok());
    assert!(idle.child_pids().is_empty());
}

#[test]
fn event_sequence_does_not_depend_on_blocking_flag() {
    let blocking = Arc::new(Recorder::new());
    run(&blocking, false, false, vec![vec!["printf", "a\nb\n"]]);
    let non_blocking = Arc::new(Recorder::new());
    run(&non_blocking, false, true, vec![vec!["printf", "a\nb\n"]]);
    assert_eq!(blocking.recorded(), non_blocking.recorded());
}

#[test]
fn no_observer_returns_fresh_result() {
    let result = ProcessRequest::<process_events_streaming::NullObserver>::start(ProcessRequest {
        request_id: 1,
        use_shell: true,
        non_blocking_mode: false,
        cmd_line: vec![vec![String::from("echo fresh")]],
        callback: None,
    });
    assert_eq!(result.should_exit, None);
    assert!(matches!(result.success, Ok(false)));
    assert_eq!(result.data_vec_str, None);
    assert_eq!(result.data_bool, None);
    assert_eq!(result.data_num, None);
    assert_eq!(result.data_decimal, None);
}

#[test]
fn observer_payload_reaches_the_result() {
    struct Payload;
    impl ProcessObserver for Payload {
        fn on_event<'a>(
            &self,
            event: &ProcessEvent,
            _data: &ProcessData<'a, Self>,
        ) -> ProcessResult {
            let mut result = ProcessResult::new();
            if *event == ProcessEvent::IOData {
                result.set_exit_flag_and_success(true, Ok(true));
                result.data_num = Some(8111981);
                result.data_bool = Some(true);
                result.data_vec_str = Some(vec![String::from("found")]);
                result.data_decimal = Some(2.5f64.to_bits());
            }
            result
        }
    }
    let result = ProcessRequest::start(ProcessRequest {
        request_id: 2,
        use_shell: false,
        non_blocking_mode: false,
        cmd_line: vec![vec![String::from("echo"), String::from("x")]],
        callback: Some(Arc::new(Payload)),
    });
    assert_eq!(result.data_num, Some(8111981));
    assert_eq!(result.data_bool, Some(true));
    assert_eq!(result.data_vec_str, Some(vec![String::from("found")]));
    assert_eq!(result.data_decimal.map(f64::from_bits), Some(2.5));
    assert_eq!(result.should_exit, Some(true));
}
